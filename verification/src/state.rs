//! The pool state and the configuration: the two singletons that every entry
//! point threads explicitly.

use vstd::prelude::*;

use crate::decimal::{Decimal, SCALE};

verus! {

/// The pool-wide accounting state, created once at instantiation and mutated
/// by every state-changing operation.
#[derive(Clone, Copy, Debug, PartialEq, Eq, Structural)]
pub struct State {
    /// Outstanding interest-bearing debt, in the deposit asset.
    pub total_liabilities: Decimal,
    /// Pool value set aside and excluded from redemption.
    pub total_reserves: Decimal,
    /// Height at which liabilities and the interest index were last advanced.
    pub last_interest_updated: u64,
    /// Height at which the reward index was last advanced.
    pub last_reward_updated: u64,
    /// Cumulative interest multiplier since genesis; starts at one.
    pub global_interest_index: Decimal,
    /// Cumulative reward-per-liability-unit multiplier; starts at zero.
    pub global_reward_index: Decimal,
    /// Current per-block reward emission rate.
    pub anc_emission_rate: Decimal,
    /// Share-asset supply recorded at the previous epoch boundary.
    pub prev_aterra_supply: Decimal,
    /// Exchange rate recorded at the previous epoch boundary.
    pub prev_exchange_rate: Decimal,
}

/// The pool state at instantiation: no liabilities, no reserves, both
/// accrual heights at the instantiation height, the interest index and the
/// previous exchange rate at one, everything else at zero.
pub fn initial_state(height: u64, anc_emission_rate: Decimal) -> (s: State)
    ensures
        s.total_liabilities.raw == 0,
        s.total_reserves.raw == 0,
        s.last_interest_updated == height,
        s.last_reward_updated == height,
        s.global_interest_index.raw == SCALE,
        s.global_reward_index.raw == 0,
        s.anc_emission_rate == anc_emission_rate,
        s.prev_aterra_supply.raw == 0,
        s.prev_exchange_rate.raw == SCALE,
{
    State {
        total_liabilities: Decimal::zero(),
        total_reserves: Decimal::zero(),
        last_interest_updated: height,
        last_reward_updated: height,
        global_interest_index: Decimal::one(),
        global_reward_index: Decimal::zero(),
        anc_emission_rate,
        prev_aterra_supply: Decimal::zero(),
        prev_exchange_rate: Decimal::one(),
    }
}

/// The configuration, set at creation; the collaborator addresses are opaque
/// validated identities, resolved by the excluded address-validation
/// collaborator. Permission checks on updates stay outside the core.
#[derive(Debug)]
pub struct Config {
    /// The designated owner.
    pub owner_addr: String,
    /// The share-asset contract; empty until registration.
    pub aterra_contract: String,
    /// The overseer that gatekeeps epoch operations; empty until registration.
    pub overseer_contract: String,
    /// The interest-rate model; empty until registration.
    pub interest_model: String,
    /// The distribution model; empty until registration.
    pub distribution_model: String,
    /// The collector that withdraws reserves; empty until registration.
    pub collector_contract: String,
    /// The distributor of rewards; empty until registration.
    pub distributor_contract: String,
    /// The denomination identifier of the deposit asset.
    pub stable_denom: String,
    /// Upper bound on utilization by borrowing.
    pub max_borrow_factor: Decimal,
}

impl Config {
    /// The configuration at instantiation: owner, denomination and borrow
    /// factor as given, every collaborator address still unregistered.
    pub fn initial(owner_addr: String, stable_denom: String, max_borrow_factor: Decimal) -> (c:
        Config)
        ensures
            c.owner_addr == owner_addr,
            c.aterra_contract@ == Seq::<char>::empty(),
            c.overseer_contract@ == Seq::<char>::empty(),
            c.interest_model@ == Seq::<char>::empty(),
            c.distribution_model@ == Seq::<char>::empty(),
            c.collector_contract@ == Seq::<char>::empty(),
            c.distributor_contract@ == Seq::<char>::empty(),
            c.stable_denom == stable_denom,
            c.max_borrow_factor == max_borrow_factor,
    {
        Config {
            owner_addr,
            aterra_contract: String::new(),
            overseer_contract: String::new(),
            interest_model: String::new(),
            distribution_model: String::new(),
            collector_contract: String::new(),
            distributor_contract: String::new(),
            stable_denom,
            max_borrow_factor,
        }
    }

    /// Registers the five collaborator contracts, leaving everything else as
    /// it was. Authorization is enforced by the caller, outside the core.
    pub fn register_contracts(
        &mut self,
        aterra_contract: String,
        overseer_contract: String,
        interest_model: String,
        distribution_model: String,
        collector_contract: String,
        distributor_contract: String,
    )
        ensures
            final(self).aterra_contract == aterra_contract,
            final(self).overseer_contract == overseer_contract,
            final(self).interest_model == interest_model,
            final(self).distribution_model == distribution_model,
            final(self).collector_contract == collector_contract,
            final(self).distributor_contract == distributor_contract,
            final(self).owner_addr == old(self).owner_addr,
            final(self).stable_denom == old(self).stable_denom,
            final(self).max_borrow_factor == old(self).max_borrow_factor,
    {
        self.aterra_contract = aterra_contract;
        self.overseer_contract = overseer_contract;
        self.interest_model = interest_model;
        self.distribution_model = distribution_model;
        self.collector_contract = collector_contract;
        self.distributor_contract = distributor_contract;
    }

    /// Applies an owner-only configuration update: each field given as `Some`
    /// is replaced, each `None` field is kept. Authorization is enforced by
    /// the caller, outside the core.
    pub fn update(
        &mut self,
        owner_addr: Option<String>,
        interest_model: Option<String>,
        distribution_model: Option<String>,
        max_borrow_factor: Option<Decimal>,
    )
        ensures
            final(self).owner_addr == if owner_addr is Some {
                owner_addr->Some_0
            } else {
                old(self).owner_addr
            },
            final(self).interest_model == if interest_model is Some {
                interest_model->Some_0
            } else {
                old(self).interest_model
            },
            final(self).distribution_model == if distribution_model is Some {
                distribution_model->Some_0
            } else {
                old(self).distribution_model
            },
            final(self).max_borrow_factor == if max_borrow_factor is Some {
                max_borrow_factor->Some_0
            } else {
                old(self).max_borrow_factor
            },
            final(self).aterra_contract == old(self).aterra_contract,
            final(self).overseer_contract == old(self).overseer_contract,
            final(self).collector_contract == old(self).collector_contract,
            final(self).distributor_contract == old(self).distributor_contract,
            final(self).stable_denom == old(self).stable_denom,
    {
        if let Some(v) = owner_addr {
            self.owner_addr = v;
        }
        if let Some(v) = interest_model {
            self.interest_model = v;
        }
        if let Some(v) = distribution_model {
            self.distribution_model = v;
        }
        if let Some(v) = max_borrow_factor {
            self.max_borrow_factor = v;
        }
    }
}

} // verus!
