//! The epoch reconciler: the once-per-epoch settlement that lets reserves
//! absorb a surplus or release a deficit, adopts the emission rate the
//! distribution model answered with, and snapshots the exchange rate and
//! share supply for the next epoch. Epoch frequency is gatekept by the
//! overseer; its verdict arrives as a plain flag.

use vstd::prelude::*;

use crate::decimal::{scaled_mul, Decimal, SCALE};
use crate::errors::MarketError;
use crate::exchange::{compute_exchange_rate, exchange_rate_outcome};
use crate::interest::{accrue_interest, accrue_outcome};
use crate::state::State;

verus! {

/// The reserve adjustment: the gap between the epoch's deposit rate and the
/// target deposit rate, weighted against the interest distributed in the
/// epoch, truncated.
pub open spec fn reserve_adjustment(deposit_rate: int, target_rate: int, distributed: int) -> int {
    if deposit_rate >= target_rate {
        scaled_mul(deposit_rate - target_rate, distributed)
    } else {
        scaled_mul(target_rate - deposit_rate, distributed)
    }
}

/// The reconciled reserves: grown by the adjustment when yield ran over the
/// target, drawn down by it when yield fell short, clamped so that reserves
/// never go negative and never exceed the pool value.
pub open spec fn reconciled_reserves(res: int, adj: int, pool: int, surplus: bool) -> int {
    if surplus {
        if res + adj <= pool {
            res + adj
        } else {
            pool
        }
    } else {
        if adj <= res {
            res - adj
        } else {
            0
        }
    }
}

/// The exact result of one epoch reconciliation: refused while the overseer
/// has not cleared the boundary, then accrual, the exchange-rate reading,
/// the clamped reserve adjustment, the adopted emission rate and the epoch
/// snapshots, all committed together or not at all.
pub open spec fn epoch_outcome(
    s: State,
    height: u64,
    borrow_rate: Decimal,
    cash_balance: Decimal,
    aterra_supply: Decimal,
    deposit_rate: Decimal,
    target_deposit_rate: Decimal,
    distributed_interest: Decimal,
    new_emission_rate: Decimal,
    epoch_permitted: bool,
) -> Result<State, MarketError> {
    if !epoch_permitted {
        Err(MarketError::EpochTooSoon)
    } else {
        match accrue_outcome(s, height, borrow_rate) {
            Err(e) => Err(e),
            Ok(s2) => match exchange_rate_outcome(
                cash_balance.raw as int,
                s2.total_liabilities.raw as int,
                s2.total_reserves.raw as int,
                aterra_supply.raw as int,
            ) {
                Err(e) => Err(e),
                Ok(er) => {
                    let surplus = deposit_rate.raw >= target_deposit_rate.raw;
                    let gap = if surplus {
                        deposit_rate.raw - target_deposit_rate.raw
                    } else {
                        target_deposit_rate.raw - deposit_rate.raw
                    };
                    if gap * distributed_interest.raw > u128::MAX {
                        Err(MarketError::Overflow)
                    } else if cash_balance.raw + s2.total_liabilities.raw > u128::MAX {
                        Err(MarketError::Overflow)
                    } else {
                        let adj = reserve_adjustment(
                            deposit_rate.raw as int,
                            target_deposit_rate.raw as int,
                            distributed_interest.raw as int,
                        );
                        let pool = cash_balance.raw + s2.total_liabilities.raw;
                        Ok(
                            State {
                                total_reserves: Decimal {
                                    raw: reconciled_reserves(
                                        s2.total_reserves.raw as int,
                                        adj,
                                        pool,
                                        surplus,
                                    ) as u128,
                                },
                                anc_emission_rate: new_emission_rate,
                                prev_exchange_rate: er,
                                prev_aterra_supply: aterra_supply,
                                ..s2
                            },
                        )
                    }
                },
            },
        }
    }
}

/// Performs the periodic settlement: accrues interest, reads the exchange
/// rate, moves reserves by the rate-gap-weighted share of the distributed
/// interest (clamped to the pool value and to zero), adopts the emission
/// rate the distribution model answered with, and snapshots the exchange
/// rate and share supply. All-or-nothing: any failure leaves the state
/// untouched.
pub fn execute_epoch_operations(
    state: &mut State,
    block_height: u64,
    borrow_rate: Decimal,
    cash_balance: Decimal,
    aterra_supply: Decimal,
    deposit_rate: Decimal,
    target_deposit_rate: Decimal,
    distributed_interest: Decimal,
    new_emission_rate: Decimal,
    epoch_permitted: bool,
) -> (r: Result<(), MarketError>)
    ensures
        (match epoch_outcome(
            *old(state),
            block_height,
            borrow_rate,
            cash_balance,
            aterra_supply,
            deposit_rate,
            target_deposit_rate,
            distributed_interest,
            new_emission_rate,
            epoch_permitted,
        ) {
            Ok(s2) => r == Ok::<(), MarketError>(()) && *final(state) == s2,
            Err(e) => r == Err::<(), MarketError>(e) && *final(state) == *old(state),
        }),
        !epoch_permitted <==> r == Err::<(), MarketError>(MarketError::EpochTooSoon),
        r matches Ok(_) && old(state).total_reserves.raw <= cash_balance.raw + old(
            state,
        ).total_liabilities.raw ==> final(state).total_reserves.raw <= cash_balance.raw
            + final(state).total_liabilities.raw,
{
    if !epoch_permitted {
        return Err(MarketError::EpochTooSoon);
    }
    let mut working = *state;
    match accrue_interest(&mut working, block_height, borrow_rate) {
        Ok(_) => (),
        Err(e) => {
            return Err(e);
        },
    }
    let er = match compute_exchange_rate(
        cash_balance,
        working.total_liabilities,
        working.total_reserves,
        aterra_supply,
    ) {
        Ok(v) => v,
        Err(e) => {
            return Err(e);
        },
    };
    let surplus = deposit_rate.raw >= target_deposit_rate.raw;
    let gap = if surplus {
        Decimal { raw: deposit_rate.raw - target_deposit_rate.raw }
    } else {
        Decimal { raw: target_deposit_rate.raw - deposit_rate.raw }
    };
    let adj = match gap.checked_mul(distributed_interest) {
        Ok(v) => v,
        Err(e) => {
            return Err(e);
        },
    };
    let pool = match cash_balance.checked_add(working.total_liabilities) {
        Ok(v) => v,
        Err(e) => {
            return Err(e);
        },
    };
    let new_reserves = if surplus {
        match working.total_reserves.checked_add(adj) {
            Ok(v) => if v.raw <= pool.raw {
                v
            } else {
                pool
            },
            Err(_) => pool,
        }
    } else {
        match working.total_reserves.checked_sub(adj) {
            Ok(v) => v,
            Err(_) => Decimal { raw: 0 },
        }
    };
    working.total_reserves = new_reserves;
    working.anc_emission_rate = new_emission_rate;
    working.prev_exchange_rate = er;
    working.prev_aterra_supply = aterra_supply;
    *state = working;
    Ok(())
}

} // verus!
