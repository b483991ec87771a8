//! The read-only state query: the persisted accounting fields together with
//! the exchange rate computed on demand. The query does not accrue interest
//! on read: it reflects the state as last committed, and the caller passes
//! the cash balance and share supply it observes.

use vstd::prelude::*;

use crate::decimal::Decimal;
use crate::errors::MarketError;
use crate::exchange::{compute_exchange_rate, exchange_rate_outcome};
use crate::state::State;

verus! {

/// What the state query answers with.
#[derive(Clone, Copy, Debug, PartialEq, Eq, Structural)]
pub struct StateResponse {
    /// Outstanding interest-bearing debt, as last committed.
    pub total_liabilities: Decimal,
    /// Pool value set aside, as last committed.
    pub total_reserves: Decimal,
    /// Cumulative interest multiplier, as last committed.
    pub global_interest_index: Decimal,
    /// Cumulative reward multiplier, as last committed.
    pub global_reward_index: Decimal,
    /// Current per-block reward emission rate.
    pub anc_emission_rate: Decimal,
    /// The exchange rate at the observed cash balance and share supply.
    pub exchange_rate: Decimal,
    /// The observed share supply the rate was computed against.
    pub aterra_supply: Decimal,
}

/// Answers the read-only state query: every persisted field as it stands,
/// plus the exchange rate computed from the observed cash balance and share
/// supply.
pub fn query_state(state: &State, cash_balance: Decimal, aterra_supply: Decimal) -> (r: Result<
    StateResponse,
    MarketError,
>)
    ensures
        (match exchange_rate_outcome(
            cash_balance.raw as int,
            state.total_liabilities.raw as int,
            state.total_reserves.raw as int,
            aterra_supply.raw as int,
        ) {
            Ok(er) => r matches Ok(q) && q.total_liabilities == state.total_liabilities
                && q.total_reserves == state.total_reserves && q.global_interest_index
                == state.global_interest_index && q.global_reward_index
                == state.global_reward_index && q.anc_emission_rate == state.anc_emission_rate
                && q.exchange_rate == er && q.aterra_supply == aterra_supply,
            Err(e) => r == Err::<StateResponse, MarketError>(e),
        }),
{
    let er = match compute_exchange_rate(
        cash_balance,
        state.total_liabilities,
        state.total_reserves,
        aterra_supply,
    ) {
        Ok(v) => v,
        Err(e) => {
            return Err(e);
        },
    };
    Ok(
        StateResponse {
            total_liabilities: state.total_liabilities,
            total_reserves: state.total_reserves,
            global_interest_index: state.global_interest_index,
            global_reward_index: state.global_reward_index,
            anc_emission_rate: state.anc_emission_rate,
            exchange_rate: er,
            aterra_supply,
        },
    )
}

} // verus!
