//! The exchange-rate calculator: a pure map from pool state to the
//! deposit-asset value of one share, plus the utilization figure handed to
//! the interest-rate model.

use vstd::prelude::*;

use crate::decimal::{scaled_div, Decimal, SCALE};
use crate::errors::MarketError;

verus! {

/// The exchange-rate magnitude: the bootstrap rate of one while no share
/// exists, and `(cash + liabilities - reserves) / supply` under the ledger's
/// truncating division otherwise.
pub open spec fn exchange_rate_raw(cash: int, liab: int, res: int, supply: int) -> int {
    if supply == 0 {
        SCALE as int
    } else {
        scaled_div(cash + liab - res, supply)
    }
}

/// The exact result of the exchange-rate calculation, error cases included:
/// the bootstrap rate needs nothing of the pool; otherwise the pool value
/// must fit the magnitude, reserves may not exceed it, and the widened
/// numerator must fit.
pub open spec fn exchange_rate_outcome(cash: int, liab: int, res: int, supply: int) -> Result<
    Decimal,
    MarketError,
> {
    if supply == 0 {
        Ok(Decimal { raw: SCALE })
    } else if cash + liab > u128::MAX {
        Err(MarketError::Overflow)
    } else if cash + liab < res {
        Err(MarketError::ReserveExceedsPool)
    } else if (cash + liab - res) * SCALE > u128::MAX {
        Err(MarketError::Overflow)
    } else {
        Ok(Decimal { raw: exchange_rate_raw(cash, liab, res, supply) as u128 })
    }
}

/// Maps the current pool state to the exchange rate: deposit-asset value per
/// share. Pure and deterministic; a zero share supply yields exactly the
/// bootstrap rate of one, whatever the cash, liabilities and reserves hold.
pub fn compute_exchange_rate(
    cash_balance: Decimal,
    total_liabilities: Decimal,
    total_reserves: Decimal,
    share_supply: Decimal,
) -> (r: Result<Decimal, MarketError>)
    ensures
        r == exchange_rate_outcome(
            cash_balance.raw as int,
            total_liabilities.raw as int,
            total_reserves.raw as int,
            share_supply.raw as int,
        ),
        share_supply.raw == 0 ==> r == Ok::<Decimal, MarketError>(Decimal { raw: SCALE }),
        r matches Ok(d) ==> d.raw == exchange_rate_raw(
            cash_balance.raw as int,
            total_liabilities.raw as int,
            total_reserves.raw as int,
            share_supply.raw as int,
        ),
{
    if share_supply.raw == 0 {
        return Ok(Decimal { raw: SCALE });
    }
    let pool = match cash_balance.checked_add(total_liabilities) {
        Ok(p) => p,
        Err(e) => {
            return Err(e);
        },
    };
    let redeemable = match pool.checked_sub(total_reserves) {
        Ok(v) => v,
        Err(_) => {
            return Err(MarketError::ReserveExceedsPool);
        },
    };
    redeemable.checked_div(share_supply)
}

/// The utilization magnitude: liabilities over the whole pool value, zero
/// when the pool is empty.
pub open spec fn utilization_raw(cash: int, liab: int) -> int {
    if cash + liab == 0 {
        0
    } else {
        scaled_div(liab, cash + liab)
    }
}

/// Computes the utilization figure the interest-rate model is queried with:
/// `liabilities / (cash + liabilities)`, or zero when the denominator is
/// zero.
pub fn compute_utilization(cash_balance: Decimal, total_liabilities: Decimal) -> (r: Result<
    Decimal,
    MarketError,
>)
    ensures
        cash_balance.raw + total_liabilities.raw == 0 ==> (r matches Ok(d) && d.raw == 0),
        cash_balance.raw + total_liabilities.raw > u128::MAX ==> r == Err::<Decimal, MarketError>(
            MarketError::Overflow,
        ),
        0 < cash_balance.raw + total_liabilities.raw <= u128::MAX && total_liabilities.raw * SCALE
            > u128::MAX ==> r == Err::<Decimal, MarketError>(MarketError::Overflow),
        0 < cash_balance.raw + total_liabilities.raw <= u128::MAX && total_liabilities.raw * SCALE
            <= u128::MAX ==> (r matches Ok(d) && d.raw == utilization_raw(
            cash_balance.raw as int,
            total_liabilities.raw as int,
        )),
{
    let pool = match cash_balance.checked_add(total_liabilities) {
        Ok(p) => p,
        Err(e) => {
            return Err(e);
        },
    };
    if pool.raw == 0 {
        return Ok(Decimal { raw: 0 });
    }
    total_liabilities.checked_div(pool)
}

} // verus!
