//! The deposit/redeem engine: converts deposit-asset amounts to share
//! amounts and back at the current exchange rate, bringing the pool state
//! current first. Floor rounding always favors the pool: no call ever mints
//! or pays out more value than it received.

use vstd::prelude::*;

use vstd::arithmetic::div_mod::{
    lemma_div_is_ordered,
    lemma_div_multiples_vanish,
    lemma_fundamental_div_mod,
    lemma_mod_division_less_than_divisor,
};
use vstd::arithmetic::mul::{lemma_mul_inequality, lemma_mul_is_commutative, lemma_mul_nonnegative};

use crate::decimal::{scaled_div, scaled_mul, Decimal, SCALE};
use crate::errors::MarketError;
use crate::exchange::{compute_exchange_rate, exchange_rate_outcome, exchange_rate_raw};
use crate::interest::{accrue_interest, accrue_outcome};
use crate::state::State;

verus! {

/// The share amount minted for a deposit: the amount divided by the
/// exchange rate, truncated, so the pool never mints more value than it
/// received.
pub open spec fn mint_amount(amount: int, rate: int) -> int {
    scaled_div(amount, rate)
}

/// The deposit-asset amount paid for burnt shares: the share amount times
/// the exchange rate, truncated, so the pool never pays out more value than
/// the shares stood for.
pub open spec fn redeem_amount(burn: int, rate: int) -> int {
    scaled_mul(burn, rate)
}

/// The exact result of a deposit: the minted share amount and the
/// brought-current state, or the error. The exchange rate is taken against
/// the cash balance with the incoming amount taken back out, since the
/// deposit asset reaches the pool before this logic runs: the depositor's
/// own funds must not inflate the rate.
pub open spec fn deposit_outcome(
    s: State,
    height: u64,
    borrow_rate: Decimal,
    cash_balance: Decimal,
    aterra_supply: Decimal,
    deposit_amount: Decimal,
) -> Result<(State, Decimal), MarketError> {
    if deposit_amount.raw == 0 {
        Err(MarketError::ZeroAmount)
    } else {
        match accrue_outcome(s, height, borrow_rate) {
            Err(e) => Err(e),
            Ok(s2) => if cash_balance.raw < deposit_amount.raw {
                Err(MarketError::Underflow)
            } else {
                match exchange_rate_outcome(
                    cash_balance.raw - deposit_amount.raw,
                    s2.total_liabilities.raw as int,
                    s2.total_reserves.raw as int,
                    aterra_supply.raw as int,
                ) {
                    Err(e) => Err(e),
                    Ok(er) => if er.raw == 0 {
                        Err(MarketError::DivideByZero)
                    } else if deposit_amount.raw * SCALE > u128::MAX {
                        Err(MarketError::Overflow)
                    } else {
                        Ok(
                            (
                                s2,
                                Decimal {
                                    raw: mint_amount(
                                        deposit_amount.raw as int,
                                        er.raw as int,
                                    ) as u128,
                                },
                            ),
                        )
                    },
                }
            },
        }
    }
}

/// The exact result of a redemption: the payout and the brought-current
/// state, or the error. The exchange rate is taken against the current cash
/// balance and the supply still holding the shares being burnt; the payout
/// must not exceed the cash the pool holds, since liabilities are not
/// instantly liquid.
pub open spec fn redeem_outcome(
    s: State,
    height: u64,
    borrow_rate: Decimal,
    cash_balance: Decimal,
    aterra_supply: Decimal,
    burn_amount: Decimal,
) -> Result<(State, Decimal), MarketError> {
    if burn_amount.raw == 0 {
        Err(MarketError::ZeroAmount)
    } else {
        match accrue_outcome(s, height, borrow_rate) {
            Err(e) => Err(e),
            Ok(s2) => match exchange_rate_outcome(
                cash_balance.raw as int,
                s2.total_liabilities.raw as int,
                s2.total_reserves.raw as int,
                aterra_supply.raw as int,
            ) {
                Err(e) => Err(e),
                Ok(er) => if burn_amount.raw * er.raw > u128::MAX {
                    Err(MarketError::Overflow)
                } else if redeem_amount(burn_amount.raw as int, er.raw as int)
                    > cash_balance.raw {
                    Err(MarketError::InsufficientPoolLiquidity)
                } else {
                    Ok(
                        (
                            s2,
                            Decimal {
                                raw: redeem_amount(
                                    burn_amount.raw as int,
                                    er.raw as int,
                                ) as u128,
                            },
                        ),
                    )
                },
            },
        }
    }
}

/// Converts a deposit into freshly minted shares: brings the state current,
/// snapshots the cash balance before the incoming amount, computes the
/// exchange rate there, and mints `amount / rate` rounded down. The call
/// either commits the accrual and returns the mint amount, or fails with the
/// state untouched.
pub fn deposit_stable(
    state: &mut State,
    block_height: u64,
    borrow_rate: Decimal,
    cash_balance: Decimal,
    aterra_supply: Decimal,
    deposit_amount: Decimal,
) -> (r: Result<Decimal, MarketError>)
    ensures
        (match deposit_outcome(
            *old(state),
            block_height,
            borrow_rate,
            cash_balance,
            aterra_supply,
            deposit_amount,
        ) {
            Ok((s2, mint)) => r == Ok::<Decimal, MarketError>(mint) && *final(state) == s2,
            Err(e) => r == Err::<Decimal, MarketError>(e) && *final(state) == *old(state),
        }),
        deposit_amount.raw == 0 <==> r == Err::<Decimal, MarketError>(MarketError::ZeroAmount),
{
    if deposit_amount.raw == 0 {
        return Err(MarketError::ZeroAmount);
    }
    let mut working = *state;
    match accrue_interest(&mut working, block_height, borrow_rate) {
        Ok(_) => (),
        Err(e) => {
            return Err(e);
        },
    }
    let cash_before = match cash_balance.checked_sub(deposit_amount) {
        Ok(v) => v,
        Err(e) => {
            return Err(e);
        },
    };
    let rate = match compute_exchange_rate(
        cash_before,
        working.total_liabilities,
        working.total_reserves,
        aterra_supply,
    ) {
        Ok(v) => v,
        Err(e) => {
            return Err(e);
        },
    };
    let mint = match deposit_amount.checked_div(rate) {
        Ok(v) => v,
        Err(e) => {
            return Err(e);
        },
    };
    *state = working;
    Ok(mint)
}

/// Converts burnt shares back into the deposit asset: brings the state
/// current, computes the exchange rate against the current cash balance,
/// and pays `shares * rate` rounded down, refusing the call when the payout
/// would exceed the cash at hand. The call either commits the accrual and
/// returns the payout, or fails with the state untouched.
pub fn redeem_stable(
    state: &mut State,
    block_height: u64,
    borrow_rate: Decimal,
    cash_balance: Decimal,
    aterra_supply: Decimal,
    burn_amount: Decimal,
) -> (r: Result<Decimal, MarketError>)
    ensures
        (match redeem_outcome(
            *old(state),
            block_height,
            borrow_rate,
            cash_balance,
            aterra_supply,
            burn_amount,
        ) {
            Ok((s2, payout)) => r == Ok::<Decimal, MarketError>(payout) && *final(state) == s2,
            Err(e) => r == Err::<Decimal, MarketError>(e) && *final(state) == *old(state),
        }),
        burn_amount.raw == 0 <==> r == Err::<Decimal, MarketError>(MarketError::ZeroAmount),
        r matches Ok(payout) ==> payout.raw <= cash_balance.raw,
{
    if burn_amount.raw == 0 {
        return Err(MarketError::ZeroAmount);
    }
    let mut working = *state;
    match accrue_interest(&mut working, block_height, borrow_rate) {
        Ok(_) => (),
        Err(e) => {
            return Err(e);
        },
    }
    let rate = match compute_exchange_rate(
        cash_balance,
        working.total_liabilities,
        working.total_reserves,
        aterra_supply,
    ) {
        Ok(v) => v,
        Err(e) => {
            return Err(e);
        },
    };
    let payout = match burn_amount.checked_mul(rate) {
        Ok(v) => v,
        Err(e) => {
            return Err(e);
        },
    };
    if payout.raw > cash_balance.raw {
        return Err(MarketError::InsufficientPoolLiquidity);
    }
    *state = working;
    Ok(payout)
}

/// Minted shares never carry more value than the deposit they bought:
/// `mint * rate <= amount * SCALE` exactly, so redeeming them at the same
/// rate returns at most the deposit.
pub proof fn lemma_deposit_redeem_round_trip(amount: int, rate: int)
    requires
        0 <= amount,
        0 < rate,
    ensures
        mint_amount(amount, rate) * rate <= amount * SCALE,
        redeem_amount(mint_amount(amount, rate), rate) <= amount,
{
    let s = SCALE as int;
    let m = mint_amount(amount, rate);
    lemma_mul_nonnegative(amount, s);
    lemma_fundamental_div_mod(amount * s, rate);
    lemma_mod_division_less_than_divisor(amount * s, rate);
    assert(rate * m <= amount * s);
    lemma_mul_is_commutative(rate, m);
    lemma_div_is_ordered(m * rate, amount * s, s);
    lemma_mul_is_commutative(amount, s);
    lemma_div_multiples_vanish(amount, s);
}

/// The liquidity a redemption draws plus the reserves never exceed the pool
/// value, provided no more shares are burnt than exist: the payout at the
/// computed rate leaves the reserves covered by cash and liabilities.
pub proof fn lemma_redeem_preserves_reserve_bound(
    cash: int,
    liab: int,
    res: int,
    supply: int,
    burn: int,
)
    requires
        0 <= cash,
        0 <= liab,
        0 <= res <= cash + liab,
        0 < burn <= supply,
    ensures
        redeem_amount(burn, exchange_rate_raw(cash, liab, res, supply)) + res <= cash + liab,
{
    let s = SCALE as int;
    let pool = cash + liab - res;
    let er = exchange_rate_raw(cash, liab, res, supply);
    lemma_mul_nonnegative(pool, s);
    lemma_fundamental_div_mod(pool * s, supply);
    lemma_mod_division_less_than_divisor(pool * s, supply);
    assert(supply * er <= pool * s);
    lemma_mul_nonnegative(pool, s);
    vstd::arithmetic::div_mod::lemma_div_pos_is_pos(pool * s, supply);
    lemma_mul_inequality(burn, supply, er);
    lemma_mul_is_commutative(supply, er);
    assert(burn * er <= pool * s);
    lemma_div_is_ordered(burn * er, pool * s, s);
    lemma_mul_is_commutative(pool, s);
    lemma_div_multiples_vanish(pool, s);
}

} // verus!
