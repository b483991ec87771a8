//! The interest-accrual engine: advances the global interest index and the
//! liability balance from the last-updated height to the current height,
//! given the borrow rate the interest-rate model answered with. Liabilities
//! and the index never decrease; within one block the engine is idempotent.

use vstd::prelude::*;

use vstd::arithmetic::div_mod::{
    lemma_div_by_multiple,
    lemma_div_is_ordered,
    lemma_div_pos_is_pos,
};
use vstd::arithmetic::mul::{lemma_mul_inequality, lemma_mul_nonnegative};

use crate::decimal::{pow_scaled, Decimal, SCALE};
use crate::errors::MarketError;
use crate::state::State;

verus! {

/// The compounding factor `(1 + rate)^dt` under the ledger's truncating
/// exponentiation, as a magnitude.
pub open spec fn accrual_factor(rate: int, dt: nat) -> int {
    pow_scaled(SCALE + rate, dt)
}

/// The interest accrued on `liab` over `dt` blocks:
/// `liab * ((1 + rate)^dt - 1)`, truncated.
pub open spec fn accrued_interest(liab: int, rate: int, dt: nat) -> int {
    liab * (accrual_factor(rate, dt) - SCALE) / (SCALE as int)
}

/// The liability balance after accrual.
pub open spec fn accrued_liabilities(liab: int, rate: int, dt: nat) -> int {
    liab + accrued_interest(liab, rate, dt)
}

/// The global interest index after accrual: the old index times the
/// compounding factor, truncated.
pub open spec fn accrued_index(index: int, rate: int, dt: nat) -> int {
    index * accrual_factor(rate, dt) / (SCALE as int)
}

/// Whether every intermediate of the accrual computation fits the 128-bit
/// magnitude. Nothing is computed over zero elapsed blocks, so nothing can
/// overflow there.
pub open spec fn accrual_fits(liab: int, index: int, rate: int, dt: nat) -> bool {
    dt == 0 || (SCALE + rate <= u128::MAX && (forall|k: nat|
        k < dt ==> #[trigger] pow_scaled(SCALE + rate, k) * (SCALE + rate) <= u128::MAX) && liab * (
    accrual_factor(rate, dt) - SCALE) <= u128::MAX && accrued_liabilities(liab, rate, dt)
        <= u128::MAX && index * accrual_factor(rate, dt) <= u128::MAX)
}

/// The exact result of one accrual call on a pool state: a height regression
/// is fatal, a result that does not fit the magnitude aborts with no state
/// change, and otherwise liabilities, the index and the accrual height
/// advance together.
pub open spec fn accrue_outcome(s: State, height: u64, borrow_rate: Decimal) -> Result<
    State,
    MarketError,
> {
    if height < s.last_interest_updated {
        Err(MarketError::BlockHeightRegression)
    } else {
        let dt = (height - s.last_interest_updated) as nat;
        let liab = s.total_liabilities.raw as int;
        let index = s.global_interest_index.raw as int;
        let rate = borrow_rate.raw as int;
        if accrual_fits(liab, index, rate, dt) {
            Ok(
                State {
                    total_liabilities: Decimal { raw: accrued_liabilities(liab, rate, dt) as u128 },
                    global_interest_index: Decimal { raw: accrued_index(index, rate, dt) as u128 },
                    last_interest_updated: height,
                    ..s
                },
            )
        } else {
            Err(MarketError::Overflow)
        }
    }
}

/// The compounding factor is at least one whenever the rate is non-negative:
/// each truncated multiplication by `1 + rate` keeps the magnitude at or
/// above the scale.
pub proof fn lemma_accrual_factor_ge_one(rate: int, dt: nat)
    requires
        0 <= rate,
    ensures
        accrual_factor(rate, dt) >= SCALE,
    decreases dt,
{
    let s = SCALE as int;
    let b = s + rate;
    if dt > 0 {
        lemma_accrual_factor_ge_one(rate, (dt - 1) as nat);
        let p = pow_scaled(b, (dt - 1) as nat);
        lemma_mul_inequality(s, b, p);
        assert(s * p == p * s) by {
            vstd::arithmetic::mul::lemma_mul_is_commutative(s, p);
        }
        assert(b * p == p * b) by {
            vstd::arithmetic::mul::lemma_mul_is_commutative(b, p);
        }
        lemma_div_is_ordered(p * s, p * b, s);
        lemma_div_by_multiple(p, s);
    }
}

/// Accrual never destroys value: the accrued liability balance is at least
/// the old one, and the accrued index is at least the old one.
pub proof fn lemma_accrual_monotone(liab: int, index: int, rate: int, dt: nat)
    requires
        0 <= liab,
        0 <= index,
        0 <= rate,
    ensures
        accrued_liabilities(liab, rate, dt) >= liab,
        accrued_index(index, rate, dt) >= index,
    decreases dt,
{
    let s = SCALE as int;
    let f = accrual_factor(rate, dt);
    lemma_accrual_factor_ge_one(rate, dt);
    lemma_mul_nonnegative(liab, f - s);
    lemma_div_pos_is_pos(liab * (f - s), s);
    lemma_mul_inequality(s, f, index);
    assert(s * index == index * s) by {
        vstd::arithmetic::mul::lemma_mul_is_commutative(s, index);
    }
    assert(f * index == index * f) by {
        vstd::arithmetic::mul::lemma_mul_is_commutative(f, index);
    }
    lemma_div_is_ordered(index * s, index * f, s);
    lemma_div_by_multiple(index, s);
}

/// A borrow rate of zero accrues nothing, whatever the elapsed height:
/// liabilities and the index come back unchanged (the compounding factor is
/// exactly one).
pub proof fn lemma_zero_rate_accrues_nothing(liab: int, index: int, dt: nat)
    ensures
        accrual_factor(0, dt) == SCALE,
        accrued_liabilities(liab, 0, dt) == liab,
        accrued_index(index, 0, dt) == index,
    decreases dt,
{
    let s = SCALE as int;
    if dt > 0 {
        lemma_zero_rate_accrues_nothing(liab, index, (dt - 1) as nat);
        lemma_div_by_multiple(s, s);
    }
    assert(liab * 0 == 0) by {
        vstd::arithmetic::mul::lemma_mul_basics_1(liab);
    }
    assert(index * s == s * index) by {
        vstd::arithmetic::mul::lemma_mul_is_commutative(index, s);
    }
    vstd::arithmetic::div_mod::lemma_div_multiples_vanish(index, s);
}

/// Accruing over zero elapsed blocks changes nothing and always fits:
/// together with the contract of `accrue_interest` this is the idempotence
/// of accrual within one block, however many operations the block holds.
pub proof fn lemma_accrual_idempotent_within_block(liab: int, index: int, rate: int)
    ensures
        accrual_fits(liab, index, rate, 0),
        accrued_liabilities(liab, rate, 0) == liab,
        accrued_index(index, rate, 0) == index,
{
    let s = SCALE as int;
    assert(liab * 0 == 0) by {
        vstd::arithmetic::mul::lemma_mul_basics_1(liab);
    }
    assert(index * s == s * index) by {
        vstd::arithmetic::mul::lemma_mul_is_commutative(index, s);
    }
    vstd::arithmetic::div_mod::lemma_div_multiples_vanish(index, s);
}

/// Across chained accrual calls at non-decreasing heights, liabilities, the
/// interest index and the accrual height never decrease: every committed
/// step only grows them, so any sequence of calls is monotone.
pub proof fn lemma_accrual_sequence_monotone(s: State, h1: u64, r1: Decimal, h2: u64, r2: Decimal)
    ensures
        (match accrue_outcome(s, h1, r1) {
            Ok(s1) => match accrue_outcome(s1, h2, r2) {
                Ok(s2) => s2.total_liabilities.raw >= s.total_liabilities.raw
                    && s2.global_interest_index.raw >= s.global_interest_index.raw
                    && s2.last_interest_updated >= s.last_interest_updated,
                Err(_) => true,
            },
            Err(_) => true,
        }),
{
    if h1 >= s.last_interest_updated {
        lemma_accrued_state_in_range(s, h1, r1);
        if accrue_outcome(s, h1, r1) is Ok {
            let s1 = accrue_outcome(s, h1, r1)->Ok_0;
            if h2 >= s1.last_interest_updated {
                lemma_accrued_state_in_range(s1, h2, r2);
            }
        }
    }
}

/// When an accrual commits, the stored magnitudes are exactly the accrued
/// values, which are at least the old ones: the casts into the 128-bit
/// magnitude lose nothing.
proof fn lemma_accrued_state_in_range(s: State, h: u64, rate: Decimal)
    requires
        h >= s.last_interest_updated,
    ensures
        (match accrue_outcome(s, h, rate) {
            Ok(s1) => s1.total_liabilities.raw == accrued_liabilities(
                s.total_liabilities.raw as int,
                rate.raw as int,
                (h - s.last_interest_updated) as nat,
            ) && s1.global_interest_index.raw == accrued_index(
                s.global_interest_index.raw as int,
                rate.raw as int,
                (h - s.last_interest_updated) as nat,
            ) && s1.total_liabilities.raw >= s.total_liabilities.raw
                && s1.global_interest_index.raw >= s.global_interest_index.raw,
            Err(_) => true,
        }),
{
    let dt = (h - s.last_interest_updated) as nat;
    let liab = s.total_liabilities.raw as int;
    let index = s.global_interest_index.raw as int;
    let r = rate.raw as int;
    if accrual_fits(liab, index, r, dt) {
        lemma_accrual_monotone(liab, index, r, dt);
        lemma_accrual_factor_ge_one(r, dt);
        let f = accrual_factor(r, dt);
        lemma_mul_nonnegative(index, f);
        if dt > 0 {
            vstd::arithmetic::div_mod::lemma_div_nonincreasing(index * f, SCALE as int);
        } else {
            assert(accrued_index(index, r, 0) <= u128::MAX) by {
                lemma_accrual_idempotent_within_block(liab, index, r);
            }
            assert(accrued_liabilities(liab, r, 0) <= u128::MAX) by {
                lemma_accrual_idempotent_within_block(liab, index, r);
            }
        }
    }
}

/// A second accrual at the same height is a no-op, whatever rate the model
/// answers then: the first committed call within a block does all the work.
pub proof fn lemma_accrual_same_height_noop(s: State, h: u64, r1: Decimal, r2: Decimal)
    ensures
        (match accrue_outcome(s, h, r1) {
            Ok(s1) => accrue_outcome(s1, h, r2) == Ok::<State, MarketError>(s1),
            Err(_) => true,
        }),
{
    if h >= s.last_interest_updated && accrual_fits(
        s.total_liabilities.raw as int,
        s.global_interest_index.raw as int,
        r1.raw as int,
        (h - s.last_interest_updated) as nat,
    ) {
        let s1 = accrue_outcome(s, h, r1)->Ok_0;
        lemma_accrual_idempotent_within_block(
            s1.total_liabilities.raw as int,
            s1.global_interest_index.raw as int,
            r2.raw as int,
        );
    }
}

/// Accrual preserves the reserve bound: reserves covered by the pool before
/// stay covered after, since liabilities only grow.
pub proof fn lemma_accrual_preserves_reserve_bound(
    cash: int,
    liab: int,
    res: int,
    rate: int,
    dt: nat,
)
    requires
        res <= cash + liab,
        0 <= liab,
        0 <= rate,
    ensures
        res <= cash + accrued_liabilities(liab, rate, dt),
{
    lemma_accrual_monotone(liab, 0, rate, dt);
}

/// Brings the pool state current: a no-op when the height has not moved,
/// compounding of liabilities and the interest index when it has. The call
/// either commits the whole advance or fails with the state untouched.
/// Liabilities, the interest index and the accrual height never decrease.
pub fn accrue_interest(state: &mut State, block_height: u64, borrow_rate: Decimal) -> (r: Result<
    (),
    MarketError,
>)
    ensures
        (match accrue_outcome(*old(state), block_height, borrow_rate) {
            Ok(s2) => r == Ok::<(), MarketError>(()) && *final(state) == s2,
            Err(e) => r == Err::<(), MarketError>(e) && *final(state) == *old(state),
        }),
        block_height == old(state).last_interest_updated ==> r == Ok::<(), MarketError>(())
            && *final(state) == *old(state),
        r matches Ok(_) ==> final(state).total_liabilities.raw
            >= old(state).total_liabilities.raw && final(state).global_interest_index.raw >= old(
            state,
        ).global_interest_index.raw && final(state).last_interest_updated >= old(
            state,
        ).last_interest_updated,
        final(state).total_reserves == old(state).total_reserves,
        final(state).last_reward_updated == old(state).last_reward_updated,
        final(state).global_reward_index == old(state).global_reward_index,
        final(state).anc_emission_rate == old(state).anc_emission_rate,
        final(state).prev_aterra_supply == old(state).prev_aterra_supply,
        final(state).prev_exchange_rate == old(state).prev_exchange_rate,
{
    if block_height < state.last_interest_updated {
        return Err(MarketError::BlockHeightRegression);
    }
    if block_height == state.last_interest_updated {
        proof {
            lemma_accrual_idempotent_within_block(
                state.total_liabilities.raw as int,
                state.global_interest_index.raw as int,
                borrow_rate.raw as int,
            );
        }
        return Ok(());
    }
    let dt = block_height - state.last_interest_updated;
    let ghost liab = state.total_liabilities.raw as int;
    let ghost index = state.global_interest_index.raw as int;
    let ghost rate = borrow_rate.raw as int;
    let base = match Decimal::one().checked_add(borrow_rate) {
        Ok(b) => b,
        Err(e) => {
            return Err(e);
        },
    };
    let factor = match base.checked_pow(dt) {
        Ok(f) => f,
        Err(e) => {
            proof {
                assert(!accrual_fits(liab, index, rate, dt as nat));
            }
            return Err(e);
        },
    };
    proof {
        lemma_accrual_factor_ge_one(rate, dt as nat);
    }
    let factor_minus_one = match factor.checked_sub(Decimal::one()) {
        Ok(f) => f,
        Err(e) => {
            return Err(e);
        },
    };
    let interest = match state.total_liabilities.checked_mul(factor_minus_one) {
        Ok(v) => v,
        Err(e) => {
            return Err(e);
        },
    };
    let new_liabilities = match state.total_liabilities.checked_add(interest) {
        Ok(v) => v,
        Err(e) => {
            return Err(e);
        },
    };
    let new_index = match state.global_interest_index.checked_mul(factor) {
        Ok(v) => v,
        Err(e) => {
            return Err(e);
        },
    };
    proof {
        lemma_accrual_monotone(liab, index, rate, dt as nat);
    }
    state.total_liabilities = new_liabilities;
    state.global_interest_index = new_index;
    state.last_interest_updated = block_height;
    Ok(())
}

} // verus!
