use market_core::decimal::{Decimal, SCALE};
use market_core::errors::MarketError;

fn units(n: u64) -> Decimal {
    Decimal::from_units(n)
}

#[test]
fn zero_one_and_units() {
    assert_eq!(Decimal::zero().raw, 0);
    assert_eq!(Decimal::one().raw, SCALE);
    assert_eq!(units(7).raw, 7 * SCALE);
    assert!(Decimal::zero().is_zero());
    assert!(!Decimal::one().is_zero());
}

#[test]
fn addition_is_exact_and_checked() {
    let a = units(3).checked_add(units(4)).unwrap();
    assert_eq!(a, units(7));
    let max = Decimal { raw: u128::MAX };
    assert_eq!(max.checked_add(Decimal::one()), Err(MarketError::Overflow));
}

#[test]
fn subtraction_fails_below_zero() {
    assert_eq!(units(9).checked_sub(units(2)).unwrap(), units(7));
    assert_eq!(units(2).checked_sub(units(9)), Err(MarketError::Underflow));
}

#[test]
fn multiplication_truncates_toward_zero() {
    let half = Decimal { raw: SCALE / 2 };
    assert_eq!(units(10).checked_mul(half).unwrap(), units(5));
    let two_and_a_half = Decimal { raw: 2_500_000_000 };
    assert_eq!(two_and_a_half.checked_mul(units(4)).unwrap(), units(10));
    let max = Decimal { raw: u128::MAX };
    assert_eq!(max.checked_mul(units(2)), Err(MarketError::Overflow));
}

#[test]
fn division_truncates_toward_zero() {
    let third = Decimal::one().checked_div(units(3)).unwrap();
    assert_eq!(third.raw, 333_333_333);
    assert_eq!(units(1).checked_div(Decimal::zero()), Err(MarketError::DivideByZero));
    let max = Decimal { raw: u128::MAX };
    assert_eq!(max.checked_div(units(7)), Err(MarketError::Overflow));
}

#[test]
fn exponentiation_compounds_with_truncation() {
    let rate = Decimal { raw: 1_100_000_000 };
    assert_eq!(rate.checked_pow(0).unwrap(), Decimal::one());
    assert_eq!(rate.checked_pow(1).unwrap(), rate);
    assert_eq!(rate.checked_pow(2).unwrap().raw, 1_210_000_000);
    let max = Decimal { raw: u128::MAX };
    assert_eq!(max.checked_pow(2), Err(MarketError::Overflow));
}

#[test]
fn error_families_are_told_apart() {
    assert!(MarketError::ReserveExceedsPool.is_invariant_violation());
    assert!(MarketError::BlockHeightRegression.is_invariant_violation());
    assert!(!MarketError::ZeroAmount.is_invariant_violation());
    assert!(!MarketError::Overflow.is_invariant_violation());
    assert!(!MarketError::InsufficientPoolLiquidity.is_invariant_violation());
    assert!(!MarketError::EpochTooSoon.is_invariant_violation());
}
