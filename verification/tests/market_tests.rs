use market_core::decimal::{Decimal, SCALE};
use market_core::errors::MarketError;
use market_core::exchange::{compute_exchange_rate, compute_utilization};
use market_core::interest::accrue_interest;
use market_core::market::{deposit_stable, redeem_stable};
use market_core::state::{initial_state, State};

fn units(n: u64) -> Decimal {
    Decimal::from_units(n)
}

fn pool_state(liabilities: u64, reserves: u64, height: u64) -> State {
    let mut s = initial_state(height, Decimal::zero());
    s.total_liabilities = units(liabilities);
    s.total_reserves = units(reserves);
    s
}

#[test]
fn bootstrap_rate_is_one_whatever_the_pool() {
    // A zero share supply always yields the bootstrap rate, even when the
    // reserves exceed the rest of the pool or the sum would overflow.
    let one = Decimal::one();
    assert_eq!(
        compute_exchange_rate(units(123), units(456), units(9), Decimal::zero()),
        Ok(one)
    );
    assert_eq!(
        compute_exchange_rate(units(1), units(1), units(999), Decimal::zero()),
        Ok(one)
    );
    let max = Decimal { raw: u128::MAX };
    assert_eq!(compute_exchange_rate(max, max, max, Decimal::zero()), Ok(one));
}

#[test]
fn exchange_rate_divides_the_redeemable_pool() {
    // (cash + liabilities - reserves) / supply = (2 + 1 - 1) / 2 = 1.0
    let r = compute_exchange_rate(units(2), units(1), units(1), units(2)).unwrap();
    assert_eq!(r, Decimal::one());
    // (1000 + 100 - 0) / 1000 = 1.1
    let r = compute_exchange_rate(units(1000), units(100), units(0), units(1000)).unwrap();
    assert_eq!(r.raw, 1_100_000_000);
}

#[test]
fn exchange_rate_rejects_reserves_past_the_pool() {
    assert_eq!(
        compute_exchange_rate(units(1), units(1), units(3), units(5)),
        Err(MarketError::ReserveExceedsPool)
    );
    let max = Decimal { raw: u128::MAX };
    assert_eq!(
        compute_exchange_rate(max, max, Decimal::zero(), units(5)),
        Err(MarketError::Overflow)
    );
}

#[test]
fn utilization_is_liabilities_over_the_pool() {
    let u = compute_utilization(units(3), units(1)).unwrap();
    assert_eq!(u.raw, 250_000_000);
    assert_eq!(compute_utilization(Decimal::zero(), Decimal::zero()).unwrap(), Decimal::zero());
}

#[test]
fn initial_state_is_zeroed_with_unit_index() {
    let s = initial_state(42, units(5));
    assert_eq!(s.total_liabilities, Decimal::zero());
    assert_eq!(s.total_reserves, Decimal::zero());
    assert_eq!(s.last_interest_updated, 42);
    assert_eq!(s.last_reward_updated, 42);
    assert_eq!(s.global_interest_index, Decimal::one());
    assert_eq!(s.global_reward_index, Decimal::zero());
    assert_eq!(s.anc_emission_rate, units(5));
    assert_eq!(s.prev_aterra_supply, Decimal::zero());
    assert_eq!(s.prev_exchange_rate, Decimal::one());
}

#[test]
fn accrual_compounds_liabilities_and_index() {
    // 100 units of debt at 5% per block over two blocks: the factor is
    // 1.1025, liabilities grow by 10.25 units, the index follows.
    let mut s = pool_state(100, 0, 0);
    let rate = Decimal { raw: 50_000_000 };
    accrue_interest(&mut s, 2, rate).unwrap();
    assert_eq!(s.total_liabilities.raw, 110_250_000_000);
    assert_eq!(s.global_interest_index.raw, 1_102_500_000);
    assert_eq!(s.last_interest_updated, 2);
}

#[test]
fn accrual_is_monotone_over_heights() {
    let mut s = pool_state(100, 0, 0);
    let rate = Decimal { raw: 30_000_000 };
    let mut last_liab = s.total_liabilities.raw;
    let mut last_index = s.global_interest_index.raw;
    for h in [0u64, 3, 3, 7, 20] {
        accrue_interest(&mut s, h, rate).unwrap();
        assert!(s.total_liabilities.raw >= last_liab);
        assert!(s.global_interest_index.raw >= last_index);
        assert_eq!(s.last_interest_updated, h);
        last_liab = s.total_liabilities.raw;
        last_index = s.global_interest_index.raw;
    }
}

#[test]
fn accrual_twice_at_one_height_is_a_noop() {
    let mut s = pool_state(100, 0, 0);
    let rate = Decimal { raw: 50_000_000 };
    accrue_interest(&mut s, 5, rate).unwrap();
    let after_first = s;
    // A second call at the same height must change nothing, whatever rate
    // the model would answer now.
    accrue_interest(&mut s, 5, Decimal { raw: 999_000_000 }).unwrap();
    assert_eq!(s, after_first);
}

#[test]
fn accrual_at_zero_rate_changes_nothing() {
    // Accrual called with rate 0 leaves liabilities and the index unchanged
    // regardless of the elapsed blocks.
    let mut s = pool_state(12345, 7, 10);
    let before = s;
    accrue_interest(&mut s, 1_000_010, Decimal::zero()).unwrap();
    assert_eq!(s.total_liabilities, before.total_liabilities);
    assert_eq!(s.global_interest_index, before.global_interest_index);
    assert_eq!(s.last_interest_updated, 1_000_010);
}

#[test]
fn accrual_refuses_a_height_regression() {
    let mut s = pool_state(100, 0, 10);
    let before = s;
    assert_eq!(
        accrue_interest(&mut s, 9, Decimal::zero()),
        Err(MarketError::BlockHeightRegression)
    );
    assert_eq!(s, before);
}

#[test]
fn deposit_mints_at_the_pre_transfer_rate() {
    // First deposit ever: the bootstrap rate of one applies, so a million
    // units mint exactly a million shares.
    let mut s = initial_state(0, Decimal::zero());
    let minted = deposit_stable(
        &mut s,
        0,
        Decimal::zero(),
        units(1_000_000),
        Decimal::zero(),
        units(1_000_000),
    )
    .unwrap();
    assert_eq!(minted, units(1_000_000));
}

#[test]
fn deposit_and_redeem_round_trip_never_pays_more() {
    // Deposit 100 units at a rate of 3.0, then redeem the minted shares in
    // the same block: the payout is the deposit minus rounding dust.
    let mut s = initial_state(0, Decimal::zero());
    let cash_with_deposit = units(3100);
    let minted = deposit_stable(
        &mut s,
        0,
        Decimal::zero(),
        cash_with_deposit,
        units(1000),
        units(100),
    )
    .unwrap();
    assert_eq!(minted.raw, 33_333_333_333);
    let supply_after = units(1000).checked_add(minted).unwrap();
    let payout = redeem_stable(
        &mut s,
        0,
        Decimal::zero(),
        cash_with_deposit,
        supply_after,
        minted,
    )
    .unwrap();
    assert_eq!(payout.raw, 99_999_999_999);
    assert!(payout.raw <= units(100).raw);
}

#[test]
fn operations_within_one_block_accrue_interest_once() {
    // Deposit, redeem, deposit at one height: interest accrues on the first
    // call only.
    let mut s = pool_state(100, 0, 0);
    let rate = Decimal { raw: 50_000_000 };
    let cash = units(1000);
    let supply = units(500);
    deposit_stable(&mut s, 5, rate, cash, supply, units(10)).unwrap();
    let liabilities_after_first = s.total_liabilities;
    let index_after_first = s.global_interest_index;
    redeem_stable(&mut s, 5, rate, cash, supply, units(5)).unwrap();
    deposit_stable(&mut s, 5, rate, cash, supply, units(10)).unwrap();
    assert_eq!(s.total_liabilities, liabilities_after_first);
    assert_eq!(s.global_interest_index, index_after_first);
    assert_eq!(s.last_interest_updated, 5);
}

#[test]
fn deposit_rejects_zero_and_missing_cash() {
    let mut s = initial_state(0, Decimal::zero());
    assert_eq!(
        deposit_stable(&mut s, 0, Decimal::zero(), units(10), units(1), Decimal::zero()),
        Err(MarketError::ZeroAmount)
    );
    // The cash balance is supposed to already include the deposit; less cash
    // than the deposit is an underflow.
    assert_eq!(
        deposit_stable(&mut s, 0, Decimal::zero(), units(1), units(1), units(2)),
        Err(MarketError::Underflow)
    );
}

#[test]
fn deposit_rejects_a_worthless_pool() {
    // Shares exist but the pool is worth nothing: the rate is zero and the
    // division is refused.
    let mut s = initial_state(0, Decimal::zero());
    assert_eq!(
        deposit_stable(&mut s, 0, Decimal::zero(), units(5), units(10), units(5)),
        Err(MarketError::DivideByZero)
    );
}

#[test]
fn redeem_rejects_zero_shares() {
    let mut s = initial_state(0, Decimal::zero());
    assert_eq!(
        redeem_stable(&mut s, 0, Decimal::zero(), units(10), units(10), Decimal::zero()),
        Err(MarketError::ZeroAmount)
    );
}

#[test]
fn redeem_scenario_pays_the_whole_pool_but_never_more() {
    // A million shares against a million units of cash and a hundred
    // thousand of liabilities: the rate is 1.1. While the liabilities are
    // outstanding the cash cannot cover a full redemption; once repaid
    // (cash 1.1 million, no liabilities, same supply and rate), redeeming
    // every share returns exactly the whole pool.
    let mut s = pool_state(100_000, 0, 0);
    let rate = compute_exchange_rate(units(1_000_000), units(100_000), units(0), units(1_000_000))
        .unwrap();
    assert_eq!(rate.raw, 1_100_000_000);
    let before = s;
    assert_eq!(
        redeem_stable(
            &mut s,
            0,
            Decimal::zero(),
            units(1_000_000),
            units(1_000_000),
            units(1_000_000),
        ),
        Err(MarketError::InsufficientPoolLiquidity)
    );
    assert_eq!(s, before);
    let mut repaid = pool_state(0, 0, 0);
    let payout = redeem_stable(
        &mut repaid,
        0,
        Decimal::zero(),
        units(1_100_000),
        units(1_000_000),
        units(1_000_000),
    )
    .unwrap();
    assert_eq!(payout, units(1_100_000));
}

#[test]
fn accrual_overflow_aborts_with_no_state_change() {
    // A compounding factor too large for the magnitude aborts the whole
    // accrual; nothing is committed.
    let mut s = pool_state(100, 0, 0);
    let before = s;
    let huge_rate = Decimal { raw: u128::MAX - SCALE };
    assert_eq!(
        accrue_interest(&mut s, 1, huge_rate),
        Err(MarketError::Overflow)
    );
    assert_eq!(s, before);
}

#[test]
fn deposit_propagates_accrual_errors_atomically() {
    let mut s = pool_state(100, 0, 10);
    let before = s;
    assert_eq!(
        deposit_stable(&mut s, 9, Decimal::zero(), units(10), units(1), units(5)),
        Err(MarketError::BlockHeightRegression)
    );
    assert_eq!(s, before);
}
