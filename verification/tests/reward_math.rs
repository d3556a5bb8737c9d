use cykura_staker::errors::ErrorCode;
use cykura_staker::full_math::mul_div_floor;
use cykura_staker::reward_math::{compute_reward_amount, compute_reward_amount_boosted};

const X32: u64 = 0x1_0000_0000;

#[test]
fn mul_div_floor_floors() {
    assert_eq!(mul_div_floor(7, 3, 2), Some(10));
    assert_eq!(mul_div_floor(1000, 1, 3), Some(333));
}

#[test]
fn mul_div_floor_full_width_intermediate() {
    // The product needs 128 bits but the quotient fits.
    assert_eq!(mul_div_floor(u64::MAX, u64::MAX, u64::MAX), Some(u64::MAX));
    assert_eq!(mul_div_floor(1u64 << 63, 4, 1u64 << 33), Some(1u64 << 32));
}

#[test]
fn mul_div_floor_zero_denominator() {
    assert_eq!(mul_div_floor(1, 1, 0), None);
    assert_eq!(mul_div_floor(0, 0, 0), None);
}

#[test]
fn mul_div_floor_quotient_overflow() {
    assert_eq!(mul_div_floor(u64::MAX, 2, 1), None);
}

#[test]
fn reward_full_window_single_stake() {
    // An incentive funded with 1000 over a 100-second window; one stake of
    // liquidity 10 holds the whole window, so its accrued liquidity-seconds
    // equal the whole capacity and the reward is the whole pool.
    let s1 = 10 * X32; // 100 seconds / liquidity 10, as UQ32.32
    let owed = compute_reward_amount(1000, 0, 0, 100, 10, 0, s1, 100).unwrap();
    assert_eq!(owed.seconds_inside_x32, 100 * X32);
    assert_eq!(owed.reward, 1000);
}

#[test]
fn reward_half_window_single_stake() {
    // The same stake held for only half the window earns half the pool.
    let s1 = 5 * X32;
    let owed = compute_reward_amount(1000, 0, 0, 100, 10, 0, s1, 100).unwrap();
    assert_eq!(owed.seconds_inside_x32, 50 * X32);
    assert_eq!(owed.reward, 500);
}

#[test]
fn reward_floors_fractional_share() {
    // 1000 * 1 / 3 of the window floors to 333: the engine never rounds up.
    let owed = compute_reward_amount(1000, 0, 0, 3, 1, 0, X32, 3).unwrap();
    assert_eq!(owed.reward, 333);
}

#[test]
fn reward_never_exceeds_unclaimed_pool() {
    // Whatever fraction of the remaining capacity a stake accrued, its
    // reward stays within the unclaimed pool.
    for held in 0..=20u64 {
        let owed = compute_reward_amount(997, 0, 0, 20, 13, 0, held * X32 / 13, 20).unwrap();
        assert!(owed.reward <= 997);
    }
}

#[test]
fn reward_monotone_in_seconds_inside() {
    // More accrued liquidity-seconds never mean less reward.
    let mut last = 0u64;
    for held in 0..=50u64 {
        let owed = compute_reward_amount(12345, 0, 0, 50, 7, 0, held * X32 / 7, 50).unwrap();
        assert!(owed.reward >= last);
        last = owed.reward;
    }
}

#[test]
fn reward_window_extends_past_end_time() {
    // Unstaking after the end time measures capacity up to now, diluting
    // the stake's share.
    let owed = compute_reward_amount(1000, 0, 0, 100, 10, 0, 10 * X32, 200).unwrap();
    assert_eq!(owed.reward, 500);
}

#[test]
fn reward_stale_snapshot_is_rejected() {
    let r = compute_reward_amount(1000, 0, 0, 100, 10, 5 * X32, 4 * X32, 100);
    assert_eq!(r, Err(ErrorCode::StaleOracleSnapshot));
}

#[test]
fn reward_seconds_inside_overflow_is_rejected() {
    let r = compute_reward_amount(1000, 0, 0, 100, u64::MAX, 0, u64::MAX, 100);
    assert_eq!(r, Err(ErrorCode::ArithmeticOverflow));
}

#[test]
fn reward_capacity_overflow_is_rejected() {
    // A window of 2^32 seconds no longer fits the UQ32.32 capacity.
    let r = compute_reward_amount(1000, 0, 0, 1i64 << 32, 1, 0, 1, 0);
    assert_eq!(r, Err(ErrorCode::ArithmeticOverflow));
}

#[test]
fn reward_exhausted_capacity_is_rejected() {
    // Everything already claimed: the remaining capacity is zero and no
    // share is computable.
    let r = compute_reward_amount(1000, 100 * X32, 0, 100, 10, 0, 0, 100);
    assert_eq!(r, Err(ErrorCode::ArithmeticOverflow));
}

#[test]
fn boosted_reward_no_voting_power_dampens_to_two_fifths() {
    // With zero voting power the effective liquidity is 0.4 of the raw
    // position, so the full-window stake earns 0.4 of the pool.
    let owed =
        compute_reward_amount_boosted(1000, 0, 0, 100, 10, 0, 10 * X32, 100, 0, 100, 50).unwrap();
    assert_eq!(owed.seconds_inside_x32, 40 * X32);
    assert_eq!(owed.reward, 400);
}

#[test]
fn boosted_reward_full_voting_power_is_capped_at_raw_liquidity() {
    // A dominant voting-power share would blend above the raw liquidity;
    // the cap keeps the stake at exactly its raw earnings.
    let owed = compute_reward_amount_boosted(
        1000,
        0,
        0,
        100,
        10,
        0,
        10 * X32,
        100,
        100,
        100,
        50,
    )
    .unwrap();
    assert_eq!(owed.seconds_inside_x32, 100 * X32);
    assert_eq!(owed.reward, 1000);
}

#[test]
fn boosted_reward_partial_voting_power_blends() {
    // liquidity 10, pool liquidity 50, voting share 1/5: effective
    // liquidity = 0.4 * 10 + 0.6 * (50 / 5) = 10, capped at 10.
    let owed = compute_reward_amount_boosted(
        1000,
        0,
        0,
        100,
        10,
        0,
        10 * X32,
        100,
        20,
        100,
        50,
    )
    .unwrap();
    assert_eq!(owed.reward, 1000);
    // A smaller share blends below the cap: 0.4 * 10 + 0.6 * 5 = 7.
    let owed = compute_reward_amount_boosted(
        1000,
        0,
        0,
        100,
        10,
        0,
        10 * X32,
        100,
        10,
        100,
        50,
    )
    .unwrap();
    assert_eq!(owed.seconds_inside_x32, 70 * X32);
    assert_eq!(owed.reward, 700);
}

#[test]
fn boosted_reward_zero_total_voting_power_is_rejected() {
    let r = compute_reward_amount_boosted(1000, 0, 0, 100, 10, 0, 10 * X32, 100, 1, 0, 50);
    assert_eq!(r, Err(ErrorCode::ArithmeticOverflow));
}
