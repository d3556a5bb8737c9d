//! Math for computing rewards.
//!
//! Pure, deterministic functions converting (liquidity, time, pool-wide
//! snapshots) into an owed reward amount. Time-weighted quantities are
//! UQ32.32 fixed point; every multiply-then-divide uses a full-width
//! intermediate and floors its result.

use vstd::prelude::*;

use crate::errors::ErrorCode;
use crate::full_math;

verus! {

/// The factor between a plain seconds count and its UQ32.32 representation.
pub const FIXED_POINT_32_ONE: u64 = 0x1_0000_0000;

/// Reward owed to a staked position.
#[derive(Clone, Copy, Debug, PartialEq, Eq, Structural)]
pub struct RewardOwed {
    /// The amount of reward owed.
    pub reward: u64,

    /// The liquidity-seconds accrued inside the position's range for the
    /// duration of the stake, as a UQ32.32.
    pub seconds_inside_x32: u64,
}

/// The liquidity-seconds a stake accrued between its entry snapshot `s0_x32`
/// and exit snapshot `s1_x32` of the pool's cumulative seconds per liquidity
/// inside the position's range, as a UQ32.32.
pub open spec fn seconds_inside_x32(liquidity: u64, s0_x32: u64, s1_x32: u64) -> int {
    (s1_x32 - s0_x32) * liquidity
}

/// The later of the incentive's end time and the current time.
pub open spec fn end_or_now(end_time: i64, current_time: i64) -> int {
    if end_time >= current_time {
        end_time as int
    } else {
        current_time as int
    }
}

/// The whole incentive's liquidity-second capacity up to `current_time`, as a
/// UQ32.32: the reward window so far, shifted left 32 bits.
pub open spec fn incentive_capacity_x32(start_time: i64, end_time: i64, current_time: i64) -> int {
    (end_or_now(end_time, current_time) - start_time) * FIXED_POINT_32_ONE
}

/// The incentive's remaining liquidity-second capacity: its whole capacity
/// less what earlier unstakes have already claimed.
pub open spec fn total_seconds_unclaimed_x32(
    start_time: i64,
    end_time: i64,
    current_time: i64,
    total_seconds_claimed_x32: u64,
) -> int {
    incentive_capacity_x32(start_time, end_time, current_time) - total_seconds_claimed_x32
}

/// The floored pro-rata share of the unclaimed reward pool:
/// `floor(total_reward_unclaimed * seconds_inside / total_seconds_unclaimed)`.
pub open spec fn reward_amount(
    total_reward_unclaimed: u64,
    seconds_inside_x32: int,
    total_seconds_unclaimed_x32: int,
) -> int {
    total_reward_unclaimed * seconds_inside_x32 / total_seconds_unclaimed_x32
}

/// Why the plain reward computation fails, if it does: a snapshot pair that
/// runs backwards, or an intermediate that leaves the representable range.
pub open spec fn compute_reward_error(
    total_reward_unclaimed: u64,
    total_seconds_claimed_x32: u64,
    start_time: i64,
    end_time: i64,
    liquidity: u64,
    s0_x32: u64,
    s1_x32: u64,
    current_time: i64,
) -> Option<ErrorCode> {
    let s_inside = seconds_inside_x32(liquidity, s0_x32, s1_x32);
    let capacity = incentive_capacity_x32(start_time, end_time, current_time);
    let t_unclaimed = capacity - total_seconds_claimed_x32;
    if s1_x32 < s0_x32 {
        Some(ErrorCode::StaleOracleSnapshot)
    } else if s_inside > u64::MAX {
        Some(ErrorCode::ArithmeticOverflow)
    } else if capacity > u64::MAX {
        Some(ErrorCode::ArithmeticOverflow)
    } else if t_unclaimed <= 0 {
        Some(ErrorCode::ArithmeticOverflow)
    } else if reward_amount(total_reward_unclaimed, s_inside, t_unclaimed) > u64::MAX {
        Some(ErrorCode::ArithmeticOverflow)
    } else {
        None
    }
}

/// Computes the reward owed for a stake of `liquidity` that entered at oracle
/// snapshot `seconds_per_liquidity_inside_initial_x32` and exits at snapshot
/// `seconds_per_liquidity_inside_x32`, against an incentive that still has
/// `total_reward_unclaimed` reward over a remaining capacity of
/// `incentive_capacity_x32 - total_seconds_claimed_x32` liquidity-seconds.
///
/// Must not be called before the incentive's start time; that is the caller's
/// responsibility, not a user-facing failure.
pub fn compute_reward_amount(
    total_reward_unclaimed: u64,
    total_seconds_claimed_x32: u64,
    start_time: i64,
    end_time: i64,
    liquidity: u64,
    seconds_per_liquidity_inside_initial_x32: u64,
    seconds_per_liquidity_inside_x32: u64,
    current_time: i64,
) -> (r: Result<RewardOwed, ErrorCode>)
    requires
        current_time >= start_time,
    ensures
        match r {
            Ok(owed) => {
                &&& compute_reward_error(
                    total_reward_unclaimed,
                    total_seconds_claimed_x32,
                    start_time,
                    end_time,
                    liquidity,
                    seconds_per_liquidity_inside_initial_x32,
                    seconds_per_liquidity_inside_x32,
                    current_time,
                ) is None
                &&& owed.seconds_inside_x32 == seconds_inside_x32(
                    liquidity,
                    seconds_per_liquidity_inside_initial_x32,
                    seconds_per_liquidity_inside_x32,
                )
                &&& owed.reward == reward_amount(
                    total_reward_unclaimed,
                    owed.seconds_inside_x32 as int,
                    total_seconds_unclaimed_x32(
                        start_time,
                        end_time,
                        current_time,
                        total_seconds_claimed_x32,
                    ),
                )
            },
            Err(e) => compute_reward_error(
                total_reward_unclaimed,
                total_seconds_claimed_x32,
                start_time,
                end_time,
                liquidity,
                seconds_per_liquidity_inside_initial_x32,
                seconds_per_liquidity_inside_x32,
                current_time,
            ) == Some(e),
        },
{
    if seconds_per_liquidity_inside_x32 < seconds_per_liquidity_inside_initial_x32 {
        return Err(ErrorCode::StaleOracleSnapshot);
    }
    let delta_x32: u64 =
        seconds_per_liquidity_inside_x32 - seconds_per_liquidity_inside_initial_x32;

    proof {
        assert((delta_x32 as int) * (liquidity as int) <= (u64::MAX as int) * (u64::MAX as int))
            by (nonlinear_arith)
            requires
                delta_x32 <= u64::MAX,
                liquidity <= u64::MAX,
        ;
    }
    let inside_product: u128 = (delta_x32 as u128) * (liquidity as u128);
    if inside_product > u64::MAX as u128 {
        return Err(ErrorCode::ArithmeticOverflow);
    }
    let seconds_inside: u64 = inside_product as u64;

    let end_or_now_time: i64 = if end_time >= current_time {
        end_time
    } else {
        current_time
    };
    let span: i128 = (end_or_now_time as i128) - (start_time as i128);
    if span > (u32::MAX as i128) {
        return Err(ErrorCode::ArithmeticOverflow);
    }
    let capacity_x32: u64 = (span as u64) * FIXED_POINT_32_ONE;

    if capacity_x32 <= total_seconds_claimed_x32 {
        return Err(ErrorCode::ArithmeticOverflow);
    }
    let unclaimed_x32: u64 = capacity_x32 - total_seconds_claimed_x32;

    match full_math::mul_div_floor(total_reward_unclaimed, seconds_inside, unclaimed_x32) {
        Some(reward) => Ok(RewardOwed { reward, seconds_inside_x32: seconds_inside }),
        None => Err(ErrorCode::ArithmeticOverflow),
    }
}

/// The voting-power-boosted effective liquidity: a convex blend of the
/// position's own liquidity (weight 0.4) and the pool's liquidity scaled by
/// the staker's share of total voting power (weight 0.6), capped at the
/// position's own liquidity so boosting never grants more than the raw
/// position earns.
pub open spec fn effective_liquidity(
    liquidity: u64,
    voting_power: u64,
    total_voting_power: u64,
    pool_liquidity: u64,
) -> int {
    let scaled = pool_liquidity * voting_power / (total_voting_power as int);
    let blended = liquidity * 4 / 10 + scaled * 6 / 10;
    if blended < liquidity {
        blended
    } else {
        liquidity as int
    }
}

/// Why the boosted reward computation fails, if it does: the voting-power
/// scaling must be well-defined and representable, and then the plain
/// computation must succeed on the effective liquidity.
pub open spec fn compute_reward_boosted_error(
    total_reward_unclaimed: u64,
    total_seconds_claimed_x32: u64,
    start_time: i64,
    end_time: i64,
    liquidity: u64,
    s0_x32: u64,
    s1_x32: u64,
    current_time: i64,
    voting_power: u64,
    total_voting_power: u64,
    pool_liquidity: u64,
) -> Option<ErrorCode> {
    if total_voting_power == 0 {
        Some(ErrorCode::ArithmeticOverflow)
    } else if pool_liquidity * voting_power / (total_voting_power as int) > u64::MAX {
        Some(ErrorCode::ArithmeticOverflow)
    } else {
        compute_reward_error(
            total_reward_unclaimed,
            total_seconds_claimed_x32,
            start_time,
            end_time,
            effective_liquidity(liquidity, voting_power, total_voting_power, pool_liquidity) as u64,
            s0_x32,
            s1_x32,
            current_time,
        )
    }
}

/// Computes the reward owed at unstake from a boosted incentive: like
/// [`compute_reward_amount`], but on the voting-power-boosted
/// [`effective_liquidity`] instead of the raw snapshot liquidity.
///
/// Must not be called before the incentive's start time; that is the caller's
/// responsibility, not a user-facing failure.
pub fn compute_reward_amount_boosted(
    total_reward_unclaimed: u64,
    total_seconds_claimed_x32: u64,
    start_time: i64,
    end_time: i64,
    liquidity: u64,
    seconds_per_liquidity_inside_initial_x32: u64,
    seconds_per_liquidity_inside_x32: u64,
    current_time: i64,
    voting_power: u64,
    total_voting_power: u64,
    pool_liquidity: u64,
) -> (r: Result<RewardOwed, ErrorCode>)
    requires
        current_time >= start_time,
    ensures
        match r {
            Ok(owed) => {
                &&& compute_reward_boosted_error(
                    total_reward_unclaimed,
                    total_seconds_claimed_x32,
                    start_time,
                    end_time,
                    liquidity,
                    seconds_per_liquidity_inside_initial_x32,
                    seconds_per_liquidity_inside_x32,
                    current_time,
                    voting_power,
                    total_voting_power,
                    pool_liquidity,
                ) is None
                &&& owed.seconds_inside_x32 == seconds_inside_x32(
                    effective_liquidity(
                        liquidity,
                        voting_power,
                        total_voting_power,
                        pool_liquidity,
                    ) as u64,
                    seconds_per_liquidity_inside_initial_x32,
                    seconds_per_liquidity_inside_x32,
                )
                &&& owed.reward == reward_amount(
                    total_reward_unclaimed,
                    owed.seconds_inside_x32 as int,
                    total_seconds_unclaimed_x32(
                        start_time,
                        end_time,
                        current_time,
                        total_seconds_claimed_x32,
                    ),
                )
            },
            Err(e) => compute_reward_boosted_error(
                total_reward_unclaimed,
                total_seconds_claimed_x32,
                start_time,
                end_time,
                liquidity,
                seconds_per_liquidity_inside_initial_x32,
                seconds_per_liquidity_inside_x32,
                current_time,
                voting_power,
                total_voting_power,
                pool_liquidity,
            ) == Some(e),
        },
{
    let scaled = match full_math::mul_div_floor(pool_liquidity, voting_power, total_voting_power) {
        Some(v) => v,
        None => {
            return Err(ErrorCode::ArithmeticOverflow);
        },
    };
    let blended: u128 = (liquidity as u128) * 4 / 10 + (scaled as u128) * 6 / 10;
    let eff: u64 = if blended < liquidity as u128 {
        blended as u64
    } else {
        liquidity
    };
    compute_reward_amount(
        total_reward_unclaimed,
        total_seconds_claimed_x32,
        start_time,
        end_time,
        eff,
        seconds_per_liquidity_inside_initial_x32,
        seconds_per_liquidity_inside_x32,
        current_time,
    )
}

/// The reward never exceeds the unclaimed pool: as long as a stake's accrued
/// liquidity-seconds are no more than the incentive's remaining capacity,
/// its floored pro-rata share is at most the whole remaining reward.
pub proof fn lemma_reward_within_unclaimed(
    total_reward_unclaimed: u64,
    seconds_inside_x32: int,
    total_seconds_unclaimed_x32: int,
)
    requires
        0 <= seconds_inside_x32 <= total_seconds_unclaimed_x32,
        0 < total_seconds_unclaimed_x32,
    ensures
        0 <= reward_amount(total_reward_unclaimed, seconds_inside_x32, total_seconds_unclaimed_x32)
            <= total_reward_unclaimed,
{
    let r = total_reward_unclaimed as int;
    vstd::arithmetic::mul::lemma_mul_nonnegative(r, seconds_inside_x32);
    vstd::arithmetic::div_mod::lemma_div_pos_is_pos(
        r * seconds_inside_x32,
        total_seconds_unclaimed_x32,
    );
    vstd::arithmetic::mul::lemma_mul_inequality(
        seconds_inside_x32,
        total_seconds_unclaimed_x32,
        r,
    );
    vstd::arithmetic::div_mod::lemma_multiply_divide_le(
        r * seconds_inside_x32,
        total_seconds_unclaimed_x32,
        r,
    );
}

/// The reward is monotonically non-decreasing in the accrued
/// liquidity-seconds, all other arguments fixed.
pub proof fn lemma_reward_monotone_in_seconds(
    total_reward_unclaimed: u64,
    seconds_a_x32: int,
    seconds_b_x32: int,
    total_seconds_unclaimed_x32: int,
)
    requires
        0 <= seconds_a_x32 <= seconds_b_x32,
        0 < total_seconds_unclaimed_x32,
    ensures
        reward_amount(total_reward_unclaimed, seconds_a_x32, total_seconds_unclaimed_x32)
            <= reward_amount(total_reward_unclaimed, seconds_b_x32, total_seconds_unclaimed_x32),
{
    let r = total_reward_unclaimed as int;
    vstd::arithmetic::mul::lemma_mul_inequality(seconds_a_x32, seconds_b_x32, r);
    vstd::arithmetic::div_mod::lemma_div_is_ordered(
        r * seconds_a_x32,
        r * seconds_b_x32,
        total_seconds_unclaimed_x32,
    );
}

/// Boosting never grants more than the position's own raw liquidity: the
/// effective liquidity is capped at `liquidity` for every voting power,
/// total voting power and pool liquidity, including a zero or dominant
/// voting-power share.
pub proof fn lemma_effective_liquidity_capped(
    liquidity: u64,
    voting_power: u64,
    total_voting_power: u64,
    pool_liquidity: u64,
)
    ensures
        effective_liquidity(liquidity, voting_power, total_voting_power, pool_liquidity)
            <= liquidity,
{
}

} // verus!
