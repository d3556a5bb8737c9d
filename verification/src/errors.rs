//! Engine errors.
//!
//! Every operation is all-or-nothing: on any of these errors the whole
//! operation is aborted and no state change is observable.

use vstd::prelude::*;

verus! {

/// The distinguishable failures of the engine.
///
/// They fall into five kinds:
/// - schedule errors (a bad start/end time at incentive creation):
///   [`ErrorCode::StartTimeMustBeNowOrInTheFuture`],
///   [`ErrorCode::StartTimeTooFarIntoFuture`],
///   [`ErrorCode::StartTimeMustBeBeforeEndTime`],
///   [`ErrorCode::IncentiveDurationIsTooLong`];
/// - state errors (the operation does not apply to the current state):
///   [`ErrorCode::IncentiveNotStarted`], [`ErrorCode::IncentiveEnded`],
///   [`ErrorCode::NonExistentIncentive`], [`ErrorCode::NoRefundAvailable`],
///   [`ErrorCode::CannotEndIncentiveBeforeEndTime`],
///   [`ErrorCode::StakeAlreadyExists`], [`ErrorCode::StakeDoesNotExist`],
///   [`ErrorCode::IncentiveIsBoosted`], [`ErrorCode::IncentiveIsNotBoosted`],
///   [`ErrorCode::LockerMismatch`];
/// - authorization errors (the caller is not the required owner):
///   [`ErrorCode::OnlyOwnerCanStakeToken`],
///   [`ErrorCode::OnlyOwnerCanWithdrawToken`],
///   [`ErrorCode::OnlyOwnerCanWithdrawTokenBeforeEndTime`],
///   [`ErrorCode::OnlyOwnerCanUnstakeFromBoostedIncentive`],
///   [`ErrorCode::OnlyOwnerCanTransferDeposit`],
///   [`ErrorCode::OnlyOwnerCanClaimReward`];
/// - precondition errors:
///   [`ErrorCode::RewardMustBePositive`],
///   [`ErrorCode::CannotEndIncentiveWhileDepositsAreStaked`],
///   [`ErrorCode::CannotWithdrawTokenWhileStaked`],
///   [`ErrorCode::CannotWithdrawToStaker`],
///   [`ErrorCode::TokenPoolIsNotTheIncentivePool`],
///   [`ErrorCode::CannotStakeTokenWithZeroLiquidity`],
///   [`ErrorCode::StaleOracleSnapshot`];
/// - arithmetic errors (a fixed-point computation left the representable
///   range; the engine never saturates or wraps silently):
///   [`ErrorCode::ArithmeticOverflow`].
#[derive(Clone, Copy, Debug, PartialEq, Eq, Structural)]
pub enum ErrorCode {
    /// An added reward must be positive.
    RewardMustBePositive,
    /// An incentive's start time must be strictly in the future.
    StartTimeMustBeNowOrInTheFuture,
    /// An incentive's start time exceeds the maximum lead time from now.
    StartTimeTooFarIntoFuture,
    /// An incentive's start time must be before its end time.
    StartTimeMustBeBeforeEndTime,
    /// An incentive's duration exceeds the maximum duration.
    IncentiveDurationIsTooLong,
    /// An incentive cannot be ended before its end time has passed.
    CannotEndIncentiveBeforeEndTime,
    /// An incentive with no unclaimed reward has nothing to refund.
    NoRefundAvailable,
    /// An incentive cannot be ended while deposits are staked in it.
    CannotEndIncentiveWhileDepositsAreStaked,
    /// A deposit cannot be withdrawn back into the engine's own vault.
    CannotWithdrawToStaker,
    /// A deposit cannot be withdrawn while it is staked anywhere.
    CannotWithdrawTokenWhileStaked,
    /// Only the deposit owner can withdraw the deposit.
    OnlyOwnerCanWithdrawToken,
    /// Only the deposit owner can stake the deposit.
    OnlyOwnerCanStakeToken,
    /// The incentive's reward program has not started yet.
    IncentiveNotStarted,
    /// The incentive's reward program has already ended.
    IncentiveEnded,
    /// The incentive has no reward pool to distribute.
    NonExistentIncentive,
    /// The position's pool is not the incentive's pool.
    TokenPoolIsNotTheIncentivePool,
    /// A position with zero liquidity cannot be staked.
    CannotStakeTokenWithZeroLiquidity,
    /// Before the incentive's end time, only the deposit owner can unstake.
    OnlyOwnerCanWithdrawTokenBeforeEndTime,
    /// Only the deposit owner can unstake from a boosted incentive.
    OnlyOwnerCanUnstakeFromBoostedIncentive,
    /// Only the deposit owner can transfer the deposit.
    OnlyOwnerCanTransferDeposit,
    /// Only the reward account owner can claim from it.
    OnlyOwnerCanClaimReward,
    /// A stake for this (deposit, incentive) pair is already active.
    StakeAlreadyExists,
    /// No stake for this (deposit, incentive) pair is active.
    StakeDoesNotExist,
    /// The incentive is boosted; use the boosted unstake path.
    IncentiveIsBoosted,
    /// The incentive is not boosted; use the plain unstake path.
    IncentiveIsNotBoosted,
    /// The supplied locker is not the incentive's boost locker.
    LockerMismatch,
    /// The oracle snapshot at exit is older than the snapshot at entry.
    StaleOracleSnapshot,
    /// A fixed-point computation left the representable range.
    ArithmeticOverflow,
}

} // verus!
