//! Creating a liquidity-mining incentive.

use vstd::prelude::*;

use crate::errors::ErrorCode;
use crate::pubkey::Pubkey;
use crate::state::{BoostConfig, Incentive};
use crate::{MAX_INCENTIVE_DURATION, MAX_INCENTIVE_START_LEAD_TIME};

verus! {

/// Why an incentive schedule is rejected, if it is: the start time must be
/// strictly in the future, at most the maximum lead time away, and the
/// window `[start_time, end_time)` must be non-empty and shorter than the
/// maximum duration.
pub open spec fn schedule_error(
    start_time: i64,
    end_time: i64,
    block_timestamp: i64,
) -> Option<ErrorCode> {
    if block_timestamp >= start_time {
        Some(ErrorCode::StartTimeMustBeNowOrInTheFuture)
    } else if start_time - block_timestamp > MAX_INCENTIVE_START_LEAD_TIME {
        Some(ErrorCode::StartTimeTooFarIntoFuture)
    } else if start_time >= end_time {
        Some(ErrorCode::StartTimeMustBeBeforeEndTime)
    } else if end_time - start_time >= MAX_INCENTIVE_DURATION {
        Some(ErrorCode::IncentiveDurationIsTooLong)
    } else {
        None
    }
}

/// The freshly created incentive record: zero balances, no stakes.
pub open spec fn new_incentive(
    reward_token: Pubkey,
    pool: Pubkey,
    refundee: Pubkey,
    start_time: i64,
    end_time: i64,
    boost: BoostConfig,
) -> Incentive {
    Incentive {
        reward_token,
        pool,
        refundee,
        start_time,
        end_time,
        total_reward_unclaimed: 0,
        total_seconds_claimed_x32: 0,
        number_of_stakes: 0,
        boost,
    }
}

/// Checks an incentive schedule against the clock, mirroring
/// [`schedule_error`]: the four checks in order.
pub fn check_schedule(start_time: i64, end_time: i64, block_timestamp: i64) -> (r: Result<
    (),
    ErrorCode,
>)
    ensures
        match r {
            Ok(()) => schedule_error(start_time, end_time, block_timestamp) is None,
            Err(e) => schedule_error(start_time, end_time, block_timestamp) == Some(e),
        },
{
    if block_timestamp >= start_time {
        return Err(ErrorCode::StartTimeMustBeNowOrInTheFuture);
    }
    if (start_time as i128) - (block_timestamp as i128) > MAX_INCENTIVE_START_LEAD_TIME as i128 {
        return Err(ErrorCode::StartTimeTooFarIntoFuture);
    }
    if start_time >= end_time {
        return Err(ErrorCode::StartTimeMustBeBeforeEndTime);
    }
    if (end_time as i128) - (start_time as i128) >= MAX_INCENTIVE_DURATION as i128 {
        return Err(ErrorCode::IncentiveDurationIsTooLong);
    }
    Ok(())
}

/// The identity of a new incentive: its reward token, pool and refundee.
/// Together with the schedule these five values identify the incentive
/// uniquely; the hosting ledger enforces that uniqueness at creation.
pub struct CreateIncentive {
    /// The token being distributed as a reward.
    pub reward_token: Pubkey,
    /// The pool to incentivize.
    pub pool: Pubkey,
    /// The address receiving any remaining reward when the incentive is ended.
    pub refundee: Pubkey,
}

/// Event emitted when an incentive has been created.
#[derive(Clone, Copy, Debug, PartialEq, Eq)]
pub struct IncentiveCreatedEvent {
    /// The token being distributed as a reward.
    pub reward_token: Pubkey,
    /// The incentivized pool.
    pub pool: Pubkey,
    /// The address receiving any remaining reward when the incentive is ended.
    pub refundee: Pubkey,
    /// When the reward program begins.
    pub start_time: i64,
    /// When rewards stop accruing.
    pub end_time: i64,
    /// The locker whose voting power boosts rewards, if any.
    pub boost_locker: Option<Pubkey>,
}

impl CreateIncentive {
    /// Creates a new incentive with the given schedule, validating it against
    /// the clock. On success the record starts with zero balances and no
    /// stakes.
    pub fn create_incentive(&self, start_time: i64, end_time: i64, block_timestamp: i64) -> (r:
        Result<(Incentive, IncentiveCreatedEvent), ErrorCode>)
        ensures
            match r {
                Ok((incentive, event)) => {
                    &&& schedule_error(start_time, end_time, block_timestamp) is None
                    &&& incentive == new_incentive(
                        self.reward_token,
                        self.pool,
                        self.refundee,
                        start_time,
                        end_time,
                        BoostConfig::Standard,
                    )
                    &&& incentive.wf()
                    &&& event == (IncentiveCreatedEvent {
                        reward_token: self.reward_token,
                        pool: self.pool,
                        refundee: self.refundee,
                        start_time,
                        end_time,
                        boost_locker: None,
                    })
                },
                Err(e) => schedule_error(start_time, end_time, block_timestamp) == Some(e),
            },
    {
        check_schedule(start_time, end_time, block_timestamp)?;
        let incentive = Incentive {
            reward_token: self.reward_token,
            pool: self.pool,
            refundee: self.refundee,
            start_time,
            end_time,
            total_reward_unclaimed: 0,
            total_seconds_claimed_x32: 0,
            number_of_stakes: 0,
            boost: BoostConfig::Standard,
        };
        let event = IncentiveCreatedEvent {
            reward_token: self.reward_token,
            pool: self.pool,
            refundee: self.refundee,
            start_time,
            end_time,
            boost_locker: None,
        };
        Ok((incentive, event))
    }
}

} // verus!
