//! Creating an incentive whose rewards are boosted by voting power.

use vstd::prelude::*;

use crate::errors::ErrorCode;
use crate::instructions::create_incentive::{
    new_incentive, schedule_error, check_schedule, IncentiveCreatedEvent,
};
use crate::pubkey::Pubkey;
use crate::state::{BoostConfig, Incentive};

verus! {

/// The identity of a new boosted incentive: reward token, pool, refundee and
/// the locker whose voting power scales rewards at unstake.
pub struct CreateBoostedIncentive {
    /// The token being distributed as a reward.
    pub reward_token: Pubkey,
    /// The pool to incentivize.
    pub pool: Pubkey,
    /// The address receiving any remaining reward when the incentive is ended.
    pub refundee: Pubkey,
    /// The locker whose voting power boosts rewards.
    pub locker: Pubkey,
}

impl CreateBoostedIncentive {
    /// Creates a new incentive bound to a governance locker, validating the
    /// schedule against the clock. The boost restricts unstaking to the
    /// deposit owner and scales effective liquidity by voting power.
    pub fn create_boosted_incentive(
        &self,
        start_time: i64,
        end_time: i64,
        block_timestamp: i64,
    ) -> (r: Result<(Incentive, IncentiveCreatedEvent), ErrorCode>)
        ensures
            match r {
                Ok((incentive, event)) => {
                    &&& schedule_error(start_time, end_time, block_timestamp) is None
                    &&& incentive == new_incentive(
                        self.reward_token,
                        self.pool,
                        self.refundee,
                        start_time,
                        end_time,
                        BoostConfig::Boosted(self.locker),
                    )
                    &&& incentive.wf()
                    &&& event == (IncentiveCreatedEvent {
                        reward_token: self.reward_token,
                        pool: self.pool,
                        refundee: self.refundee,
                        start_time,
                        end_time,
                        boost_locker: Some(self.locker),
                    })
                },
                Err(e) => schedule_error(start_time, end_time, block_timestamp) == Some(e),
            },
    {
        check_schedule(start_time, end_time, block_timestamp)?;
        let incentive = Incentive {
            reward_token: self.reward_token,
            pool: self.pool,
            refundee: self.refundee,
            start_time,
            end_time,
            total_reward_unclaimed: 0,
            total_seconds_claimed_x32: 0,
            number_of_stakes: 0,
            boost: BoostConfig::Boosted(self.locker),
        };
        let event = IncentiveCreatedEvent {
            reward_token: self.reward_token,
            pool: self.pool,
            refundee: self.refundee,
            start_time,
            end_time,
            boost_locker: Some(self.locker),
        };
        Ok((incentive, event))
    }
}

} // verus!
