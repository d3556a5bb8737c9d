//! Ending an incentive and refunding what is left.

use vstd::prelude::*;

use crate::errors::ErrorCode;
use crate::pubkey::Pubkey;
use crate::state::Incentive;

verus! {

/// Event emitted when an incentive has ended.
#[derive(Clone, Copy, Debug, PartialEq, Eq)]
pub struct EndIncentiveEvent {
    /// The incentive which ended.
    pub incentive: Pubkey,
    /// The amount of reward tokens refunded to the refundee.
    pub refund: u64,
}

/// Why ending is rejected, if it is: the end time must have passed, there
/// must be something to refund, and no deposit may still be staked.
pub open spec fn end_incentive_error(incentive: Incentive, block_timestamp: i64) -> Option<
    ErrorCode,
> {
    if block_timestamp <= incentive.end_time {
        Some(ErrorCode::CannotEndIncentiveBeforeEndTime)
    } else if incentive.total_reward_unclaimed == 0 {
        Some(ErrorCode::NoRefundAvailable)
    } else if incentive.number_of_stakes != 0 {
        Some(ErrorCode::CannotEndIncentiveWhileDepositsAreStaked)
    } else {
        None
    }
}

/// One termination operation against an incentive.
pub struct EndIncentive {
    /// The ending incentive's address.
    pub incentive_key: Pubkey,
    /// The ending incentive.
    pub incentive: Incentive,
}

impl EndIncentive {
    /// Ends the incentive: zeroes its unclaimed reward pool. On success the
    /// caller must refund the event's `refund` amount of the reward token to
    /// the refundee. The claimed liquidity-seconds total is deliberately left
    /// untouched: an ended incentive's identity is never reused.
    pub fn end_incentive(&mut self, block_timestamp: i64) -> (r: Result<
        EndIncentiveEvent,
        ErrorCode,
    >)
        ensures
            match r {
                Ok(event) => {
                    &&& end_incentive_error(old(self).incentive, block_timestamp) is None
                    &&& final(self).incentive == (Incentive {
                        total_reward_unclaimed: 0,
                        ..old(self).incentive
                    })
                    &&& final(self).incentive_key == old(self).incentive_key
                    &&& event == (EndIncentiveEvent {
                        incentive: old(self).incentive_key,
                        refund: old(self).incentive.total_reward_unclaimed,
                    })
                },
                Err(e) => {
                    &&& end_incentive_error(old(self).incentive, block_timestamp) == Some(e)
                    &&& *final(self) == *old(self)
                },
            },
    {
        if block_timestamp <= self.incentive.end_time {
            return Err(ErrorCode::CannotEndIncentiveBeforeEndTime);
        }
        if self.incentive.total_reward_unclaimed == 0 {
            return Err(ErrorCode::NoRefundAvailable);
        }
        if self.incentive.number_of_stakes != 0 {
            return Err(ErrorCode::CannotEndIncentiveWhileDepositsAreStaked);
        }
        let refund = self.incentive.total_reward_unclaimed;
        self.incentive.total_reward_unclaimed = 0;
        Ok(EndIncentiveEvent { incentive: self.incentive_key, refund })
    }
}

} // verus!
