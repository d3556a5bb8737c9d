//! Funding an incentive's reward pool.

use vstd::prelude::*;

use crate::errors::ErrorCode;
use crate::pubkey::Pubkey;
use crate::state::Incentive;

verus! {

/// Event emitted when a reward is added to an incentive.
#[derive(Clone, Copy, Debug, PartialEq, Eq)]
pub struct AddRewardEvent {
    /// The funded incentive.
    pub incentive: Pubkey,
    /// The reward amount added.
    pub reward: u64,
}

/// Why funding is rejected, if it is: the amount must be positive and the
/// pool must stay representable.
pub open spec fn add_reward_error(incentive: Incentive, reward: u64) -> Option<ErrorCode> {
    if reward == 0 {
        Some(ErrorCode::RewardMustBePositive)
    } else if incentive.total_reward_unclaimed + reward > u64::MAX {
        Some(ErrorCode::ArithmeticOverflow)
    } else {
        None
    }
}

/// One funding operation against an incentive.
pub struct AddReward {
    /// The funded incentive's address.
    pub incentive_key: Pubkey,
    /// The funded incentive.
    pub incentive: Incentive,
}

impl AddReward {
    /// Adds `reward` of the reward token to the incentive's unclaimed pool.
    /// On success the caller must move `reward` of the reward token into the
    /// engine's vault.
    pub fn add_reward(&mut self, reward: u64) -> (r: Result<AddRewardEvent, ErrorCode>)
        ensures
            match r {
                Ok(event) => {
                    &&& add_reward_error(old(self).incentive, reward) is None
                    &&& final(self).incentive == (Incentive {
                        total_reward_unclaimed: (old(self).incentive.total_reward_unclaimed
                            + reward) as u64,
                        ..old(self).incentive
                    })
                    &&& final(self).incentive_key == old(self).incentive_key
                    &&& event == (AddRewardEvent { incentive: old(self).incentive_key, reward })
                },
                Err(e) => {
                    &&& add_reward_error(old(self).incentive, reward) == Some(e)
                    &&& *final(self) == *old(self)
                },
            },
    {
        if reward == 0 {
            return Err(ErrorCode::RewardMustBePositive);
        }
        match self.incentive.total_reward_unclaimed.checked_add(reward) {
            Some(funded) => {
                self.incentive.total_reward_unclaimed = funded;
                Ok(AddRewardEvent { incentive: self.incentive_key, reward })
            },
            None => Err(ErrorCode::ArithmeticOverflow),
        }
    }
}

} // verus!
