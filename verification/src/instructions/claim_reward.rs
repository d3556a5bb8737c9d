//! Claiming accrued rewards.

use vstd::prelude::*;

use crate::errors::ErrorCode;
use crate::pubkey::Pubkey;
use crate::state::Reward;

verus! {

/// Event emitted when rewards have been claimed.
#[derive(Clone, Copy, Debug, PartialEq, Eq)]
pub struct RewardClaimed {
    /// The address the claimed rewards were sent to.
    pub to: Pubkey,
    /// The amount of reward tokens claimed.
    pub reward: u64,
}

/// The amount a claim pays out: the requested amount, capped at the owed
/// balance; requesting zero claims the whole balance.
pub open spec fn claim_payout(rewards_owed: u64, amount_requested: u64) -> u64 {
    if amount_requested > 0 && amount_requested < rewards_owed {
        amount_requested
    } else {
        rewards_owed
    }
}

/// A zero request claims the whole owed balance, leaving nothing behind: any
/// later claim, whatever it requests, pays out zero.
pub proof fn lemma_claim_all_then_nothing(rewards_owed: u64, amount_requested: u64)
    ensures
        claim_payout(rewards_owed, 0) == rewards_owed,
        claim_payout(0, amount_requested) == 0,
{
}

/// Why a claim is rejected, if it is: only the account owner may claim.
pub open spec fn claim_reward_error(reward: Reward, owner: Pubkey) -> Option<ErrorCode> {
    if reward.owner != owner {
        Some(ErrorCode::OnlyOwnerCanClaimReward)
    } else {
        None
    }
}

/// One claim against a reward account.
pub struct ClaimReward {
    /// The reward account claimed from.
    pub reward: Reward,
    /// The caller, who must be the account owner.
    pub owner: Pubkey,
    /// The address the payout is sent to.
    pub to: Pubkey,
}

impl ClaimReward {
    /// Debits the payout from the owed balance. On success the caller must
    /// transfer the event's `reward` amount from the engine's vault to `to`.
    /// A request of zero claims the whole owed balance; a request above the
    /// owed balance pays out exactly the owed balance.
    pub fn claim_reward(&mut self, amount_requested: u64) -> (r: Result<RewardClaimed, ErrorCode>)
        ensures
            match r {
                Ok(event) => {
                    &&& claim_reward_error(old(self).reward, old(self).owner) is None
                    &&& final(self).reward == (Reward {
                        rewards_owed: (old(self).reward.rewards_owed - claim_payout(
                            old(self).reward.rewards_owed,
                            amount_requested,
                        )) as u64,
                        ..old(self).reward
                    })
                    &&& final(self).owner == old(self).owner
                    &&& final(self).to == old(self).to
                    &&& event == (RewardClaimed {
                        to: old(self).to,
                        reward: claim_payout(old(self).reward.rewards_owed, amount_requested),
                    })
                },
                Err(e) => {
                    &&& claim_reward_error(old(self).reward, old(self).owner) == Some(e)
                    &&& *final(self) == *old(self)
                },
            },
    {
        if self.reward.owner != self.owner {
            return Err(ErrorCode::OnlyOwnerCanClaimReward);
        }
        let mut payout = self.reward.rewards_owed;
        if amount_requested > 0 && amount_requested < payout {
            payout = amount_requested;
        }
        self.reward.rewards_owed = self.reward.rewards_owed - payout;
        Ok(RewardClaimed { to: self.to, reward: payout })
    }
}

} // verus!
