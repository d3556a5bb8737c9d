//! Creating an empty reward account.

use vstd::prelude::*;

use crate::pubkey::Pubkey;
use crate::state::Reward;

verus! {

/// The identity of a new reward account: the reward token and the owner whose
/// claimable balance it tracks. One account exists per (token, owner) pair;
/// the hosting ledger enforces that uniqueness, so creation is idempotent.
pub struct CreateRewardAccount {
    /// The token being distributed as a reward.
    pub reward_token: Pubkey,
    /// The address whose claimable rewards are tracked.
    pub reward_owner: Pubkey,
}

impl CreateRewardAccount {
    /// Creates an empty reward account for the given token and owner.
    pub fn create_reward_account(&self) -> (r: Reward)
        ensures
            r == (Reward {
                reward_token: self.reward_token,
                owner: self.reward_owner,
                rewards_owed: 0,
            }),
    {
        Reward { reward_token: self.reward_token, owner: self.reward_owner, rewards_owed: 0 }
    }
}

} // verus!
