//! Closing a stake and crediting its reward.

use vstd::prelude::*;

use crate::errors::ErrorCode;
use crate::pubkey::Pubkey;
use crate::reward_math;
use crate::reward_math::{
    compute_reward_error, reward_amount, seconds_inside_x32, total_seconds_unclaimed_x32,
};
use crate::state::{BoostConfig, Deposit, Incentive, Reward, Stake};

verus! {

/// Event emitted when a position has been unstaked.
#[derive(Clone, Copy, Debug, PartialEq, Eq)]
pub struct UnstakeTokenEvent {
    /// The unstaked position's mint.
    pub mint: Pubkey,
    /// The incentive the position was staked in.
    pub incentive: Pubkey,
}

/// Why a plain unstake is rejected, if it is: the incentive must not be
/// boosted, before the end time only the deposit owner may unstake (after it
/// anyone may, as a sweep), the counters must not underflow, and the reward
/// computation and credit must stay representable.
pub open spec fn unstake_token_error(cx: UnstakeToken, block_timestamp: i64, s1_x32: u64) -> Option<
    ErrorCode,
> {
    let s_inside = seconds_inside_x32(
        cx.stake.liquidity,
        cx.stake.seconds_per_liquidity_inside_initial_x32,
        s1_x32,
    );
    let t_unclaimed = total_seconds_unclaimed_x32(
        cx.incentive.start_time,
        cx.incentive.end_time,
        block_timestamp,
        cx.incentive.total_seconds_claimed_x32,
    );
    let reward = reward_amount(cx.incentive.total_reward_unclaimed, s_inside, t_unclaimed);
    if !(cx.incentive.boost is Standard) {
        Some(ErrorCode::IncentiveIsBoosted)
    } else if block_timestamp < cx.incentive.end_time && cx.signer != cx.deposit.owner {
        Some(ErrorCode::OnlyOwnerCanWithdrawTokenBeforeEndTime)
    } else if cx.deposit.number_of_stakes == 0 || cx.incentive.number_of_stakes == 0 {
        Some(ErrorCode::ArithmeticOverflow)
    } else if compute_reward_error(
        cx.incentive.total_reward_unclaimed,
        cx.incentive.total_seconds_claimed_x32,
        cx.incentive.start_time,
        cx.incentive.end_time,
        cx.stake.liquidity,
        cx.stake.seconds_per_liquidity_inside_initial_x32,
        s1_x32,
        block_timestamp,
    ) is Some {
        compute_reward_error(
            cx.incentive.total_reward_unclaimed,
            cx.incentive.total_seconds_claimed_x32,
            cx.incentive.start_time,
            cx.incentive.end_time,
            cx.stake.liquidity,
            cx.stake.seconds_per_liquidity_inside_initial_x32,
            s1_x32,
            block_timestamp,
        )
    } else if cx.incentive.total_seconds_claimed_x32 + s_inside > u64::MAX {
        Some(ErrorCode::ArithmeticOverflow)
    } else if reward > cx.incentive.total_reward_unclaimed {
        Some(ErrorCode::ArithmeticOverflow)
    } else if cx.reward.rewards_owed + reward > u64::MAX {
        Some(ErrorCode::ArithmeticOverflow)
    } else {
        None
    }
}

/// A successful unstake's whole effect on the touched records, given the
/// exit snapshot `s1_x32`: the accrued liquidity-seconds move into the
/// incentive's claimed total, the floored pro-rata reward moves from the
/// incentive's unclaimed pool into the owner's reward account, both stake
/// counters go down by one, and the stake record is deleted by the caller.
pub open spec fn unstake_token_effect(
    pre: UnstakeToken,
    post: UnstakeToken,
    block_timestamp: i64,
    s1_x32: u64,
) -> bool {
    let s_inside = seconds_inside_x32(
        pre.stake.liquidity,
        pre.stake.seconds_per_liquidity_inside_initial_x32,
        s1_x32,
    );
    let t_unclaimed = total_seconds_unclaimed_x32(
        pre.incentive.start_time,
        pre.incentive.end_time,
        block_timestamp,
        pre.incentive.total_seconds_claimed_x32,
    );
    let reward = reward_amount(pre.incentive.total_reward_unclaimed, s_inside, t_unclaimed);
    &&& post.incentive == (Incentive {
        total_reward_unclaimed: (pre.incentive.total_reward_unclaimed - reward) as u64,
        total_seconds_claimed_x32: (pre.incentive.total_seconds_claimed_x32 + s_inside) as u64,
        number_of_stakes: (pre.incentive.number_of_stakes - 1) as u32,
        ..pre.incentive
    })
    &&& post.deposit == (Deposit {
        number_of_stakes: (pre.deposit.number_of_stakes - 1) as u8,
        ..pre.deposit
    })
    &&& post.reward == (Reward {
        rewards_owed: (pre.reward.rewards_owed + reward) as u64,
        ..pre.reward
    })
    &&& post.stake == pre.stake
    &&& post.incentive_key == pre.incentive_key
    &&& post.signer == pre.signer
}

/// One plain (non-boosted) unstake.
pub struct UnstakeToken {
    /// The active stake being closed.
    pub stake: Stake,
    /// The incentive's address.
    pub incentive_key: Pubkey,
    /// The incentive the position is staked in.
    pub incentive: Incentive,
    /// The deposit whose position is staked.
    pub deposit: Deposit,
    /// The reward account of (incentive reward token, deposit owner).
    pub reward: Reward,
    /// The caller.
    pub signer: Pubkey,
}

impl UnstakeToken {
    /// Closes the stake against the exit oracle snapshot
    /// `seconds_per_liquidity_inside_x32`, sampled by the caller at call
    /// time: credits the floored pro-rata reward to the owner's reward
    /// account and retires the accrued liquidity-seconds from the
    /// incentive's remaining capacity. On success the caller deletes the
    /// stake record.
    ///
    /// Must not be called before the incentive's start time; stakes only
    /// open after it.
    pub fn unstake_token(&mut self, block_timestamp: i64, seconds_per_liquidity_inside_x32: u64)
        -> (r: Result<UnstakeTokenEvent, ErrorCode>)
        requires
            old(self).incentive.start_time <= block_timestamp,
            old(self).stake.incentive == old(self).incentive_key,
            old(self).stake.mint == old(self).deposit.mint,
            old(self).reward.reward_token == old(self).incentive.reward_token,
            old(self).reward.owner == old(self).deposit.owner,
        ensures
            match r {
                Ok(event) => {
                    &&& unstake_token_error(
                        *old(self),
                        block_timestamp,
                        seconds_per_liquidity_inside_x32,
                    ) is None
                    &&& unstake_token_effect(
                        *old(self),
                        *final(self),
                        block_timestamp,
                        seconds_per_liquidity_inside_x32,
                    )
                    &&& event == (UnstakeTokenEvent {
                        mint: old(self).deposit.mint,
                        incentive: old(self).incentive_key,
                    })
                },
                Err(e) => {
                    &&& unstake_token_error(
                        *old(self),
                        block_timestamp,
                        seconds_per_liquidity_inside_x32,
                    ) == Some(e)
                    &&& *final(self) == *old(self)
                },
            },
    {
        match self.incentive.boost {
            BoostConfig::Boosted(_) => {
                return Err(ErrorCode::IncentiveIsBoosted);
            },
            BoostConfig::Standard => {},
        }
        if block_timestamp < self.incentive.end_time && self.signer != self.deposit.owner {
            return Err(ErrorCode::OnlyOwnerCanWithdrawTokenBeforeEndTime);
        }
        if self.deposit.number_of_stakes == 0 || self.incentive.number_of_stakes == 0 {
            return Err(ErrorCode::ArithmeticOverflow);
        }
        let owed = match reward_math::compute_reward_amount(
            self.incentive.total_reward_unclaimed,
            self.incentive.total_seconds_claimed_x32,
            self.incentive.start_time,
            self.incentive.end_time,
            self.stake.liquidity,
            self.stake.seconds_per_liquidity_inside_initial_x32,
            seconds_per_liquidity_inside_x32,
            block_timestamp,
        ) {
            Ok(owed) => owed,
            Err(e) => {
                return Err(e);
            },
        };
        let new_claimed = match self.incentive.total_seconds_claimed_x32.checked_add(
            owed.seconds_inside_x32,
        ) {
            Some(v) => v,
            None => {
                return Err(ErrorCode::ArithmeticOverflow);
            },
        };
        if owed.reward > self.incentive.total_reward_unclaimed {
            return Err(ErrorCode::ArithmeticOverflow);
        }
        let new_rewards_owed = match self.reward.rewards_owed.checked_add(owed.reward) {
            Some(v) => v,
            None => {
                return Err(ErrorCode::ArithmeticOverflow);
            },
        };
        self.deposit.number_of_stakes = self.deposit.number_of_stakes - 1;
        self.incentive.number_of_stakes = self.incentive.number_of_stakes - 1;
        self.incentive.total_seconds_claimed_x32 = new_claimed;
        self.incentive.total_reward_unclaimed = self.incentive.total_reward_unclaimed
            - owed.reward;
        self.reward.rewards_owed = new_rewards_owed;
        Ok(UnstakeTokenEvent { mint: self.deposit.mint, incentive: self.incentive_key })
    }
}

} // verus!
