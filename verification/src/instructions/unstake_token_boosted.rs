//! Closing a stake in a boosted incentive.

use vstd::prelude::*;

use crate::errors::ErrorCode;
use crate::instructions::unstake_token::UnstakeTokenEvent;
use crate::pubkey::Pubkey;
use crate::reward_math;
use crate::reward_math::{
    compute_reward_boosted_error, effective_liquidity, reward_amount, seconds_inside_x32,
    total_seconds_unclaimed_x32,
};
use crate::state::{BoostConfig, Deposit, Incentive, Locker, Reward, Stake};

verus! {

/// The hypothetical ceiling of total voting power: the whole locked supply
/// at the maximum vote multiplier. This is a ceiling, not the locked power
/// at a point in time, so a staker's boost share is measured conservatively.
pub open spec fn max_voting_power(locker: Locker) -> int {
    locker.locked_supply * locker.max_stake_vote_multiplier
}

/// Why a boosted unstake is rejected, if it is: only the deposit owner may
/// unstake from a boosted incentive (no permissionless sweep), the incentive
/// must be boosted by exactly the supplied locker, the counters must not
/// underflow, the voting-power ceiling must be representable, and the
/// boosted reward computation and credit must stay representable.
pub open spec fn unstake_token_boosted_error(
    cx: UnstakeTokenBoosted,
    block_timestamp: i64,
    s1_x32: u64,
    voting_power: u64,
    pool_liquidity: u64,
) -> Option<ErrorCode> {
    let s_inside = seconds_inside_x32(
        boosted_stake_liquidity(cx, voting_power, pool_liquidity),
        cx.stake.seconds_per_liquidity_inside_initial_x32,
        s1_x32,
    );
    let t_unclaimed = total_seconds_unclaimed_x32(
        cx.incentive.start_time,
        cx.incentive.end_time,
        block_timestamp,
        cx.incentive.total_seconds_claimed_x32,
    );
    let reward = reward_amount(cx.incentive.total_reward_unclaimed, s_inside, t_unclaimed);
    if cx.signer != cx.deposit.owner {
        Some(ErrorCode::OnlyOwnerCanUnstakeFromBoostedIncentive)
    } else if cx.incentive.boost is Standard {
        Some(ErrorCode::IncentiveIsNotBoosted)
    } else if cx.incentive.boost != BoostConfig::Boosted(cx.locker.key) {
        Some(ErrorCode::LockerMismatch)
    } else if cx.deposit.number_of_stakes == 0 || cx.incentive.number_of_stakes == 0 {
        Some(ErrorCode::ArithmeticOverflow)
    } else if max_voting_power(cx.locker) > u64::MAX {
        Some(ErrorCode::ArithmeticOverflow)
    } else if compute_reward_boosted_error(
        cx.incentive.total_reward_unclaimed,
        cx.incentive.total_seconds_claimed_x32,
        cx.incentive.start_time,
        cx.incentive.end_time,
        cx.stake.liquidity,
        cx.stake.seconds_per_liquidity_inside_initial_x32,
        s1_x32,
        block_timestamp,
        voting_power,
        max_voting_power(cx.locker) as u64,
        pool_liquidity,
    ) is Some {
        compute_reward_boosted_error(
            cx.incentive.total_reward_unclaimed,
            cx.incentive.total_seconds_claimed_x32,
            cx.incentive.start_time,
            cx.incentive.end_time,
            cx.stake.liquidity,
            cx.stake.seconds_per_liquidity_inside_initial_x32,
            s1_x32,
            block_timestamp,
            voting_power,
            max_voting_power(cx.locker) as u64,
            pool_liquidity,
        )
    } else if cx.incentive.total_seconds_claimed_x32 + s_inside > u64::MAX {
        Some(ErrorCode::ArithmeticOverflow)
    } else if reward > cx.incentive.total_reward_unclaimed {
        Some(ErrorCode::ArithmeticOverflow)
    } else if cx.reward.rewards_owed + reward > u64::MAX {
        Some(ErrorCode::ArithmeticOverflow)
    } else {
        None
    }
}

/// The liquidity a boosted stake accrues with: the voting-power-boosted
/// effective liquidity of the staked position, against the locker's
/// voting-power ceiling.
pub open spec fn boosted_stake_liquidity(
    cx: UnstakeTokenBoosted,
    voting_power: u64,
    pool_liquidity: u64,
) -> u64 {
    effective_liquidity(
        cx.stake.liquidity,
        voting_power,
        max_voting_power(cx.locker) as u64,
        pool_liquidity,
    ) as u64
}

/// A successful boosted unstake's whole effect on the touched records: as
/// the plain unstake, but the accrued liquidity-seconds are measured on the
/// boosted effective liquidity.
pub open spec fn unstake_token_boosted_effect(
    pre: UnstakeTokenBoosted,
    post: UnstakeTokenBoosted,
    block_timestamp: i64,
    s1_x32: u64,
    voting_power: u64,
    pool_liquidity: u64,
) -> bool {
    let s_inside = seconds_inside_x32(
        boosted_stake_liquidity(pre, voting_power, pool_liquidity),
        pre.stake.seconds_per_liquidity_inside_initial_x32,
        s1_x32,
    );
    let t_unclaimed = total_seconds_unclaimed_x32(
        pre.incentive.start_time,
        pre.incentive.end_time,
        block_timestamp,
        pre.incentive.total_seconds_claimed_x32,
    );
    let reward = reward_amount(pre.incentive.total_reward_unclaimed, s_inside, t_unclaimed);
    &&& post.incentive == (Incentive {
        total_reward_unclaimed: (pre.incentive.total_reward_unclaimed - reward) as u64,
        total_seconds_claimed_x32: (pre.incentive.total_seconds_claimed_x32 + s_inside) as u64,
        number_of_stakes: (pre.incentive.number_of_stakes - 1) as u32,
        ..pre.incentive
    })
    &&& post.deposit == (Deposit {
        number_of_stakes: (pre.deposit.number_of_stakes - 1) as u8,
        ..pre.deposit
    })
    &&& post.reward == (Reward {
        rewards_owed: (pre.reward.rewards_owed + reward) as u64,
        ..pre.reward
    })
    &&& post.stake == pre.stake
    &&& post.incentive_key == pre.incentive_key
    &&& post.signer == pre.signer
    &&& post.locker == pre.locker
}

/// One boosted unstake.
pub struct UnstakeTokenBoosted {
    /// The active stake being closed.
    pub stake: Stake,
    /// The incentive's address.
    pub incentive_key: Pubkey,
    /// The incentive the position is staked in.
    pub incentive: Incentive,
    /// The boost locker, as read from the governance system.
    pub locker: Locker,
    /// The deposit whose position is staked.
    pub deposit: Deposit,
    /// The reward account of (incentive reward token, deposit owner).
    pub reward: Reward,
    /// The caller, who must be the deposit owner.
    pub signer: Pubkey,
}

impl UnstakeTokenBoosted {
    /// Closes the stake against the exit oracle snapshot
    /// `seconds_per_liquidity_inside_x32` with a voting-power boost: the
    /// caller samples the snapshot and the pool's liquidity from the AMM and
    /// the signer's `voting_power` from the governance locker at call time.
    /// Credits the floored pro-rata reward of the boosted effective
    /// liquidity to the owner's reward account. On success the caller
    /// deletes the stake record.
    ///
    /// Must not be called before the incentive's start time; stakes only
    /// open after it.
    pub fn unstake_token_boosted(
        &mut self,
        block_timestamp: i64,
        seconds_per_liquidity_inside_x32: u64,
        voting_power: u64,
        pool_liquidity: u64,
    ) -> (r: Result<UnstakeTokenEvent, ErrorCode>)
        requires
            old(self).incentive.start_time <= block_timestamp,
            old(self).stake.incentive == old(self).incentive_key,
            old(self).stake.mint == old(self).deposit.mint,
            old(self).reward.reward_token == old(self).incentive.reward_token,
            old(self).reward.owner == old(self).deposit.owner,
        ensures
            match r {
                Ok(event) => {
                    &&& unstake_token_boosted_error(
                        *old(self),
                        block_timestamp,
                        seconds_per_liquidity_inside_x32,
                        voting_power,
                        pool_liquidity,
                    ) is None
                    &&& unstake_token_boosted_effect(
                        *old(self),
                        *final(self),
                        block_timestamp,
                        seconds_per_liquidity_inside_x32,
                        voting_power,
                        pool_liquidity,
                    )
                    &&& event == (UnstakeTokenEvent {
                        mint: old(self).deposit.mint,
                        incentive: old(self).incentive_key,
                    })
                },
                Err(e) => {
                    &&& unstake_token_boosted_error(
                        *old(self),
                        block_timestamp,
                        seconds_per_liquidity_inside_x32,
                        voting_power,
                        pool_liquidity,
                    ) == Some(e)
                    &&& *final(self) == *old(self)
                },
            },
    {
        if self.signer != self.deposit.owner {
            return Err(ErrorCode::OnlyOwnerCanUnstakeFromBoostedIncentive);
        }
        match self.incentive.boost {
            BoostConfig::Standard => {
                return Err(ErrorCode::IncentiveIsNotBoosted);
            },
            BoostConfig::Boosted(locker_key) => {
                if locker_key != self.locker.key {
                    return Err(ErrorCode::LockerMismatch);
                }
            },
        }
        if self.deposit.number_of_stakes == 0 || self.incentive.number_of_stakes == 0 {
            return Err(ErrorCode::ArithmeticOverflow);
        }
        let total_voting_power = match self.locker.locked_supply.checked_mul(
            self.locker.max_stake_vote_multiplier as u64,
        ) {
            Some(v) => v,
            None => {
                return Err(ErrorCode::ArithmeticOverflow);
            },
        };
        let owed = match reward_math::compute_reward_amount_boosted(
            self.incentive.total_reward_unclaimed,
            self.incentive.total_seconds_claimed_x32,
            self.incentive.start_time,
            self.incentive.end_time,
            self.stake.liquidity,
            self.stake.seconds_per_liquidity_inside_initial_x32,
            seconds_per_liquidity_inside_x32,
            block_timestamp,
            voting_power,
            total_voting_power,
            pool_liquidity,
        ) {
            Ok(owed) => owed,
            Err(e) => {
                return Err(e);
            },
        };
        let new_claimed = match self.incentive.total_seconds_claimed_x32.checked_add(
            owed.seconds_inside_x32,
        ) {
            Some(v) => v,
            None => {
                return Err(ErrorCode::ArithmeticOverflow);
            },
        };
        if owed.reward > self.incentive.total_reward_unclaimed {
            return Err(ErrorCode::ArithmeticOverflow);
        }
        let new_rewards_owed = match self.reward.rewards_owed.checked_add(owed.reward) {
            Some(v) => v,
            None => {
                return Err(ErrorCode::ArithmeticOverflow);
            },
        };
        self.deposit.number_of_stakes = self.deposit.number_of_stakes - 1;
        self.incentive.number_of_stakes = self.incentive.number_of_stakes - 1;
        self.incentive.total_seconds_claimed_x32 = new_claimed;
        self.incentive.total_reward_unclaimed = self.incentive.total_reward_unclaimed
            - owed.reward;
        self.reward.rewards_owed = new_rewards_owed;
        Ok(UnstakeTokenEvent { mint: self.deposit.mint, incentive: self.incentive_key })
    }
}

} // verus!
