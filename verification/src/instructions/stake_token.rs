//! Enrolling a deposit in an incentive.

use vstd::prelude::*;

use crate::errors::ErrorCode;
use crate::pubkey::Pubkey;
use crate::state::{Deposit, Incentive, Stake, TokenizedPosition};

verus! {

/// Event emitted when a position has been staked.
#[derive(Clone, Copy, Debug, PartialEq, Eq)]
pub struct StakeTokenEvent {
    /// The staked position's mint.
    pub mint: Pubkey,
    /// The incentive in which the position is staked.
    pub incentive: Pubkey,
    /// The amount of liquidity staked.
    pub liquidity: u64,
}

/// Why staking is rejected, if it is: the incentive must be live and funded,
/// the caller must own the deposit, the position must sit in the incentive's
/// pool with positive liquidity, and the stake counters must stay
/// representable.
pub open spec fn stake_token_error(cx: StakeToken, block_timestamp: i64) -> Option<ErrorCode> {
    if block_timestamp < cx.incentive.start_time {
        Some(ErrorCode::IncentiveNotStarted)
    } else if block_timestamp >= cx.incentive.end_time {
        Some(ErrorCode::IncentiveEnded)
    } else if cx.incentive.total_reward_unclaimed == 0 {
        Some(ErrorCode::NonExistentIncentive)
    } else if cx.deposit.owner != cx.owner {
        Some(ErrorCode::OnlyOwnerCanStakeToken)
    } else if cx.tokenized_position.pool != cx.incentive.pool {
        Some(ErrorCode::TokenPoolIsNotTheIncentivePool)
    } else if cx.tokenized_position.liquidity == 0 {
        Some(ErrorCode::CannotStakeTokenWithZeroLiquidity)
    } else if cx.deposit.number_of_stakes == u8::MAX {
        Some(ErrorCode::ArithmeticOverflow)
    } else if cx.incentive.number_of_stakes == u32::MAX {
        Some(ErrorCode::ArithmeticOverflow)
    } else {
        None
    }
}

/// The stake record a successful enrollment creates, snapshotting the
/// sampled liquidity and the entry oracle value.
pub open spec fn new_stake(
    cx: StakeToken,
    liquidity: u64,
    seconds_per_liquidity_inside_x32: u64,
) -> Stake {
    Stake {
        mint: cx.deposit.mint,
        incentive: cx.incentive_key,
        seconds_per_liquidity_inside_initial_x32: seconds_per_liquidity_inside_x32,
        liquidity,
    }
}

/// A successful enrollment's whole effect on the touched records: both stake
/// counters go up by one and nothing else changes.
pub open spec fn stake_token_effect(pre: StakeToken, post: StakeToken) -> bool {
    &&& post.incentive == (Incentive {
        number_of_stakes: (pre.incentive.number_of_stakes + 1) as u32,
        ..pre.incentive
    })
    &&& post.deposit == (Deposit {
        number_of_stakes: (pre.deposit.number_of_stakes + 1) as u8,
        ..pre.deposit
    })
    &&& post.incentive_key == pre.incentive_key
    &&& post.tokenized_position == pre.tokenized_position
    &&& post.owner == pre.owner
}

/// One enrollment of a deposit in an incentive.
pub struct StakeToken {
    /// The incentive's address.
    pub incentive_key: Pubkey,
    /// The incentive staked into.
    pub incentive: Incentive,
    /// The deposit being staked.
    pub deposit: Deposit,
    /// The deposited position, as read from the AMM.
    pub tokenized_position: TokenizedPosition,
    /// The caller, who must be the deposit owner.
    pub owner: Pubkey,
}

impl StakeToken {
    /// Opens a stake: bumps both stake counters and snapshots the AMM's
    /// current `liquidity` and cumulative seconds per liquidity inside the
    /// position's range, both sampled by the caller at call time.
    ///
    /// The returned stake is the one active enrollment of this (deposit,
    /// incentive) pair; the caller keeps it, and at most one may exist at a
    /// time.
    pub fn stake_token(
        &mut self,
        block_timestamp: i64,
        liquidity: u64,
        seconds_per_liquidity_inside_x32: u64,
    ) -> (r: Result<(Stake, StakeTokenEvent), ErrorCode>)
        requires
            old(self).tokenized_position.mint == old(self).deposit.mint,
        ensures
            match r {
                Ok((stake, event)) => {
                    &&& stake_token_error(*old(self), block_timestamp) is None
                    &&& stake_token_effect(*old(self), *final(self))
                    &&& stake == new_stake(
                        *old(self),
                        liquidity,
                        seconds_per_liquidity_inside_x32,
                    )
                    &&& event == (StakeTokenEvent {
                        mint: old(self).deposit.mint,
                        incentive: old(self).incentive_key,
                        liquidity,
                    })
                },
                Err(e) => {
                    &&& stake_token_error(*old(self), block_timestamp) == Some(e)
                    &&& *final(self) == *old(self)
                },
            },
    {
        if block_timestamp < self.incentive.start_time {
            return Err(ErrorCode::IncentiveNotStarted);
        }
        if block_timestamp >= self.incentive.end_time {
            return Err(ErrorCode::IncentiveEnded);
        }
        if self.incentive.total_reward_unclaimed == 0 {
            return Err(ErrorCode::NonExistentIncentive);
        }
        if self.deposit.owner != self.owner {
            return Err(ErrorCode::OnlyOwnerCanStakeToken);
        }
        if self.tokenized_position.pool != self.incentive.pool {
            return Err(ErrorCode::TokenPoolIsNotTheIncentivePool);
        }
        if self.tokenized_position.liquidity == 0 {
            return Err(ErrorCode::CannotStakeTokenWithZeroLiquidity);
        }
        let deposit_stakes = match self.deposit.number_of_stakes.checked_add(1) {
            Some(n) => n,
            None => {
                return Err(ErrorCode::ArithmeticOverflow);
            },
        };
        let incentive_stakes = match self.incentive.number_of_stakes.checked_add(1) {
            Some(n) => n,
            None => {
                return Err(ErrorCode::ArithmeticOverflow);
            },
        };
        self.deposit.number_of_stakes = deposit_stakes;
        self.incentive.number_of_stakes = incentive_stakes;
        let stake = Stake {
            mint: self.deposit.mint,
            incentive: self.incentive_key,
            seconds_per_liquidity_inside_initial_x32: seconds_per_liquidity_inside_x32,
            liquidity,
        };
        let event = StakeTokenEvent {
            mint: self.deposit.mint,
            incentive: self.incentive_key,
            liquidity,
        };
        Ok((stake, event))
    }
}

} // verus!
