//! State records.

use vstd::prelude::*;

use crate::pubkey::Pubkey;

verus! {

/// Whether an incentive's rewards are boosted by governance voting power.
///
/// A boosted incentive names the locker whose voting power scales the
/// effective liquidity at unstake; it also restricts unstaking to the deposit
/// owner (no permissionless sweep after the end time).
#[derive(Clone, Copy, Debug, PartialEq, Eq, Structural)]
pub enum BoostConfig {
    /// Rewards are paid on raw position liquidity.
    Standard,
    /// Rewards are paid on voting-power-boosted effective liquidity,
    /// computed against the named locker.
    Boosted(Pubkey),
}

/// A time-bounded reward program scoped to one pool and one reward token.
#[derive(Clone, Copy, Debug, PartialEq, Eq, Structural)]
pub struct Incentive {
    /// The token being distributed as a reward.
    pub reward_token: Pubkey,
    /// The incentivized pool.
    pub pool: Pubkey,
    /// The address receiving any remaining reward when the incentive ends.
    pub refundee: Pubkey,
    /// When the reward program begins, in epoch seconds.
    pub start_time: i64,
    /// When rewards stop accruing, in epoch seconds.
    pub end_time: i64,
    /// The amount of reward token not yet claimed by users.
    pub total_reward_unclaimed: u64,
    /// Total liquidity-seconds claimed so far, as a UQ32.32.
    pub total_seconds_claimed_x32: u64,
    /// The count of deposits currently staked for the incentive.
    pub number_of_stakes: u32,
    /// Whether and how rewards are boosted by voting power.
    pub boost: BoostConfig,
}

impl Incentive {
    /// A structurally valid incentive: its reward window is non-empty.
    pub open spec fn wf(self) -> bool {
        self.start_time < self.end_time
    }
}

/// A custodied liquidity position available to be staked.
#[derive(Clone, Copy, Debug, PartialEq, Eq, Structural)]
pub struct Deposit {
    /// The position mint: the deposit's identity.
    pub mint: Pubkey,
    /// The owner of the deposit.
    pub owner: Pubkey,
    /// The count of incentives in which this position is currently staked.
    pub number_of_stakes: u8,
    /// The lower tick of the position's range.
    pub tick_lower: i32,
    /// The upper tick of the position's range.
    pub tick_upper: i32,
}

/// An active enrollment of one deposit in one incentive.
///
/// A stake exists only between `stake` and `unstake`, and at most one stake
/// is active per (deposit mint, incentive) pair at any time.
#[derive(Clone, Copy, Debug, PartialEq, Eq, Structural)]
pub struct Stake {
    /// The staked position's mint.
    pub mint: Pubkey,
    /// The incentive in which the position is staked.
    pub incentive: Pubkey,
    /// The pool's cumulative seconds per liquidity inside the position's
    /// range at the time of staking, as a UQ32.32.
    pub seconds_per_liquidity_inside_initial_x32: u64,
    /// The liquidity snapshotted at enrollment.
    pub liquidity: u64,
}

/// The claimable reward balance of one owner in one reward token.
#[derive(Clone, Copy, Debug, PartialEq, Eq, Structural)]
pub struct Reward {
    /// The token being distributed as a reward.
    pub reward_token: Pubkey,
    /// The owner whose claimable rewards are tracked.
    pub owner: Pubkey,
    /// The amount of the reward token claimable by the owner.
    pub rewards_owed: u64,
}

/// What the engine reads of a tokenized liquidity position.
///
/// The AMM owns the full position record; the engine only needs its identity,
/// its pool, and its raw liquidity.
#[derive(Clone, Copy, Debug, PartialEq, Eq, Structural)]
pub struct TokenizedPosition {
    /// The position mint.
    pub mint: Pubkey,
    /// The pool the position provides liquidity to.
    pub pool: Pubkey,
    /// The position's raw liquidity.
    pub liquidity: u64,
    /// The lower tick of the position's range.
    pub tick_lower: i32,
    /// The upper tick of the position's range.
    pub tick_upper: i32,
}

/// What the engine reads of a governance locker.
///
/// The governance system owns the full locker record; the engine only needs
/// its identity, the locked supply and the maximum vote multiplier, which
/// together bound the hypothetical ceiling of total voting power.
#[derive(Clone, Copy, Debug, PartialEq, Eq, Structural)]
pub struct Locker {
    /// The locker's address.
    pub key: Pubkey,
    /// The total amount of tokens locked in the locker.
    pub locked_supply: u64,
    /// The vote multiplier granted for the maximum lock period.
    pub max_stake_vote_multiplier: u8,
}

} // verus!
