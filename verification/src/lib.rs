//! Liquidity-mining incentive accounting engine.
//!
//! A program owner funds time-bounded reward schedules ([`state::Incentive`])
//! tied to a concentrated-liquidity pool. Liquidity providers enroll their
//! deposited positions ([`state::Deposit`]) by opening a [`state::Stake`], and
//! on exit receive a pro-rata, time-weighted share of the reward pool,
//! optionally boosted by governance voting power. Claimable balances are
//! tracked per (reward token, owner) in [`state::Reward`].
//!
//! All time-weighted accounting is done in UQ32.32 fixed point (32 integer
//! bits, 32 fractional bits) with floor rounding, so the engine never
//! distributes more than was funded.
//!
//! Token custody, the AMM's cumulative seconds-per-liquidity oracle, and the
//! governance locker are external collaborators: callers sample those and pass
//! the values in as plain integers, and perform the token movements that the
//! operations here prescribe.

use vstd::prelude::*;

pub mod bonded_cys;
pub mod errors;
pub mod full_math;
pub mod instructions;
pub mod ledger;
pub mod pubkey;
pub mod reward_math;
pub mod state;
pub mod tracker;

verus! {

/// The maximum duration of an incentive, in seconds.
pub const MAX_INCENTIVE_DURATION: i64 = 63072000;

/// The maximum number of seconds into the future an incentive's start time
/// may be set.
pub const MAX_INCENTIVE_START_LEAD_TIME: i64 = 2592000;

} // verus!
