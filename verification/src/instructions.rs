//! Operations.
//!
//! Each operation is one atomic unit of work against the hosting ledger: a
//! context struct holds the records the operation touches, and its method
//! either applies the whole state transition or fails with an [`crate::errors::ErrorCode`]
//! leaving every record unchanged.

pub mod add_reward;
pub mod claim_reward;
pub mod create_boosted_incentive;
pub mod create_deposit;
pub mod create_incentive;
pub mod create_reward_account;
pub mod end_incentive;
pub mod stake_token;
pub mod transfer_deposit;
pub mod unstake_token;
pub mod unstake_token_boosted;
pub mod withdraw_token;
