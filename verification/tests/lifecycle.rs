use cykura_staker::errors::ErrorCode;
use cykura_staker::instructions::add_reward::AddReward;
use cykura_staker::instructions::claim_reward::ClaimReward;
use cykura_staker::instructions::create_boosted_incentive::CreateBoostedIncentive;
use cykura_staker::instructions::create_deposit::CreateDeposit;
use cykura_staker::instructions::create_incentive::CreateIncentive;
use cykura_staker::instructions::create_reward_account::CreateRewardAccount;
use cykura_staker::instructions::end_incentive::EndIncentive;
use cykura_staker::instructions::transfer_deposit::TransferDeposit;
use cykura_staker::instructions::withdraw_token::WithdrawToken;
use cykura_staker::pubkey::Pubkey;
use cykura_staker::state::{BoostConfig, Deposit, Incentive, Reward, TokenizedPosition};
use cykura_staker::{MAX_INCENTIVE_DURATION, MAX_INCENTIVE_START_LEAD_TIME};

fn key(id: u64) -> Pubkey {
    Pubkey { id }
}

fn creator() -> CreateIncentive {
    CreateIncentive { reward_token: key(1), pool: key(2), refundee: key(3) }
}

#[test]
fn create_incentive_succeeds_with_zero_balances() {
    let (incentive, event) = creator().create_incentive(100, 200, 50).unwrap();
    assert_eq!(incentive.reward_token, key(1));
    assert_eq!(incentive.pool, key(2));
    assert_eq!(incentive.refundee, key(3));
    assert_eq!(incentive.start_time, 100);
    assert_eq!(incentive.end_time, 200);
    assert_eq!(incentive.total_reward_unclaimed, 0);
    assert_eq!(incentive.total_seconds_claimed_x32, 0);
    assert_eq!(incentive.number_of_stakes, 0);
    assert_eq!(incentive.boost, BoostConfig::Standard);
    assert_eq!(event.boost_locker, None);
    assert_eq!(event.start_time, 100);
}

#[test]
fn create_incentive_rejects_start_in_the_past_or_now() {
    let r = creator().create_incentive(100, 200, 100);
    assert_eq!(r.unwrap_err(), ErrorCode::StartTimeMustBeNowOrInTheFuture);
    let r = creator().create_incentive(100, 200, 150);
    assert_eq!(r.unwrap_err(), ErrorCode::StartTimeMustBeNowOrInTheFuture);
}

#[test]
fn create_incentive_rejects_excessive_lead_time() {
    let start = MAX_INCENTIVE_START_LEAD_TIME + 1;
    let r = creator().create_incentive(start, start + 10, 0);
    assert_eq!(r.unwrap_err(), ErrorCode::StartTimeTooFarIntoFuture);
    // Exactly the maximum lead time is allowed.
    assert!(creator().create_incentive(start - 1, start + 10, 0).is_ok());
}

#[test]
fn create_incentive_rejects_empty_window() {
    let r = creator().create_incentive(100, 100, 50);
    assert_eq!(r.unwrap_err(), ErrorCode::StartTimeMustBeBeforeEndTime);
    let r = creator().create_incentive(100, 90, 50);
    assert_eq!(r.unwrap_err(), ErrorCode::StartTimeMustBeBeforeEndTime);
}

#[test]
fn create_incentive_rejects_excessive_duration() {
    let r = creator().create_incentive(100, 100 + MAX_INCENTIVE_DURATION, 50);
    assert_eq!(r.unwrap_err(), ErrorCode::IncentiveDurationIsTooLong);
    // One second under the maximum duration is allowed.
    assert!(creator().create_incentive(100, 99 + MAX_INCENTIVE_DURATION, 50).is_ok());
}

#[test]
fn create_boosted_incentive_binds_the_locker() {
    let cx = CreateBoostedIncentive {
        reward_token: key(1),
        pool: key(2),
        refundee: key(3),
        locker: key(9),
    };
    let (incentive, event) = cx.create_boosted_incentive(100, 200, 50).unwrap();
    assert_eq!(incentive.boost, BoostConfig::Boosted(key(9)));
    assert_eq!(event.boost_locker, Some(key(9)));
    let r = cx.create_boosted_incentive(100, 90, 50);
    assert_eq!(r.unwrap_err(), ErrorCode::StartTimeMustBeBeforeEndTime);
}

#[test]
fn add_reward_funds_the_pool() {
    let (incentive, _) = creator().create_incentive(100, 200, 50).unwrap();
    let mut cx = AddReward { incentive_key: key(10), incentive };
    let event = cx.add_reward(700).unwrap();
    assert_eq!(event.reward, 700);
    assert_eq!(event.incentive, key(10));
    assert_eq!(cx.incentive.total_reward_unclaimed, 700);
    let _ = cx.add_reward(300).unwrap();
    assert_eq!(cx.incentive.total_reward_unclaimed, 1000);
}

#[test]
fn add_reward_rejects_zero() {
    let (incentive, _) = creator().create_incentive(100, 200, 50).unwrap();
    let mut cx = AddReward { incentive_key: key(10), incentive };
    assert_eq!(cx.add_reward(0).unwrap_err(), ErrorCode::RewardMustBePositive);
    assert_eq!(cx.incentive.total_reward_unclaimed, 0);
}

#[test]
fn add_reward_rejects_overflow() {
    let (incentive, _) = creator().create_incentive(100, 200, 50).unwrap();
    let mut cx = AddReward { incentive_key: key(10), incentive };
    cx.add_reward(u64::MAX).unwrap();
    assert_eq!(cx.add_reward(1).unwrap_err(), ErrorCode::ArithmeticOverflow);
    assert_eq!(cx.incentive.total_reward_unclaimed, u64::MAX);
}

fn ended_incentive(unclaimed: u64, stakes: u32) -> EndIncentive {
    EndIncentive {
        incentive_key: key(10),
        incentive: Incentive {
            reward_token: key(1),
            pool: key(2),
            refundee: key(3),
            start_time: 100,
            end_time: 200,
            total_reward_unclaimed: unclaimed,
            total_seconds_claimed_x32: 77,
            number_of_stakes: stakes,
            boost: BoostConfig::Standard,
        },
    }
}

#[test]
fn end_incentive_refunds_and_zeroes_the_pool() {
    let mut cx = ended_incentive(1000, 0);
    let event = cx.end_incentive(201).unwrap();
    assert_eq!(event.refund, 1000);
    assert_eq!(event.incentive, key(10));
    assert_eq!(cx.incentive.total_reward_unclaimed, 0);
    // The claimed liquidity-seconds are left untouched.
    assert_eq!(cx.incentive.total_seconds_claimed_x32, 77);
}

#[test]
fn end_incentive_rejects_before_end_time() {
    let mut cx = ended_incentive(1000, 0);
    // Exactly the end time is still too early.
    assert_eq!(cx.end_incentive(200).unwrap_err(), ErrorCode::CannotEndIncentiveBeforeEndTime);
    assert_eq!(cx.incentive.total_reward_unclaimed, 1000);
}

#[test]
fn end_incentive_rejects_empty_pool() {
    let mut cx = ended_incentive(0, 0);
    assert_eq!(cx.end_incentive(201).unwrap_err(), ErrorCode::NoRefundAvailable);
}

#[test]
fn end_incentive_rejects_active_stakes() {
    let mut cx = ended_incentive(1000, 1);
    assert_eq!(
        cx.end_incentive(201).unwrap_err(),
        ErrorCode::CannotEndIncentiveWhileDepositsAreStaked
    );
    assert_eq!(cx.incentive.total_reward_unclaimed, 1000);
}

#[test]
fn create_reward_account_starts_empty() {
    let cx = CreateRewardAccount { reward_token: key(1), reward_owner: key(5) };
    let reward = cx.create_reward_account();
    assert_eq!(reward, Reward { reward_token: key(1), owner: key(5), rewards_owed: 0 });
}

#[test]
fn claim_zero_request_claims_everything() {
    let mut cx = ClaimReward {
        reward: Reward { reward_token: key(1), owner: key(5), rewards_owed: 123 },
        owner: key(5),
        to: key(6),
    };
    let event = cx.claim_reward(0).unwrap();
    assert_eq!(event.reward, 123);
    assert_eq!(event.to, key(6));
    assert_eq!(cx.reward.rewards_owed, 0);
    // A subsequent claim pays out nothing.
    let event = cx.claim_reward(50).unwrap();
    assert_eq!(event.reward, 0);
    assert_eq!(cx.reward.rewards_owed, 0);
}

#[test]
fn claim_partial_request_pays_the_request() {
    let mut cx = ClaimReward {
        reward: Reward { reward_token: key(1), owner: key(5), rewards_owed: 123 },
        owner: key(5),
        to: key(6),
    };
    let event = cx.claim_reward(100).unwrap();
    assert_eq!(event.reward, 100);
    assert_eq!(cx.reward.rewards_owed, 23);
    // A request above the balance pays out exactly the balance.
    let event = cx.claim_reward(100).unwrap();
    assert_eq!(event.reward, 23);
    assert_eq!(cx.reward.rewards_owed, 0);
}

#[test]
fn claim_rejects_non_owner() {
    let mut cx = ClaimReward {
        reward: Reward { reward_token: key(1), owner: key(5), rewards_owed: 123 },
        owner: key(7),
        to: key(6),
    };
    assert_eq!(cx.claim_reward(0).unwrap_err(), ErrorCode::OnlyOwnerCanClaimReward);
    assert_eq!(cx.reward.rewards_owed, 123);
}

fn position() -> TokenizedPosition {
    TokenizedPosition { mint: key(20), pool: key(2), liquidity: 10, tick_lower: -60, tick_upper: 60 }
}

#[test]
fn create_deposit_snapshots_the_range() {
    let cx = CreateDeposit { tokenized_position: position(), depositor: key(5) };
    let (deposit, event) = cx.create_deposit();
    assert_eq!(
        deposit,
        Deposit {
            mint: key(20),
            owner: key(5),
            number_of_stakes: 0,
            tick_lower: -60,
            tick_upper: 60,
        }
    );
    assert_eq!(event.old_owner, key(0));
    assert_eq!(event.new_owner, key(5));
}

#[test]
fn transfer_deposit_reassigns_the_owner() {
    let cx = CreateDeposit { tokenized_position: position(), depositor: key(5) };
    let (deposit, _) = cx.create_deposit();
    let mut cx = TransferDeposit { deposit, owner: key(5), to: key(8) };
    let event = cx.transfer_deposit().unwrap();
    assert_eq!(cx.deposit.owner, key(8));
    assert_eq!(event.old_owner, key(5));
    assert_eq!(event.new_owner, key(8));
}

#[test]
fn transfer_deposit_rejects_non_owner() {
    let cx = CreateDeposit { tokenized_position: position(), depositor: key(5) };
    let (deposit, _) = cx.create_deposit();
    let mut cx = TransferDeposit { deposit, owner: key(9), to: key(8) };
    assert_eq!(cx.transfer_deposit().unwrap_err(), ErrorCode::OnlyOwnerCanTransferDeposit);
    assert_eq!(cx.deposit.owner, key(5));
}

#[test]
fn withdraw_token_releases_an_unstaked_deposit() {
    let deposit =
        Deposit { mint: key(20), owner: key(5), number_of_stakes: 0, tick_lower: -60, tick_upper: 60 };
    let cx = WithdrawToken { deposit, owner: key(5), to: key(8), deposit_vault: key(30) };
    let event = cx.withdraw_token().unwrap();
    assert_eq!(event.old_owner, key(5));
    assert_eq!(event.new_owner, key(0));
}

#[test]
fn withdraw_token_rejects_non_owner() {
    let deposit =
        Deposit { mint: key(20), owner: key(5), number_of_stakes: 0, tick_lower: -60, tick_upper: 60 };
    let cx = WithdrawToken { deposit, owner: key(9), to: key(8), deposit_vault: key(30) };
    assert_eq!(cx.withdraw_token().unwrap_err(), ErrorCode::OnlyOwnerCanWithdrawToken);
}

#[test]
fn withdraw_token_rejects_staked_deposit() {
    let deposit =
        Deposit { mint: key(20), owner: key(5), number_of_stakes: 2, tick_lower: -60, tick_upper: 60 };
    let cx = WithdrawToken { deposit, owner: key(5), to: key(8), deposit_vault: key(30) };
    assert_eq!(cx.withdraw_token().unwrap_err(), ErrorCode::CannotWithdrawTokenWhileStaked);
}

#[test]
fn withdraw_token_rejects_vault_destination() {
    let deposit =
        Deposit { mint: key(20), owner: key(5), number_of_stakes: 0, tick_lower: -60, tick_upper: 60 };
    let cx = WithdrawToken { deposit, owner: key(5), to: key(30), deposit_vault: key(30) };
    assert_eq!(cx.withdraw_token().unwrap_err(), ErrorCode::CannotWithdrawToStaker);
}
