//! Conservation of the reward pool.
//!
//! One incentive's books over its whole history: everything ever funded is
//! exactly accounted for by what was paid out to claimers, what was refunded
//! to the refundee, what is still unclaimed in the pool, and what is credited
//! but not yet claimed. The model below states that as a transition system
//! over abstract books, proves the invariant for every operation sequence,
//! and a refinement lemma per operation shows that the engine's records move
//! the books exactly as the model does.

use vstd::prelude::*;

use crate::instructions::add_reward::{add_reward_error, AddReward};
use crate::instructions::claim_reward::{claim_payout, claim_reward_error, ClaimReward};
use crate::instructions::end_incentive::{end_incentive_error, EndIncentive};
use crate::instructions::stake_token::{stake_token_effect, stake_token_error, StakeToken};
use crate::instructions::unstake_token::{
    unstake_token_effect, unstake_token_error, UnstakeToken,
};
use crate::instructions::unstake_token_boosted::{
    boosted_stake_liquidity, unstake_token_boosted_effect, unstake_token_boosted_error,
    UnstakeTokenBoosted,
};
use crate::reward_math::{reward_amount, seconds_inside_x32, total_seconds_unclaimed_x32};
use crate::state::Incentive;

verus! {

/// One incentive's abstract books.
pub struct LedgerState {
    /// Everything ever funded into the incentive.
    pub added: int,
    /// Everything ever paid out by claims.
    pub claimed: int,
    /// Everything ever refunded to the refundee.
    pub refunded: int,
    /// The unclaimed reward pool (the incentive's own balance).
    pub unclaimed: int,
    /// Rewards credited to owners by unstakes but not yet claimed.
    pub owed: int,
    /// The count of open stakes.
    pub stakes: int,
}

/// The books of a freshly created incentive.
pub open spec fn initial_ledger() -> LedgerState {
    LedgerState { added: 0, claimed: 0, refunded: 0, unclaimed: 0, owed: 0, stakes: 0 }
}

/// One operation against the incentive, with the amounts the engine moved:
/// an unstake's `reward` is whatever RewardMath computed, a claim's `payout`
/// whatever the claim formula allowed.
pub enum LedgerOp {
    /// Funding the pool by `amount`.
    AddReward { amount: int },
    /// Opening a stake.
    OpenStake,
    /// Closing a stake that is owed `reward`.
    CloseStake { reward: int },
    /// Claiming `payout` of credited rewards.
    Claim { payout: int },
    /// Ending the incentive and refunding the rest of the pool.
    End,
}

/// How one operation moves the books. An operation whose guard fails moves
/// nothing: every failure is all-or-nothing.
pub open spec fn ledger_step(s: LedgerState, op: LedgerOp) -> LedgerState {
    match op {
        LedgerOp::AddReward { amount } => if 0 < amount && s.unclaimed + amount <= u64::MAX {
            LedgerState { added: s.added + amount, unclaimed: s.unclaimed + amount, ..s }
        } else {
            s
        },
        LedgerOp::OpenStake => if s.unclaimed > 0 {
            LedgerState { stakes: s.stakes + 1, ..s }
        } else {
            s
        },
        LedgerOp::CloseStake { reward } => if s.stakes > 0 && 0 <= reward <= s.unclaimed {
            LedgerState {
                stakes: s.stakes - 1,
                unclaimed: s.unclaimed - reward,
                owed: s.owed + reward,
                ..s
            }
        } else {
            s
        },
        LedgerOp::Claim { payout } => if 0 <= payout <= s.owed {
            LedgerState { owed: s.owed - payout, claimed: s.claimed + payout, ..s }
        } else {
            s
        },
        LedgerOp::End => if s.stakes == 0 && s.unclaimed > 0 {
            LedgerState { refunded: s.refunded + s.unclaimed, unclaimed: 0, ..s }
        } else {
            s
        },
    }
}

/// The books after a whole operation sequence.
pub open spec fn run_ledger(s: LedgerState, ops: Seq<LedgerOp>) -> LedgerState
    decreases ops.len(),
{
    if ops.len() == 0 {
        s
    } else {
        ledger_step(run_ledger(s, ops.drop_last()), ops.last())
    }
}

/// The conservation identity, with the sanity bounds that keep it inductive:
/// everything funded is paid out, refunded, still pooled, or still owed, and
/// no balance is negative.
pub open spec fn conserves(s: LedgerState) -> bool {
    &&& s.added == s.claimed + s.refunded + s.unclaimed + s.owed
    &&& s.unclaimed >= 0
    &&& s.owed >= 0
    &&& s.claimed >= 0
    &&& s.refunded >= 0
    &&& s.stakes >= 0
}

/// Every single operation preserves conservation of the books.
pub proof fn lemma_step_preserves_conservation(s: LedgerState, op: LedgerOp)
    requires
        conserves(s),
    ensures
        conserves(ledger_step(s, op)),
{
}

/// Conservation: for any sequence of fund/stake/unstake/claim/end operations
/// on one incentive, `sum(claimed) + sum(refunded) + unclaimed + owed ==
/// sum(added)`. In particular, once the pool is refunded and all credited
/// rewards are claimed, `sum(claimed) + sum(refunded) == sum(added)` exactly:
/// floor rounding loses nothing, it only shifts dust from claimers to the
/// refundee.
pub proof fn lemma_reward_conservation(ops: Seq<LedgerOp>)
    ensures
        conserves(run_ledger(initial_ledger(), ops)),
    decreases ops.len(),
{
    if ops.len() == 0 {
    } else {
        lemma_reward_conservation(ops.drop_last());
        lemma_step_preserves_conservation(run_ledger(initial_ledger(), ops.drop_last()), ops.last());
    }
}

/// Whether the abstract books agree with the records: the pool and the stake
/// count are the incentive's, and the credited-but-unclaimed total is
/// `rewards_owed` (the balance of this incentive's one reward account, where
/// the account collects from this incentive alone).
pub open spec fn books_match(s: LedgerState, incentive: Incentive, rewards_owed: u64) -> bool {
    &&& s.unclaimed == incentive.total_reward_unclaimed
    &&& s.stakes == incentive.number_of_stakes
    &&& s.owed == rewards_owed
}

/// A successful funding moves the records exactly as the model's funding
/// step moves the books.
pub proof fn lemma_add_reward_refines(
    s: LedgerState,
    pre: AddReward,
    post: AddReward,
    rewards_owed: u64,
    amount: u64,
)
    requires
        books_match(s, pre.incentive, rewards_owed),
        add_reward_error(pre.incentive, amount) is None,
        post.incentive == (Incentive {
            total_reward_unclaimed: (pre.incentive.total_reward_unclaimed + amount) as u64,
            ..pre.incentive
        }),
    ensures
        books_match(
            ledger_step(s, LedgerOp::AddReward { amount: amount as int }),
            post.incentive,
            rewards_owed,
        ),
{
}

/// A successful enrollment moves the records exactly as the model's
/// stake-opening step moves the books.
pub proof fn lemma_stake_refines(
    s: LedgerState,
    pre: StakeToken,
    post: StakeToken,
    rewards_owed: u64,
    block_timestamp: i64,
)
    requires
        books_match(s, pre.incentive, rewards_owed),
        stake_token_error(pre, block_timestamp) is None,
        stake_token_effect(pre, post),
    ensures
        books_match(ledger_step(s, LedgerOp::OpenStake), post.incentive, rewards_owed),
{
}

/// A successful unstake moves the records exactly as the model's
/// stake-closing step moves the books, with the reward RewardMath computed.
pub proof fn lemma_unstake_refines(
    s: LedgerState,
    pre: UnstakeToken,
    post: UnstakeToken,
    block_timestamp: i64,
    s1_x32: u64,
)
    requires
        books_match(s, pre.incentive, pre.reward.rewards_owed),
        unstake_token_error(pre, block_timestamp, s1_x32) is None,
        unstake_token_effect(pre, post, block_timestamp, s1_x32),
    ensures
        books_match(
            ledger_step(
                s,
                LedgerOp::CloseStake {
                    reward: reward_amount(
                        pre.incentive.total_reward_unclaimed,
                        seconds_inside_x32(
                            pre.stake.liquidity,
                            pre.stake.seconds_per_liquidity_inside_initial_x32,
                            s1_x32,
                        ),
                        total_seconds_unclaimed_x32(
                            pre.incentive.start_time,
                            pre.incentive.end_time,
                            block_timestamp,
                            pre.incentive.total_seconds_claimed_x32,
                        ),
                    ),
                },
            ),
            post.incentive,
            post.reward.rewards_owed,
        ),
{
    let s_inside = seconds_inside_x32(
        pre.stake.liquidity,
        pre.stake.seconds_per_liquidity_inside_initial_x32,
        s1_x32,
    );
    let t_unclaimed = total_seconds_unclaimed_x32(
        pre.incentive.start_time,
        pre.incentive.end_time,
        block_timestamp,
        pre.incentive.total_seconds_claimed_x32,
    );
    let reward = reward_amount(pre.incentive.total_reward_unclaimed, s_inside, t_unclaimed);
    vstd::arithmetic::mul::lemma_mul_nonnegative(
        pre.incentive.total_reward_unclaimed as int,
        s_inside,
    );
    vstd::arithmetic::div_mod::lemma_div_pos_is_pos(
        pre.incentive.total_reward_unclaimed * s_inside,
        t_unclaimed,
    );
}

/// A successful boosted unstake moves the records exactly as the model's
/// stake-closing step moves the books, with the boosted reward RewardMath
/// computed.
pub proof fn lemma_unstake_boosted_refines(
    s: LedgerState,
    pre: UnstakeTokenBoosted,
    post: UnstakeTokenBoosted,
    block_timestamp: i64,
    s1_x32: u64,
    voting_power: u64,
    pool_liquidity: u64,
)
    requires
        books_match(s, pre.incentive, pre.reward.rewards_owed),
        unstake_token_boosted_error(pre, block_timestamp, s1_x32, voting_power, pool_liquidity)
            is None,
        unstake_token_boosted_effect(
            pre,
            post,
            block_timestamp,
            s1_x32,
            voting_power,
            pool_liquidity,
        ),
    ensures
        books_match(
            ledger_step(
                s,
                LedgerOp::CloseStake {
                    reward: reward_amount(
                        pre.incentive.total_reward_unclaimed,
                        seconds_inside_x32(
                            boosted_stake_liquidity(pre, voting_power, pool_liquidity),
                            pre.stake.seconds_per_liquidity_inside_initial_x32,
                            s1_x32,
                        ),
                        total_seconds_unclaimed_x32(
                            pre.incentive.start_time,
                            pre.incentive.end_time,
                            block_timestamp,
                            pre.incentive.total_seconds_claimed_x32,
                        ),
                    ),
                },
            ),
            post.incentive,
            post.reward.rewards_owed,
        ),
{
    let s_inside = seconds_inside_x32(
        boosted_stake_liquidity(pre, voting_power, pool_liquidity),
        pre.stake.seconds_per_liquidity_inside_initial_x32,
        s1_x32,
    );
    let t_unclaimed = total_seconds_unclaimed_x32(
        pre.incentive.start_time,
        pre.incentive.end_time,
        block_timestamp,
        pre.incentive.total_seconds_claimed_x32,
    );
    vstd::arithmetic::mul::lemma_mul_nonnegative(
        pre.incentive.total_reward_unclaimed as int,
        s_inside,
    );
    vstd::arithmetic::div_mod::lemma_div_pos_is_pos(
        pre.incentive.total_reward_unclaimed * s_inside,
        t_unclaimed,
    );
}

/// A successful claim moves the records exactly as the model's claim step
/// moves the books.
pub proof fn lemma_claim_refines(
    s: LedgerState,
    pre: ClaimReward,
    post: ClaimReward,
    incentive: Incentive,
    amount_requested: u64,
)
    requires
        books_match(s, incentive, pre.reward.rewards_owed),
        claim_reward_error(pre.reward, pre.owner) is None,
        post.reward.rewards_owed == pre.reward.rewards_owed - claim_payout(
            pre.reward.rewards_owed,
            amount_requested,
        ),
    ensures
        books_match(
            ledger_step(
                s,
                LedgerOp::Claim {
                    payout: claim_payout(pre.reward.rewards_owed, amount_requested) as int,
                },
            ),
            incentive,
            post.reward.rewards_owed,
        ),
{
}

/// A successful termination moves the records exactly as the model's ending
/// step moves the books.
pub proof fn lemma_end_refines(
    s: LedgerState,
    pre: EndIncentive,
    post: EndIncentive,
    rewards_owed: u64,
    block_timestamp: i64,
)
    requires
        books_match(s, pre.incentive, rewards_owed),
        end_incentive_error(pre.incentive, block_timestamp) is None,
        post.incentive == (Incentive { total_reward_unclaimed: 0, ..pre.incentive }),
    ensures
        books_match(ledger_step(s, LedgerOp::End), post.incentive, rewards_owed),
{
}

} // verus!
