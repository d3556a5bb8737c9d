//! Stake enrollment tracking.
//!
//! The hosting ledger keeps at most one active stake per (deposit mint,
//! incentive) pair. [`StakeTracker`] models that store: opening a stake for
//! a pair that already has one, and closing a stake for a pair that has
//! none, deterministically fail, and each operation composes the existence
//! check with the record transition as one atomic unit of work.

use vstd::prelude::*;

use crate::errors::ErrorCode;
use crate::instructions::stake_token::{
    new_stake, stake_token_effect, stake_token_error, StakeToken, StakeTokenEvent,
};
use crate::instructions::unstake_token::{
    unstake_token_effect, unstake_token_error, UnstakeToken, UnstakeTokenEvent,
};
use crate::instructions::unstake_token_boosted::{
    unstake_token_boosted_effect, unstake_token_boosted_error, UnstakeTokenBoosted,
};
use crate::pubkey::Pubkey;
use crate::state::{Deposit, Incentive, Locker, Reward, Stake};

verus! {

/// Whether a stake belongs to the (deposit mint, incentive) pair.
pub open spec fn stake_key_matches(stake: Stake, mint: Pubkey, incentive: Pubkey) -> bool {
    stake.mint == mint && stake.incentive == incentive
}

/// No two stakes in the sequence belong to the same pair.
pub open spec fn distinct_stake_keys(stakes: Seq<Stake>) -> bool {
    forall|i: int, j: int|
        0 <= i < j < stakes.len() ==> !stake_key_matches(
            #[trigger] stakes[j],
            #[trigger] stakes[i].mint,
            stakes[i].incentive,
        )
}

/// The store of active stakes.
pub struct StakeTracker {
    stakes: Vec<Stake>,
}

impl View for StakeTracker {
    type V = Seq<Stake>;

    closed spec fn view(&self) -> Seq<Stake> {
        self.stakes@
    }
}

impl StakeTracker {
    /// At most one active stake per (deposit mint, incentive) pair.
    pub open spec fn wf(&self) -> bool {
        distinct_stake_keys(self@)
    }

    /// Whether the pair has an active stake.
    pub open spec fn has_stake(&self, mint: Pubkey, incentive: Pubkey) -> bool {
        exists|i: int|
            0 <= i < self@.len() && stake_key_matches(#[trigger] self@[i], mint, incentive)
    }

    /// The pair's active stake. Meaningful only when [`Self::has_stake`]
    /// holds; under [`Self::wf`] it is unique.
    pub open spec fn stake_at(&self, mint: Pubkey, incentive: Pubkey) -> Stake {
        self@[choose|i: int|
            0 <= i < self@.len() && stake_key_matches(#[trigger] self@[i], mint, incentive)]
    }

    /// An empty tracker: no stake is active.
    pub fn new() -> (r: StakeTracker)
        ensures
            r@ == Seq::<Stake>::empty(),
            r.wf(),
    {
        StakeTracker { stakes: Vec::new() }
    }

    /// The number of active stakes.
    pub fn len(&self) -> (r: usize)
        ensures
            r == self@.len(),
    {
        self.stakes.len()
    }

    /// Whether the pair has an active stake.
    pub fn contains_stake(&self, mint: Pubkey, incentive: Pubkey) -> (r: bool)
        ensures
            r == self.has_stake(mint, incentive),
    {
        self.find_stake(mint, incentive).is_some()
    }

    /// Finds the index of the pair's active stake, if any.
    fn find_stake(&self, mint: Pubkey, incentive: Pubkey) -> (r: Option<usize>)
        ensures
            match r {
                Some(i) => 0 <= i < self@.len() && stake_key_matches(
                    self@[i as int],
                    mint,
                    incentive,
                ),
                None => !self.has_stake(mint, incentive),
            },
    {
        let mut i: usize = 0;
        while i < self.stakes.len()
            invariant
                0 <= i <= self.stakes@.len(),
                forall|j: int|
                    0 <= j < i ==> !stake_key_matches(#[trigger] self.stakes@[j], mint, incentive),
            decreases self.stakes@.len() - i,
        {
            let candidate = self.stakes[i];
            if candidate.mint == mint && candidate.incentive == incentive {
                return Some(i);
            }
            i = i + 1;
        }
        None
    }

    /// Opens a stake for the context's (deposit, incentive) pair: fails
    /// deterministically if the pair already has an active stake, otherwise
    /// runs the enrollment and keeps the new stake.
    pub fn stake_token(
        &mut self,
        cx: &mut StakeToken,
        block_timestamp: i64,
        liquidity: u64,
        seconds_per_liquidity_inside_x32: u64,
    ) -> (r: Result<StakeTokenEvent, ErrorCode>)
        requires
            old(self).wf(),
            old(cx).tokenized_position.mint == old(cx).deposit.mint,
        ensures
            final(self).wf(),
            match r {
                Ok(event) => {
                    &&& !old(self).has_stake(old(cx).deposit.mint, old(cx).incentive_key)
                    &&& stake_token_error(*old(cx), block_timestamp) is None
                    &&& stake_token_effect(*old(cx), *final(cx))
                    &&& final(self)@ == old(self)@.push(
                        new_stake(*old(cx), liquidity, seconds_per_liquidity_inside_x32),
                    )
                    &&& event == (StakeTokenEvent {
                        mint: old(cx).deposit.mint,
                        incentive: old(cx).incentive_key,
                        liquidity,
                    })
                },
                Err(e) => {
                    &&& *final(cx) == *old(cx)
                    &&& final(self)@ == old(self)@
                    &&& if old(self).has_stake(old(cx).deposit.mint, old(cx).incentive_key) {
                        e == ErrorCode::StakeAlreadyExists
                    } else {
                        stake_token_error(*old(cx), block_timestamp) == Some(e)
                    }
                },
            },
    {
        if self.find_stake(cx.deposit.mint, cx.incentive_key).is_some() {
            return Err(ErrorCode::StakeAlreadyExists);
        }
        match cx.stake_token(block_timestamp, liquidity, seconds_per_liquidity_inside_x32) {
            Ok((stake, event)) => {
                proof {
                    assert forall|i: int, j: int|
                        0 <= i < j < self@.len() + 1 implies !stake_key_matches(
                        #[trigger] self@.push(stake)[j],
                        #[trigger] self@.push(stake)[i].mint,
                        self@.push(stake)[i].incentive,
                    ) by {
                        if j < self@.len() {
                            assert(!stake_key_matches(self@[j], self@[i].mint, self@[i].incentive));
                        } else {
                            assert(!stake_key_matches(self@[i], stake.mint, stake.incentive));
                        }
                    }
                }
                self.stakes.push(stake);
                Ok(event)
            },
            Err(e) => Err(e),
        }
    }

    /// Closes the pair's active stake against the exit oracle snapshot:
    /// fails deterministically if the pair has no active stake, otherwise
    /// runs the unstake transition on the given records and deletes the
    /// stake. On success the removed stake is the pair's unique
    /// [`Self::stake_at`] record, and every other pair's stake is kept.
    pub fn unstake_token(
        &mut self,
        incentive_key: Pubkey,
        incentive: &mut Incentive,
        deposit: &mut Deposit,
        reward: &mut Reward,
        signer: Pubkey,
        block_timestamp: i64,
        seconds_per_liquidity_inside_x32: u64,
    ) -> (r: Result<UnstakeTokenEvent, ErrorCode>)
        requires
            old(self).wf(),
            old(incentive).start_time <= block_timestamp,
            old(reward).reward_token == old(incentive).reward_token,
            old(reward).owner == old(deposit).owner,
        ensures
            final(self).wf(),
            match r {
                Ok(event) => {
                    let cx0 = (UnstakeToken {
                        stake: old(self).stake_at(old(deposit).mint, incentive_key),
                        incentive_key,
                        incentive: *old(incentive),
                        deposit: *old(deposit),
                        reward: *old(reward),
                        signer,
                    });
                    let cx1 = (UnstakeToken {
                        stake: old(self).stake_at(old(deposit).mint, incentive_key),
                        incentive_key,
                        incentive: *final(incentive),
                        deposit: *final(deposit),
                        reward: *final(reward),
                        signer,
                    });
                    &&& old(self).has_stake(old(deposit).mint, incentive_key)
                    &&& unstake_token_error(
                        cx0,
                        block_timestamp,
                        seconds_per_liquidity_inside_x32,
                    ) is None
                    &&& unstake_token_effect(
                        cx0,
                        cx1,
                        block_timestamp,
                        seconds_per_liquidity_inside_x32,
                    )
                    &&& exists|i: int|
                        0 <= i < old(self)@.len() && stake_key_matches(
                            #[trigger] old(self)@[i],
                            old(deposit).mint,
                            incentive_key,
                        ) && final(self)@ == old(self)@.remove(i)
                    &&& !final(self).has_stake(old(deposit).mint, incentive_key)
                    &&& event == (UnstakeTokenEvent {
                        mint: old(deposit).mint,
                        incentive: incentive_key,
                    })
                },
                Err(e) => {
                    &&& final(self)@ == old(self)@
                    &&& *final(incentive) == *old(incentive)
                    &&& *final(deposit) == *old(deposit)
                    &&& *final(reward) == *old(reward)
                    &&& if !old(self).has_stake(old(deposit).mint, incentive_key) {
                        e == ErrorCode::StakeDoesNotExist
                    } else {
                        unstake_token_error(
                            (UnstakeToken {
                                stake: old(self).stake_at(old(deposit).mint, incentive_key),
                                incentive_key,
                                incentive: *old(incentive),
                                deposit: *old(deposit),
                                reward: *old(reward),
                                signer,
                            }),
                            block_timestamp,
                            seconds_per_liquidity_inside_x32,
                        ) == Some(e)
                    }
                },
            },
    {
        let found = match self.find_stake(deposit.mint, incentive_key) {
            Some(i) => i,
            None => {
                return Err(ErrorCode::StakeDoesNotExist);
            },
        };
        let stake = self.stakes[found];
        proof {
            lemma_unique_stake_key(self@, found as int, deposit.mint, incentive_key);
        }
        let mut cx = UnstakeToken {
            stake,
            incentive_key,
            incentive: *incentive,
            deposit: *deposit,
            reward: *reward,
            signer,
        };
        match cx.unstake_token(block_timestamp, seconds_per_liquidity_inside_x32) {
            Ok(event) => {
                self.stakes.remove(found);
                *incentive = cx.incentive;
                *deposit = cx.deposit;
                *reward = cx.reward;
                proof {
                    lemma_remove_keeps_distinct(old(self)@, found as int);
                    lemma_removed_key_gone(
                        old(self)@,
                        found as int,
                        old(deposit).mint,
                        incentive_key,
                    );
                }
                Ok(event)
            },
            Err(e) => Err(e),
        }
    }

    /// Closes the pair's active stake in a boosted incentive, as
    /// [`Self::unstake_token`] but through the boosted transition.
    pub fn unstake_token_boosted(
        &mut self,
        incentive_key: Pubkey,
        incentive: &mut Incentive,
        locker: Locker,
        deposit: &mut Deposit,
        reward: &mut Reward,
        signer: Pubkey,
        block_timestamp: i64,
        seconds_per_liquidity_inside_x32: u64,
        voting_power: u64,
        pool_liquidity: u64,
    ) -> (r: Result<UnstakeTokenEvent, ErrorCode>)
        requires
            old(self).wf(),
            old(incentive).start_time <= block_timestamp,
            old(reward).reward_token == old(incentive).reward_token,
            old(reward).owner == old(deposit).owner,
        ensures
            final(self).wf(),
            match r {
                Ok(event) => {
                    let cx0 = (UnstakeTokenBoosted {
                        stake: old(self).stake_at(old(deposit).mint, incentive_key),
                        incentive_key,
                        incentive: *old(incentive),
                        locker,
                        deposit: *old(deposit),
                        reward: *old(reward),
                        signer,
                    });
                    let cx1 = (UnstakeTokenBoosted {
                        stake: old(self).stake_at(old(deposit).mint, incentive_key),
                        incentive_key,
                        incentive: *final(incentive),
                        locker,
                        deposit: *final(deposit),
                        reward: *final(reward),
                        signer,
                    });
                    &&& old(self).has_stake(old(deposit).mint, incentive_key)
                    &&& unstake_token_boosted_error(
                        cx0,
                        block_timestamp,
                        seconds_per_liquidity_inside_x32,
                        voting_power,
                        pool_liquidity,
                    ) is None
                    &&& unstake_token_boosted_effect(
                        cx0,
                        cx1,
                        block_timestamp,
                        seconds_per_liquidity_inside_x32,
                        voting_power,
                        pool_liquidity,
                    )
                    &&& exists|i: int|
                        0 <= i < old(self)@.len() && stake_key_matches(
                            #[trigger] old(self)@[i],
                            old(deposit).mint,
                            incentive_key,
                        ) && final(self)@ == old(self)@.remove(i)
                    &&& !final(self).has_stake(old(deposit).mint, incentive_key)
                    &&& event == (UnstakeTokenEvent {
                        mint: old(deposit).mint,
                        incentive: incentive_key,
                    })
                },
                Err(e) => {
                    &&& final(self)@ == old(self)@
                    &&& *final(incentive) == *old(incentive)
                    &&& *final(deposit) == *old(deposit)
                    &&& *final(reward) == *old(reward)
                    &&& if !old(self).has_stake(old(deposit).mint, incentive_key) {
                        e == ErrorCode::StakeDoesNotExist
                    } else {
                        unstake_token_boosted_error(
                            (UnstakeTokenBoosted {
                                stake: old(self).stake_at(old(deposit).mint, incentive_key),
                                incentive_key,
                                incentive: *old(incentive),
                                locker,
                                deposit: *old(deposit),
                                reward: *old(reward),
                                signer,
                            }),
                            block_timestamp,
                            seconds_per_liquidity_inside_x32,
                            voting_power,
                            pool_liquidity,
                        ) == Some(e)
                    }
                },
            },
    {
        let found = match self.find_stake(deposit.mint, incentive_key) {
            Some(i) => i,
            None => {
                return Err(ErrorCode::StakeDoesNotExist);
            },
        };
        let stake = self.stakes[found];
        proof {
            lemma_unique_stake_key(self@, found as int, deposit.mint, incentive_key);
        }
        let mut cx = UnstakeTokenBoosted {
            stake,
            incentive_key,
            incentive: *incentive,
            locker,
            deposit: *deposit,
            reward: *reward,
            signer,
        };
        match cx.unstake_token_boosted(
            block_timestamp,
            seconds_per_liquidity_inside_x32,
            voting_power,
            pool_liquidity,
        ) {
            Ok(event) => {
                self.stakes.remove(found);
                *incentive = cx.incentive;
                *deposit = cx.deposit;
                *reward = cx.reward;
                proof {
                    lemma_remove_keeps_distinct(old(self)@, found as int);
                    lemma_removed_key_gone(
                        old(self)@,
                        found as int,
                        old(deposit).mint,
                        incentive_key,
                    );
                }
                Ok(event)
            },
            Err(e) => Err(e),
        }
    }
}

/// Under distinct keys, the match at `found` is the unique match, so it is
/// the chosen one.
proof fn lemma_unique_stake_key(stakes: Seq<Stake>, found: int, mint: Pubkey, incentive: Pubkey)
    requires
        distinct_stake_keys(stakes),
        0 <= found < stakes.len(),
        stake_key_matches(stakes[found], mint, incentive),
    ensures
        forall|j: int|
            0 <= j < stakes.len() && stake_key_matches(#[trigger] stakes[j], mint, incentive)
                ==> j == found,
{
    assert forall|j: int|
        0 <= j < stakes.len() && stake_key_matches(#[trigger] stakes[j], mint, incentive)
            implies j == found by {
        if j < found {
            assert(!stake_key_matches(stakes[found], stakes[j].mint, stakes[j].incentive));
        } else if found < j {
            assert(!stake_key_matches(stakes[j], stakes[found].mint, stakes[found].incentive));
        }
    }
}

/// Removing an element keeps the keys pairwise distinct.
proof fn lemma_remove_keeps_distinct(stakes: Seq<Stake>, at: int)
    requires
        distinct_stake_keys(stakes),
        0 <= at < stakes.len(),
    ensures
        distinct_stake_keys(stakes.remove(at)),
{
    let removed = stakes.remove(at);
    assert forall|i: int, j: int|
        0 <= i < j < removed.len() implies !stake_key_matches(
        #[trigger] removed[j],
        #[trigger] removed[i].mint,
        removed[i].incentive,
    ) by {
        let i0 = if i < at {
            i
        } else {
            i + 1
        };
        let j0 = if j < at {
            j
        } else {
            j + 1
        };
        assert(removed[i] == stakes[i0]);
        assert(removed[j] == stakes[j0]);
        assert(!stake_key_matches(stakes[j0], stakes[i0].mint, stakes[i0].incentive));
    }
}

/// After removing the unique match of a pair, the pair has no match left.
proof fn lemma_removed_key_gone(stakes: Seq<Stake>, at: int, mint: Pubkey, incentive: Pubkey)
    requires
        distinct_stake_keys(stakes),
        0 <= at < stakes.len(),
        stake_key_matches(stakes[at], mint, incentive),
    ensures
        forall|j: int|
            0 <= j < stakes.remove(at).len() ==> !stake_key_matches(
                #[trigger] stakes.remove(at)[j],
                mint,
                incentive,
            ),
{
    let removed = stakes.remove(at);
    lemma_unique_stake_key(stakes, at, mint, incentive);
    assert forall|j: int|
        0 <= j < removed.len() implies !stake_key_matches(#[trigger] removed[j], mint, incentive)
        by {
        let j0 = if j < at {
            j
        } else {
            j + 1
        };
        assert(removed[j] == stakes[j0]);
    }
}

} // verus!
