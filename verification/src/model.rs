//! The mathematical model of the ledger: what it holds as maps, and what
//! each operation makes of it.

use vstd::prelude::*;
use crate::config::ConfigModel;
use crate::error::LedgerError;
use crate::like_key::{like_key_spec, lemma_like_key_tells_users_apart};
use vstd::set_lib::{lemma_len_subset, lemma_map_size_bound};

verus! {

/// The value of a ledger.
pub struct LedgerModel {
    /// Each like, as the pair (review, user), with the time it was given.
    pub likes: Map<(Seq<char>, Seq<char>), u64>,
    /// Each user that was ever rewarded, with the balance and the time of
    /// the last reward.
    pub balances: Map<Seq<char>, (u64, u64)>,
    /// The economic parameters.
    pub config: ConfigModel,
}

/// The likes that a like store holds: the pairs whose key has an entry, each
/// with the time under its key.
pub open spec fn likes_of(contents: Map<Seq<char>, u64>) -> Map<(Seq<char>, Seq<char>), u64> {
    Map::new(
        |p: (Seq<char>, Seq<char>)| contents.contains_key(like_key_spec(p.0, p.1)),
        |p: (Seq<char>, Seq<char>)| contents[like_key_spec(p.0, p.1)],
    )
}

/// The users whose like of the review a like store holds.
pub open spec fn likers_in(contents: Map<Seq<char>, u64>, review: Seq<char>) -> Set<Seq<char>> {
    Set::new(|user: Seq<char>| contents.contains_key(like_key_spec(review, user)))
}

/// A like store with finitely many entries holds, of each review, no more
/// likers than it has entries.
pub proof fn lemma_likers_bounded(contents: Map<Seq<char>, u64>, review: Seq<char>)
    requires
        contents.dom().finite(),
    ensures
        likers_in(contents, review).finite(),
        likers_in(contents, review).len() <= contents.dom().len(),
{
    let keys = contents.dom().filter(
        |k: Seq<char>| exists|user: Seq<char>| k == like_key_spec(review, user),
    );
    let user_of = |k: Seq<char>| choose|user: Seq<char>| k == like_key_spec(review, user);
    lemma_len_subset(keys, contents.dom());
    assert(keys.map(user_of) =~= likers_in(contents, review)) by {
        assert forall|user: Seq<char>| likers_in(contents, review).contains(user) implies keys.map(
            user_of,
        ).contains(user) by {
            let k = like_key_spec(review, user);
            assert(keys.contains(k));
            lemma_like_key_tells_users_apart(review, user, user_of(k));
        }
    }
    lemma_map_size_bound(keys, likers_in(contents, review), user_of);
}

/// What one step makes of a ledger.
pub enum Step {
    /// The operation was carried out; this is the ledger after it.
    Done(LedgerModel),
    /// The operation was refused and the ledger is as it was.
    Refused(LedgerError),
}

impl Step {
    /// The ledger after the step, which is `before` where it was refused.
    pub open spec fn after(self, before: LedgerModel) -> LedgerModel {
        match self {
            Step::Done(m) => m,
            Step::Refused(_) => before,
        }
    }
}

impl LedgerModel {
    /// A ledger without likes and balances.
    pub open spec fn empty(config: ConfigModel) -> LedgerModel {
        LedgerModel { likes: Map::empty(), balances: Map::empty(), config }
    }

    pub open spec fn has_liked(self, review: Seq<char>, user: Seq<char>) -> bool {
        self.likes.contains_key((review, user))
    }

    /// The users that have liked the review.
    pub open spec fn likers(self, review: Seq<char>) -> Set<Seq<char>> {
        Set::new(|user: Seq<char>| self.likes.contains_key((review, user)))
    }

    /// Every review has finitely many likers, so that they can be counted.
    pub open spec fn valid(self) -> bool {
        forall|review: Seq<char>| #[trigger] self.likers(review).finite()
    }

    /// The number of distinct users that have liked the review.
    pub open spec fn like_count(self, review: Seq<char>) -> nat {
        self.likers(review).len()
    }

    /// The balance of a user: zero for one that was never rewarded.
    pub open spec fn balance_of(self, user: Seq<char>) -> u64 {
        if self.balances.contains_key(user) {
            self.balances[user].0
        } else {
            0
        }
    }

    /// Recording a like: refused for a pair that has one, else the pair is
    /// added with the time and nothing else changes.
    pub open spec fn record_like(self, review: Seq<char>, user: Seq<char>, now: u64) -> Step {
        if self.has_liked(review, user) {
            Step::Refused(LedgerError::AlreadyLiked)
        } else {
            Step::Done(LedgerModel { likes: self.likes.insert((review, user), now), ..self })
        }
    }

    /// Why a reward for `user` is refused, if it is.
    pub open spec fn mint_refusal(self, user: Seq<char>) -> Option<LedgerError> {
        let amount = self.config.mint_per_like;
        let total = self.config.total_supply;
        if self.config.max_supply is Some && total + amount > u64::MAX {
            Some(LedgerError::Overflow)
        } else if self.config.max_supply is Some && total + amount > self.config.max_supply->0 {
            Some(LedgerError::SupplyCapReached)
        } else if self.balance_of(user) + amount > u64::MAX || total + amount > u64::MAX {
            Some(LedgerError::Overflow)
        } else {
            None
        }
    }

    /// Minting the reward of one like: refused as `mint_refusal` says, else
    /// the user's balance and the total supply both grow by the reward.
    pub open spec fn mint(self, user: Seq<char>, now: u64) -> Step {
        match self.mint_refusal(user) {
            Some(e) => Step::Refused(e),
            None => {
                let amount = self.config.mint_per_like;
                Step::Done(
                    LedgerModel {
                        balances: self.balances.insert(
                            user,
                            ((self.balance_of(user) + amount) as u64, now),
                        ),
                        config: self.config.with_total((self.config.total_supply + amount) as u64),
                        ..self
                    },
                )
            },
        }
    }

    /// A like with its reward: refused for a pair that has a like; else the
    /// like is recorded, and the reward minted where it is not refused.
    pub open spec fn like_and_reward(self, review: Seq<char>, user: Seq<char>, now: u64) -> Step {
        match self.record_like(review, user, now) {
            Step::Refused(e) => Step::Refused(e),
            Step::Done(liked) => Step::Done(liked.mint(user, now).after(liked)),
        }
    }

    /// The ledger after the given rewards, each a user and a time, were
    /// asked for in turn; a refused one leaves the ledger as it was.
    pub open spec fn mint_all(self, calls: Seq<(Seq<char>, u64)>) -> LedgerModel
        decreases calls.len(),
    {
        if calls.len() == 0 {
            self
        } else {
            let first = calls.first();
            self.mint(first.0, first.1).after(self).mint_all(calls.drop_first())
        }
    }

    /// Every one of the given rewards, asked for in turn, is minted.
    pub open spec fn all_minted(self, calls: Seq<(Seq<char>, u64)>) -> bool
        decreases calls.len(),
    {
        if calls.len() == 0 {
            true
        } else {
            let first = calls.first();
            self.mint(first.0, first.1) is Done && self.mint(first.0, first.1).after(
                self,
            ).all_minted(calls.drop_first())
        }
    }

    /// Replacing the configuration: refused unless the caller is the
    /// authority of the present one.
    pub open spec fn set_config(self, new_config: ConfigModel, caller: Seq<char>) -> Step {
        if caller == self.config.authority {
            Step::Done(LedgerModel { config: new_config, ..self })
        } else {
            Step::Refused(LedgerError::Unauthorized)
        }
    }
}

} // verus!
