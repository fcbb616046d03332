//! The ledger itself: the stores, the like counter and the configuration,
//! owned by one value that every operation is a method of.

use vstd::prelude::*;
use vstd::string::*;
use vstd::hash_map::StringHashMap;
use crate::config::TokenConfig;
use crate::error::LedgerError;
use crate::like_key::{like_key, like_key_spec, lemma_like_key_injective, split_like_key};
use crate::model::{lemma_likers_bounded, likers_in, likes_of, LedgerModel, Step};
use crate::text::same_text;
use crate::store::{
    balance_store_contents, distinct_keys, fresh_stores, like_store_contents, listed, open_stores,
    BalanceStore, LikeStore, Stores, BALANCES_MEMORY, LIKES_MEMORY,
};

verus! {

/// The engagement reward ledger.
pub struct RewardLedger {
    likes: LikeStore,
    counts: StringHashMap<u64>,
    balances: BalanceStore,
    config: TokenConfig,
}

/// What a like with its reward came to.
pub struct LikeOutcome {
    /// The like was recorded.
    pub liked: bool,
    /// The reward was minted.
    pub minted: bool,
    /// A sentence for the caller.
    pub message: String,
}

/// The counter of a review: zero where none is kept.
spec fn count_in(counts: Map<Seq<char>, u64>, review: Seq<char>) -> u64 {
    if counts.contains_key(review) {
        counts[review]
    } else {
        0
    }
}

/// The sentence that tells a caller how the reward of a recorded like went.
pub open spec fn outcome_text(refusal: Option<LedgerError>) -> Seq<char> {
    match refusal {
        None => "Review liked and tokens minted successfully"@,
        Some(e) => "Review liked but token minting failed: "@ + e.text(),
    }
}

/// The users whose like of the review is among the first `n` keys.
spec fn seen(keys: Seq<String>, n: int, review: Seq<char>) -> Set<Seq<char>> {
    Set::new(
        |user: Seq<char>|
            exists|j: int| 0 <= j < n && (#[trigger] keys[j])@ == like_key_spec(review, user),
    )
}

impl View for RewardLedger {
    type V = LedgerModel;

    closed spec fn view(&self) -> LedgerModel {
        LedgerModel {
            likes: likes_of(like_store_contents(self.likes)),
            balances: balance_store_contents(self.balances),
            config: self.config@,
        }
    }
}

impl RewardLedger {
    /// The counter of every review is the number of users that liked it.
    pub closed spec fn wf(&self) -> bool {
        forall|review: Seq<char>| #![trigger self@.likers(review)]
            self@.likers(review).finite() && count_in(self.counts@, review) == self@.likers(
                review,
            ).len()
    }

    /// A well-formed ledger has a valid value.
    pub proof fn lemma_wf_valid(&self)
        requires
            self.wf(),
        ensures
            self@.valid(),
    {
        assert forall|review: Seq<char>| #[trigger] self@.likers(review).finite() by {}
    }

    /// A ledger stays well formed while its likes and its counter stay.
    proof fn lemma_same_likes_same_counts(&self, after: &RewardLedger)
        requires
            self.wf(),
            after.likes == self.likes,
            after.counts == self.counts,
        ensures
            after.wf(),
            after@.likes == self@.likes,
    {
        assert forall|review: Seq<char>| #![trigger after@.likers(review)]
            after@.likers(review).finite() && count_in(after.counts@, review) == after@.likers(
                review,
            ).len() by {
            assert(after@.likers(review) =~= self@.likers(review));
            assert(self@.likers(review).finite());
        }
    }

    /// A ledger without likes and balances. Its stores are made anew over
    /// the default memory: what that memory held of an earlier ledger is
    /// gone, and a process whose default memory is shared keeps one ledger.
    pub fn new(config: TokenConfig) -> (ledger: RewardLedger)
        ensures
            ledger.wf(),
            ledger@ == LedgerModel::empty(config@),
    {
        let stores = fresh_stores(LIKES_MEMORY, BALANCES_MEMORY);
        let ledger = Self::from_stores(stores, config);
        assert(ledger@.likes =~= Map::empty());
        ledger
    }

    /// A ledger over the stores as the default memory holds them: the likes
    /// and the balances of an earlier run are there again, and the like
    /// counter is built from the likes. What the memory holds is not known
    /// here, so no more is said of the likes and balances than that the
    /// ledger is well formed: `from_stores` says what becomes of given stores.
    pub fn reopen(config: TokenConfig) -> (ledger: RewardLedger)
        ensures
            ledger.wf(),
            ledger@.config == config@,
    {
        Self::from_stores(open_stores(LIKES_MEMORY, BALANCES_MEMORY), config)
    }

    /// A ledger over the given stores, with the given configuration. The
    /// like counter is not stored: it is built again here, from the likes
    /// that the like store holds.
    pub fn from_stores(stores: Stores, config: TokenConfig) -> (ledger: RewardLedger)
        ensures
            ledger.wf(),
            ledger@ == (LedgerModel {
                likes: likes_of(like_store_contents(stores.likes)),
                balances: balance_store_contents(stores.balances),
                config: config@,
            }),
    {
        let keys = stores.likes.keys();
        let mut counts: StringHashMap<u64> = StringHashMap::new();
        let mut i: usize = 0;
        proof {
            assert forall|review: Seq<char>| #![trigger seen(keys@, 0, review)]
                seen(keys@, 0, review).finite() && seen(keys@, 0, review).len() == 0 by {
                assert(seen(keys@, 0, review) =~= Set::empty());
            }
        }
        while i < keys.len()
            invariant
                0 <= i <= keys.len(),
                distinct_keys(keys@),
                forall|review: Seq<char>| #![trigger seen(keys@, i as int, review)]
                    seen(keys@, i as int, review).finite() && count_in(counts@, review) == seen(
                        keys@,
                        i as int,
                        review,
                    ).len() && count_in(counts@, review) <= i,
            decreases keys.len() - i,
        {
            let ghost before = counts@;
            match split_like_key(keys[i].as_str()) {
                Some(pair) => {
                    let current: u64 = match counts.get(pair.0.as_str()) {
                        Some(c) => *c,
                        None => 0,
                    };
                    assert(seen(keys@, i as int, pair.0@).finite());
                    let ghost who = pair.1@;
                    let ghost what = pair.0@;
                    counts.insert(pair.0, current + 1);
                    proof {
                        assert forall|review: Seq<char>| #![trigger seen(keys@, i + 1, review)]
                            seen(keys@, i + 1, review).finite() && count_in(counts@, review)
                                == seen(keys@, i + 1, review).len() && count_in(counts@, review)
                                <= i + 1 by {
                            assert(seen(keys@, i as int, review).finite());
                            if review == what {
                                assert(!seen(keys@, i as int, review).contains(who));
                                assert(seen(keys@, i + 1, review) =~= seen(
                                    keys@,
                                    i as int,
                                    review,
                                ).insert(who)) by {
                                    assert forall|user: Seq<char>|
                                        keys@[i as int]@ == like_key_spec(review, user) implies user
                                        == who by {
                                        lemma_like_key_injective(what, who, review, user);
                                    }
                                }
                            } else {
                                assert(seen(keys@, i + 1, review) =~= seen(keys@, i as int, review))
                                    by {
                                    assert forall|user: Seq<char>|
                                        keys@[i as int]@ != like_key_spec(review, user) by {
                                        if keys@[i as int]@ == like_key_spec(review, user) {
                                            lemma_like_key_injective(what, who, review, user);
                                        }
                                    }
                                }
                            }
                        }
                    }
                },
                None => {
                    proof {
                        assert forall|review: Seq<char>| #![trigger seen(keys@, i + 1, review)]
                            seen(keys@, i + 1, review).finite() && count_in(counts@, review)
                                == seen(keys@, i + 1, review).len() && count_in(counts@, review)
                                <= i + 1 by {
                            assert(seen(keys@, i as int, review).finite());
                            assert(seen(keys@, i + 1, review) =~= seen(keys@, i as int, review));
                        }
                    }
                },
            }
            i += 1;
        }
        let ledger = RewardLedger { likes: stores.likes, counts, balances: stores.balances, config };
        proof {
            assert forall|review: Seq<char>| #![trigger ledger@.likers(review)]
                ledger@.likers(review).finite() && count_in(ledger.counts@, review)
                    == ledger@.likers(review).len() by {
                assert(seen(keys@, keys@.len() as int, review).finite());
                assert(ledger@.likers(review) =~= seen(keys@, keys@.len() as int, review)) by {
                    assert forall|user: Seq<char>|
                        ledger@.likers(review).contains(user) <==> seen(
                            keys@,
                            keys@.len() as int,
                            review,
                        ).contains(user) by {
                        let k = like_key_spec(review, user);
                        assert(like_store_contents(stores.likes).contains_key(k) <==> listed(
                            keys@,
                            k,
                        ));
                    }
                }
            }
        }
        ledger
    }

    /// Gives up the ledger and hands out its two stores, which hold its
    /// likes and its balances.
    pub fn into_stores(self) -> (stores: Stores)
        ensures
            likes_of(like_store_contents(stores.likes)) == self@.likes,
            balance_store_contents(stores.balances) == self@.balances,
    {
        Stores { likes: self.likes, balances: self.balances }
    }

    /// Whether the user has liked the review.
    pub fn has_liked(&self, review_id: &str, user_id: &str) -> (liked: bool)
        ensures
            liked == self@.has_liked(review_id@, user_id@),
    {
        let key = like_key(review_id, user_id);
        self.likes.contains(key.as_str())
    }

    /// The number of distinct users that have liked the review.
    pub fn get_like_count(&self, review_id: &str) -> (count: u64)
        requires
            self.wf(),
        ensures
            count == self@.like_count(review_id@),
    {
        assert(self@.likers(review_id@).finite());
        match self.counts.get(review_id) {
            Some(c) => *c,
            None => 0,
        }
    }

    /// The balance of the owner: zero for one that was never rewarded.
    pub fn balance_of(&self, owner: &str) -> (balance: u64)
        ensures
            balance == self@.balance_of(owner@),
    {
        match self.balances.get(owner) {
            Some(entry) => entry.0,
            None => 0,
        }
    }

    /// Records that the user liked the review at `now`, and counts it. A
    /// pair that has a like is refused with `AlreadyLiked` and nothing
    /// changes.
    pub fn record_like(&mut self, review_id: &str, user_id: &str, now: u64) -> (res: Result<
        (),
        LedgerError,
    >)
        requires
            old(self).wf(),
        ensures
            final(self).wf(),
            match old(self)@.record_like(review_id@, user_id@, now) {
                Step::Done(m) => res is Ok && final(self)@ == m,
                Step::Refused(e) => res == Err::<(), LedgerError>(e) && *final(self) == *old(self),
            },
    {
        let key = like_key(review_id, user_id);
        if self.likes.contains(key.as_str()) {
            return Err(LedgerError::AlreadyLiked);
        }
        let ghost before = *self;
        assert(before@.likers(review_id@).finite());
        let current: u64 = match self.counts.get(review_id) {
            Some(c) => *c,
            None => 0,
        };
        self.likes.put(key, now);
        // The store counts its entries in a `u64`, and the review has no more
        // likers than the store has entries: the counter has room.
        let total: u64 = self.likes.len();
        proof {
            let pair = (review_id@, user_id@);
            assert forall|p: (Seq<char>, Seq<char>)|
                like_key_spec(p.0, p.1) == like_key_spec(pair.0, pair.1) implies p == pair by {
                lemma_like_key_injective(pair.0, pair.1, p.0, p.1);
            }
            assert(self@.likes =~= before@.likes.insert(pair, now));
            assert(self@.likers(review_id@) =~= before@.likers(review_id@).insert(user_id@));
            assert(!before@.likers(review_id@).contains(user_id@));
            assert(self@.likers(review_id@) =~= likers_in(
                like_store_contents(self.likes),
                review_id@,
            ));
            lemma_likers_bounded(like_store_contents(self.likes), review_id@);
            assert(current + 1 <= total);
        }
        self.counts.insert(review_id.to_owned(), current + 1);
        proof {
            assert forall|review: Seq<char>| #![trigger self@.likers(review)]
                self@.likers(review).finite() && count_in(self.counts@, review)
                    == self@.likers(review).len() by {
                assert(before@.likers(review).finite());
                if review == review_id@ {
                    assert(self@.likers(review) =~= before@.likers(review).insert(user_id@));
                    assert(!before@.likers(review).contains(user_id@));
                } else {
                    assert(self@.likers(review) =~= before@.likers(review));
                }
            }
        }
        Ok(())
    }

    /// Mints the reward of one like to the user at `now`: the balance and
    /// the total supply grow by the reward together, or, where the ceiling
    /// or the integer range forbids it, neither does.
    pub fn mint_for_like(&mut self, user_id: &str, now: u64) -> (res: Result<(), LedgerError>)
        requires
            old(self).wf(),
        ensures
            final(self).wf(),
            match old(self)@.mint(user_id@, now) {
                Step::Done(m) => res is Ok && final(self)@ == m,
                Step::Refused(e) => res == Err::<(), LedgerError>(e) && *final(self) == *old(self),
            },
            old(self)@.config.within_cap() ==> final(self)@.config.within_cap(),
    {
        let amount: u64 = self.config.mint_per_like;
        let total: u64 = self.config.total_supply;
        if let Some(max) = self.config.max_supply {
            match total.checked_add(amount) {
                None => {
                    return Err(LedgerError::Overflow);
                },
                Some(raised) => {
                    if raised > max {
                        return Err(LedgerError::SupplyCapReached);
                    }
                },
            }
        }
        let balance: u64 = self.balance_of(user_id);
        let new_balance: u64 = match balance.checked_add(amount) {
            None => {
                return Err(LedgerError::Overflow);
            },
            Some(b) => b,
        };
        let new_total: u64 = match total.checked_add(amount) {
            None => {
                return Err(LedgerError::Overflow);
            },
            Some(t) => t,
        };
        let ghost before = *self;
        self.balances.put(user_id.to_owned(), (new_balance, now));
        self.config.total_supply = new_total;
        proof {
            assert(self@.config == before@.config.with_total(new_total));
            before.lemma_same_likes_same_counts(self);
        }
        Ok(())
    }

    /// Records the like and mints its reward. A pair that has a like is
    /// refused and nothing changes. Otherwise the like is recorded whatever
    /// becomes of the reward, and the outcome says whether it was minted.
    pub fn record_like_and_reward(&mut self, review_id: &str, user_id: &str, now: u64) -> (res:
        Result<LikeOutcome, LedgerError>)
        requires
            old(self).wf(),
        ensures
            final(self).wf(),
            match old(self)@.like_and_reward(review_id@, user_id@, now) {
                Step::Done(m) => res is Ok && final(self)@ == m,
                Step::Refused(e) => res == Err::<LikeOutcome, LedgerError>(e) && *final(self)
                    == *old(self),
            },
            match res {
                Ok(outcome) => {
                    let liked = old(self)@.record_like(review_id@, user_id@, now).after(old(self)@);
                    &&& outcome.liked
                    &&& outcome.minted == (liked.mint_refusal(user_id@) is None)
                    &&& outcome.message@ == outcome_text(liked.mint_refusal(user_id@))
                },
                Err(e) => e == LedgerError::AlreadyLiked,
            },
    {
        match self.record_like(review_id, user_id, now) {
            Err(e) => Err(e),
            Ok(()) => {
                match self.mint_for_like(user_id, now) {
                    Ok(()) => Ok(
                        LikeOutcome {
                            liked: true,
                            minted: true,
                            message: String::from_str("Review liked and tokens minted successfully"),
                        },
                    ),
                    Err(e) => {
                        let mut message = String::from_str("Review liked but token minting failed: ");
                        let reason = e.message();
                        message.append(reason.as_str());
                        Ok(LikeOutcome { liked: true, minted: false, message })
                    },
                }
            },
        }
    }

    /// A copy of the configuration as it stands.
    pub fn get_config(&self) -> (config: TokenConfig)
        ensures
            config@ == self@.config,
    {
        self.config.snapshot()
    }

    /// Replaces the whole configuration. Only the authority of the present
    /// configuration may do so: any other caller is refused with
    /// `Unauthorized` and nothing changes.
    pub fn set_config(&mut self, new_config: TokenConfig, caller: &str) -> (res: Result<
        (),
        LedgerError,
    >)
        requires
            old(self).wf(),
        ensures
            final(self).wf(),
            match old(self)@.set_config(new_config@, caller@) {
                Step::Done(m) => res is Ok && final(self)@ == m,
                Step::Refused(e) => res == Err::<(), LedgerError>(e) && *final(self) == *old(self),
            },
    {
        if !same_text(caller, self.config.authority.as_str()) {
            return Err(LedgerError::Unauthorized);
        }
        let ghost before = *self;
        self.config = new_config;
        proof {
            before.lemma_same_likes_same_counts(self);
        }
        Ok(())
    }

    /// The display name of the token.
    pub fn name(&self) -> (name: String)
        ensures
            name@ == self@.config.name,
    {
        self.config.name.clone()
    }

    /// The ticker symbol of the token.
    pub fn symbol(&self) -> (symbol: String)
        ensures
            symbol@ == self@.config.symbol,
    {
        self.config.symbol.clone()
    }

    /// The number of decimal places of the token.
    pub fn decimals(&self) -> (decimals: u8)
        ensures
            decimals == self@.config.decimals,
    {
        self.config.decimals
    }

    /// The amount issued so far.
    pub fn total_supply(&self) -> (total: u64)
        ensures
            total == self@.config.total_supply,
    {
        self.config.total_supply
    }
}

} // verus!
