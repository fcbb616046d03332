//! Laws of the ledger, each proved of its model for every value.

use vstd::prelude::*;
use crate::config::ConfigModel;
use crate::error::LedgerError;
use crate::model::{LedgerModel, Step};

verus! {

/// A pair is liked at most once: whatever the ledger held, after one attempt
/// to record a like a second attempt for the same pair is refused with
/// `AlreadyLiked` and changes nothing, so over both attempts the counter of
/// the review grows by one where the pair was new and not at all where it
/// was not, and the counter of no other review moves.
pub proof fn law_like_counts_once(
    m: LedgerModel,
    review: Seq<char>,
    user: Seq<char>,
    first: u64,
    second: u64,
    other: Seq<char>,
)
    requires
        m.valid(),
    ensures
        ({
            let once = m.record_like(review, user, first).after(m);
            let twice = once.record_like(review, user, second);
            &&& m.record_like(review, user, first) is Done <==> !m.has_liked(review, user)
            &&& twice == Step::Refused(LedgerError::AlreadyLiked)
            &&& twice.after(once) == once
            &&& once.valid()
            &&& once.has_liked(review, user)
            &&& once.like_count(review) == m.like_count(review) + if m.has_liked(review, user) {
                0nat
            } else {
                1nat
            }
            &&& other != review ==> once.like_count(other) == m.like_count(other)
        }),
{
    let once = m.record_like(review, user, first).after(m);
    assert(m.likers(review).finite());
    if other != review {
        assert(once.likers(other) =~= m.likers(other));
    }
    if m.has_liked(review, user) {
        assert(once == m);
    } else {
        assert(once.likers(review) =~= m.likers(review).insert(user));
        assert(!m.likers(review).contains(user));
        assert forall|r: Seq<char>| #[trigger] once.likers(r).finite() by {
            assert(m.likers(r).finite());
            if r != review {
                assert(once.likers(r) =~= m.likers(r));
            }
        }
    }
}

/// The count of a review is the number of distinct users whose like was
/// recorded: it starts at zero, and each recorded like adds its user to the
/// likers of its review and to no other set.
pub proof fn law_count_is_number_of_likers(
    m: LedgerModel,
    config: ConfigModel,
    review: Seq<char>,
    user: Seq<char>,
    now: u64,
    any: Seq<char>,
)
    ensures
        LedgerModel::empty(config).valid(),
        LedgerModel::empty(config).like_count(any) == 0,
        m.record_like(review, user, now).after(m).likers(any) == if any == review {
            m.likers(any).insert(user)
        } else {
            m.likers(any)
        },
        m.record_like(review, user, now).after(m).like_count(any) == m.record_like(
            review,
            user,
            now,
        ).after(m).likers(any).len(),
{
    let e = LedgerModel::empty(config);
    assert forall|r: Seq<char>| #[trigger] e.likers(r).finite() by {
        assert(e.likers(r) =~= Set::empty());
    }
    assert(e.likers(any) =~= Set::empty());
    let after = m.record_like(review, user, now).after(m);
    if any == review {
        assert(after.likers(any) =~= m.likers(any).insert(user));
    } else {
        assert(after.likers(any) =~= m.likers(any));
    }
}

/// A reward touches nothing but the balance of its user and the total
/// supply: the likes, the other balances and the rest of the configuration
/// stay.
pub proof fn law_mint_is_local(m: LedgerModel, user: Seq<char>, now: u64, other: Seq<char>)
    ensures
        ({
            let after = m.mint(user, now).after(m);
            &&& after.likes == m.likes
            &&& other != user ==> after.balance_of(other) == m.balance_of(other)
            &&& after.config.with_total(m.config.total_supply) == m.config
            &&& after.balance_of(user) >= m.balance_of(user)
            &&& after.config.total_supply >= m.config.total_supply
        }),
{
}

/// Where each of `calls` is a reward for `user` and each is minted, the
/// balance of `user` has grown by the reward times their number, and so has
/// the total supply.
pub proof fn law_balance_after_mints(m: LedgerModel, user: Seq<char>, calls: Seq<(Seq<char>, u64)>)
    requires
        forall|i: int| 0 <= i < calls.len() ==> (#[trigger] calls[i]).0 == user,
        m.all_minted(calls),
    ensures
        m.mint_all(calls).balance_of(user) == m.balance_of(user) + calls.len()
            * m.config.mint_per_like,
        m.mint_all(calls).config.total_supply == m.config.total_supply + calls.len()
            * m.config.mint_per_like,
        m.mint_all(calls).config.mint_per_like == m.config.mint_per_like,
    decreases calls.len(),
{
    if calls.len() > 0 {
        let first = calls.first();
        let next = m.mint(first.0, first.1).after(m);
        let rest = calls.drop_first();
        assert(first == calls[0]);
        assert forall|i: int| 0 <= i < rest.len() implies (#[trigger] rest[i]).0 == user by {
            assert(rest[i] == calls[i + 1]);
        }
        law_balance_after_mints(next, user, rest);
        let a = m.config.mint_per_like as int;
        let n = rest.len() as int;
        assert((n + 1) * a == n * a + a) by (nonlinear_arith);
        assert(calls.len() == n + 1);
    }
}

/// Under a ceiling the total supply never exceeds it: a ledger within its
/// ceiling is within it after any rewards, minted or refused, in any order.
pub proof fn law_supply_within_cap(m: LedgerModel, calls: Seq<(Seq<char>, u64)>)
    requires
        m.config.within_cap(),
    ensures
        m.mint_all(calls).config.within_cap(),
        m.mint_all(calls).config.max_supply == m.config.max_supply,
    decreases calls.len(),
{
    if calls.len() > 0 {
        let first = calls.first();
        let next = m.mint(first.0, first.1).after(m);
        law_supply_within_cap(next, calls.drop_first());
    }
}

/// A caller that is not the authority cannot replace the configuration: the
/// attempt is refused with `Unauthorized` and the ledger stays as it was,
/// whatever the new configuration holds.
pub proof fn law_only_authority_configures(
    m: LedgerModel,
    new_config: ConfigModel,
    caller: Seq<char>,
)
    requires
        caller != m.config.authority,
    ensures
        m.set_config(new_config, caller) == Step::Refused(LedgerError::Unauthorized),
        m.set_config(new_config, caller).after(m) == m,
{
}

/// A like does not depend on its reward: a like with its reward is refused
/// only for a pair that has a like, and where it is not refused the pair has
/// a like afterwards and the counter has grown by one, minted or not. Where
/// the reward is refused, the balances and the configuration stay.
pub proof fn law_like_survives_refused_reward(
    m: LedgerModel,
    review: Seq<char>,
    user: Seq<char>,
    now: u64,
)
    requires
        m.valid(),
        !m.has_liked(review, user),
    ensures
        ({
            let liked = m.record_like(review, user, now).after(m);
            let after = m.like_and_reward(review, user, now).after(m);
            &&& m.like_and_reward(review, user, now) is Done
            &&& after.has_liked(review, user)
            &&& after.like_count(review) == m.like_count(review) + 1
            &&& liked.mint_refusal(user) == m.mint_refusal(user)
            &&& m.mint_refusal(user) is Some ==> after.balances == m.balances && after.config
                == m.config
        }),
{
    let liked = m.record_like(review, user, now).after(m);
    let after = m.like_and_reward(review, user, now).after(m);
    assert(after.likes == liked.likes);
    assert(after.likers(review) =~= m.likers(review).insert(user));
    assert(m.likers(review).finite());
    assert(!m.likers(review).contains(user));
}

} // verus!
