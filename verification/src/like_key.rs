//! The key under which a like is stored: an injective encoding of the
//! ordered pair (review, user) as one string.
//!
//! The key starts with eight characters that carry the length of the review
//! identifier, one byte each, lowest first. The two identifiers follow.

use vstd::prelude::*;
use vstd::string::*;

verus! {

/// The eight characters that carry `n`, lowest byte first.
pub open spec fn length_digits(n: u64) -> Seq<char> {
    seq![
        ((n & 0xff) as u8) as char,
        (((n >> 8) & 0xff) as u8) as char,
        (((n >> 16) & 0xff) as u8) as char,
        (((n >> 24) & 0xff) as u8) as char,
        (((n >> 32) & 0xff) as u8) as char,
        (((n >> 40) & 0xff) as u8) as char,
        (((n >> 48) & 0xff) as u8) as char,
        (((n >> 56) & 0xff) as u8) as char,
    ]
}

/// The length that the first eight characters of a key carry.
pub open spec fn carried_length(review: Seq<char>) -> u64 {
    (review.len() % 0x1_0000_0000_0000_0000) as u64
}

/// The key of the like that `user` gave to `review`.
pub open spec fn like_key_spec(review: Seq<char>, user: Seq<char>) -> Seq<char> {
    length_digits(carried_length(review)) + review + user
}

/// Two numbers with the same eight digits are equal.
pub proof fn lemma_length_digits_injective(n: u64, m: u64)
    requires
        length_digits(n) == length_digits(m),
    ensures
        n == m,
{
    let a = length_digits(n);
    let b = length_digits(m);
    assert(a[0] == b[0] && a[1] == b[1] && a[2] == b[2] && a[3] == b[3]);
    assert(a[4] == b[4] && a[5] == b[5] && a[6] == b[6] && a[7] == b[7]);
    assert(((n & 0xff) as u8) == ((m & 0xff) as u8));
    assert((((n >> 8) & 0xff) as u8) == (((m >> 8) & 0xff) as u8));
    assert((((n >> 16) & 0xff) as u8) == (((m >> 16) & 0xff) as u8));
    assert((((n >> 24) & 0xff) as u8) == (((m >> 24) & 0xff) as u8));
    assert((((n >> 32) & 0xff) as u8) == (((m >> 32) & 0xff) as u8));
    assert((((n >> 40) & 0xff) as u8) == (((m >> 40) & 0xff) as u8));
    assert((((n >> 48) & 0xff) as u8) == (((m >> 48) & 0xff) as u8));
    assert((((n >> 56) & 0xff) as u8) == (((m >> 56) & 0xff) as u8));
    assert(n == m) by (bit_vector)
        requires
            ((n & 0xff) as u8) == ((m & 0xff) as u8),
            (((n >> 8) & 0xff) as u8) == (((m >> 8) & 0xff) as u8),
            (((n >> 16) & 0xff) as u8) == (((m >> 16) & 0xff) as u8),
            (((n >> 24) & 0xff) as u8) == (((m >> 24) & 0xff) as u8),
            (((n >> 32) & 0xff) as u8) == (((m >> 32) & 0xff) as u8),
            (((n >> 40) & 0xff) as u8) == (((m >> 40) & 0xff) as u8),
            (((n >> 48) & 0xff) as u8) == (((m >> 48) & 0xff) as u8),
            (((n >> 56) & 0xff) as u8) == (((m >> 56) & 0xff) as u8),
    ;
}

/// The encoding is injective: a key belongs to one pair only. The bound is
/// asked of one pair alone, so the other may be any pair at all.
pub proof fn lemma_like_key_injective(
    review: Seq<char>,
    user: Seq<char>,
    other_review: Seq<char>,
    other_user: Seq<char>,
)
    requires
        review.len() <= u64::MAX,
        user.len() <= u64::MAX,
        like_key_spec(review, user) == like_key_spec(other_review, other_user),
    ensures
        review == other_review,
        user == other_user,
{
    let k = like_key_spec(review, user);
    let o = like_key_spec(other_review, other_user);
    let d = length_digits(carried_length(review));
    let e = length_digits(carried_length(other_review));
    assert(k.len() == 8 + review.len() + user.len());
    assert(o.len() == 8 + other_review.len() + other_user.len());
    assert(d =~= e) by {
        assert forall|i: int| 0 <= i < 8 implies d[i] == e[i] by {
            assert(k[i] == d[i]);
            assert(o[i] == e[i]);
        }
    }
    lemma_length_digits_injective(carried_length(review), carried_length(other_review));
    assert(review.len() == other_review.len());
    assert(review =~= other_review) by {
        assert forall|i: int| 0 <= i < review.len() implies review[i] == other_review[i] by {
            assert(k[8 + i] == review[i]);
            assert(o[8 + i] == other_review[i]);
        }
    }
    assert(user =~= other_user) by {
        assert forall|i: int| 0 <= i < user.len() implies user[i] == other_user[i] by {
            assert(k[8 + review.len() + i] == user[i]);
            assert(o[8 + review.len() + i] == other_user[i]);
        }
    }
}

/// The likes of one review have different keys for different users, whatever
/// the lengths.
pub proof fn lemma_like_key_tells_users_apart(
    review: Seq<char>,
    user: Seq<char>,
    other_user: Seq<char>,
)
    requires
        like_key_spec(review, user) == like_key_spec(review, other_user),
    ensures
        user == other_user,
{
    let head = length_digits(carried_length(review)) + review;
    let k = like_key_spec(review, user);
    let o = like_key_spec(review, other_user);
    assert(k.len() == head.len() + user.len());
    assert(o.len() == head.len() + other_user.len());
    assert(user =~= other_user) by {
        assert forall|i: int| 0 <= i < user.len() implies user[i] == other_user[i] by {
            assert(k[head.len() + i] == user[i]);
            assert(o[head.len() + i] == other_user[i]);
        }
    }
}

/// `String::push` appends the one character to the end of the string; the
/// characters already there stay as they are.
#[verifier::external_body]
fn push_char(text: &mut String, c: char)
    ensures
        final(text)@ == old(text)@.push(c),
{
    text.push(c)
}

/// Builds the key of the like that `user_id` gave to `review_id`.
pub fn like_key(review_id: &str, user_id: &str) -> (key: String)
    ensures
        key@ == like_key_spec(review_id@, user_id@),
        review_id@.len() <= u64::MAX,
        user_id@.len() <= u64::MAX,
{
    let n: u64 = review_id.unicode_len() as u64;
    let user_len: usize = user_id.unicode_len();
    let mut key = String::new();
    push_char(&mut key, ((n & 0xff) as u8) as char);
    push_char(&mut key, (((n >> 8) & 0xff) as u8) as char);
    push_char(&mut key, (((n >> 16) & 0xff) as u8) as char);
    push_char(&mut key, (((n >> 24) & 0xff) as u8) as char);
    push_char(&mut key, (((n >> 32) & 0xff) as u8) as char);
    push_char(&mut key, (((n >> 40) & 0xff) as u8) as char);
    push_char(&mut key, (((n >> 48) & 0xff) as u8) as char);
    push_char(&mut key, (((n >> 56) & 0xff) as u8) as char);
    assert(n == carried_length(review_id@));
    assert(key@ =~= length_digits(n));
    key.append(review_id);
    key.append(user_id);
    key
}

/// Takes a key apart: the pair that it is the key of, if it is the key of
/// one. By `lemma_like_key_injective` it is then the key of no other pair.
pub fn split_like_key(key: &str) -> (pair: Option<(String, String)>)
    ensures
        match pair {
            Some(p) => key@ == like_key_spec(p.0@, p.1@) && p.0@.len() <= u64::MAX && p.1@.len()
                <= u64::MAX,
            None => forall|review: Seq<char>, user: Seq<char>|
                key@ != #[trigger] like_key_spec(review, user),
        },
{
    let len: usize = key.unicode_len();
    if len < 8 {
        assert forall|review: Seq<char>, user: Seq<char>|
            key@ != #[trigger] like_key_spec(review, user) by {
            assert(like_key_spec(review, user).len() >= 8);
        }
        return None;
    }
    let c0: u32 = key.get_char(0) as u32;
    let c1: u32 = key.get_char(1) as u32;
    let c2: u32 = key.get_char(2) as u32;
    let c3: u32 = key.get_char(3) as u32;
    let c4: u32 = key.get_char(4) as u32;
    let c5: u32 = key.get_char(5) as u32;
    let c6: u32 = key.get_char(6) as u32;
    let c7: u32 = key.get_char(7) as u32;
    if c0 > 255 || c1 > 255 || c2 > 255 || c3 > 255 || c4 > 255 || c5 > 255 || c6 > 255 || c7
        > 255 {
        assert forall|review: Seq<char>, user: Seq<char>|
            key@ != #[trigger] like_key_spec(review, user) by {
            let k = like_key_spec(review, user);
            let d = length_digits(carried_length(review));
            assert(forall|i: int| 0 <= i < 8 ==> k[i] == d[i]);
            assert(forall|i: int| 0 <= i < 8 ==> (d[i] as u32) <= 255);
        }
        return None;
    }
    let n: u64 = (c0 as u64) | ((c1 as u64) << 8) | ((c2 as u64) << 16) | ((c3 as u64) << 24) | ((
    c4 as u64) << 32) | ((c5 as u64) << 40) | ((c6 as u64) << 48) | ((c7 as u64) << 56);
    proof {
        assert(length_digits(n) =~= key@.subrange(0, 8)) by {
            assert((n & 0xff) as u8 == c0 && ((n >> 8) & 0xff) as u8 == c1 && ((n >> 16) & 0xff) as u8
                == c2 && ((n >> 24) & 0xff) as u8 == c3 && ((n >> 32) & 0xff) as u8 == c4 && ((n
                >> 40) & 0xff) as u8 == c5 && ((n >> 48) & 0xff) as u8 == c6 && ((n >> 56) & 0xff) as u8
                == c7) by (bit_vector)
                requires
                    c0 <= 255 && c1 <= 255 && c2 <= 255 && c3 <= 255,
                    c4 <= 255 && c5 <= 255 && c6 <= 255 && c7 <= 255,
                    n == (c0 as u64) | ((c1 as u64) << 8) | ((c2 as u64) << 16) | ((c3 as u64)
                        << 24) | ((c4 as u64) << 32) | ((c5 as u64) << 40) | ((c6 as u64) << 48) | ((
                    c7 as u64) << 56),
            ;
        }
    }
    if n > (len - 8) as u64 {
        assert forall|review: Seq<char>, user: Seq<char>|
            key@ != #[trigger] like_key_spec(review, user) by {
            if key@ == like_key_spec(review, user) {
                let d = length_digits(carried_length(review));
                assert(d =~= key@.subrange(0, 8));
                lemma_length_digits_injective(carried_length(review), n);
                assert(key@.len() == 8 + review.len() + user.len());
            }
        }
        return None;
    }
    let cut: usize = 8 + n as usize;
    let review = key.substring_char(8, cut).to_owned();
    let user = key.substring_char(cut, len).to_owned();
    assert(key@ =~= like_key_spec(review@, user@));
    Some((review, user))
}

} // verus!
