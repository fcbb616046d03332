//! What the rules read off a string.

use vstd::prelude::*;
use vstd::string::*;

verus! {

/// The characters with the Unicode property White_Space.
pub open spec fn white_space(c: char) -> bool {
    let n = c as u32;
    ||| 0x09 <= n <= 0x0D
    ||| n == 0x20
    ||| n == 0x85
    ||| n == 0xA0
    ||| n == 0x1680
    ||| 0x2000 <= n <= 0x200A
    ||| n == 0x2028
    ||| n == 0x2029
    ||| n == 0x202F
    ||| n == 0x205F
    ||| n == 0x3000
}

/// The string holds nothing but white space.
pub open spec fn blank(s: Seq<char>) -> bool {
    forall|i: int| 0 <= i < s.len() ==> white_space(#[trigger] s[i])
}

/// `t` is `s` without the white space at its two ends.
pub open spec fn trims_to(s: Seq<char>, t: Seq<char>) -> bool {
    exists|i: int, j: int|
        {
            &&& 0 <= i <= j <= s.len()
            &&& #[trigger] s.subrange(i, j) == t
            &&& forall|k: int| 0 <= k < i ==> white_space(#[trigger] s[k])
            &&& forall|k: int| j <= k < s.len() ==> white_space(#[trigger] s[k])
            &&& i < j ==> !white_space(s[i]) && !white_space(s[j - 1])
        }
}

/// `str::trim`: the slice that is left when the leading and the trailing
/// white space, as the Unicode property White_Space has it, is taken off.
#[verifier::external_body]
pub(crate) fn trimmed(s: &str) -> (t: &str)
    ensures
        trims_to(s@, t@),
{
    s.trim()
}

/// `str::contains` with a character for a pattern: whether the character
/// occurs in the string.
#[verifier::external_body]
pub(crate) fn has_char(s: &str, c: char) -> (found: bool)
    ensures
        found == s@.contains(c),
{
    s.contains(c)
}

/// Whether the string holds nothing but white space.
pub fn is_blank(s: &str) -> (b: bool)
    ensures
        b == blank(s@),
{
    let t = trimmed(s);
    let b = t.is_empty();
    proof {
        let (i, j) = choose|i: int, j: int|
            {
                &&& 0 <= i <= j <= s@.len()
                &&& #[trigger] s@.subrange(i, j) == t@
                &&& forall|k: int| 0 <= k < i ==> white_space(#[trigger] s@[k])
                &&& forall|k: int| j <= k < s@.len() ==> white_space(#[trigger] s@[k])
                &&& i < j ==> !white_space(s@[i]) && !white_space(s@[j - 1])
            };
        assert(s@.subrange(i, j).len() == j - i);
    }
    b
}

/// Whether two strings hold the same characters.
pub fn same_text(a: &str, b: &str) -> (same: bool)
    ensures
        same == (a@ == b@),
{
    let left: String = a.to_owned();
    let right: String = b.to_owned();
    left == right
}

} // verus!
