//! The order on table keys, and the string primitives the crate relies on.

use vstd::prelude::*;

verus! {

/// Lexicographic order on character sequences, comparing scalar values
/// position by position; the empty sequence comes first. This is the order
/// in which `str` comparison ranks strings.
pub open spec fn key_lt(a: Seq<char>, b: Seq<char>) -> bool
    decreases a.len(),
{
    if b.len() == 0 {
        false
    } else if a.len() == 0 {
        true
    } else if a[0] != b[0] {
        (a[0] as u32) < (b[0] as u32)
    } else {
        key_lt(a.drop_first(), b.drop_first())
    }
}

/// `key_lt` is transitive.
pub proof fn lemma_key_lt_trans(a: Seq<char>, b: Seq<char>, c: Seq<char>)
    requires
        key_lt(a, b),
        key_lt(b, c),
    ensures
        key_lt(a, c),
    decreases a.len(),
{
    if a.len() != 0 && b.len() != 0 && c.len() != 0 && a[0] == b[0] && b[0] == c[0] {
        lemma_key_lt_trans(a.drop_first(), b.drop_first(), c.drop_first());
    }
}

/// Relies on `str::cmp` (the `Ord` impl for `str`): strings are ordered
/// lexicographically by byte value, which coincides with ordering by
/// Unicode code point, so the result mirrors `key_lt` on the views, and
/// `Equal` is returned exactly when the two strings hold the same text.
pub assume_specification[ <str as Ord>::cmp ](a: &str, b: &str) -> (r: core::cmp::Ordering)
    ensures
        (r == core::cmp::Ordering::Equal) <==> (a@ == b@),
        (r == core::cmp::Ordering::Less) <==> key_lt(a@, b@),
        (r == core::cmp::Ordering::Greater) <==> key_lt(b@, a@),
;

/// Relies on `String::push`: appends one character at the end.
pub assume_specification[ std::string::String::push ](s: &mut String, c: char)
    ensures
        final(s)@ == old(s)@.push(c),
;

/// Relies on `String::push_str`: appends the characters of `other` at the end.
pub assume_specification[ std::string::String::push_str ](s: &mut String, other: &str)
    ensures
        final(s)@ == old(s)@ + other@,
;

} // verus!
