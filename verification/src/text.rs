//! Small verified helpers on text, stated over sequences of characters.

use vstd::prelude::*;

verus! {

/// An optional piece of text as characters.
pub open spec fn text_of(text: Option<String>) -> Option<Seq<char>> {
    match text {
        Some(t) => Some(t@),
        None => None,
    }
}

/// Whether `text` and `other` hold the same characters.
pub fn same_text(text: &str, other: &str) -> (same: bool)
    ensures
        same == (text@ == other@),
{
    let n = text.unicode_len();
    if n != other.unicode_len() {
        return false;
    }
    let mut i: usize = 0;
    while i < n
        invariant
            i <= n,
            n == text@.len(),
            n == other@.len(),
            forall|j: int| 0 <= j < i ==> text@[j] == other@[j],
        decreases n - i,
    {
        if text.get_char(i) != other.get_char(i) {
            return false;
        }
        i += 1;
    }
    assert(text@ =~= other@);
    true
}

/// Whether `text` begins with the characters of `prefix`.
pub fn has_prefix(text: &str, prefix: &str) -> (found: bool)
    ensures
        found == prefix@.is_prefix_of(text@),
{
    let n = prefix.unicode_len();
    if n > text.unicode_len() {
        return false;
    }
    let mut i: usize = 0;
    while i < n
        invariant
            i <= n,
            n == prefix@.len(),
            n <= text@.len(),
            forall|j: int| 0 <= j < i ==> text@[j] == prefix@[j],
        decreases n - i,
    {
        if text.get_char(i) != prefix.get_char(i) {
            assert(text@.subrange(0, n as int)[i as int] != prefix@[i as int]);
            return false;
        }
        i += 1;
    }
    assert(prefix@ =~= text@.subrange(0, n as int));
    true
}

} // verus!
