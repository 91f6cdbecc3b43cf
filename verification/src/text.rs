//! Comparisons of text, character by character.

use vstd::prelude::*;
use vstd::string::*;

verus! {

/// Whether `pattern` stands in `text` at character position `start`.
spec fn occurs_at(text: Seq<char>, start: int, pattern: Seq<char>) -> bool {
    &&& 0 <= start
    &&& start + pattern.len() <= text.len()
    &&& text.subrange(start, start + pattern.len()) == pattern
}

/// Decides [`occurs_at`] for a position inside the text.
fn matches_at(text: &str, text_len: usize, start: usize, pattern: &str, pattern_len: usize) -> (found: bool)
    requires
        text_len == text@.len(),
        pattern_len == pattern@.len(),
        start + pattern_len <= text_len,
    ensures
        found == occurs_at(text@, start as int, pattern@),
{
    let mut i: usize = 0;
    while i < pattern_len
        invariant
            text_len == text@.len(),
            pattern_len == pattern@.len(),
            start + pattern_len <= text_len,
            i <= pattern_len,
            forall|j: int| 0 <= j < i ==> text@[start + j] == pattern@[j],
        decreases pattern_len - i,
    {
        if text.get_char(start + i) != pattern.get_char(i) {
            assert(text@.subrange(start as int, start + pattern@.len())[i as int] != pattern@[i as int]);
            return false;
        }
        i += 1;
    }
    assert(text@.subrange(start as int, start + pattern@.len()) =~= pattern@);
    true
}

/// Whether the two texts hold the same characters.
pub fn same_text(a: &str, b: &str) -> (same: bool)
    ensures
        same == (a@ == b@),
{
    let a_len = a.unicode_len();
    let b_len = b.unicode_len();
    if a_len != b_len {
        return false;
    }
    let found = matches_at(a, a_len, 0, b, b_len);
    assert(a@.subrange(0, a@.len() as int) =~= a@);
    found
}

/// Whether `text` begins with `prefix`.
pub fn starts_with(text: &str, prefix: &str) -> (found: bool)
    ensures
        found == prefix@.is_prefix_of(text@),
{
    let text_len = text.unicode_len();
    let prefix_len = prefix.unicode_len();
    if prefix_len > text_len {
        return false;
    }
    matches_at(text, text_len, 0, prefix, prefix_len)
}

/// Whether `text` ends with `suffix`.
pub fn ends_with(text: &str, suffix: &str) -> (found: bool)
    ensures
        found == suffix@.is_suffix_of(text@),
{
    let text_len = text.unicode_len();
    let suffix_len = suffix.unicode_len();
    if suffix_len > text_len {
        return false;
    }
    matches_at(text, text_len, text_len - suffix_len, suffix, suffix_len)
}

} // verus!
