//! Validation of playable URLs: only YouTube watch links and youtu.be
//! share links are accepted.

use vstd::prelude::*;

verus! {

/// Whether `needle` occurs as a contiguous run of characters in `text`.
pub open spec fn contains_seq(text: Seq<char>, needle: Seq<char>) -> bool {
    exists|i: int|
        0 <= i <= text.len() - needle.len() && #[trigger] text.subrange(i, i + needle.len())
            == needle
}

/// Whether `needle` starts at position `i` of `text`.
fn matches_at(text: &str, needle: &str, i: usize) -> (r: bool)
    requires
        i + needle@.len() <= text@.len(),
        text@.len() <= usize::MAX,
    ensures
        r == (text@.subrange(i as int, i + needle@.len()) == needle@),
{
    let m = needle.unicode_len();
    let mut j: usize = 0;
    while j < m
        invariant
            j <= m,
            m == needle@.len(),
            i + m <= text@.len(),
            text@.len() <= usize::MAX,
            forall|k: int| 0 <= k < j ==> text@[i + k] == needle@[k],
        decreases m - j,
    {
        if text.get_char(i + j) != needle.get_char(j) {
            proof {
                assert(text@.subrange(i as int, i + needle@.len())[j as int] == text@[i + j]);
            }
            return false;
        }
        j = j + 1;
    }
    proof {
        assert(text@.subrange(i as int, i + needle@.len()) =~= needle@);
    }
    true
}

/// Whether `needle` occurs anywhere in `text`.
pub fn contains_str(text: &str, needle: &str) -> (r: bool)
    ensures
        r == contains_seq(text@, needle@),
{
    let n = text.unicode_len();
    let m = needle.unicode_len();
    if m > n {
        return false;
    }
    if m == 0 {
        proof {
            assert(text@.subrange(0, 0 + needle@.len() as int) =~= needle@);
            assert(contains_seq(text@, needle@));
        }
        return true;
    }
    let mut i: usize = 0;
    while i <= n - m
        invariant
            n == text@.len(),
            m == needle@.len(),
            0 < m <= n,
            i <= n - m + 1,
            forall|j: int|
                0 <= j < i ==> #[trigger] text@.subrange(j, j + needle@.len()) != needle@,
        decreases n - m + 1 - i,
    {
        if matches_at(text, needle, i) {
            return true;
        }
        i = i + 1;
    }
    false
}

/// Whether `text` begins with `prefix`.
pub open spec fn has_prefix(text: Seq<char>, prefix: Seq<char>) -> bool {
    text.len() >= prefix.len() && text.subrange(0, prefix.len() as int) == prefix
}

/// Whether `text` begins with `prefix`.
pub fn starts_with_str(text: &str, prefix: &str) -> (r: bool)
    ensures
        r == has_prefix(text@, prefix@),
{
    let n = text.unicode_len();
    let m = prefix.unicode_len();
    if m > n {
        return false;
    }
    matches_at(text, prefix, 0)
}

/// Whether the two strings hold the same characters.
pub fn str_eq(a: &str, b: &str) -> (r: bool)
    ensures
        r == (a@ == b@),
{
    let n = a.unicode_len();
    let m = b.unicode_len();
    if n != m {
        return false;
    }
    let mut i: usize = 0;
    while i < n
        invariant
            n == a@.len(),
            n == b@.len(),
            i <= n,
            forall|k: int| 0 <= k < i ==> a@[k] == b@[k],
        decreases n - i,
    {
        if a.get_char(i) != b.get_char(i) {
            return false;
        }
        i = i + 1;
    }
    proof {
        assert(a@ =~= b@);
    }
    true
}

/// A string names a playable track only if it holds `youtube.com` together
/// with `/watch`, or holds `youtu.be`.
pub fn is_valid_youtube_url(url: &String) -> (r: bool)
    ensures
        r == ((contains_seq(url@, "youtube.com"@) && contains_seq(url@, "/watch"@))
            || contains_seq(url@, "youtu.be"@)),
{
    (contains_str(url.as_str(), "youtube.com") && contains_str(url.as_str(), "/watch"))
        || contains_str(url.as_str(), "youtu.be")
}

} // verus!
