//! Text normalization and substring containment.
//!
//! Denylist and allowlist terms are compared against message text in a
//! single normalized form: trimmed of surrounding whitespace, then
//! case-folded. Matching is deliberately unanchored substring containment
//! (not word-boundary matching), so concatenated evasions are caught.

use vstd::prelude::*;
use vstd::string::StrSliceExecFns;

verus! {

/// The character sequence `str::trim` returns: the text without leading
/// and trailing whitespace.
pub uninterp spec fn trim_of(s: Seq<char>) -> Seq<char>;

/// The character sequence `str::to_lowercase` returns: the Unicode
/// lowercase form of the text.
pub uninterp spec fn lower_of(s: Seq<char>) -> Seq<char>;

/// A message or term in normalized form: trimmed, then case-folded.
pub open spec fn norm_of(s: Seq<char>) -> Seq<char> {
    lower_of(trim_of(s))
}

/// Relies on `str::trim`: removes leading and trailing whitespace; the
/// result depends on the characters alone.
#[verifier::external_body]
fn trim_str(s: &str) -> (r: &str)
    ensures
        r@ == trim_of(s@),
{
    s.trim()
}

/// Relies on `str::to_lowercase`: Unicode case folding; the result
/// depends on the characters alone.
#[verifier::external_body]
fn lower_str(s: &str) -> (r: String)
    ensures
        r@ == lower_of(s@),
{
    s.to_lowercase()
}

/// Normalizes raw message text or a raw list term: trim, then case-fold.
pub fn normalize(s: &str) -> (r: String)
    ensures
        r@ == norm_of(s@),
{
    lower_str(trim_str(s))
}

/// The characters of `s`, one by one.
pub fn chars_of(s: &str) -> (r: Vec<char>)
    ensures
        r@ == s@,
{
    let len = s.unicode_len();
    let mut r: Vec<char> = Vec::new();
    let mut i: usize = 0;
    while i < len
        invariant
            i <= len,
            len == s@.len(),
            r@ == s@.subrange(0, i as int),
        decreases len - i,
    {
        r.push(s.get_char(i));
        proof {
            assert(r@ =~= s@.subrange(0, i + 1));
        }
        i += 1;
    }
    proof {
        assert(r@ =~= s@);
    }
    r
}

/// `needle` occurs contiguously somewhere in `hay`. The empty sequence
/// occurs in every text.
pub open spec fn is_substring_of(needle: Seq<char>, hay: Seq<char>) -> bool {
    exists|i: int|
        0 <= i <= hay.len() - needle.len() && #[trigger] hay.subrange(i, i + needle.len() as int)
            == needle
}

/// Naive substring search, proved against `is_substring_of`.
pub fn contains_substring(hay: &Vec<char>, needle: &Vec<char>) -> (r: bool)
    ensures
        r == is_substring_of(needle@, hay@),
{
    let n = needle.len();
    let h = hay.len();
    if n > h {
        return false;
    }
    let mut i: usize = 0;
    while i <= h - n
        invariant
            n <= h,
            h == hay@.len(),
            n == needle@.len(),
            i <= h - n + 1,
            forall|j: int| 0 <= j < i ==> #[trigger] hay@.subrange(j, j + n as int) != needle@,
        decreases h - n + 1 - i,
    {
        let mut k: usize = 0;
        while k < n && hay[i + k] == needle[k]
            invariant
                n <= h,
                h == hay@.len(),
                n == needle@.len(),
                i + n <= h,
                k <= n,
                forall|m: int| 0 <= m < k ==> hay@[i + m] == needle@[m],
            decreases n - k,
        {
            k += 1;
        }
        if k == n {
            proof {
                assert(hay@.subrange(i as int, i + n as int) =~= needle@);
            }
            return true;
        }
        proof {
            assert(hay@.subrange(i as int, i + n as int)[k as int] == hay@[i + k]);
        }
        i += 1;
    }
    false
}

/// Substring search over string slices.
pub fn contains_str(hay: &str, needle: &str) -> (r: bool)
    ensures
        r == is_substring_of(needle@, hay@),
{
    let hay_chars = chars_of(hay);
    let needle_chars = chars_of(needle);
    contains_substring(&hay_chars, &needle_chars)
}

/// Some term of `terms` occurs in `text`.
pub open spec fn any_term_matches(terms: Seq<Seq<char>>, text: Seq<char>) -> bool {
    exists|i: int| 0 <= i < terms.len() && is_substring_of(terms[i], text)
}

/// Whether any of `terms` occurs in `text`.
pub fn matches_any(terms: &Vec<String>, text: &Vec<char>) -> (r: bool)
    ensures
        r == any_term_matches(terms.deep_view(), text@),
{
    let mut i: usize = 0;
    while i < terms.len()
        invariant
            i <= terms.len(),
            forall|j: int| 0 <= j < i ==> !is_substring_of(terms.deep_view()[j], text@),
        decreases terms.len() - i,
    {
        let needle = chars_of(terms[i].as_str());
        if contains_substring(text, &needle) {
            proof {
                assert(is_substring_of(terms.deep_view()[i as int], text@));
            }
            return true;
        }
        i += 1;
    }
    false
}

} // verus!
