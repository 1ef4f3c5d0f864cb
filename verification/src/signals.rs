//! Structural signals derived from a normalized message by independent,
//! side-effect-free checks: a fixed suspicious-keyword list, a
//! mention-pattern match, a link-pattern match, and an emoji count.

use vstd::prelude::*;

use crate::text::chars_of;
use crate::text::contains_substring;
use crate::text::is_substring_of;

verus! {

/// One character of the emoji blocks the emoji signal counts: emoticons,
/// dingbats, transport and map symbols, and miscellaneous symbols and
/// pictographs.
pub open spec fn is_emoji_char(c: char) -> bool {
    let u = c as u32;
    (0x1F600 <= u && u <= 0x1F64F) || (0x2700 <= u && u <= 0x27BF) || (0x1F680 <= u && u
        <= 0x1F6FF) || (0x1F300 <= u && u <= 0x1F5FF)
}

fn emoji_char(c: char) -> (r: bool)
    ensures
        r == is_emoji_char(c),
{
    let u = c as u32;
    (0x1F600 <= u && u <= 0x1F64F) || (0x2700 <= u && u <= 0x27BF) || (0x1F680 <= u && u
        <= 0x1F6FF) || (0x1F300 <= u && u <= 0x1F5FF)
}

/// How many emoji characters `s` holds.
pub open spec fn emoji_count(s: Seq<char>) -> nat
    decreases s.len(),
{
    if s.len() == 0 {
        0
    } else {
        emoji_count(s.drop_last()) + (if is_emoji_char(s.last()) {
            1nat
        } else {
            0nat
        })
    }
}

/// Counts the emoji characters of a message.
pub fn count_emoji(text: &Vec<char>) -> (r: usize)
    ensures
        r as nat == emoji_count(text@),
{
    let mut cnt: usize = 0;
    let mut i: usize = 0;
    while i < text.len()
        invariant
            i <= text.len(),
            cnt <= i,
            cnt as nat == emoji_count(text@.subrange(0, i as int)),
        decreases text.len() - i,
    {
        proof {
            assert(text@.subrange(0, i + 1).drop_last() =~= text@.subrange(0, i as int));
            assert(text@.subrange(0, i + 1).last() == text@[i as int]);
        }
        if emoji_char(text[i]) {
            cnt += 1;
        }
        i += 1;
    }
    proof {
        assert(text@.subrange(0, text@.len() as int) =~= text@);
    }
    cnt
}

/// One of the fixed suspicious keywords occurs in the text.
pub open spec fn has_suspicious_keyword(text: Seq<char>) -> bool {
    is_substring_of("tmo"@, text) || is_substring_of("vcs"@, text) || is_substring_of(
        "vcan"@,
        text,
    ) || is_substring_of("vcs-an"@, text)
}

/// Whether any of the fixed suspicious keywords occurs in the text.
pub fn suspicious_keyword(text: &Vec<char>) -> (r: bool)
    ensures
        r == has_suspicious_keyword(text@),
{
    let a = chars_of("tmo");
    if contains_substring(text, &a) {
        return true;
    }
    let b = chars_of("vcs");
    if contains_substring(text, &b) {
        return true;
    }
    let c = chars_of("vcan");
    if contains_substring(text, &c) {
        return true;
    }
    let d = chars_of("vcs-an");
    contains_substring(text, &d)
}

/// Whether the text holds a mention: `@` followed by five or more word
/// characters.
pub uninterp spec fn mention_match(s: Seq<char>) -> bool;

/// Whether the text holds a link: an http or https URL, or a t.me, wa.me
/// or bit.ly address.
pub uninterp spec fn url_match(s: Seq<char>) -> bool;

/// Relies on `regex::Regex::new` and `regex::Regex::is_match` with this
/// fixed mention pattern; the result depends on the characters alone.
#[verifier::external_body]
fn mention_match_exec(s: &str) -> (r: bool)
    ensures
        r == mention_match(s@),
{
    regex::Regex::new(r"@[\w\d_]{5,}").unwrap().is_match(s)
}

/// Relies on `regex::Regex::new` and `regex::Regex::is_match` with this
/// fixed link pattern; the result depends on the characters alone.
#[verifier::external_body]
fn url_match_exec(s: &str) -> (r: bool)
    ensures
        r == url_match(s@),
{
    regex::Regex::new(r"https?://\S+|t\.me/\S+|wa\.me/\S+|bit\.ly/\S+").unwrap().is_match(s)
}

/// The structural signals of one message, precomputed for the evaluator.
#[derive(Clone, Copy, Debug, PartialEq, Eq, Structural)]
pub struct Signals {
    pub suspicious_keyword: bool,
    pub mention: bool,
    pub url: bool,
    pub emoji_count: usize,
}

/// The signals a normalized text yields.
pub open spec fn spec_signals(text: Seq<char>) -> Signals {
    Signals {
        suspicious_keyword: has_suspicious_keyword(text),
        mention: mention_match(text),
        url: url_match(text),
        emoji_count: emoji_count(text) as usize,
    }
}

/// Computes the structural signals of a normalized message.
pub fn compute_signals(text: &str) -> (r: Signals)
    ensures
        r == spec_signals(text@),
{
    let chars = chars_of(text);
    let cnt = count_emoji(&chars);
    Signals {
        suspicious_keyword: suspicious_keyword(&chars),
        mention: mention_match_exec(text),
        url: url_match_exec(text),
        emoji_count: cnt,
    }
}

} // verus!
