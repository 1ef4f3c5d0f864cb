//! The signal evaluator: a pure function from a ruleset snapshot, the
//! recency verdict and the structural signals of a normalized message to
//! one suppress/allow decision.
//!
//! Precedence is fixed, first match wins: a disabled chat bypasses
//! everything; an allowlist hit overrides every suppress signal; then any
//! of duplicate, suspicious keyword, mention, link, excessive emoji or
//! denylist hit suppresses; otherwise the message is clean.

use vstd::prelude::*;
use vstd::string::StringExecFns;

use crate::EMOJI_LIMIT;
use crate::ruleset::RuleSet;
use crate::ruleset::RuleSetView;
use crate::ruleset::fail_closed_view;
use crate::signals::Signals;
use crate::text::any_term_matches;
use crate::text::matches_any;

verus! {

/// Why a decision came out as it did.
#[derive(Clone, Copy, Debug, PartialEq, Eq, Structural)]
pub enum Reason {
    Duplicate,
    Denylisted,
    Disabled,
    Clean,
}

/// The outcome of classifying one message. Suppression itself is the
/// caller's job; this type only decides.
#[derive(Clone, Copy, Debug, PartialEq, Eq, Structural)]
pub struct Decision {
    pub suppress: bool,
    pub reason: Reason,
}

/// Some signal other than a recency duplicate calls for suppression: a
/// suspicious keyword, a mention, a link, too many emoji, or a denylist
/// hit.
pub open spec fn other_suppress_signal(rs: RuleSetView, text: Seq<char>, sig: Signals) -> bool {
    sig.suspicious_keyword || sig.mention || sig.url || sig.emoji_count > EMOJI_LIMIT
        || any_term_matches(rs.denylist, text)
}

/// The decision owed for a normalized message, in fixed precedence:
/// disabled bypasses everything; an allowlist hit is clean whatever else
/// holds; a duplicate alone reports `Duplicate`; any other suppress
/// signal reports `Denylisted`; otherwise the message is clean.
pub open spec fn spec_evaluate(
    rs: RuleSetView,
    is_duplicate: bool,
    text: Seq<char>,
    sig: Signals,
) -> Decision {
    if !rs.enabled {
        Decision { suppress: false, reason: Reason::Disabled }
    } else if any_term_matches(rs.allowlist, text) {
        Decision { suppress: false, reason: Reason::Clean }
    } else if is_duplicate && !other_suppress_signal(rs, text, sig) {
        Decision { suppress: true, reason: Reason::Duplicate }
    } else if is_duplicate || other_suppress_signal(rs, text, sig) {
        Decision { suppress: true, reason: Reason::Denylisted }
    } else {
        Decision { suppress: false, reason: Reason::Clean }
    }
}

/// Evaluates one normalized message against a ruleset snapshot, the
/// recency verdict and its structural signals.
pub fn evaluate(rs: &RuleSet, is_duplicate: bool, text: &Vec<char>, sig: &Signals) -> (d: Decision)
    ensures
        d == spec_evaluate(rs@, is_duplicate, text@, *sig),
{
    if !rs.enabled {
        return Decision { suppress: false, reason: Reason::Disabled };
    }
    if matches_any(&rs.allowlist, text) {
        return Decision { suppress: false, reason: Reason::Clean };
    }
    let other = sig.suspicious_keyword || sig.mention || sig.url || sig.emoji_count > EMOJI_LIMIT
        || matches_any(&rs.denylist, text);
    if is_duplicate && !other {
        Decision { suppress: true, reason: Reason::Duplicate }
    } else if is_duplicate || other {
        Decision { suppress: true, reason: Reason::Denylisted }
    } else {
        Decision { suppress: false, reason: Reason::Clean }
    }
}

/// The message attached to each suppressing reason; reasons that never
/// suppress carry no message.
pub open spec fn reason_text(r: Reason) -> Seq<char> {
    match r {
        Reason::Duplicate => "duplicate of the previous message"@,
        Reason::Denylisted => "matched a denylisted or suspicious pattern"@,
        Reason::Disabled => ""@,
        Reason::Clean => ""@,
    }
}

/// A decision in the shape the surrounding bot layers consume: a flag and
/// an optional human-readable reason.
#[derive(Debug)]
pub struct SpamDetectionResult {
    pub is_spam: bool,
    pub reason: Option<String>,
}

/// Repackages a decision as a detection result; the reason message is
/// present exactly when the message is to be suppressed.
pub fn detection_result(d: &Decision) -> (r: SpamDetectionResult)
    ensures
        r.is_spam == d.suppress,
        d.suppress ==> (r.reason matches Some(s) && s@ == reason_text(d.reason)),
        !d.suppress ==> r.reason is None,
{
    if d.suppress {
        let msg = match d.reason {
            Reason::Duplicate => String::from_str("duplicate of the previous message"),
            Reason::Denylisted => String::from_str("matched a denylisted or suspicious pattern"),
            Reason::Disabled => String::from_str(""),
            Reason::Clean => String::from_str(""),
        };
        SpamDetectionResult { is_spam: true, reason: Some(msg) }
    } else {
        SpamDetectionResult { is_spam: false, reason: None }
    }
}

/// Law: a disabled ruleset bypasses moderation entirely — nothing is
/// suppressed, whatever the lists, the recency verdict and the signals
/// hold, even an exact denylist hit.
pub proof fn lemma_disabled_bypasses_everything(
    rs: RuleSetView,
    is_duplicate: bool,
    text: Seq<char>,
    sig: Signals,
)
    requires
        !rs.enabled,
    ensures
        spec_evaluate(rs, is_duplicate, text, sig) == (Decision {
            suppress: false,
            reason: Reason::Disabled,
        }),
{
}

/// Law: an allowlist hit overrides every suppress signal — duplicates,
/// denylist hits and structural signals included.
pub proof fn lemma_allowlist_overrides_all(
    rs: RuleSetView,
    is_duplicate: bool,
    text: Seq<char>,
    sig: Signals,
)
    requires
        rs.enabled,
        any_term_matches(rs.allowlist, text),
    ensures
        spec_evaluate(rs, is_duplicate, text, sig) == (Decision {
            suppress: false,
            reason: Reason::Clean,
        }),
{
}

/// Law: the fail-closed default ruleset — the one served for chats never
/// written to, and on any store failure — never suppresses a message.
pub proof fn lemma_fail_closed_never_suppresses(is_duplicate: bool, text: Seq<char>, sig: Signals)
    ensures
        !spec_evaluate(fail_closed_view(), is_duplicate, text, sig).suppress,
{
}

/// Law: with moderation enabled and no allowlist hit, a recency duplicate
/// is suppressed.
pub proof fn lemma_duplicate_suppressed(rs: RuleSetView, text: Seq<char>, sig: Signals)
    requires
        rs.enabled,
        !any_term_matches(rs.allowlist, text),
    ensures
        spec_evaluate(rs, true, text, sig).suppress,
        !other_suppress_signal(rs, text, sig) ==> spec_evaluate(rs, true, text, sig).reason
            == Reason::Duplicate,
{
}

/// Law: with moderation enabled and no allowlist hit, a denylist hit is
/// suppressed and reported as denylisted.
pub proof fn lemma_denylist_match_suppressed(
    rs: RuleSetView,
    is_duplicate: bool,
    text: Seq<char>,
    sig: Signals,
)
    requires
        rs.enabled,
        !any_term_matches(rs.allowlist, text),
        any_term_matches(rs.denylist, text),
    ensures
        spec_evaluate(rs, is_duplicate, text, sig) == (Decision {
            suppress: true,
            reason: Reason::Denylisted,
        }),
{
}

} // verus!
