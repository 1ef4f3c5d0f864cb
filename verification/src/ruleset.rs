//! Per-chat rulesets: an enabled flag, a denylist and an allowlist of
//! normalized terms.
//!
//! A chat with no stored settings behaves as the fail-closed default:
//! moderation disabled, both lists empty.

use vstd::prelude::*;

use crate::text::norm_of;
use crate::text::normalize;

verus! {

/// Which of the two term lists a mutation addresses.
#[derive(Clone, Copy, Debug, PartialEq, Eq, Structural)]
pub enum ListKind {
    Deny,
    Allow,
}

/// The moderation rules of one chat.
pub struct RuleSet {
    pub enabled: bool,
    pub denylist: Vec<String>,
    pub allowlist: Vec<String>,
}

/// The mathematical content of a ruleset: terms as character sequences.
#[verifier::ext_equal]
pub struct RuleSetView {
    pub enabled: bool,
    pub denylist: Seq<Seq<char>>,
    pub allowlist: Seq<Seq<char>>,
}

impl View for RuleSet {
    type V = RuleSetView;

    open spec fn view(&self) -> RuleSetView {
        RuleSetView {
            enabled: self.enabled,
            denylist: self.denylist.deep_view(),
            allowlist: self.allowlist.deep_view(),
        }
    }
}

/// The ruleset of a chat never written to, and of any chat whose stored
/// record cannot be read: moderation disabled, both lists empty.
pub open spec fn fail_closed_view() -> RuleSetView {
    RuleSetView { enabled: false, denylist: Seq::empty(), allowlist: Seq::empty() }
}

/// Each term of `raw`, normalized.
pub open spec fn normalized_terms(raw: Seq<Seq<char>>) -> Seq<Seq<char>> {
    raw.map_values(|t: Seq<char>| norm_of(t))
}

/// Normalizes every term of `raw`.
fn normalize_terms(raw: &Vec<String>) -> (r: Vec<String>)
    ensures
        r.deep_view() == normalized_terms(raw.deep_view()),
{
    let mut r: Vec<String> = Vec::new();
    let mut i: usize = 0;
    while i < raw.len()
        invariant
            i <= raw.len(),
            r@.len() == i,
            forall|j: int| 0 <= j < i ==> #[trigger] r@[j]@ == norm_of(raw@[j]@),
        decreases raw.len() - i,
    {
        r.push(normalize(raw[i].as_str()));
        i += 1;
    }
    proof {
        assert(r.deep_view() =~= normalized_terms(raw.deep_view()));
    }
    r
}

impl RuleSet {
    /// The fail-closed default ruleset.
    pub fn fail_closed() -> (r: RuleSet)
        ensures
            r@ == fail_closed_view(),
    {
        let r = RuleSet { enabled: false, denylist: Vec::new(), allowlist: Vec::new() };
        proof {
            assert(r@ =~= fail_closed_view());
        }
        r
    }

    /// Builds a ruleset from the plain values a stored record holds,
    /// normalizing every term so lookups are comparisons in one form.
    pub fn from_parts(enabled: bool, denylist: Vec<String>, allowlist: Vec<String>) -> (r: RuleSet)
        ensures
            r@.enabled == enabled,
            r@.denylist == normalized_terms(denylist.deep_view()),
            r@.allowlist == normalized_terms(allowlist.deep_view()),
    {
        RuleSet {
            enabled,
            denylist: normalize_terms(&denylist),
            allowlist: normalize_terms(&allowlist),
        }
    }

    /// A ruleset with the same content, usable independently.
    pub fn duplicate(&self) -> (r: RuleSet)
        ensures
            r@ == self@,
    {
        let r = RuleSet {
            enabled: self.enabled,
            denylist: copy_terms(&self.denylist),
            allowlist: copy_terms(&self.allowlist),
        };
        proof {
            assert(r@ =~= self@);
        }
        r
    }
}

/// Copies a term list.
fn copy_terms(v: &Vec<String>) -> (r: Vec<String>)
    ensures
        r.deep_view() == v.deep_view(),
{
    let mut r: Vec<String> = Vec::new();
    let mut i: usize = 0;
    while i < v.len()
        invariant
            i <= v.len(),
            r@.len() == i,
            forall|j: int| 0 <= j < i ==> #[trigger] r@[j] == v@[j],
        decreases v.len() - i,
    {
        r.push(v[i].clone());
        i += 1;
    }
    proof {
        assert(r.deep_view() =~= v.deep_view());
    }
    r
}

} // verus!
