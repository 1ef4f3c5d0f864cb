//! The classification pipeline: per incoming message, normalize the
//! text, load the ruleset through the moderation cache, update the
//! recency tracker exactly once, compute the structural signals and
//! evaluate — returning a decision, never an error.
//!
//! The durable store is the caller's collaborator: where a fetch is
//! needed the pipeline says so, the caller performs the I/O and hands the
//! outcome back. The recency update happens whenever a decision is
//! reached — also when the decision is "allow" — because duplicate
//! detection is defined against all messages seen; it is skipped for
//! empty messages, which short-circuit to clean with no further work.

use vstd::prelude::*;
use vstd::string::StrSliceExecFns;

use crate::cache::CacheEntry;
use crate::cache::FetchDirective;
use crate::cache::ModerationCache;
use crate::cache::has_live_entry;
use crate::evaluate::Decision;
use crate::evaluate::Reason;
use crate::evaluate::evaluate;
use crate::evaluate::spec_evaluate;
use crate::recency::RecencyState;
use crate::recency::RecencyTracker;
use crate::recency::last_texts;
use crate::recency::sees_duplicate;
use crate::ruleset::RuleSet;
use crate::ruleset::RuleSetView;
use crate::ruleset::fail_closed_view;
use crate::signals::compute_signals;
use crate::signals::spec_signals;
use crate::text::chars_of;
use crate::text::norm_of;
use crate::text::normalize;

verus! {

/// The decision owed for raw text `raw` against ruleset `rs` and recency
/// texts `texts`: an empty normalized message is clean with no further
/// work; otherwise the evaluator's verdict on the normalized text.
pub open spec fn spec_classify(
    rs: RuleSetView,
    texts: Map<i64, Seq<char>>,
    chat: i64,
    raw: Seq<char>,
) -> Decision {
    let norm = norm_of(raw);
    if norm.len() == 0 {
        Decision { suppress: false, reason: Reason::Clean }
    } else {
        spec_evaluate(rs, sees_duplicate(texts, chat, norm), norm, spec_signals(norm))
    }
}

/// The ruleset a fetch outcome serves: what was fetched, or the
/// fail-closed default on a fetch error.
pub open spec fn served_ruleset(fetched: Option<RuleSet>) -> RuleSetView {
    match fetched {
        Some(rs) => rs@,
        None => fail_closed_view(),
    }
}

/// Law: under the fail-closed default ruleset — served for every chat
/// never written to, and on any store failure — classification never
/// suppresses, whatever the message and the recency state.
pub proof fn lemma_fail_closed_classify_never_suppresses(
    texts: Map<i64, Seq<char>>,
    chat: i64,
    raw: Seq<char>,
)
    ensures
        !spec_classify(fail_closed_view(), texts, chat, raw).suppress,
{
}

/// The outcome of one classification step.
pub enum ClassifyOutcome {
    /// The decision, reached without a store round-trip.
    Decided(Decision),
    /// No live ruleset snapshot and no fetch in flight: the caller
    /// fetches from the store and hands the outcome to
    /// `classify_resolved`.
    NeedFetch,
    /// Another caller's fetch for this chat is in flight: the caller
    /// awaits it and hands the shared ruleset to `classify_with_ruleset`.
    AwaitInflight,
}

/// The classification pipeline of one process: the moderation cache and
/// the recency tracker, orchestrated per message.
pub struct Pipeline {
    pub cache: ModerationCache,
    pub recency: RecencyTracker,
}

impl Pipeline {
    /// A fresh pipeline: empty cache, no chat seen.
    pub fn new() -> (p: Pipeline)
        ensures
            p.cache@.entries == Map::<i64, CacheEntry>::empty(),
            p.cache@.pending == Set::<i64>::empty(),
            p.recency@ == Map::<i64, RecencyState>::empty(),
    {
        Pipeline { cache: ModerationCache::new(), recency: RecencyTracker::new() }
    }

    /// Updates the recency state and evaluates one normalized message
    /// against `rs`.
    fn decide(&mut self, chat: i64, rs: &RuleSet, norm: &String, now: u64) -> (d: Decision)
        ensures
            final(self).cache@ == old(self).cache@,
            d == spec_evaluate(
                rs@,
                sees_duplicate(last_texts(old(self).recency@), chat, norm@),
                norm@,
                spec_signals(norm@),
            ),
            last_texts(final(self).recency@) =~= last_texts(old(self).recency@).insert(
                chat,
                norm@,
            ),
            final(self).recency@.contains_key(chat),
            final(self).recency@[chat].last_seen_at == now,
            forall|c: i64|
                c != chat && #[trigger] old(self).recency@.contains_key(c)
                    ==> final(self).recency@.contains_key(c)
                    && final(self).recency@[c] == old(self).recency@[c],
    {
        let dup = self.recency.check_and_update(chat, norm.as_str(), now);
        let sig = compute_signals(norm.as_str());
        let chars = chars_of(norm.as_str());
        evaluate(rs, dup, &chars, &sig)
    }

    /// One classification attempt. Empty messages are decided clean at
    /// once, with nothing recorded. With a live cached ruleset the
    /// decision is reached from memory and the recency state advances
    /// exactly once. Otherwise nothing changes but the single-flight
    /// claim, and the caller is told whether to fetch or to await the
    /// fetch in flight.
    pub fn classify(&mut self, chat: i64, raw: &str, now: u64) -> (o: ClassifyOutcome)
        ensures
            match o {
                ClassifyOutcome::Decided(d) => final(self).cache@ == old(self).cache@ && (if norm_of(
                    raw@,
                ).len() == 0 {
                    final(self).recency@ == old(self).recency@ && d == (Decision {
                        suppress: false,
                        reason: Reason::Clean,
                    })
                } else {
                    has_live_entry(old(self).cache@.entries, chat, now) && d == spec_classify(
                        old(self).cache@.entries[chat].ruleset@,
                        last_texts(old(self).recency@),
                        chat,
                        raw@,
                    ) && last_texts(final(self).recency@) =~= last_texts(
                        old(self).recency@,
                    ).insert(chat, norm_of(raw@)) && final(self).recency@.contains_key(chat)
                        && final(self).recency@[chat].last_seen_at == now
                }),
                ClassifyOutcome::NeedFetch => norm_of(raw@).len() > 0 && !has_live_entry(
                    old(self).cache@.entries,
                    chat,
                    now,
                ) && !old(self).cache@.pending.contains(chat) && final(self).cache@.entries == old(self).cache@.entries && final(self).cache@.pending == old(self).cache@.pending.insert(
                    chat,
                ) && final(self).recency@ == old(self).recency@,
                ClassifyOutcome::AwaitInflight => norm_of(raw@).len() > 0 && !has_live_entry(
                    old(self).cache@.entries,
                    chat,
                    now,
                ) && old(self).cache@.pending.contains(chat)
                    && final(self).recency@ == old(self).recency@
                    && final(self).cache@ == old(self).cache@,
            },
    {
        let norm = normalize(raw);
        if norm.as_str().unicode_len() == 0 {
            return ClassifyOutcome::Decided(Decision { suppress: false, reason: Reason::Clean });
        }
        match self.cache.get_ruleset(chat, now) {
            FetchDirective::Serve(rs) => {
                let d = self.decide(chat, &rs, &norm, now);
                ClassifyOutcome::Decided(d)
            },
            FetchDirective::StartFetch => ClassifyOutcome::NeedFetch,
            FetchDirective::AwaitInflight => ClassifyOutcome::AwaitInflight,
        }
    }

    /// Applies a fetch outcome for `chat` and finishes classification:
    /// the fetched ruleset is cached and used; a fetch error falls back
    /// to the fail-closed default, uncached, so the next read retries the
    /// store.
    pub fn classify_resolved(
        &mut self,
        chat: i64,
        raw: &str,
        fetched: Option<RuleSet>,
        now: u64,
    ) -> (d: Decision)
        ensures
            final(self).cache@.pending == old(self).cache@.pending.remove(chat),
            (match fetched {
                Some(rs) => final(self).cache@.entries == (if old(self).cache@.pending.contains(chat) {
                    old(self).cache@.entries.insert(
                        chat,
                        (CacheEntry { ruleset: rs, fetched_at: now }),
                    )
                } else {
                    old(self).cache@.entries
                }),
                None => final(self).cache@.entries == old(self).cache@.entries,
            }),
            d == spec_classify(served_ruleset(fetched), last_texts(old(self).recency@), chat, raw@),
            (if norm_of(raw@).len() == 0 {
                final(self).recency@ == old(self).recency@
            } else {
                last_texts(final(self).recency@) =~= last_texts(old(self).recency@).insert(
                    chat,
                    norm_of(raw@),
                ) && final(self).recency@.contains_key(chat) && final(self).recency@[chat].last_seen_at == now
            }),
    {
        let rs = self.cache.finish_fetch(chat, fetched, now);
        let norm = normalize(raw);
        if norm.as_str().unicode_len() == 0 {
            return Decision { suppress: false, reason: Reason::Clean };
        }
        self.decide(chat, &rs, &norm, now)
    }

    /// Finishes classification with a ruleset obtained by awaiting
    /// another caller's fetch; the cache is not touched.
    pub fn classify_with_ruleset(&mut self, chat: i64, raw: &str, rs: &RuleSet, now: u64) -> (d:
        Decision)
        ensures
            final(self).cache@ == old(self).cache@,
            d == spec_classify(rs@, last_texts(old(self).recency@), chat, raw@),
            (if norm_of(raw@).len() == 0 {
                final(self).recency@ == old(self).recency@
            } else {
                last_texts(final(self).recency@) =~= last_texts(old(self).recency@).insert(
                    chat,
                    norm_of(raw@),
                ) && final(self).recency@.contains_key(chat) && final(self).recency@[chat].last_seen_at == now
            }),
    {
        let norm = normalize(raw);
        if norm.as_str().unicode_len() == 0 {
            return Decision { suppress: false, reason: Reason::Clean };
        }
        self.decide(chat, rs, &norm, now)
    }
}

} // verus!
