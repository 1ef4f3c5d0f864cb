//! The moderation cache: per chat, a time-bounded snapshot of the stored
//! ruleset, served from memory while fresh and refetched lazily on
//! expiry.
//!
//! The durable store itself is a collaborator of the caller: the cache
//! only decides. `get_ruleset` either serves a live entry or directs
//! exactly one caller per chat to fetch (single-flight) while the others
//! await that fetch; `finish_fetch` applies the outcome. A mutation path
//! reports its durable write through `note_store_write`: invalidation
//! happens only after the write succeeded, so a failed write leaves the
//! last known-good snapshot in place, while a successful one forces the
//! next read through the store (read-your-writes).

use std::collections::HashMap;
use std::collections::HashSet;
use vstd::prelude::*;

use crate::FRESH_WINDOW_SECS;
use crate::keyset::map_keys;
use crate::ruleset::RuleSet;
use crate::ruleset::fail_closed_view;

verus! {

broadcast use vstd::std_specs::hash::group_hash_axioms;

/// One cached snapshot: a ruleset and the time it was fetched.
pub struct CacheEntry {
    pub ruleset: RuleSet,
    pub fetched_at: u64,
}

/// The in-memory state behind `get_ruleset`: the entries, and the chats
/// with a fetch in flight.
pub struct ModerationCache {
    entries: HashMap<i64, CacheEntry>,
    pending: HashSet<i64>,
}

/// The mathematical content of the cache.
#[verifier::ext_equal]
pub struct CacheView {
    pub entries: Map<i64, CacheEntry>,
    pub pending: Set<i64>,
}

impl View for ModerationCache {
    type V = CacheView;

    closed spec fn view(&self) -> CacheView {
        CacheView { entries: self.entries@, pending: self.pending@ }
    }
}

/// A snapshot fetched at `e.fetched_at` is still fresh at `now`.
pub open spec fn entry_live(e: CacheEntry, now: u64) -> bool {
    e.fetched_at <= now && now < e.fetched_at + FRESH_WINDOW_SECS
}

/// `chat` has a live entry at `now`.
pub open spec fn has_live_entry(entries: Map<i64, CacheEntry>, chat: i64, now: u64) -> bool {
    entries.contains_key(chat) && entry_live(entries[chat], now)
}

/// What the caller of `get_ruleset` must do next.
pub enum FetchDirective {
    /// A live entry was served from memory; no store round-trip.
    Serve(RuleSet),
    /// No live entry and no fetch in flight: this caller fetches from the
    /// store and hands the outcome to `finish_fetch`.
    StartFetch,
    /// Another caller's fetch is in flight: await its outcome.
    AwaitInflight,
}

impl ModerationCache {
    /// An empty cache: nothing cached, nothing in flight.
    pub fn new() -> (c: ModerationCache)
        ensures
            c@.entries == Map::<i64, CacheEntry>::empty(),
            c@.pending == Set::<i64>::empty(),
    {
        ModerationCache { entries: HashMap::new(), pending: HashSet::new() }
    }

    /// The ruleset of a live entry, served from memory with no I/O.
    pub fn live_ruleset(&self, chat: i64, now: u64) -> (r: Option<&RuleSet>)
        ensures
            match r {
                Some(rs) => has_live_entry(self@.entries, chat, now) && *rs
                    == self@.entries[chat].ruleset,
                None => !has_live_entry(self@.entries, chat, now),
            },
    {
        match self.entries.get(&chat) {
            Some(e) => if e.fetched_at <= now && now - e.fetched_at < FRESH_WINDOW_SECS {
                Some(&e.ruleset)
            } else {
                None
            },
            None => None,
        }
    }

    /// One read step: serve a live entry from memory; otherwise either
    /// claim the fetch for this caller — at most one fetch per chat is
    /// ever outstanding — or direct the caller to await the fetch already
    /// in flight.
    pub fn get_ruleset(&mut self, chat: i64, now: u64) -> (d: FetchDirective)
        ensures
            match d {
                FetchDirective::Serve(rs) => final(self)@ == old(self)@ && has_live_entry(
                    old(self)@.entries,
                    chat,
                    now,
                ) && rs@ == old(self)@.entries[chat].ruleset@,
                FetchDirective::StartFetch => !has_live_entry(old(self)@.entries, chat, now)
                    && !old(self)@.pending.contains(chat)
                    && final(self)@.entries == old(self)@.entries
                    && final(self)@.pending == old(self)@.pending.insert(chat),
                FetchDirective::AwaitInflight => final(self)@ == old(self)@ && !has_live_entry(
                    old(self)@.entries,
                    chat,
                    now,
                ) && old(self)@.pending.contains(chat),
            },
    {
        let live = match self.live_ruleset(chat, now) {
            Some(rs) => Some(rs.duplicate()),
            None => None,
        };
        match live {
            Some(rs) => FetchDirective::Serve(rs),
            None => {
                if !self.pending.contains(&chat) {
                    self.pending.insert(chat);
                    FetchDirective::StartFetch
                } else {
                    FetchDirective::AwaitInflight
                }
            },
        }
    }

    /// Applies a fetch outcome. The in-flight claim is dropped; a fetched
    /// ruleset is cached as of `now` and returned; on a fetch error the
    /// fail-closed default is returned and the failure is not cached, so
    /// the next read retries the store. A fetch whose chat was
    /// invalidated while it was in flight is served to its caller but no
    /// longer cached.
    pub fn finish_fetch(&mut self, chat: i64, fetched: Option<RuleSet>, now: u64) -> (r: RuleSet)
        ensures
            final(self)@.pending == old(self)@.pending.remove(chat),
            match fetched {
                Some(rs) => r@ == rs@ && final(self)@.entries == (if old(self)@.pending.contains(chat) {
                    old(self)@.entries.insert(chat, (CacheEntry { ruleset: rs, fetched_at: now }))
                } else {
                    old(self)@.entries
                }),
                None => r@ == fail_closed_view() && final(self)@.entries == old(self)@.entries,
            },
    {
        let was_pending = self.pending.remove(&chat);
        match fetched {
            Some(rs) => {
                if was_pending {
                    let copy = rs.duplicate();
                    self.entries.insert(chat, CacheEntry { ruleset: rs, fetched_at: now });
                    copy
                } else {
                    rs
                }
            },
            None => RuleSet::fail_closed(),
        }
    }

    /// Drops any cached entry and any in-flight-fetch claim for `chat`,
    /// unconditionally. Mutation paths call this right after their
    /// durable write succeeds; the next read is then forced through the
    /// store, and a fetch begun before the invalidation can no longer
    /// populate the cache with pre-mutation data.
    pub fn invalidate(&mut self, chat: i64)
        ensures
            final(self)@.entries == old(self)@.entries.remove(chat),
            final(self)@.pending == old(self)@.pending.remove(chat),
    {
        self.entries.remove(&chat);
        self.pending.remove(&chat);
    }

    /// Reports the outcome of a mutation's durable write: on success the
    /// chat is invalidated; on failure the cache is left untouched, so
    /// the last known-good snapshot keeps serving rather than silently
    /// dropping to the default.
    pub fn note_store_write(&mut self, chat: i64, write_ok: bool)
        ensures
            write_ok ==> final(self)@.entries == old(self)@.entries.remove(chat)
                && final(self)@.pending == old(self)@.pending.remove(chat),
            !write_ok ==> final(self)@ == old(self)@,
    {
        if write_ok {
            self.invalidate(chat);
        }
    }
}

/// An entry whose freshness window has passed at `now`: it can no longer
/// be served and is only dead weight.
pub open spec fn entry_expired(e: CacheEntry, now: u64) -> bool {
    e.fetched_at + FRESH_WINDOW_SECS <= now
}

impl ModerationCache {
    /// Drops entries whose freshness window has passed, to bound growth
    /// in a long-running process. Staleness is still checked lazily at
    /// read time; this reaper only reclaims memory. Live entries and
    /// in-flight-fetch claims are untouched.
    pub fn reap_expired(&mut self, now: u64)
        ensures
            final(self)@.pending == old(self)@.pending,
            forall|c: i64|
                #[trigger] final(self)@.entries.contains_key(c) <==> (
                old(self)@.entries.contains_key(c) && !entry_expired(old(self)@.entries[c], now)),
            forall|c: i64|
                #[trigger] final(self)@.entries.contains_key(c) ==> final(self)@.entries[c] == old(
                    self,
                )@.entries[c],
    {
        let ks = map_keys(&self.entries);
        proof {
            assert forall|j: int| 0 <= j < ks@.len() implies old(self)@.entries.contains_key(
                #[trigger] ks@[j],
            ) by {
                assert(ks@.contains(ks@[j]));
                assert(ks@.to_set().contains(ks@[j]));
            };
        }
        let mut i: usize = 0;
        while i < ks.len()
            invariant
                i <= ks.len(),
                ks@.no_duplicates(),
                ks@.to_set() == old(self)@.entries.dom(),
                self.pending@ == old(self)@.pending,
                forall|c: i64|
                    #[trigger] self.entries@.contains_key(c) ==> old(self)@.entries.contains_key(c)
                        && self.entries@[c] == old(self)@.entries[c],
                forall|j: int|
                    i <= j < ks@.len() ==> self.entries@.contains_key(#[trigger] ks@[j]),
                forall|j: int|
                    0 <= j < i ==> (self.entries@.contains_key(#[trigger] ks@[j])
                        <==> !entry_expired(old(self)@.entries[ks@[j]], now)),
            decreases ks.len() - i,
        {
            let k = ks[i];
            let expired = match self.entries.get(&k) {
                Some(e) => now >= FRESH_WINDOW_SECS && e.fetched_at <= now - FRESH_WINDOW_SECS,
                None => false,
            };
            if expired {
                self.entries.remove(&k);
            }
            i += 1;
        }
        proof {
            assert forall|c: i64| #[trigger] self.entries@.contains_key(c) <==> (
            old(self)@.entries.contains_key(c) && !entry_expired(old(self)@.entries[c], now)) by {
                if old(self)@.entries.contains_key(c) {
                    assert(ks@.to_set().contains(c));
                    assert(ks@.contains(c));
                    let j = choose|j: int| 0 <= j < ks@.len() && ks@[j] == c;
                    assert(self.entries@.contains_key(ks@[j]) <==> !entry_expired(
                        old(self)@.entries[ks@[j]],
                        now,
                    ));
                }
            };
        }
    }
}

/// Law: invalidating a chat that has no cached entry and no fetch in
/// flight is a no-op.
pub proof fn lemma_invalidate_without_entry_is_noop(
    entries: Map<i64, CacheEntry>,
    pending: Set<i64>,
    chat: i64,
)
    requires
        !entries.contains_key(chat),
        !pending.contains(chat),
    ensures
        entries.remove(chat) =~= entries,
        pending.remove(chat) =~= pending,
{
}

/// Law: the entry a finished fetch stores stays live for the whole
/// freshness window, so a second read within the window is served from
/// memory — `get_ruleset` answers `Serve`, never `StartFetch`, and no
/// second store call is issued.
pub proof fn lemma_refetch_not_needed_within_window(
    entries: Map<i64, CacheEntry>,
    chat: i64,
    e: CacheEntry,
    t: u64,
)
    requires
        e.fetched_at <= t < e.fetched_at + FRESH_WINDOW_SECS,
    ensures
        has_live_entry(entries.insert(chat, e), chat, t),
{
}

/// Law (read-your-writes): after an invalidation nothing remains that
/// could serve pre-mutation data — the chat has no entry, at any time,
/// and no fetch in flight — so the next `get_ruleset` answers
/// `StartFetch` and reads the durable store, which already holds the
/// mutation.
pub proof fn lemma_invalidate_forces_refetch(
    entries: Map<i64, CacheEntry>,
    pending: Set<i64>,
    chat: i64,
    now: u64,
)
    ensures
        !has_live_entry(entries.remove(chat), chat, now),
        !pending.remove(chat).contains(chat),
{
}

} // verus!
