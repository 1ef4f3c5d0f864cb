//! The recency tracker: per chat, the most recently observed normalized
//! message text, used purely for duplicate detection.
//!
//! The compare-and-overwrite of one call is a single step with respect to
//! other calls for the same chat: of any group of racing calls carrying
//! the same text, whichever serialization the per-chat isolation yields,
//! exactly one observes "not a duplicate".

use std::collections::HashMap;
use vstd::prelude::*;
use vstd::string::StringExecFns;

use crate::RECENCY_PRUNE_SECS;
use crate::keyset::map_keys;

verus! {

broadcast use vstd::std_specs::hash::group_hash_axioms;

/// The recent-message state of one chat.
pub struct RecencyState {
    pub last_text: String,
    pub last_seen_at: u64,
    pub window_count: u32,
}

/// Tracks, per chat, the most recently observed normalized message.
pub struct RecencyTracker {
    states: HashMap<i64, RecencyState>,
}

impl View for RecencyTracker {
    type V = Map<i64, RecencyState>;

    closed spec fn view(&self) -> Map<i64, RecencyState> {
        self.states@
    }
}

/// Only the texts of a recency map.
pub open spec fn last_texts(m: Map<i64, RecencyState>) -> Map<i64, Seq<char>> {
    m.map_values(|s: RecencyState| s.last_text@)
}

/// The text stored for `chat` equals `text`.
pub open spec fn sees_duplicate(texts: Map<i64, Seq<char>>, chat: i64, text: Seq<char>) -> bool {
    texts.contains_key(chat) && texts[chat] == text
}

/// The burst counter after one call: kept on a duplicate, one more on a
/// new text, one on first sight of the chat.
pub open spec fn next_window_count(m: Map<i64, RecencyState>, chat: i64, text: Seq<char>) -> u32 {
    if m.contains_key(chat) {
        if m[chat].last_text@ == text {
            m[chat].window_count
        } else if m[chat].window_count == u32::MAX {
            u32::MAX
        } else {
            (m[chat].window_count + 1) as u32
        }
    } else {
        1u32
    }
}

impl RecencyTracker {
    /// An empty tracker: no chat has been seen.
    pub fn new() -> (t: RecencyTracker)
        ensures
            t@ == Map::<i64, RecencyState>::empty(),
    {
        RecencyTracker { states: HashMap::new() }
    }

    /// Compares `text` to the stored last text of `chat`, reports whether
    /// they are equal, and overwrites the state, as one step per chat:
    /// after the call the stored text is `text`, so of several calls with
    /// one text only the first can be told "not a duplicate". On a
    /// duplicate only `last_seen_at` moves; otherwise the text is
    /// overwritten and the burst counter advances. Other chats are
    /// untouched.
    pub fn check_and_update(&mut self, chat: i64, text: &str, now: u64) -> (dup: bool)
        ensures
            dup == sees_duplicate(last_texts(old(self)@), chat, text@),
            last_texts(final(self)@) =~= last_texts(old(self)@).insert(chat, text@),
            final(self)@.contains_key(chat),
            final(self)@[chat].last_text@ == text@,
            final(self)@[chat].last_seen_at == now,
            final(self)@[chat].window_count == next_window_count(old(self)@, chat, text@),
            forall|c: i64|
                c != chat && #[trigger] old(self)@.contains_key(c) ==> final(self)@.contains_key(c)
                    && final(self)@[c] == old(self)@[c],
            forall|c: i64|
                c != chat && !(#[trigger] old(self)@.contains_key(c))
                    ==> !final(self)@.contains_key(c),
    {
        let own = String::from_str(text);
        let dup: bool;
        let wc: u32;
        match self.states.get(&chat) {
            Some(st) => {
                if st.last_text == own {
                    dup = true;
                    wc = st.window_count;
                } else {
                    dup = false;
                    wc = if st.window_count < u32::MAX {
                        st.window_count + 1
                    } else {
                        st.window_count
                    };
                }
            },
            None => {
                dup = false;
                wc = 1;
            },
        }
        self.states.insert(
            chat,
            RecencyState { last_text: own, last_seen_at: now, window_count: wc },
        );
        dup
    }
}

/// A chat inactive since `last_seen_at` is overdue for pruning at `now`.
pub open spec fn state_expired(s: RecencyState, now: u64) -> bool {
    s.last_seen_at + RECENCY_PRUNE_SECS <= now
}

impl RecencyTracker {
    /// Prunes chats inactive for longer than the pruning bound, to bound
    /// memory in a long-running process; active chats are untouched.
    pub fn prune_inactive(&mut self, now: u64)
        ensures
            forall|c: i64|
                #[trigger] final(self)@.contains_key(c) <==> (old(self)@.contains_key(c)
                    && !state_expired(old(self)@[c], now)),
            forall|c: i64|
                #[trigger] final(self)@.contains_key(c) ==> final(self)@[c] == old(self)@[c],
    {
        let ks = map_keys(&self.states);
        proof {
            assert forall|j: int| 0 <= j < ks@.len() implies old(self)@.contains_key(
                #[trigger] ks@[j],
            ) by {
                assert(ks@.contains(ks@[j]));
                assert(ks@.to_set().contains(ks@[j]));
            };
        }
        let mut i: usize = 0;
        while i < ks.len()
            invariant
                i <= ks.len(),
                ks@.no_duplicates(),
                ks@.to_set() == old(self)@.dom(),
                forall|c: i64|
                    #[trigger] self.states@.contains_key(c) ==> old(self)@.contains_key(c)
                        && self.states@[c] == old(self)@[c],
                forall|j: int|
                    i <= j < ks@.len() ==> self.states@.contains_key(#[trigger] ks@[j]),
                forall|j: int|
                    0 <= j < i ==> (self.states@.contains_key(#[trigger] ks@[j])
                        <==> !state_expired(old(self)@[ks@[j]], now)),
            decreases ks.len() - i,
        {
            let k = ks[i];
            let expired = match self.states.get(&k) {
                Some(st) => now >= RECENCY_PRUNE_SECS && st.last_seen_at <= now
                    - RECENCY_PRUNE_SECS,
                None => false,
            };
            if expired {
                self.states.remove(&k);
            }
            i += 1;
        }
        proof {
            assert forall|c: i64| #[trigger] self.states@.contains_key(c) <==> (
            old(self)@.contains_key(c) && !state_expired(old(self)@[c], now)) by {
                if old(self)@.contains_key(c) {
                    assert(ks@.to_set().contains(c));
                    assert(ks@.contains(c));
                    let j = choose|j: int| 0 <= j < ks@.len() && ks@[j] == c;
                    assert(self.states@.contains_key(ks@[j]) <==> !state_expired(
                        old(self)@[ks@[j]],
                        now,
                    ));
                }
            };
        }
    }
}

/// The last-text map after `n` serialized calls for `chat`, all carrying
/// the same text `t`.
pub open spec fn texts_after_calls(
    m: Map<i64, Seq<char>>,
    chat: i64,
    t: Seq<char>,
    n: nat,
) -> Map<i64, Seq<char>>
    decreases n,
{
    if n == 0 {
        m
    } else {
        texts_after_calls(m, chat, t, (n - 1) as nat).insert(chat, t)
    }
}

/// The duplicate verdict of call number `i` (counted from zero) in that
/// serialization: the verdict against the state the first `i` calls left.
pub open spec fn call_verdict(m: Map<i64, Seq<char>>, chat: i64, t: Seq<char>, i: nat) -> bool {
    sees_duplicate(texts_after_calls(m, chat, t, i), chat, t)
}

/// Law: however many calls carrying one and the same text race on a chat,
/// in every serialization exactly the first is told "not a duplicate" —
/// the verdict of call `i` is "duplicate" exactly for `i > 0` — provided
/// the prior state did not already hold that text.
pub proof fn lemma_one_nonduplicate_winner(m: Map<i64, Seq<char>>, chat: i64, t: Seq<char>, i: nat)
    requires
        !sees_duplicate(m, chat, t),
    ensures
        call_verdict(m, chat, t, i) == (i > 0),
{
    if i > 0 {
        assert(texts_after_calls(m, chat, t, i) == texts_after_calls(
            m,
            chat,
            t,
            (i - 1) as nat,
        ).insert(chat, t));
    }
}

} // verus!
