//! Per-chat message moderation: a time-bounded ruleset cache backed by a
//! durable store, recent-message tracking for duplicate detection, and a
//! pure signal evaluator that turns a message and the current ruleset into
//! a single suppress/allow decision with fixed precedence.

use vstd::prelude::*;

pub mod cache;
pub mod evaluate;
mod keyset;
pub mod pipeline;
pub mod recency;
pub mod ruleset;
pub mod signals;
pub mod text;

verus! {

/// How long a cached ruleset snapshot stays fresh, in seconds.
pub const FRESH_WINDOW_SECS: u64 = 300;

/// Chats inactive for longer than this many seconds may be pruned from
/// the recency tracker.
pub const RECENCY_PRUNE_SECS: u64 = 3600;

/// A message with more than this many emoji characters is suppressed.
pub const EMOJI_LIMIT: usize = 5;

} // verus!
