use antigcast::evaluate::Reason;
use antigcast::pipeline::ClassifyOutcome;
use antigcast::pipeline::Pipeline;
use antigcast::recency::RecencyTracker;
use antigcast::ruleset::RuleSet;
use antigcast::text::normalize;

fn ruleset(enabled: bool, deny: &[&str], allow: &[&str]) -> RuleSet {
    RuleSet::from_parts(
        enabled,
        deny.iter().map(|s| s.to_string()).collect(),
        allow.iter().map(|s| s.to_string()).collect(),
    )
}

/// Classifies through the pipeline, resolving a cache miss from `stored`.
fn classify_via(
    p: &mut Pipeline,
    chat: i64,
    text: &str,
    now: u64,
    stored: &RuleSet,
) -> antigcast::evaluate::Decision {
    match p.classify(chat, text, now) {
        ClassifyOutcome::Decided(d) => d,
        ClassifyOutcome::NeedFetch => p.classify_resolved(chat, text, Some(stored.duplicate()), now),
        ClassifyOutcome::AwaitInflight => panic!("no concurrent fetch exists in this test"),
    }
}

#[test]
fn empty_message_is_clean_with_no_fetch() {
    let mut p = Pipeline::new();
    // Even with an empty cache, an empty or whitespace-only message is
    // decided at once.
    match p.classify(1, "   ", 0) {
        ClassifyOutcome::Decided(d) => {
            assert!(!d.suppress);
            assert_eq!(d.reason, Reason::Clean);
        },
        _ => panic!("an empty message must not reach the store"),
    }
}

#[test]
fn never_written_chat_is_never_suppressed() {
    let mut p = Pipeline::new();
    match p.classify(1, "vcs spam https://x.example/z", 0) {
        ClassifyOutcome::NeedFetch => {},
        _ => panic!("a fresh cache must direct the caller to fetch"),
    }
    // A chat never written to: the store has no record, the adapter hands
    // back the fail-closed default.
    let d = p.classify_resolved(1, "vcs spam https://x.example/z", Some(RuleSet::fail_closed()), 0);
    assert!(!d.suppress);
    assert_eq!(d.reason, Reason::Disabled);
}

#[test]
fn store_outage_is_never_suppressed() {
    let mut p = Pipeline::new();
    assert!(matches!(p.classify(1, "buy vcs now", 0), ClassifyOutcome::NeedFetch));
    let d = p.classify_resolved(1, "buy vcs now", None, 0);
    assert!(!d.suppress);
}

#[test]
fn duplicate_is_suppressed_on_the_second_message() {
    let mut p = Pipeline::new();
    let rs = ruleset(true, &[], &[]);
    let first = classify_via(&mut p, 5, "hello", 10, &rs);
    assert!(!first.suppress);
    let second = classify_via(&mut p, 5, "hello", 11, &rs);
    assert!(second.suppress);
    assert_eq!(second.reason, Reason::Duplicate);
}

#[test]
fn duplicates_are_tracked_per_chat() {
    let mut p = Pipeline::new();
    let rs = ruleset(true, &[], &[]);
    assert!(!classify_via(&mut p, 1, "hello", 0, &rs).suppress);
    // The same text in another chat is no duplicate.
    assert!(!classify_via(&mut p, 2, "hello", 1, &rs).suppress);
    assert!(classify_via(&mut p, 1, "hello", 2, &rs).suppress);
}

#[test]
fn recency_advances_even_when_the_allowlist_clears_the_message() {
    let mut p = Pipeline::new();
    let rs = ruleset(true, &[], &["hello"]);
    // Allowlisted, so not suppressed — but still recorded.
    assert!(!classify_via(&mut p, 3, "hello", 0, &rs).suppress);
    // The next identical message is a duplicate against that record; the
    // allowlist still clears it.
    let d = classify_via(&mut p, 3, "hello", 1, &rs);
    assert!(!d.suppress);
    assert_eq!(d.reason, Reason::Clean);
}

#[test]
fn duplicate_state_survives_an_allowlisted_intermediate() {
    let mut p = Pipeline::new();
    let rs = ruleset(true, &[], &["pass"]);
    assert!(!classify_via(&mut p, 3, "pass", 0, &rs).suppress);
    // A different message resets the record.
    assert!(!classify_via(&mut p, 3, "other", 1, &rs).suppress);
    // "pass" again: not a duplicate of "other".
    let d = classify_via(&mut p, 3, "pass", 2, &rs);
    assert!(!d.suppress);
}

#[test]
fn normalization_makes_case_variants_duplicates() {
    let mut p = Pipeline::new();
    let rs = ruleset(true, &[], &[]);
    assert!(!classify_via(&mut p, 4, "Hello World", 0, &rs).suppress);
    let d = classify_via(&mut p, 4, "  hello world  ", 1, &rs);
    assert!(d.suppress);
    assert_eq!(d.reason, Reason::Duplicate);
}

#[test]
fn awaited_fetch_outcome_classifies_without_touching_the_cache() {
    let mut p = Pipeline::new();
    let rs = ruleset(true, &["vcs"], &[]);
    assert!(matches!(p.classify(8, "via vcs", 0), ClassifyOutcome::NeedFetch));
    // A second message for the same chat while the fetch is in flight.
    assert!(matches!(p.classify(8, "via vcs", 0), ClassifyOutcome::AwaitInflight));
    // That caller awaits the shared outcome and classifies with it.
    let d = p.classify_with_ruleset(8, "via vcs", &rs, 0);
    assert!(d.suppress);
    assert_eq!(d.reason, Reason::Denylisted);
}

#[test]
fn serialized_racing_duplicates_have_one_winner() {
    // The atomic compare-and-overwrite: of N calls carrying the same text,
    // any serialization yields exactly one "not a duplicate".
    let mut t = RecencyTracker::new();
    let mut nondup: u32 = 0;
    for i in 0..8u64 {
        if !t.check_and_update(11, "x", i) {
            nondup += 1;
        }
    }
    assert_eq!(nondup, 1);
}

#[test]
fn fetched_ruleset_is_cached_for_the_next_message() {
    let mut p = Pipeline::new();
    let rs = ruleset(true, &["vcs"], &[]);
    assert!(matches!(p.classify(9, "via vcs", 0), ClassifyOutcome::NeedFetch));
    let first = p.classify_resolved(9, "via vcs", Some(rs), 0);
    assert!(first.suppress);
    // Within the freshness window the next message is decided from memory.
    match p.classify(9, "all good", 100) {
        ClassifyOutcome::Decided(d) => assert!(!d.suppress),
        _ => panic!("a live entry must be served from memory"),
    }
}

#[test]
fn pruning_forgets_inactive_chats_only() {
    let mut t = RecencyTracker::new();
    assert!(!t.check_and_update(1, "x", 0));
    assert!(!t.check_and_update(2, "y", 3000));

    // Chat 1 has been inactive for the full bound, chat 2 has not.
    t.prune_inactive(3600);
    assert!(!t.check_and_update(1, "x", 3601));
    assert!(t.check_and_update(2, "y", 3601));
}

#[test]
fn normalize_trims_and_casefolds() {
    assert_eq!(normalize("  AbC dEf  "), "abc def");
    assert_eq!(normalize(""), "");
    assert_eq!(normalize(" \t\n "), "");
}
