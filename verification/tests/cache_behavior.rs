use std::collections::HashMap;

use antigcast::cache::FetchDirective;
use antigcast::cache::ModerationCache;
use antigcast::ruleset::RuleSet;

/// A stand-in for the durable store that counts fetches.
struct CountingStore {
    records: HashMap<i64, (bool, Vec<String>, Vec<String>)>,
    fetches: u32,
}

impl CountingStore {
    fn new() -> Self {
        CountingStore { records: HashMap::new(), fetches: 0 }
    }

    fn fetch(&mut self, chat: i64) -> Option<RuleSet> {
        self.fetches += 1;
        match self.records.get(&chat) {
            Some((enabled, deny, allow)) => Some(RuleSet::from_parts(
                *enabled,
                deny.clone(),
                allow.clone(),
            )),
            // A chat never written to has no record: the fail-closed default.
            None => Some(RuleSet::fail_closed()),
        }
    }

    fn write_enabled(&mut self, chat: i64, enabled: bool) {
        let entry = self.records.entry(chat).or_insert((false, Vec::new(), Vec::new()));
        entry.0 = enabled;
    }
}

/// Runs one full read through cache and store.
fn get_through(cache: &mut ModerationCache, store: &mut CountingStore, chat: i64, now: u64) -> RuleSet {
    match cache.get_ruleset(chat, now) {
        FetchDirective::Serve(rs) => rs,
        FetchDirective::StartFetch => cache.finish_fetch(chat, store.fetch(chat), now),
        FetchDirective::AwaitInflight => panic!("no concurrent fetch exists in this test"),
    }
}

#[test]
fn never_written_chat_gets_the_fail_closed_default() {
    let mut cache = ModerationCache::new();
    let mut store = CountingStore::new();
    let rs = get_through(&mut cache, &mut store, 7, 0);
    assert!(!rs.enabled);
    assert!(rs.denylist.is_empty());
    assert!(rs.allowlist.is_empty());
}

#[test]
fn second_read_within_window_issues_no_store_call() {
    let mut cache = ModerationCache::new();
    let mut store = CountingStore::new();
    store.write_enabled(1, true);
    let first = get_through(&mut cache, &mut store, 1, 100);
    assert!(first.enabled);
    assert_eq!(store.fetches, 1);
    let second = get_through(&mut cache, &mut store, 1, 100 + 299);
    assert!(second.enabled);
    assert_eq!(store.fetches, 1);
}

#[test]
fn expired_entry_triggers_a_refetch() {
    let mut cache = ModerationCache::new();
    let mut store = CountingStore::new();
    get_through(&mut cache, &mut store, 1, 100);
    get_through(&mut cache, &mut store, 1, 100 + 300);
    assert_eq!(store.fetches, 2);
}

#[test]
fn invalidate_with_no_entry_is_a_noop() {
    let mut cache = ModerationCache::new();
    let mut store = CountingStore::new();
    cache.invalidate(42);
    // The cache still behaves like a fresh one: the next read fetches.
    get_through(&mut cache, &mut store, 42, 0);
    assert_eq!(store.fetches, 1);
}

#[test]
fn read_your_writes_after_invalidation() {
    let mut cache = ModerationCache::new();
    let mut store = CountingStore::new();

    // A cached entry says "disabled".
    let before = get_through(&mut cache, &mut store, 5, 10);
    assert!(!before.enabled);

    // The mutation: durable write succeeds, then the chat is invalidated.
    store.write_enabled(5, true);
    cache.note_store_write(5, true);

    // The very next read reflects the write, well within the old window.
    let after = get_through(&mut cache, &mut store, 5, 11);
    assert!(after.enabled);
    assert_eq!(store.fetches, 2);
}

#[test]
fn failed_write_leaves_the_cached_snapshot_in_place() {
    let mut cache = ModerationCache::new();
    let mut store = CountingStore::new();
    store.write_enabled(9, true);
    let before = get_through(&mut cache, &mut store, 9, 0);
    assert!(before.enabled);

    // The durable write failed: the cache must keep serving the last
    // known-good snapshot without a new store round-trip.
    cache.note_store_write(9, false);
    let after = get_through(&mut cache, &mut store, 9, 1);
    assert!(after.enabled);
    assert_eq!(store.fetches, 1);
}

#[test]
fn fetch_error_serves_default_and_is_not_cached() {
    let mut cache = ModerationCache::new();
    let mut store = CountingStore::new();
    store.write_enabled(3, true);

    // First read: the store is unreachable; the default is served.
    let d = match cache.get_ruleset(3, 0) {
        FetchDirective::StartFetch => cache.finish_fetch(3, None, 0),
        _ => panic!("an empty cache must direct the caller to fetch"),
    };
    assert!(!d.enabled);

    // The failure was not cached: the next read retries and succeeds.
    let rs = get_through(&mut cache, &mut store, 3, 1);
    assert!(rs.enabled);
}

#[test]
fn concurrent_miss_coalesces_to_one_fetch() {
    let mut cache = ModerationCache::new();
    // First caller claims the fetch; a second caller for the same chat is
    // told to await it, not to fetch again.
    assert!(matches!(cache.get_ruleset(2, 0), FetchDirective::StartFetch));
    assert!(matches!(cache.get_ruleset(2, 0), FetchDirective::AwaitInflight));
    // A different chat is independent.
    assert!(matches!(cache.get_ruleset(4, 0), FetchDirective::StartFetch));
}

#[test]
fn entry_stamped_in_the_future_is_not_live() {
    // A read dated before the entry was fetched (a clock that went back)
    // must not treat the entry as fresh.
    let mut cache = ModerationCache::new();
    let mut store = CountingStore::new();
    get_through(&mut cache, &mut store, 1, 100);
    assert!(matches!(cache.get_ruleset(1, 50), FetchDirective::StartFetch));
}

#[test]
fn reaper_drops_only_expired_entries() {
    let mut cache = ModerationCache::new();
    let mut store = CountingStore::new();
    store.write_enabled(1, true);
    get_through(&mut cache, &mut store, 1, 0);

    // Still within the window: the reaper keeps the entry, and the next
    // read is served from memory.
    cache.reap_expired(299);
    assert!(matches!(cache.get_ruleset(1, 250), FetchDirective::Serve(_)));

    // Once the window has passed the reaper reclaims the entry: even a
    // read dated within the old window now has nothing to serve.
    cache.reap_expired(300);
    assert!(matches!(cache.get_ruleset(1, 250), FetchDirective::StartFetch));
}

#[test]
fn fetch_landing_after_invalidation_is_served_but_not_cached() {
    let mut cache = ModerationCache::new();
    let mut store = CountingStore::new();
    store.write_enabled(6, true);

    assert!(matches!(cache.get_ruleset(6, 0), FetchDirective::StartFetch));
    let fetched = store.fetch(6);

    // The mutation lands while the fetch is in flight.
    store.write_enabled(6, false);
    cache.note_store_write(6, true);

    // The in-flight fetch completes: its caller is served, but the result
    // no longer enters the cache, so the next read sees the mutation.
    let served = cache.finish_fetch(6, fetched, 0);
    assert!(served.enabled);
    let next = get_through(&mut cache, &mut store, 6, 1);
    assert!(!next.enabled);
}
