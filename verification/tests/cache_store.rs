use github_actions_editor::cache::store::{
    CacheEntry, CacheError, CacheStats, CacheStore, ClockReadings, ReadAction, ReadEvent, ReadMode,
    ReadState,
};
use github_actions_editor::time::{span_between, utc_now, Span, Timestamp};

fn ts(secs: i64) -> Timestamp {
    Timestamp::new(secs, 0)
}

fn clock(secs: i64) -> ClockReadings {
    ClockReadings { fresh_at: ts(secs), grace_at: ts(secs) }
}

fn entry(data: &str, cached_at: i64, ttl: i64) -> CacheEntry<String> {
    CacheEntry { data: data.to_string(), cached_at: ts(cached_at), ttl_seconds: ttl }
}

#[test]
fn key_to_path_sanitizes_separators() {
    let store = CacheStore::new("/tmp/cache".to_string());
    assert_eq!(store.key_to_path("a/b\\c:d"), "/tmp/cache/a_b_c_d.json");
}

#[test]
fn key_to_path_directory_with_trailing_slash_or_empty() {
    assert_eq!(CacheStore::new("/tmp/cache/".to_string()).key_to_path("k"), "/tmp/cache/k.json");
    assert_eq!(CacheStore::new(String::new()).key_to_path("k"), "k.json");
}

#[test]
fn entry_validity_at_given_instants() {
    let e = entry("x", 1000, 60);
    assert!(e.is_valid_at(ts(1000)));
    assert!(e.is_valid_at(Timestamp::new(1059, 999_999_999)));
    assert!(!e.is_valid_at(ts(1060)));
    assert!(!e.is_valid_at(ts(2000)));
}

#[test]
fn entry_with_zero_ttl_is_never_fresh() {
    let e = entry("x", 1000, 0);
    assert!(!e.is_valid_at(ts(1000)));
}

#[test]
fn time_until_expiry_is_signed() {
    let e = entry("x", 1000, 60);
    let left = e.time_until_expiry_at(Timestamp::new(1010, 500_000_000));
    assert_eq!((left.secs, left.nanos), (49, 500_000_000));
    let past = e.time_until_expiry_at(ts(1070));
    assert_eq!((past.secs, past.nanos), (-10, 0));
    assert_eq!(past.num_seconds(), -10);
    let half = e.time_until_expiry_at(Timestamp::new(1060, 500_000_000));
    assert_eq!((half.secs, half.nanos), (-1, 500_000_000));
    assert_eq!(half.num_seconds(), 0);
}

#[test]
fn new_entry_is_fresh_and_reads_the_clock() {
    let before = utc_now();
    let e = CacheEntry::new(5u32, Span::from_seconds(3600));
    assert_eq!(e.data, 5);
    assert_eq!(e.ttl_seconds, 3600);
    assert!(e.cached_at.secs >= before.secs);
    assert!(e.is_valid());
    assert!(e.time_until_expiry().secs > 3500);
}

#[test]
fn grace_period_extends_service() {
    let e = entry("x", 1000, 60);
    let grace = Span::from_seconds(30);
    assert!(e.is_within_grace_at(grace, ts(1080)));
    assert!(!e.is_within_grace_at(grace, ts(1090)));
}

#[test]
fn span_between_borrows_nanos() {
    let d = span_between(Timestamp::new(10, 100), Timestamp::new(8, 200));
    assert_eq!((d.secs, d.nanos), (1, 999_999_900));
}

#[test]
fn read_after_set_parses_what_was_set() {
    let mut store = CacheStore::new("/c".to_string());
    let path = store.set("k", b"{}".to_vec());
    assert_eq!(path, "/c/k.json");
    assert_eq!(store.memory_len(), 1);
    let (state, action) = store.read_step::<String>("k", &ReadMode::Fresh, ReadState::Start, ReadEvent::Begin);
    assert_eq!(state, ReadState::ParsingMemory);
    match action {
        ReadAction::ParseMemory(b) => assert_eq!(b, b"{}".to_vec()),
        _ => panic!("expected ParseMemory"),
    }
}

#[test]
fn fresh_memory_entry_is_served() {
    let mut store = CacheStore::new("/c".to_string());
    store.set("k", b"x".to_vec());
    let (state, action) = store.read_step(
        "k",
        &ReadMode::Fresh,
        ReadState::ParsingMemory,
        ReadEvent::MemoryParsed(Ok(entry("data", 1000, 60)), clock(1010)),
    );
    assert_eq!(state, ReadState::Finished);
    match action {
        ReadAction::Done(Ok((d, fresh))) => {
            assert_eq!(d, "data");
            assert!(fresh);
        }
        _ => panic!("expected a hit"),
    }
}

#[test]
fn expired_memory_entry_falls_through_to_disk() {
    let mut store = CacheStore::new("/c".to_string());
    let (state, action) = store.read_step(
        "k",
        &ReadMode::Fresh,
        ReadState::ParsingMemory,
        ReadEvent::MemoryParsed(Ok(entry("data", 1000, 60)), clock(5000)),
    );
    assert_eq!(state, ReadState::CheckingDisk);
    match action {
        ReadAction::CheckDisk(p) => assert_eq!(p, "/c/k.json"),
        _ => panic!("expected CheckDisk"),
    }
}

#[test]
fn missing_key_is_a_miss() {
    let mut store = CacheStore::new("/c".to_string());
    let (state, action) = store.read_step::<String>("k", &ReadMode::Fresh, ReadState::Start, ReadEvent::Begin);
    assert_eq!(state, ReadState::CheckingDisk);
    assert!(matches!(action, ReadAction::CheckDisk(_)));
    let (state, action) =
        store.read_step::<String>("k", &ReadMode::Fresh, ReadState::CheckingDisk, ReadEvent::DiskChecked(false));
    assert_eq!(state, ReadState::Finished);
    match action {
        ReadAction::Done(Err(e)) => {
            assert_eq!(e, CacheError::Miss("k".to_string()));
            assert_eq!(e.message(), "Cache miss: k");
        }
        _ => panic!("expected a miss"),
    }
}

#[test]
fn disk_read_error_is_io() {
    let mut store = CacheStore::new("/c".to_string());
    let (_, action) = store.read_step::<String>(
        "k",
        &ReadMode::Fresh,
        ReadState::ReadingDisk,
        ReadEvent::DiskRead(Err("denied".to_string())),
    );
    match action {
        ReadAction::Done(Err(e)) => assert_eq!(e.message(), "IO error: denied"),
        _ => panic!("expected an IO error"),
    }
}

#[test]
fn parse_error_is_serialization() {
    let mut store = CacheStore::new("/c".to_string());
    let (_, action) = store.read_step::<String>(
        "k",
        &ReadMode::Fresh,
        ReadState::ParsingMemory,
        ReadEvent::MemoryParsed(Err("bad json".to_string()), clock(0)),
    );
    match action {
        ReadAction::Done(Err(e)) => assert_eq!(e.message(), "Serialization error: bad json"),
        _ => panic!("expected a serialization error"),
    }
}

#[test]
fn fresh_disk_entry_fills_memory() {
    let mut store = CacheStore::new("/c".to_string());
    let (state, action) = store.read_step(
        "k",
        &ReadMode::Fresh,
        ReadState::ParsingDisk,
        ReadEvent::DiskParsed(b"bytes".to_vec(), Ok(entry("d", 1000, 60)), clock(1001)),
    );
    assert_eq!(state, ReadState::Finished);
    assert!(matches!(action, ReadAction::Done(Ok(_))));
    assert_eq!(store.memory_len(), 1);
    let (_, action) = store.read_step::<String>("k", &ReadMode::Fresh, ReadState::Start, ReadEvent::Begin);
    match action {
        ReadAction::ParseMemory(b) => assert_eq!(b, b"bytes".to_vec()),
        _ => panic!("expected ParseMemory"),
    }
}

#[test]
fn expired_disk_entry_is_removed_then_reported() {
    let mut store = CacheStore::new("/c".to_string());
    let (state, action) = store.read_step(
        "k",
        &ReadMode::Fresh,
        ReadState::ParsingDisk,
        ReadEvent::DiskParsed(b"bytes".to_vec(), Ok(entry("d", 1000, 60)), clock(2000)),
    );
    assert_eq!(state, ReadState::RemovingExpired);
    match action {
        ReadAction::RemoveFile(p) => assert_eq!(p, "/c/k.json"),
        _ => panic!("expected RemoveFile"),
    }
    let (state, action) =
        store.read_step::<String>("k", &ReadMode::Fresh, ReadState::RemovingExpired, ReadEvent::FileRemoved);
    assert_eq!(state, ReadState::Finished);
    match action {
        ReadAction::Done(Err(e)) => assert_eq!(e.message(), "Cache expired: k"),
        _ => panic!("expected Expired"),
    }
    assert_eq!(store.memory_len(), 0);
}

#[test]
fn stale_read_serves_within_grace() {
    let mut store = CacheStore::new("/c".to_string());
    let mode = ReadMode::AllowStale(Span::from_seconds(3600));
    let (_, action) = store.read_step(
        "k",
        &mode,
        ReadState::ParsingDisk,
        ReadEvent::DiskParsed(b"b".to_vec(), Ok(entry("d", 1000, 60)), clock(2000)),
    );
    match action {
        ReadAction::Done(Ok((d, fresh))) => {
            assert_eq!(d, "d");
            assert!(!fresh);
        }
        _ => panic!("expected a stale hit"),
    }
}

#[test]
fn stale_read_past_grace_is_a_miss_without_removal() {
    let mut store = CacheStore::new("/c".to_string());
    let mode = ReadMode::AllowStale(Span::from_seconds(10));
    let (state, action) = store.read_step(
        "k",
        &mode,
        ReadState::ParsingDisk,
        ReadEvent::DiskParsed(b"b".to_vec(), Ok(entry("d", 1000, 60)), clock(2000)),
    );
    assert_eq!(state, ReadState::Finished);
    match action {
        ReadAction::Done(Err(e)) => assert_eq!(e, CacheError::Miss("k".to_string())),
        _ => panic!("expected a miss"),
    }
}

#[test]
fn remove_and_clear_forget_memory() {
    let mut store = CacheStore::new("/c".to_string());
    store.set("a", vec![1]);
    store.set("b", vec![2]);
    assert_eq!(store.remove("a"), "/c/a.json");
    assert_eq!(store.memory_len(), 1);
    assert_eq!(store.clear(), "/c");
    assert_eq!(store.memory_len(), 0);
}

#[test]
fn stats_combine_memory_and_disk() {
    let mut store = CacheStore::new("/c".to_string());
    store.set("a", vec![1]);
    let stats = store.stats(3, 2048);
    assert_eq!(stats.memory_entries, 1);
    assert_eq!(stats.disk_entries, 3);
    assert_eq!(stats.disk_size_bytes, 2048);
    assert_eq!(stats.cache_dir, "/c");
}

fn human(bytes: u64) -> String {
    CacheStats { memory_entries: 0, disk_entries: 0, disk_size_bytes: bytes, cache_dir: String::new() }
        .disk_size_human()
}

#[test]
fn disk_size_human_matches_float_formatting() {
    assert_eq!(human(0), "0 B");
    assert_eq!(human(1023), "1023 B");
    assert_eq!(human(1024), "1.0 KB");
    assert_eq!(human(1280), "1.2 KB");
    assert_eq!(human(1536), "1.5 KB");
    assert_eq!(human(1048575), "1024.0 KB");
    assert_eq!(human(1048576), "1.0 MB");
    assert_eq!(human(5 * 1048576 + 262144), "5.2 MB");
    for b in [1u64, 999, 1024, 1025, 1280, 3000, 1048575, 1048576, 123456789, 9007199254740993, u64::MAX] {
        let expected = if b < 1024 {
            format!("{} B", b)
        } else if b < 1024 * 1024 {
            format!("{:.1} KB", b as f64 / 1024.0)
        } else {
            format!("{:.1} MB", b as f64 / (1024.0 * 1024.0))
        };
        assert_eq!(human(b), expected);
    }
}

#[test]
fn read_after_remove_checks_the_removed_file_then_misses() {
    let mut store = CacheStore::new("/c".to_string());
    store.set("a/b", b"{}".to_vec());
    let removed = store.remove("a/b");
    let (state, action) = store.read_step::<String>("a/b", &ReadMode::Fresh, ReadState::Start, ReadEvent::Begin);
    assert_eq!(state, ReadState::CheckingDisk);
    match action {
        ReadAction::CheckDisk(p) => assert_eq!(p, removed),
        _ => panic!("expected a disk check"),
    }
    let (state, action) =
        store.read_step::<String>("a/b", &ReadMode::Fresh, state, ReadEvent::DiskChecked(false));
    assert_eq!(state, ReadState::Finished);
    assert!(matches!(action, ReadAction::Done(Err(CacheError::Miss(k))) if k == "a/b"));
}

#[test]
fn read_after_clear_goes_to_disk() {
    let mut store = CacheStore::new("/c".to_string());
    store.set("k", b"{}".to_vec());
    store.clear();
    let (state, action) =
        store.read_step::<String>("k", &ReadMode::AllowStale(Span { secs: 60, nanos: 0 }), ReadState::Start, ReadEvent::Begin);
    assert_eq!(state, ReadState::CheckingDisk);
    assert!(matches!(action, ReadAction::CheckDisk(p) if p == "/c/k.json"));
}

#[test]
fn get_after_set_returns_stored_value() {
    let mut store = CacheStore::new("/c".to_string());
    store.set("k", b"stored".to_vec());
    let (state, action) = store.read_step::<String>("k", &ReadMode::Fresh, ReadState::Start, ReadEvent::Begin);
    assert_eq!(state, ReadState::ParsingMemory);
    let bytes = match action {
        ReadAction::ParseMemory(b) => b,
        _ => panic!("expected the stored bytes"),
    };
    assert_eq!(bytes, b"stored".to_vec());
    let parsed = CacheEntry { data: String::from_utf8(bytes).unwrap(), cached_at: ts(100), ttl_seconds: 60 };
    let (state, action) = store.read_step("k", &ReadMode::Fresh, state, ReadEvent::MemoryParsed(Ok(parsed), clock(120)));
    assert_eq!(state, ReadState::Finished);
    match action {
        ReadAction::Done(Ok((data, fresh))) => {
            assert_eq!(data, "stored");
            assert!(fresh);
        }
        _ => panic!("expected the stored value"),
    }
}

#[test]
fn stale_read_agrees_with_strict_read_on_fresh_entries() {
    let mut strict = CacheStore::new("/c".to_string());
    let mut lenient = CacheStore::new("/c".to_string());
    let grace = ReadMode::AllowStale(Span { secs: 3600, nanos: 0 });
    let (s1, a1) = strict.read_step(
        "k",
        &ReadMode::Fresh,
        ReadState::ParsingDisk,
        ReadEvent::DiskParsed(b"x".to_vec(), Ok(entry("v", 100, 60)), clock(130)),
    );
    let (s2, a2) = lenient.read_step(
        "k",
        &grace,
        ReadState::ParsingDisk,
        ReadEvent::DiskParsed(b"x".to_vec(), Ok(entry("v", 100, 60)), clock(130)),
    );
    assert_eq!(s1, s2);
    match (a1, a2) {
        (ReadAction::Done(Ok(r1)), ReadAction::Done(Ok(r2))) => {
            assert_eq!(r1, ("v".to_string(), true));
            assert_eq!(r1, r2);
        }
        _ => panic!("expected both reads to serve the value"),
    }
    assert_eq!(strict.memory_len(), lenient.memory_len());
}
