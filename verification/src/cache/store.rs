//! Cache storage: entries with a time to live, an in-memory index of
//! serialized entries, and the decisions of a cache read.
//!
//! Reading an entry alternates work that the library cannot do (parsing JSON
//! into the caller's type, touching files, reading the clock) with decisions.
//! The decisions are the transition function `CacheStore::read_step`: the
//! caller performs each `ReadAction` and reports what happened as a
//! `ReadEvent`, until the action is `Done`.

use crate::strmap::StrMap;
use crate::text::{chars_of, decimal, digit_char, push_decimal, replace_char, replace_char_in};
use crate::time::{
    span_between, utc_now, Span, Timestamp, MAX_SPAN_SECS, MAX_UTC_SECS, MIN_UTC_SECS,
    NANOS_PER_SEC,
};
use vstd::arithmetic::power2::{lemma2_to64, lemma_pow2_strictly_increases, lemma_pow2_unfold, pow2};
use vstd::prelude::*;

verus! {

/// Why a cache operation failed. The `Io` and `Serialization` variants carry
/// the message of the underlying error.
#[derive(Debug, Clone, PartialEq, Eq)]
pub enum CacheError {
    Io(String),
    Serialization(String),
    Miss(String),
    Expired(String),
}

/// The kinds of cache error.
#[derive(Debug, Clone, Copy, PartialEq, Eq, Structural)]
pub enum CacheErrorKind {
    Io,
    Serialization,
    Miss,
    Expired,
}

impl CacheError {
    pub open spec fn kind(self) -> CacheErrorKind {
        match self {
            CacheError::Io(_) => CacheErrorKind::Io,
            CacheError::Serialization(_) => CacheErrorKind::Serialization,
            CacheError::Miss(_) => CacheErrorKind::Miss,
            CacheError::Expired(_) => CacheErrorKind::Expired,
        }
    }

    /// The message or key that the error carries.
    pub open spec fn text(self) -> Seq<char> {
        match self {
            CacheError::Io(m) => m@,
            CacheError::Serialization(m) => m@,
            CacheError::Miss(k) => k@,
            CacheError::Expired(k) => k@,
        }
    }

    /// The text shown for this error.
    pub open spec fn spec_message(self) -> Seq<char> {
        match self {
            CacheError::Io(m) => "IO error: "@ + m@,
            CacheError::Serialization(m) => "Serialization error: "@ + m@,
            CacheError::Miss(k) => "Cache miss: "@ + k@,
            CacheError::Expired(k) => "Cache expired: "@ + k@,
        }
    }

    /// The text shown for this error.
    pub fn message(&self) -> (s: String)
        ensures
            s@ == self.spec_message(),
    {
        let mut s = String::new();
        match self {
            CacheError::Io(m) => {
                s.push_str("IO error: ");
                s.push_str(m.as_str());
            },
            CacheError::Serialization(m) => {
                s.push_str("Serialization error: ");
                s.push_str(m.as_str());
            },
            CacheError::Miss(k) => {
                s.push_str("Cache miss: ");
                s.push_str(k.as_str());
            },
            CacheError::Expired(k) => {
                s.push_str("Cache expired: ");
                s.push_str(k.as_str());
            },
        }
        proof {
            assert(s@ =~= self.spec_message());
        }
        s
    }
}

/// The smallest and largest instant, in nanoseconds since the epoch, that a
/// `DateTime<Utc>` can hold.
pub open spec fn in_utc_range(total_nanos: int) -> bool {
    MIN_UTC_SECS * 1_000_000_000 <= total_nanos <= MAX_UTC_SECS * 1_000_000_000 + 999_999_999
}

/// A cached value with the time it was stored and its time to live.
#[derive(Debug, Clone)]
pub struct CacheEntry<T> {
    /// The cached data.
    pub data: T,
    /// When this entry was cached.
    pub cached_at: Timestamp,
    /// Time to live, in seconds.
    pub ttl_seconds: i64,
}

impl<T> CacheEntry<T> {
    /// The expiry instant (`cached_at + ttl_seconds`) can be computed: the
    /// time to live fits a `TimeDelta` and the sum stays within `DateTime<Utc>`.
    pub open spec fn expiry_in_range(self) -> bool {
        &&& self.cached_at.wf()
        &&& -MAX_SPAN_SECS <= self.ttl_seconds <= MAX_SPAN_SECS
        &&& MIN_UTC_SECS <= self.cached_at.secs + self.ttl_seconds <= MAX_UTC_SECS
    }

    /// The expiry instant, in nanoseconds since the epoch.
    pub open spec fn expiry_nanos(self) -> int {
        self.cached_at.total_nanos() + self.ttl_seconds * 1_000_000_000
    }

    /// Fresh at `now`: `now` comes before the expiry instant.
    pub open spec fn spec_valid_at(self, now: Timestamp) -> bool {
        now.total_nanos() < self.expiry_nanos()
    }

    /// The expiry instant plus `grace` can be computed.
    pub open spec fn grace_in_range(self, grace: Span) -> bool {
        &&& self.expiry_in_range()
        &&& grace.wf()
        &&& in_utc_range(self.expiry_nanos() + grace.total_nanos())
    }

    /// Within the grace period at `now`: `now` comes before expiry plus `grace`.
    pub open spec fn spec_within_grace(self, grace: Span, now: Timestamp) -> bool {
        now.total_nanos() < self.expiry_nanos() + grace.total_nanos()
    }

    /// Creates an entry stored now, with the whole seconds of `ttl`.
    pub fn new(data: T, ttl: Span) -> (e: CacheEntry<T>)
        requires
            ttl.wf(),
        ensures
            e.data == data,
            e.ttl_seconds == ttl.spec_num_seconds(),
            e.cached_at.wf(),
            e.cached_at.secs >= 0,
    {
        let ttl_seconds = ttl.num_seconds();
        CacheEntry { data, cached_at: utc_now(), ttl_seconds }
    }

    /// The expiry instant.
    fn expiry(&self) -> (t: Timestamp)
        requires
            self.expiry_in_range(),
        ensures
            t.wf(),
            t.total_nanos() == self.expiry_nanos(),
    {
        Timestamp { secs: self.cached_at.secs + self.ttl_seconds, nanos: self.cached_at.nanos }
    }

    /// Whether the entry is fresh at `now`.
    pub fn is_valid_at(&self, now: Timestamp) -> (b: bool)
        requires
            self.expiry_in_range(),
            now.wf(),
        ensures
            b == self.spec_valid_at(now),
    {
        let expiry = self.expiry();
        now.is_before(&expiry)
    }

    /// Whether the entry is fresh now: fresh at the instant the clock reads
    /// (once, an instant from the epoch on). Whatever it reads, an entry that expires before the
    /// epoch is never fresh, and one that expires after the last instant the
    /// clock can read is always fresh.
    pub fn is_valid(&self) -> (b: bool)
        requires
            self.expiry_in_range(),
        ensures
            exists|now: Timestamp| now.wf() && now.secs >= 0 && b == #[trigger] self.spec_valid_at(now),
            b ==> self.expiry_nanos() > 0,
            !b ==> self.expiry_nanos() <= MAX_UTC_SECS * 1_000_000_000 + 999_999_999,
    {
        let now = utc_now();
        let b = self.is_valid_at(now);
        proof {
            assert(now.wf() && now.secs >= 0 && b == self.spec_valid_at(now));
        }
        b
    }

    /// Whether `now` comes before the expiry instant plus `grace`.
    pub fn is_within_grace_at(&self, grace: Span, now: Timestamp) -> (b: bool)
        requires
            self.grace_in_range(grace),
            now.wf(),
        ensures
            b == self.spec_within_grace(grace, now),
    {
        let expiry = self.expiry();
        let mut secs: i64 = expiry.secs + grace.secs;
        let mut nanos: u32 = expiry.nanos + grace.nanos;
        if nanos >= NANOS_PER_SEC {
            nanos = nanos - NANOS_PER_SEC;
            secs = secs + 1;
        }
        let end = Timestamp { secs, nanos };
        now.is_before(&end)
    }

    /// The signed time left until the entry expires, measured from `now`.
    pub fn time_until_expiry_at(&self, now: Timestamp) -> (d: Span)
        requires
            self.expiry_in_range(),
            now.wf(),
        ensures
            d.wf(),
            d.total_nanos() == self.expiry_nanos() - now.total_nanos(),
    {
        let expiry = self.expiry();
        span_between(expiry, now)
    }

    /// The signed time left until the entry expires, measured from now. The
    /// clock is read once, at an instant from the epoch on.
    pub fn time_until_expiry(&self) -> (d: Span)
        requires
            self.expiry_in_range(),
        ensures
            d.wf(),
            d.total_nanos() <= self.expiry_nanos(),
            d.total_nanos() >= self.expiry_nanos() - (MAX_UTC_SECS * 1_000_000_000 + 999_999_999),
    {
        let now = utc_now();
        self.time_until_expiry_at(now)
    }
}

/// What the cache-file name of `key` is made of: `key` with `/`, `\` and `:`
/// replaced by `_`, in that order.
pub open spec fn sanitize_key(key: Seq<char>) -> Seq<char> {
    replace_char(replace_char(replace_char(key, '/', '_'), '\\', '_'), ':', '_')
}

/// `dir` joined with the relative name `name`, as `PathBuf::join` does on
/// Unix: a separator is added unless `dir` is empty or already ends in one.
pub open spec fn join_path(dir: Seq<char>, name: Seq<char>) -> Seq<char> {
    if dir.len() == 0 || dir.last() == '/' {
        dir + name
    } else {
        dir + "/"@ + name
    }
}

/// The file that holds the entry for `key` in the cache directory `dir`.
pub open spec fn cache_file_path(dir: Seq<char>, key: Seq<char>) -> Seq<char> {
    join_path(dir, sanitize_key(key) + ".json"@)
}

/// How strict a read is about freshness.
#[derive(Debug, Clone, Copy)]
pub enum ReadMode {
    /// Only fresh entries are served; an expired file on disk is removed.
    Fresh,
    /// Entries past their expiry are served as stale while within this grace period.
    AllowStale(Span),
}

/// Where a read stands.
#[derive(Debug, Clone, Copy, PartialEq, Eq, Structural)]
pub enum ReadState {
    Start,
    ParsingMemory,
    CheckingDisk,
    ReadingDisk,
    ParsingDisk,
    RemovingExpired,
    Finished,
}

/// Two readings of the clock: one to decide freshness, one to decide
/// whether a stale entry is still within its grace period.
#[derive(Debug, Clone, Copy)]
pub struct ClockReadings {
    pub fresh_at: Timestamp,
    pub grace_at: Timestamp,
}

/// What happened when the caller performed the last action.
pub enum ReadEvent<T> {
    /// The read starts.
    Begin,
    /// The bytes held in memory were parsed (or not, with the parser's message).
    MemoryParsed(Result<CacheEntry<T>, String>, ClockReadings),
    /// Whether the cache file exists.
    DiskChecked(bool),
    /// The cache file was read (or not, with the error's message).
    DiskRead(Result<Vec<u8>, String>),
    /// The bytes read from disk, and what parsing them gave.
    DiskParsed(Vec<u8>, Result<CacheEntry<T>, String>, ClockReadings),
    /// The expired cache file was removed (whether or not that succeeded).
    FileRemoved,
}

/// What the caller has to do next.
pub enum ReadAction<T> {
    /// Parse these bytes as a cache entry and report `MemoryParsed`.
    ParseMemory(Vec<u8>),
    /// Check whether this file exists and report `DiskChecked`.
    CheckDisk(String),
    /// Read this file and report `DiskRead`.
    ReadDisk(String),
    /// Parse the bytes just read and report `DiskParsed`.
    ParseDisk,
    /// Remove this file, ignoring failure, and report `FileRemoved`.
    RemoveFile(String),
    /// The read is over: the data and whether it is fresh, or the error.
    Done(Result<(T, bool), CacheError>),
}

/// Whether `event` answers the action that left the read in `state`.
pub open spec fn event_fits<T>(state: ReadState, event: ReadEvent<T>) -> bool {
    match state {
        ReadState::Start => event is Begin,
        ReadState::ParsingMemory => event is MemoryParsed,
        ReadState::CheckingDisk => event is DiskChecked,
        ReadState::ReadingDisk => event is DiskRead,
        ReadState::ParsingDisk => event is DiskParsed,
        ReadState::RemovingExpired => event is FileRemoved,
        ReadState::Finished => false,
    }
}

/// The clock readings are proper instants, and the entry's expiry (plus the
/// grace period, in `AllowStale` mode) can be computed.
pub open spec fn entry_computable<T>(mode: ReadMode, e: CacheEntry<T>, clock: ClockReadings) -> bool {
    &&& clock.fresh_at.wf()
    &&& clock.grace_at.wf()
    &&& e.expiry_in_range()
    &&& match mode {
        ReadMode::Fresh => true,
        ReadMode::AllowStale(grace) => e.grace_in_range(grace),
    }
}

/// The event's parsed entry, if any, can be evaluated.
pub open spec fn event_computable<T>(mode: ReadMode, event: ReadEvent<T>) -> bool {
    match event {
        ReadEvent::MemoryParsed(Ok(e), clock) => entry_computable(mode, e, clock),
        ReadEvent::DiskParsed(_, Ok(e), clock) => entry_computable(mode, e, clock),
        _ => true,
    }
}

/// Whether a parsed entry is served: it is fresh, or (when stale entries are
/// allowed) still within the grace period.
pub open spec fn serves<T>(mode: ReadMode, e: CacheEntry<T>, clock: ClockReadings) -> bool {
    e.spec_valid_at(clock.fresh_at) || match mode {
        ReadMode::Fresh => false,
        ReadMode::AllowStale(grace) => e.spec_within_grace(grace, clock.grace_at),
    }
}

/// The read ends with an error of this kind carrying `text`.
pub open spec fn ends_in_error<T>(action: ReadAction<T>, kind: CacheErrorKind, text: Seq<char>) -> bool {
    action matches ReadAction::Done(Err(e)) && e.kind() == kind && e.text() == text
}

/// The read's decisions, as a relation between what a step starts from (the
/// memory index, the cache directory, the key, the mode, the state and the
/// event) and what it gives (the next state, the action, the memory index).
pub open spec fn read_transition<T>(
    memory: Map<Seq<char>, Seq<u8>>,
    dir: Seq<char>,
    key: Seq<char>,
    mode: ReadMode,
    event: ReadEvent<T>,
    next: ReadState,
    action: ReadAction<T>,
    memory_after: Map<Seq<char>, Seq<u8>>,
) -> bool {
    let path = cache_file_path(dir, key);
    let finished = next == ReadState::Finished;
    let to_disk = next == ReadState::CheckingDisk && (action matches ReadAction::CheckDisk(p) && p@ == path);
    &&& memory_after == (match event {
        ReadEvent::DiskParsed(bytes, Ok(e), clock) => if serves(mode, e, clock) {
            memory.insert(key, bytes@)
        } else {
            memory
        },
        _ => memory,
    })
    &&& match event {
        ReadEvent::Begin => if memory.contains_key(key) {
            next == ReadState::ParsingMemory && (action matches ReadAction::ParseMemory(b) && b@ == memory[key])
        } else {
            to_disk
        },
        ReadEvent::MemoryParsed(Err(m), _) => finished && ends_in_error(
            action,
            CacheErrorKind::Serialization,
            m@,
        ),
        ReadEvent::MemoryParsed(Ok(e), clock) => if serves(mode, e, clock) {
            finished && action == ReadAction::<T>::Done(Ok((e.data, e.spec_valid_at(clock.fresh_at))))
        } else {
            to_disk
        },
        ReadEvent::DiskChecked(exists) => if exists {
            next == ReadState::ReadingDisk && (action matches ReadAction::ReadDisk(p) && p@ == path)
        } else {
            finished && ends_in_error(action, CacheErrorKind::Miss, key)
        },
        ReadEvent::DiskRead(Err(m)) => finished && ends_in_error(action, CacheErrorKind::Io, m@),
        ReadEvent::DiskRead(Ok(_)) => next == ReadState::ParsingDisk && action is ParseDisk,
        ReadEvent::DiskParsed(_, Err(m), _) => finished && ends_in_error(
            action,
            CacheErrorKind::Serialization,
            m@,
        ),
        ReadEvent::DiskParsed(_, Ok(e), clock) => if serves(mode, e, clock) {
            finished && action == ReadAction::<T>::Done(Ok((e.data, e.spec_valid_at(clock.fresh_at))))
        } else {
            match mode {
                ReadMode::Fresh => next == ReadState::RemovingExpired
                    && (action matches ReadAction::RemoveFile(p) && p@ == path),
                ReadMode::AllowStale(_) => finished && ends_in_error(action, CacheErrorKind::Miss, key),
            }
        },
        ReadEvent::FileRemoved => finished && ends_in_error(action, CacheErrorKind::Expired, key),
    }
}

/// Cache storage: a directory of files and an in-memory index of serialized
/// entries by key.
pub struct CacheStore {
    cache_dir: String,
    memory_cache: StrMap<Vec<u8>>,
}

/// Cache statistics.
#[derive(Debug, Clone)]
pub struct CacheStats {
    pub memory_entries: usize,
    pub disk_entries: usize,
    pub disk_size_bytes: u64,
    pub cache_dir: String,
}

impl CacheStore {
    /// The cache directory.
    pub closed spec fn dir(self) -> Seq<char> {
        self.cache_dir@
    }

    /// The serialized entries held in memory, by key.
    pub closed spec fn memory(self) -> Map<Seq<char>, Seq<u8>> {
        self.memory_cache@.map_values(|v: Vec<u8>| v@)
    }

    /// Creates a store over `cache_dir` with nothing in memory.
    pub fn new(cache_dir: String) -> (s: CacheStore)
        ensures
            s.dir() == cache_dir@,
            s.memory() == Map::<Seq<char>, Seq<u8>>::empty(),
    {
        CacheStore { cache_dir, memory_cache: StrMap::new() }
    }

    /// The cache directory.
    pub fn cache_dir(&self) -> (d: &String)
        ensures
            d@ == self.dir(),
    {
        &self.cache_dir
    }

    /// The number of entries held in memory.
    pub fn memory_len(&self) -> (n: usize)
        ensures
            n == self.memory().dom().len(),
    {
        proof {
            assert(self.memory().dom() =~= self.memory_cache@.dom());
        }
        self.memory_cache.len()
    }

    /// The file that holds the entry for `key`.
    pub fn key_to_path(&self, key: &str) -> (p: String)
        ensures
            p@ == cache_file_path(self.dir(), key@),
    {
        let a = replace_char_in(key, '/', '_');
        let b = replace_char_in(a.as_str(), '\\', '_');
        let safe_key = replace_char_in(b.as_str(), ':', '_');
        let dir_chars = chars_of(self.cache_dir.as_str());
        let mut p = String::new();
        p.push_str(self.cache_dir.as_str());
        let n = dir_chars.len();
        if n > 0 && dir_chars[n - 1] != '/' {
            p.push_str("/");
        }
        p.push_str(safe_key.as_str());
        p.push_str(".json");
        proof {
            assert(p@ =~= cache_file_path(self.dir(), key@));
        }
        p
    }

    /// Stores the serialized entry `json` under `key` in memory; hands back
    /// the file to which the caller writes the same bytes.
    pub fn set(&mut self, key: &str, json: Vec<u8>) -> (path: String)
        ensures
            final(self).memory() == old(self).memory().insert(key@, json@),
            final(self).dir() == old(self).dir(),
            path@ == cache_file_path(old(self).dir(), key@),
    {
        let path = self.key_to_path(key);
        let ghost j = json@;
        self.memory_cache.insert(key.to_owned(), json);
        proof {
            assert(self.memory() =~= old(self).memory().insert(key@, j));
        }
        path
    }

    /// Forgets `key` in memory; hands back the file that the caller removes
    /// if it exists.
    pub fn remove(&mut self, key: &str) -> (path: String)
        ensures
            final(self).memory() == old(self).memory().remove(key@),
            final(self).dir() == old(self).dir(),
            path@ == cache_file_path(old(self).dir(), key@),
    {
        let path = self.key_to_path(key);
        let _ = self.memory_cache.remove(key);
        proof {
            assert(self.memory() =~= old(self).memory().remove(key@));
        }
        path
    }

    /// Forgets everything in memory; hands back the directory that the caller
    /// empties.
    pub fn clear(&mut self) -> (dir: String)
        ensures
            final(self).memory() == Map::<Seq<char>, Seq<u8>>::empty(),
            final(self).dir() == old(self).dir(),
            dir@ == old(self).dir(),
    {
        self.memory_cache.clear();
        proof {
            assert(self.memory() =~= Map::empty());
        }
        self.cache_dir.clone()
    }

    /// Statistics from the memory index and what the caller counted on disk.
    pub fn stats(&self, disk_entries: usize, disk_size_bytes: u64) -> (s: CacheStats)
        ensures
            s.memory_entries == self.memory().dom().len(),
            s.disk_entries == disk_entries,
            s.disk_size_bytes == disk_size_bytes,
            s.cache_dir@ == self.dir(),
    {
        CacheStats {
            memory_entries: self.memory_len(),
            disk_entries,
            disk_size_bytes,
            cache_dir: self.cache_dir.clone(),
        }
    }

    /// Whether a parsed entry is served, and whether it is fresh.
    fn judge<T>(mode: &ReadMode, e: &CacheEntry<T>, clock: &ClockReadings) -> (r: (bool, bool))
        requires
            entry_computable(*mode, *e, *clock),
        ensures
            r.0 == serves(*mode, *e, *clock),
            r.1 == e.spec_valid_at(clock.fresh_at),
    {
        let fresh = e.is_valid_at(clock.fresh_at);
        let within_grace = match mode {
            ReadMode::Fresh => false,
            ReadMode::AllowStale(grace) => e.is_within_grace_at(*grace, clock.grace_at),
        };
        (fresh || within_grace, fresh)
    }

    /// One step of a read of `key`: the next state and the action to perform.
    pub fn read_step<T>(&mut self, key: &str, mode: &ReadMode, state: ReadState, event: ReadEvent<T>) -> (r: (
        ReadState,
        ReadAction<T>,
    ))
        requires
            event_fits(state, event),
            event_computable(*mode, event),
        ensures
            read_transition(
                old(self).memory(),
                old(self).dir(),
                key@,
                *mode,
                event,
                r.0,
                r.1,
                final(self).memory(),
            ),
            final(self).dir() == old(self).dir(),
    {
        let ghost memory0 = self.memory();
        match event {
            ReadEvent::Begin => {
                match self.memory_cache.get(key) {
                    Some(bytes) => {
                        let copy = bytes.clone();
                        proof {
                            assert(copy@ =~= bytes@);
                        }
                        (ReadState::ParsingMemory, ReadAction::ParseMemory(copy))
                    },
                    None => (ReadState::CheckingDisk, ReadAction::CheckDisk(self.key_to_path(key))),
                }
            },
            ReadEvent::MemoryParsed(Err(m), _) => (
                ReadState::Finished,
                ReadAction::Done(Err(CacheError::Serialization(m))),
            ),
            ReadEvent::MemoryParsed(Ok(e), clock) => {
                let (served, fresh) = Self::judge(mode, &e, &clock);
                if served {
                    (ReadState::Finished, ReadAction::Done(Ok((e.data, fresh))))
                } else {
                    (ReadState::CheckingDisk, ReadAction::CheckDisk(self.key_to_path(key)))
                }
            },
            ReadEvent::DiskChecked(exists) => {
                if exists {
                    (ReadState::ReadingDisk, ReadAction::ReadDisk(self.key_to_path(key)))
                } else {
                    (ReadState::Finished, ReadAction::Done(Err(CacheError::Miss(key.to_owned()))))
                }
            },
            ReadEvent::DiskRead(Err(m)) => (ReadState::Finished, ReadAction::Done(Err(CacheError::Io(m)))),
            ReadEvent::DiskRead(Ok(_)) => (ReadState::ParsingDisk, ReadAction::ParseDisk),
            ReadEvent::DiskParsed(_, Err(m), _) => (
                ReadState::Finished,
                ReadAction::Done(Err(CacheError::Serialization(m))),
            ),
            ReadEvent::DiskParsed(bytes, Ok(e), clock) => {
                let (served, fresh) = Self::judge(mode, &e, &clock);
                if served {
                    let ghost b = bytes@;
                    self.memory_cache.insert(key.to_owned(), bytes);
                    proof {
                        assert(self.memory() =~= memory0.insert(key@, b));
                    }
                    (ReadState::Finished, ReadAction::Done(Ok((e.data, fresh))))
                } else {
                    match mode {
                        ReadMode::Fresh => (ReadState::RemovingExpired, ReadAction::RemoveFile(self.key_to_path(key))),
                        ReadMode::AllowStale(_) => (
                            ReadState::Finished,
                            ReadAction::Done(Err(CacheError::Miss(key.to_owned()))),
                        ),
                    }
                }
            },
            ReadEvent::FileRemoved => (
                ReadState::Finished,
                ReadAction::Done(Err(CacheError::Expired(key.to_owned()))),
            ),
        }
    }
}

/// `x / d` rounded to the nearest whole number, ties to the even one.
pub open spec fn div_round_half_even(x: nat, d: nat) -> nat
    recommends
        d > 0,
{
    let q = x / d;
    let r = x % d;
    if r * 2 > d || (r * 2 == d && q % 2 == 1) {
        q + 1
    } else {
        q
    }
}

fn div_round_half_even_exec(x: u128, d: u128) -> (r: u128)
    requires
        d > 0,
        x / d < u128::MAX,
        d < 0x8000_0000_0000_0000_0000_0000_0000_0000,
    ensures
        r == div_round_half_even(x as nat, d as nat),
{
    let q = x / d;
    let rem = x % d;
    if rem * 2 > d || (rem * 2 == d && q % 2 == 1) {
        q + 1
    } else {
        q
    }
}

/// The exponent of the spacing of `f64` values around `b` (`b < 2^64`):
/// the least `k` with `b < 2^(53 + k)`.
pub open spec fn f64_spacing_exp(b: nat, k: nat) -> nat
    decreases 11 - k,
{
    if k >= 11 || b / pow2(k) < 0x20_0000_0000_0000 {
        k
    } else {
        f64_spacing_exp(b, k + 1)
    }
}

/// The `f64` nearest to `b` (ties to even), which is what `b as f64` gives.
pub open spec fn to_f64_value(b: nat) -> nat {
    let unit = pow2(f64_spacing_exp(b, 0));
    div_round_half_even(b, unit) * unit
}

proof fn lemma_round_bound(b: nat, unit: nat, r: nat)
    requires
        unit > 0,
        r <= b / unit + 1,
    ensures
        r * unit <= b + unit,
{
    assert((b / unit) * unit <= b) by (nonlinear_arith)
        requires
            unit > 0,
    ;
    assert(r * unit <= (b / unit + 1) * unit) by (nonlinear_arith)
        requires
            r <= b / unit + 1,
            unit > 0,
    ;
    assert((b / unit + 1) * unit == (b / unit) * unit + unit) by (nonlinear_arith);
}

/// `bytes as f64`, as the number it is.
fn to_f64_exact(bytes: u64) -> (f: u128)
    ensures
        f == to_f64_value(bytes as nat),
        f <= 0x1_0000_0000_0000_0000 + 2048,
{
    let mut k: u32 = 0;
    let mut unit: u128 = 1;
    proof {
        lemma2_to64();
    }
    while k < 11 && (bytes as u128) / unit >= 0x20_0000_0000_0000
        invariant
            k <= 11,
            unit == pow2(k as nat),
            1 <= unit <= 2048,
            f64_spacing_exp(bytes as nat, 0) == f64_spacing_exp(bytes as nat, k as nat),
        decreases 11 - k,
    {
        proof {
            lemma_pow2_unfold((k + 1) as nat);
            lemma2_to64();
            if k + 1 < 11 {
                lemma_pow2_strictly_increases((k + 1) as nat, 11);
            }
        }
        unit = unit * 2;
        k = k + 1;
    }
    let r = div_round_half_even_exec(bytes as u128, unit);
    proof {
        lemma_round_bound(bytes as nat, unit as nat, r as nat);
    }
    r * unit
}

/// `value` tenths written with one decimal: `<value / 10>.<value % 10>`.
pub open spec fn tenths_text(value: nat) -> Seq<char> {
    decimal(value / 10) + "."@ + seq![digit_char(value % 10)]
}

/// The size as `{:.1}` shows `bytes / 1024.0` or `bytes / (1024.0 * 1024.0)`:
/// bytes below 1 KiB as a count, below 1 MiB in KB, else in MB, each rounded
/// to one decimal, ties to even.
pub open spec fn human_size(bytes: nat) -> Seq<char> {
    if bytes < 1024 {
        decimal(bytes) + " B"@
    } else if bytes < 1024 * 1024 {
        tenths_text(div_round_half_even(bytes * 10, 1024)) + " KB"@
    } else {
        tenths_text(div_round_half_even(to_f64_value(bytes) * 10, 1024 * 1024)) + " MB"@
    }
}

fn push_tenths(s: &mut String, value: u128)
    requires
        value / 10 <= u64::MAX,
    ensures
        final(s)@ == old(s)@ + tenths_text(value as nat),
{
    push_decimal(s, (value / 10) as u64);
    s.push_str(".");
    let d: u8 = (value % 10) as u8;
    s.push((d + 48) as char);
    proof {
        assert(final(s)@ =~= old(s)@ + tenths_text(value as nat));
    }
}

impl CacheStats {
    /// The disk size as a human-readable string.
    pub fn disk_size_human(&self) -> (s: String)
        ensures
            s@ == human_size(self.disk_size_bytes as nat),
    {
        let bytes = self.disk_size_bytes;
        let mut s = String::new();
        if bytes < 1024 {
            push_decimal(&mut s, bytes);
            s.push_str(" B");
        } else if bytes < 1024 * 1024 {
            let t = div_round_half_even_exec((bytes as u128) * 10, 1024);
            push_tenths(&mut s, t);
            s.push_str(" KB");
        } else {
            let f = to_f64_exact(bytes);
            let t = div_round_half_even_exec(f * 10, 1024 * 1024);
            proof {
                assert(t as int <= (f as int) * 10 / 1048576 + 1);
            }
            push_tenths(&mut s, t);
            s.push_str(" MB");
        }
        proof {
            assert(s@ =~= human_size(bytes as nat));
        }
        s
    }
}

/// A read that starts right after `set(key, json)` parses exactly `json`:
/// what a write put in memory is what the next read looks at first.
pub proof fn law_read_after_set_parses_what_was_set<T>(
    memory: Map<Seq<char>, Seq<u8>>,
    dir: Seq<char>,
    key: Seq<char>,
    json: Seq<u8>,
    mode: ReadMode,
    next: ReadState,
    action: ReadAction<T>,
    memory_after: Map<Seq<char>, Seq<u8>>,
)
    requires
        read_transition(memory.insert(key, json), dir, key, mode, ReadEvent::Begin, next, action, memory_after),
    ensures
        next == ReadState::ParsingMemory,
        action matches ReadAction::ParseMemory(b) && b@ == json,
        memory_after == memory.insert(key, json),
{
}

/// An entry that is fresh when it is parsed is returned, marked fresh,
/// whatever the read mode and wherever it was found.
pub proof fn law_fresh_entry_is_served<T>(
    memory: Map<Seq<char>, Seq<u8>>,
    dir: Seq<char>,
    key: Seq<char>,
    mode: ReadMode,
    event: ReadEvent<T>,
    next: ReadState,
    action: ReadAction<T>,
    memory_after: Map<Seq<char>, Seq<u8>>,
)
    requires
        read_transition(memory, dir, key, mode, event, next, action, memory_after),
        match event {
            ReadEvent::MemoryParsed(Ok(e), clock) => e.spec_valid_at(clock.fresh_at),
            ReadEvent::DiskParsed(_, Ok(e), clock) => e.spec_valid_at(clock.fresh_at),
            _ => false,
        },
    ensures
        next == ReadState::Finished,
        match event {
            ReadEvent::MemoryParsed(Ok(e), _) => action == ReadAction::<T>::Done(Ok((e.data, true))),
            ReadEvent::DiskParsed(_, Ok(e), _) => action == ReadAction::<T>::Done(Ok((e.data, true))),
            _ => false,
        },
{
}

/// A get right after a set returns the stored value: after `set(key, json)`,
/// a read of `key` parses `json` from memory, and when those bytes hold an
/// entry that is still fresh, the read ends with its data, marked fresh,
/// leaving memory as the set left it.
pub proof fn law_get_after_set_returns_stored_value<T>(
    memory: Map<Seq<char>, Seq<u8>>,
    dir: Seq<char>,
    key: Seq<char>,
    json: Seq<u8>,
    mode: ReadMode,
    e: CacheEntry<T>,
    clock: ClockReadings,
    next1: ReadState,
    action1: ReadAction<T>,
    memory1: Map<Seq<char>, Seq<u8>>,
    next2: ReadState,
    action2: ReadAction<T>,
    memory2: Map<Seq<char>, Seq<u8>>,
)
    requires
        read_transition(memory.insert(key, json), dir, key, mode, ReadEvent::<T>::Begin, next1, action1, memory1),
        read_transition(memory1, dir, key, mode, ReadEvent::MemoryParsed(Ok(e), clock), next2, action2, memory2),
        e.spec_valid_at(clock.fresh_at),
    ensures
        next1 == ReadState::ParsingMemory,
        action1 matches ReadAction::ParseMemory(b) && b@ == json,
        next2 == ReadState::Finished,
        action2 == ReadAction::<T>::Done(Ok((e.data, true))),
        memory2 == memory.insert(key, json),
{
}

/// A value served from disk is put in memory, so the next read of the same
/// key parses those bytes from memory.
pub proof fn law_disk_hit_fills_memory<T>(
    memory: Map<Seq<char>, Seq<u8>>,
    dir: Seq<char>,
    key: Seq<char>,
    mode: ReadMode,
    bytes: Vec<u8>,
    e: CacheEntry<T>,
    clock: ClockReadings,
    next: ReadState,
    action: ReadAction<T>,
    memory_after: Map<Seq<char>, Seq<u8>>,
    next2: ReadState,
    action2: ReadAction<T>,
    memory_after2: Map<Seq<char>, Seq<u8>>,
)
    requires
        read_transition(memory, dir, key, mode, ReadEvent::DiskParsed(bytes, Ok(e), clock), next, action, memory_after),
        serves(mode, e, clock),
        read_transition(memory_after, dir, key, mode, ReadEvent::<T>::Begin, next2, action2, memory_after2),
    ensures
        action2 matches ReadAction::ParseMemory(b) && b@ == bytes@,
{
}

/// A strict read that finds an expired entry on disk removes its file and
/// reports the key as expired; memory is left as it was.
pub proof fn law_expired_entry_is_removed_then_reported<T>(
    memory: Map<Seq<char>, Seq<u8>>,
    dir: Seq<char>,
    key: Seq<char>,
    bytes: Vec<u8>,
    e: CacheEntry<T>,
    clock: ClockReadings,
    next: ReadState,
    action: ReadAction<T>,
    memory_after: Map<Seq<char>, Seq<u8>>,
    next2: ReadState,
    action2: ReadAction<T>,
    memory_after2: Map<Seq<char>, Seq<u8>>,
)
    requires
        read_transition(memory, dir, key, ReadMode::Fresh, ReadEvent::DiskParsed(bytes, Ok(e), clock), next, action, memory_after),
        !e.spec_valid_at(clock.fresh_at),
        read_transition(memory_after, dir, key, ReadMode::Fresh, ReadEvent::<T>::FileRemoved, next2, action2, memory_after2),
    ensures
        next == ReadState::RemovingExpired,
        action matches ReadAction::RemoveFile(p) && p@ == cache_file_path(dir, key),
        next2 == ReadState::Finished,
        ends_in_error(action2, CacheErrorKind::Expired, key),
        memory_after2 == memory,
{
}

/// After `remove(key)`, a read of `key` no longer finds it in memory: it
/// checks the very file that `remove` handed back for deletion, and once that
/// file is gone the read misses.
pub proof fn law_read_after_remove_misses<T>(
    memory: Map<Seq<char>, Seq<u8>>,
    dir: Seq<char>,
    key: Seq<char>,
    mode: ReadMode,
    next: ReadState,
    action: ReadAction<T>,
    memory_after: Map<Seq<char>, Seq<u8>>,
    next2: ReadState,
    action2: ReadAction<T>,
    memory_after2: Map<Seq<char>, Seq<u8>>,
)
    requires
        read_transition(memory.remove(key), dir, key, mode, ReadEvent::<T>::Begin, next, action, memory_after),
        read_transition(memory_after, dir, key, mode, ReadEvent::<T>::DiskChecked(false), next2, action2, memory_after2),
    ensures
        action matches ReadAction::CheckDisk(p) && p@ == cache_file_path(dir, key),
        next2 == ReadState::Finished,
        ends_in_error(action2, CacheErrorKind::Miss, key),
        memory_after2 == memory.remove(key),
{
}

/// After `clear()`, every read looks on disk, and once the directory has been
/// emptied every read misses.
pub proof fn law_read_after_clear_misses<T>(
    dir: Seq<char>,
    key: Seq<char>,
    mode: ReadMode,
    next: ReadState,
    action: ReadAction<T>,
    memory_after: Map<Seq<char>, Seq<u8>>,
    next2: ReadState,
    action2: ReadAction<T>,
    memory_after2: Map<Seq<char>, Seq<u8>>,
)
    requires
        read_transition(Map::empty(), dir, key, mode, ReadEvent::<T>::Begin, next, action, memory_after),
        read_transition(memory_after, dir, key, mode, ReadEvent::<T>::DiskChecked(false), next2, action2, memory_after2),
    ensures
        action matches ReadAction::CheckDisk(p) && p@ == cache_file_path(dir, key),
        next2 == ReadState::Finished,
        ends_in_error(action2, CacheErrorKind::Miss, key),
        memory_after2 == Map::<Seq<char>, Seq<u8>>::empty(),
{
}

/// A read that allows stale entries agrees with a strict read wherever the
/// strict read serves a value: from the same state of memory and the same
/// event, it ends the same way (the same data, marked fresh) and leaves
/// memory the same.
pub proof fn law_stale_read_agrees_with_strict_read<T>(
    memory: Map<Seq<char>, Seq<u8>>,
    dir: Seq<char>,
    key: Seq<char>,
    grace: Span,
    event: ReadEvent<T>,
    next1: ReadState,
    action1: ReadAction<T>,
    memory1: Map<Seq<char>, Seq<u8>>,
    next2: ReadState,
    action2: ReadAction<T>,
    memory2: Map<Seq<char>, Seq<u8>>,
)
    requires
        read_transition(memory, dir, key, ReadMode::Fresh, event, next1, action1, memory1),
        action1 matches ReadAction::Done(Ok(_)),
        read_transition(memory, dir, key, ReadMode::AllowStale(grace), event, next2, action2, memory2),
    ensures
        next2 == next1,
        action2 == action1,
        action1 matches ReadAction::Done(Ok((_, fresh))) && fresh,
        memory2 == memory1,
{
}

/// A read that serves a parsed entry, from memory or from disk and in either
/// mode, returns the entry's data and marks it fresh exactly when the entry
/// is still valid at the freshness reading of the clock.
pub proof fn law_served_entry_is_fresh_iff_valid<T>(
    memory: Map<Seq<char>, Seq<u8>>,
    dir: Seq<char>,
    key: Seq<char>,
    mode: ReadMode,
    from_disk: bool,
    bytes: Vec<u8>,
    e: CacheEntry<T>,
    clock: ClockReadings,
    next: ReadState,
    action: ReadAction<T>,
    memory_after: Map<Seq<char>, Seq<u8>>,
)
    requires
        read_transition(
            memory,
            dir,
            key,
            mode,
            if from_disk {
                ReadEvent::DiskParsed(bytes, Ok(e), clock)
            } else {
                ReadEvent::MemoryParsed(Ok(e), clock)
            },
            next,
            action,
            memory_after,
        ),
        action matches ReadAction::Done(Ok(_)),
    ensures
        action matches ReadAction::Done(Ok((data, fresh))) && data == e.data && fresh == (clock.fresh_at.total_nanos()
            < e.cached_at.total_nanos() + e.ttl_seconds * 1_000_000_000),
{
}

/// A read that allows stale entries serves an entry that has expired but is
/// still within its grace period, from memory or from disk, and marks it as
/// not fresh.
pub proof fn law_stale_entry_within_grace_is_served_not_fresh<T>(
    memory: Map<Seq<char>, Seq<u8>>,
    dir: Seq<char>,
    key: Seq<char>,
    grace: Span,
    from_disk: bool,
    bytes: Vec<u8>,
    e: CacheEntry<T>,
    clock: ClockReadings,
    next: ReadState,
    action: ReadAction<T>,
    memory_after: Map<Seq<char>, Seq<u8>>,
)
    requires
        read_transition(
            memory,
            dir,
            key,
            ReadMode::AllowStale(grace),
            if from_disk {
                ReadEvent::DiskParsed(bytes, Ok(e), clock)
            } else {
                ReadEvent::MemoryParsed(Ok(e), clock)
            },
            next,
            action,
            memory_after,
        ),
        e.cached_at.total_nanos() + e.ttl_seconds * 1_000_000_000 <= clock.fresh_at.total_nanos(),
        clock.grace_at.total_nanos() < e.cached_at.total_nanos() + e.ttl_seconds * 1_000_000_000
            + grace.total_nanos(),
    ensures
        next == ReadState::Finished,
        action matches ReadAction::Done(Ok((data, fresh))) && data == e.data && !fresh,
{
}

/// Every file a read of `key` touches, whether it checks, reads or removes
/// it, is the one file where `set` stores `key` (the path `set` and
/// `remove` hand back): inside the cache directory, named after the key.
pub proof fn law_read_touches_only_the_key_file<T>(
    memory: Map<Seq<char>, Seq<u8>>,
    dir: Seq<char>,
    key: Seq<char>,
    mode: ReadMode,
    event: ReadEvent<T>,
    next: ReadState,
    action: ReadAction<T>,
    memory_after: Map<Seq<char>, Seq<u8>>,
)
    requires
        read_transition(memory, dir, key, mode, event, next, action, memory_after),
    ensures
        action matches ReadAction::CheckDisk(p) ==> p@ == cache_file_path(dir, key),
        action matches ReadAction::ReadDisk(p) ==> p@ == cache_file_path(dir, key),
        action matches ReadAction::RemoveFile(p) ==> p@ == cache_file_path(dir, key),
        event matches ReadEvent::DiskChecked(true) ==> (action matches ReadAction::ReadDisk(p) && p@
            == cache_file_path(dir, key)),
{
}

/// Whatever a strict read serves, a read that allows stale entries serves
/// as well, with the same freshness.
pub proof fn law_stale_read_serves_what_strict_read_serves<T>(
    e: CacheEntry<T>,
    grace: Span,
    clock: ClockReadings,
)
    requires
        serves(ReadMode::Fresh, e, clock),
    ensures
        serves(ReadMode::AllowStale(grace), e, clock),
        e.spec_valid_at(clock.fresh_at),
{
}

/// An entry stored with a positive time to live is fresh at the instant it
/// was stored.
pub proof fn law_new_entry_is_fresh<T>(e: CacheEntry<T>)
    requires
        e.ttl_seconds > 0,
    ensures
        e.spec_valid_at(e.cached_at),
{
}

/// Freshness only runs out: an entry fresh at some instant was fresh at
/// every earlier instant.
pub proof fn law_freshness_is_monotone<T>(e: CacheEntry<T>, earlier: Timestamp, later: Timestamp)
    requires
        earlier.total_nanos() <= later.total_nanos(),
        e.spec_valid_at(later),
    ensures
        e.spec_valid_at(earlier),
{
}

/// The time left until expiry is positive exactly when the entry is fresh.
pub proof fn law_time_left_positive_iff_fresh<T>(e: CacheEntry<T>, now: Timestamp, left: Span)
    requires
        left.total_nanos() == e.expiry_nanos() - now.total_nanos(),
    ensures
        (left.total_nanos() > 0) == e.spec_valid_at(now),
{
}

/// Cache file names never hold a path separator or a drive colon.
pub proof fn law_sanitized_key_has_no_separator(key: Seq<char>)
    ensures
        !sanitize_key(key).contains('/'),
        !sanitize_key(key).contains('\\'),
        !sanitize_key(key).contains(':'),
        sanitize_key(key).len() == key.len(),
{
    let k = sanitize_key(key);
    assert forall|i: int| 0 <= i < k.len() implies k[i] != '/' && k[i] != '\\' && k[i] != ':' by {}
}

} // verus!
