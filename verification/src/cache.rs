//! The response cache: a single slot holding the most recent rendered
//! document and its creation time, served while fresh.
//!
//! An entry is fresh exactly when its payload is non-empty and its age is
//! below [`CACHE_TTL_SECONDS`]. An empty payload (with creation time zero
//! as the sentinel) means "no entry yet". A clock that reads earlier than
//! the entry's creation time counts as stale, never as an error. Entries
//! are replaced wholesale: a write swaps in a complete new entry, so a
//! reader sees the old entry in full or the new one in full, never a mix.
//! Request handlers share one cache instance behind a reader/writer lock;
//! the swap itself is the only step needing exclusive access.

use vstd::prelude::*;
use vstd::rwlock::RwLock;
use vstd::rwlock::RwLockPredicate;
use crate::errors::WeatherError;

verus! {

/// How long an entry stays fresh, in seconds: one hour. An earlier
/// deployment ran with 5400 s; this build standardizes on 3600 s, and the
/// freshness boundary is exclusive (an entry aged exactly this many
/// seconds is stale).
pub const CACHE_TTL_SECONDS: u64 = 3600;

/// One cached conversion: the rendered document and when it was stored.
pub struct CacheEntry {
    /// Seconds since the epoch at which the entry was stored; zero is the
    /// sentinel of the initial empty entry.
    pub created_at: u64,
    /// The rendered document; empty means "no entry yet".
    pub payload: String,
}

/// The single-slot cache.
pub struct ResponseCache {
    pub entry: CacheEntry,
}

impl View for ResponseCache {
    type V = (u64, Seq<char>);

    open spec fn view(&self) -> (u64, Seq<char>) {
        (self.entry.created_at, self.entry.payload@)
    }
}

/// Whether an entry (creation time, payload) satisfies a request at `now`:
/// non-empty and younger than the lifetime; a creation time after `now`
/// counts as stale.
pub open spec fn spec_fresh(v: (u64, Seq<char>), now: u64) -> bool {
    &&& v.1.len() > 0
    &&& v.0 <= now
    &&& now - v.0 < CACHE_TTL_SECONDS
}

/// What a read at `now` returns of an entry: its age and payload when
/// fresh, nothing otherwise.
pub open spec fn spec_read(v: (u64, Seq<char>), now: u64) -> Option<(u64, Seq<char>)> {
    if spec_fresh(v, now) {
        Some((((now - v.0) as u64), v.1))
    } else {
        None
    }
}

/// The entry a write at `now` leaves behind.
pub open spec fn spec_write(v: (u64, Seq<char>), now: u64, payload: Seq<char>) -> (
    u64,
    Seq<char>,
) {
    (now, payload)
}

impl ResponseCache {
    /// A cache with no entry yet.
    pub fn new() -> (r: ResponseCache)
        ensures
            r@ == (0u64, Seq::<char>::empty()),
    {
        ResponseCache { entry: CacheEntry { created_at: 0, payload: String::new() } }
    }

    /// The current entry's age and payload when it is fresh at `now`;
    /// nothing when it is absent or stale.
    pub fn read(&self, now: u64) -> (r: Option<(u64, String)>)
        ensures
            r is Some <==> spec_fresh(self@, now),
            r matches Some(p) ==> spec_read(self@, now) == Some((p.0, p.1@)),
            r is None ==> spec_read(self@, now) is None,
    {
        if self.entry.payload.as_str().is_empty() {
            return None;
        }
        if self.entry.created_at > now {
            return None;
        }
        let age = now - self.entry.created_at;
        if age < CACHE_TTL_SECONDS {
            Some((age, self.entry.payload.clone()))
        } else {
            None
        }
    }

    /// Atomically replaces the stored entry with a complete new one.
    pub fn write(&mut self, now: u64, payload: String)
        ensures
            final(self)@ == spec_write(old(self)@, now, payload@),
    {
        self.entry = CacheEntry { created_at: now, payload };
    }
}

impl Default for ResponseCache {
    /// The initial cache: no entry yet.
    fn default() -> (r: ResponseCache)
        ensures
            r@ == (0u64, Seq::<char>::empty()),
    {
        ResponseCache::new()
    }
}

/// Applies the outcome of a refresh attempt at `now`: a successful fetch
/// replaces the entry wholesale and returns the new payload; a failure
/// leaves the cache exactly as it was and reports the error.
pub fn apply_refresh(cache: &mut ResponseCache, now: u64, fetched: Result<String, WeatherError>)
    -> (r: Result<String, WeatherError>)
    ensures
        fetched matches Ok(p) ==> final(cache)@ == spec_write(old(cache)@, now, p@) && (
        r matches Ok(q) && q@ == p@),
        fetched matches Err(e) ==> *final(cache) == *old(cache) && (r matches Err(e2) && e2 == e),
{
    match fetched {
        Ok(payload) => {
            let out = payload.clone();
            cache.write(now, payload);
            Ok(out)
        },
        Err(e) => Err(e),
    }
}

/// The always-true well-formedness condition of stored cache values.
pub struct CacheInvariant {}

impl RwLockPredicate<ResponseCache> for CacheInvariant {
    open spec fn inv(self, v: ResponseCache) -> bool {
        true
    }
}

/// The cache as the request handlers share it: any number of concurrent
/// readers may observe the entry simultaneously, and a writer takes
/// exclusive access for the instant of the swap only. The fetch and the
/// encode of a refresh happen outside the lock.
pub struct SharedCache {
    lock: RwLock<ResponseCache, CacheInvariant>,
}

impl SharedCache {
    /// A shared cache with no entry yet.
    pub fn new() -> SharedCache {
        SharedCache { lock: RwLock::new(ResponseCache::new(), Ghost(CacheInvariant {  })) }
    }

    /// Reads the current entry under a read lock. A returned age and
    /// payload always come from one and the same entry, observed whole.
    pub fn read(&self, now: u64) -> (r: Option<(u64, String)>)
        ensures
            r matches Some(p) ==> exists|v: (u64, Seq<char>)|
                spec_read(v, now) == Some((p.0, p.1@)),
            r matches Some(p) ==> p.0 < CACHE_TTL_SECONDS && p.1@.len() > 0,
    {
        let handle = self.lock.acquire_read();
        let cache = handle.borrow();
        let r = cache.read(now);
        let ghost seen = cache@;
        handle.release_read();
        proof {
            match &r {
                Some(p) => {
                    assert(spec_read(seen, now) == Some((p.0, p.1@)));
                },
                None => {},
            }
        }
        r
    }

    /// Applies a refresh outcome under the write lock: a successful fetch
    /// swaps in a complete new entry; a failure changes nothing.
    pub fn refresh(&self, now: u64, fetched: Result<String, WeatherError>) -> (r: Result<
        String,
        WeatherError,
    >)
        ensures
            fetched matches Ok(p) ==> r matches Ok(q) && q@ == p@,
            fetched matches Err(e) ==> r matches Err(e2) && e2 == e,
    {
        let (mut cache, handle) = self.lock.acquire_write();
        let r = apply_refresh(&mut cache, now, fetched);
        handle.release_write(cache);
        r
    }
}

impl Default for SharedCache {
    /// The initial shared state: an empty cache.
    fn default() -> SharedCache {
        SharedCache::new()
    }
}

/// Freshness boundary: an entry created at `t` satisfies a read one second
/// before its lifetime runs out, and no read at or after that point.
pub proof fn lemma_freshness_boundary(v: (u64, Seq<char>), t: u64)
    requires
        v.0 == t,
        v.1.len() > 0,
        t + CACHE_TTL_SECONDS <= u64::MAX,
    ensures
        spec_read(v, (t + (CACHE_TTL_SECONDS - 1)) as u64) == Some(
            (((CACHE_TTL_SECONDS - 1)) as u64, v.1),
        ),
        forall|now: u64| now >= t + CACHE_TTL_SECONDS ==> spec_read(v, now) is None,
{
}

/// Atomic visibility: reads see entries whole. A read after a write
/// returns exactly the written payload, and a read of the prior entry
/// returns exactly the prior payload; the age and payload a read returns
/// always come from one and the same entry.
pub proof fn lemma_atomic_visibility(
    v: (u64, Seq<char>),
    now_w: u64,
    p: Seq<char>,
    now_r: u64,
)
    ensures
        spec_read(spec_write(v, now_w, p), now_r) matches Some(r) ==> r.1 == p && r.0 == now_r
            - now_w,
        spec_read(v, now_r) matches Some(r) ==> r.1 == v.1 && r.0 == now_r - v.0,
{
}

/// Failure isolation: a failed refresh never clears a good cache. When the
/// fetch fails, the cache is unchanged, and a read before any further
/// write returns exactly what it would have returned before the failure.
pub proof fn lemma_failure_isolation(before: (u64, Seq<char>), after: (u64, Seq<char>), now: u64)
    requires
        after == before,
    ensures
        spec_read(after, now) == spec_read(before, now),
{
}

} // verus!
