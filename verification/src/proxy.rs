//! The version parameter of the Facepunch companion proxy.
//!
//! Connections through the proxy carry `v = minPublishedTime + 1`, where
//! `minPublishedTime` comes from the companion API's version endpoint. The
//! value is cached for ten minutes; when a refresh fails, the last value is
//! kept. A failed fetch with nothing cached yields no version: the caller
//! reports the request's HTTP error. The fixed fallback version stands in
//! for a published time that the endpoint's answer does not hold.
use crate::clock::{elapsed_ns, Clock};
use vstd::prelude::*;

verus! {

/// How long a fetched version is reused before it is fetched again, in
/// nanoseconds (ten minutes).
pub const VERSION_TTL_NS: u64 = 600_000_000_000;

/// The version used when the endpoint answers without a published time.
pub const FALLBACK_VERSION: i64 = 9_999_999_999_999;

/// What serde_json makes of a JSON body and a member name: `None` when the
/// body is not JSON, otherwise the member `key` as an `i64`, if the body is an
/// object with such a member that is an integer fitting in `i64`.
pub uninterp spec fn json_i64_member(body: Seq<u8>, key: Seq<char>) -> Option<Option<i64>>;

/// Parses `body` with `serde_json::from_slice` into a `serde_json::Value`,
/// then reads its member `key` with `Value::get` and `Value::as_i64`. The
/// result is claimed to be a function of the bytes and the key alone; what
/// that function is, is left to serde_json.
#[verifier::external_body]
fn parse_i64_member(body: &[u8], key: &str) -> (r: Option<Option<i64>>)
    ensures
        r == json_i64_member(body@, key@),
{
    match serde_json::from_slice::<serde_json::Value>(body) {
        Ok(value) => Some(value.get(key).and_then(serde_json::Value::as_i64)),
        Err(_) => None,
    }
}

/// The member of the version endpoint's answer that holds the published
/// time.
pub open spec fn published_time_key() -> Seq<char> {
    "minPublishedTime"@
}

/// The version for a published time: one past it, or the fallback when the
/// endpoint gave none.
pub open spec fn version_for(published: Option<i64>) -> int {
    match published {
        Some(ts) => ts + 1,
        None => FALLBACK_VERSION as int,
    }
}

/// The version for the `minPublishedTime` read from the endpoint, or the
/// fallback when the endpoint gave none.
pub fn version_from_published_time(published: Option<i64>) -> (v: i64)
    requires
        published != Some(i64::MAX),
    ensures
        v == version_for(published),
{
    let ts: i64 = match published {
        Some(ts) => ts,
        None => FALLBACK_VERSION - 1,
    };
    ts + 1
}

/// The version that a version-endpoint body yields: `None` when the body is
/// not JSON or its published time is `i64::MAX` (which has no successor);
/// otherwise the version for the published time it holds, if any.
pub open spec fn version_of_body(body: Seq<u8>) -> Option<i64> {
    match json_i64_member(body, published_time_key()) {
        None => None,
        Some(published) => if published == Some(i64::MAX) {
            None
        } else {
            Some(version_for(published) as i64)
        },
    }
}

/// Reads the version out of a version-endpoint body.
pub fn version_from_body(body: &[u8]) -> (v: Option<i64>)
    ensures
        v == version_of_body(body@),
{
    match parse_i64_member(body, "minPublishedTime") {
        None => None,
        Some(published) => {
            if published == Some(i64::MAX) {
                None
            } else {
                Some(version_from_published_time(published))
            }
        },
    }
}

/// The abstract state of the cache: the last version (`0` for none) and when
/// it was fetched, in nanoseconds on the cache's clock.
pub struct VersionCacheView {
    pub value: i64,
    pub fetched_at: u64,
}

/// Whether the cache holds a value fetched less than ten minutes before
/// `now`.
pub open spec fn is_fresh(c: VersionCacheView, now: u64) -> bool {
    c.value != 0 && elapsed_ns(c.fetched_at, now) < VERSION_TTL_NS
}

/// The cache after a fetch at `now` that gave `fetched`, if it succeeded.
pub open spec fn recorded(c: VersionCacheView, now: u64, fetched: Option<i64>) -> VersionCacheView {
    match fetched {
        Some(v) => VersionCacheView { value: v, fetched_at: now },
        None => c,
    }
}

/// The version returned after a fetch that gave `fetched`: the fetched
/// value, else the cached one, else none (the fetch's error stands).
pub open spec fn version_after_fetch(c: VersionCacheView, fetched: Option<i64>) -> Option<i64> {
    match fetched {
        Some(v) => Some(v),
        None => if c.value != 0 {
            Some(c.value)
        } else {
            None
        },
    }
}

/// The last proxy version and when it was fetched.
#[derive(Debug)]
pub struct VersionCache {
    value: i64,
    fetched_at_ns: u64,
    clock: Clock,
}

impl View for VersionCache {
    type V = VersionCacheView;

    closed spec fn view(&self) -> VersionCacheView {
        VersionCacheView { value: self.value, fetched_at: self.fetched_at_ns }
    }
}

impl VersionCache {
    /// The last reading of the cache's clock.
    pub closed spec fn clock_reading(&self) -> u64 {
        self.clock@
    }

    /// An empty cache with its own clock.
    pub fn new() -> (r: VersionCache)
        ensures
            r@.value == 0,
            r.clock_reading() == 0,
    {
        VersionCache { value: 0, fetched_at_ns: 0, clock: Clock::start() }
    }

    /// The cached version at `now_ns` nanoseconds on the cache's clock, if
    /// it is still fresh.
    pub fn cached_at(&self, now_ns: u64) -> (r: Option<i64>)
        ensures
            r == (if is_fresh(self@, now_ns) {
                Some(self@.value)
            } else {
                None::<i64>
            }),
    {
        let age: u64 = if now_ns > self.fetched_at_ns { now_ns - self.fetched_at_ns } else { 0 };
        if self.value != 0 && age < VERSION_TTL_NS {
            Some(self.value)
        } else {
            None
        }
    }

    /// Records the outcome of a fetch made at `now_ns` nanoseconds on the
    /// cache's clock (`None` when it failed) and returns the version to use,
    /// or `None` when the fetch failed and nothing is cached.
    pub fn record_at(&mut self, now_ns: u64, fetched: Option<i64>) -> (v: Option<i64>)
        ensures
            final(self)@ == recorded(old(self)@, now_ns, fetched),
            v == version_after_fetch(old(self)@, fetched),
            final(self).clock_reading() == old(self).clock_reading(),
    {
        match fetched {
            Some(v) => {
                self.value = v;
                self.fetched_at_ns = now_ns;
                Some(v)
            },
            None => {
                if self.value != 0 {
                    Some(self.value)
                } else {
                    None
                }
            },
        }
    }

    /// The cached version, if it is still fresh at the current time on the
    /// cache's clock, whose reading is no earlier than the previous one.
    pub fn cached(&mut self) -> (r: Option<i64>)
        ensures
            final(self)@ == old(self)@,
            exists|now_ns: u64|
                {
                    &&& now_ns >= old(self).clock_reading()
                    &&& final(self).clock_reading() == now_ns
                    &&& r == (if #[trigger] is_fresh(old(self)@, now_ns) {
                        Some(old(self)@.value)
                    } else {
                        None::<i64>
                    })
                },
            r is Some ==> r == Some(old(self)@.value) && old(self)@.value != 0,
    {
        let now_ns = self.clock.now_ns();
        self.cached_at(now_ns)
    }

    /// Records the outcome of a fetch made now (`None` when it failed), at a
    /// clock reading no earlier than the previous one, and returns the
    /// version to use, or `None` when the fetch failed and nothing is
    /// cached.
    pub fn record(&mut self, fetched: Option<i64>) -> (v: Option<i64>)
        ensures
            exists|now_ns: u64|
                {
                    &&& now_ns >= old(self).clock_reading()
                    &&& final(self).clock_reading() == now_ns
                    &&& final(self)@ == #[trigger] recorded(old(self)@, now_ns, fetched)
                },
            v == version_after_fetch(old(self)@, fetched),
    {
        let now_ns = self.clock.now_ns();
        self.record_at(now_ns, fetched)
    }
}

impl Default for VersionCache {
    fn default() -> (r: VersionCache)
        ensures
            r@.value == 0,
            r.clock_reading() == 0,
    {
        VersionCache::new()
    }
}

/// A version fetched at `fetched_at` is reused at every time less than ten
/// minutes later and fetched again from then on.
pub proof fn lemma_version_reused_for_ttl(c: VersionCacheView, v: i64, fetched_at: u64, now: u64)
    requires
        v != 0,
        fetched_at <= now,
    ensures
        is_fresh(recorded(c, fetched_at, Some(v)), now) <==> now - fetched_at < VERSION_TTL_NS,
        recorded(c, fetched_at, Some(v)).value == v,
{
}

/// A failed refresh keeps the cache as it was and answers with the last
/// version, or with no version (so the fetch's error is reported) when there
/// never was one.
pub proof fn lemma_failed_fetch_keeps_last(c: VersionCacheView, now: u64)
    ensures
        recorded(c, now, None) == c,
        version_after_fetch(c, None) == (if c.value != 0 {
            Some(c.value)
        } else {
            None::<i64>
        }),
{
}

/// After a successful fetch, whatever the cache held, the fetched version is
/// the one returned, and it is cached as fetched at that time.
pub proof fn lemma_successful_fetch_wins(c: VersionCacheView, now: u64, v: i64)
    ensures
        version_after_fetch(c, Some(v)) == Some(v),
        recorded(c, now, Some(v)) == (VersionCacheView { value: v, fetched_at: now }),
{
}

/// The version read from a body is one past the published time it holds;
/// a JSON body without a usable published time gives the fallback; a body
/// that is not JSON, or whose published time has no successor, gives none.
pub proof fn lemma_version_of_body_cases(body: Seq<u8>)
    ensures
        json_i64_member(body, "minPublishedTime"@) matches Some(Some(ts)) ==> (ts < i64::MAX
            ==> version_of_body(body) == Some((ts + 1) as i64)),
        json_i64_member(body, "minPublishedTime"@) == Some(None::<i64>) ==> version_of_body(body)
            == Some(9_999_999_999_999i64),
        json_i64_member(body, "minPublishedTime"@) == None::<Option<i64>> ==> version_of_body(body)
            is None,
        json_i64_member(body, "minPublishedTime"@) == Some(Some(i64::MAX)) ==> version_of_body(
            body,
        ) is None,
{
}

} // verus!
