use vstd::prelude::*;

use crate::date::now_millis;

verus! {

/// How long a fetched star count is served before it is fetched again: fifteen minutes.
pub const STAR_TTL_MS: i64 = 900_000;

/// The cached star count and when it was fetched, in milliseconds since the Unix epoch.
/// The two fields change together.
#[derive(Clone, Copy, Debug, PartialEq, Eq, Structural)]
pub struct StarCache {
    pub star_count: i32,
    pub last_fetched: i64,
}

/// The upstream call failed or its answer could not be read.
#[derive(Clone, Copy, Debug, PartialEq, Eq, Structural)]
pub enum StarError {
    Upstream,
}

/// What a read of the cache asks for.
#[derive(Clone, Copy, Debug, PartialEq, Eq, Structural)]
pub enum StarRead {
    /// Serve this count; no upstream call.
    Cached(i32),
    /// The entry is stale: fetch the count upstream.
    Refresh,
}

/// The entry is younger than the time-to-live at `now`.
pub open spec fn is_fresh(c: StarCache, now: i64) -> bool {
    now - c.last_fetched < STAR_TTL_MS
}

pub open spec fn cached_read(c: StarCache, now: i64) -> StarRead {
    if is_fresh(c, now) {
        StarRead::Cached(c.star_count)
    } else {
        StarRead::Refresh
    }
}

/// The entry after an upstream call at `now`: replaced whole on success, untouched on failure.
pub open spec fn after_refresh(c: StarCache, now: i64, fetched: Result<i32, StarError>) -> StarCache {
    match fetched {
        Ok(v) => StarCache { star_count: v, last_fetched: now },
        Err(_) => c,
    }
}

/// A read at `now` makes an upstream call.
pub open spec fn calls_upstream(c: StarCache, now: i64) -> bool {
    !is_fresh(c, now)
}

/// The entry after a whole read at `now`, where `fetched` is what an upstream call gives.
pub open spec fn read_state(c: StarCache, now: i64, fetched: Result<i32, StarError>) -> StarCache {
    if is_fresh(c, now) {
        c
    } else {
        after_refresh(c, now, fetched)
    }
}

/// What a whole read at `now` returns, where `fetched` is what an upstream call gives.
pub open spec fn read_result(c: StarCache, now: i64, fetched: Result<i32, StarError>) -> Result<
    i32,
    StarError,
> {
    if is_fresh(c, now) {
        Ok(c.star_count)
    } else {
        fetched
    }
}

impl StarCache {
    /// The entry at start: a count of zero, fetched at the epoch, so stale.
    pub fn new() -> (r: StarCache)
        ensures
            r == (StarCache { star_count: 0, last_fetched: 0 }),
    {
        StarCache { star_count: 0, last_fetched: 0 }
    }

    /// The first half of a read at `now`.
    pub fn lookup(&self, now: i64) -> (r: StarRead)
        ensures
            r == cached_read(*self, now),
    {
        if (now as i128) - (self.last_fetched as i128) < STAR_TTL_MS as i128 {
            StarRead::Cached(self.star_count)
        } else {
            StarRead::Refresh
        }
    }

    /// The second half of a read that had to go upstream: records a count fetched at `now`
    /// and returns it, or returns the failure and leaves the entry as it was.
    pub fn complete_refresh(&mut self, now: i64, fetched: Result<i32, StarError>) -> (r: Result<
        i32,
        StarError,
    >)
        ensures
            *final(self) == after_refresh(*old(self), now, fetched),
            r == fetched,
    {
        if let Ok(v) = fetched {
            *self = StarCache { star_count: v, last_fetched: now };
        }
        fetched
    }

    /// The first half of a read at the current time.
    pub fn lookup_now(&self) -> (r: StarRead)
        ensures
            r matches StarRead::Cached(v) ==> v == self.star_count,
    {
        self.lookup(now_millis())
    }

    /// The second half of a read at the current time.
    pub fn complete_refresh_now(&mut self, fetched: Result<i32, StarError>) -> (r: Result<
        i32,
        StarError,
    >)
        ensures
            r == fetched,
            fetched is Ok ==> exists|t: i64| *final(self) == after_refresh(*old(self), t, fetched),
            fetched is Err ==> *final(self) == *old(self),
    {
        self.complete_refresh(now_millis(), fetched)
    }
}

/// The upstream address of a repository's metadata.
pub open spec fn repo_url(owner: Seq<char>, repo: Seq<char>) -> Seq<char> {
    "https://api.github.com/repos/"@ + owner + "/"@ + repo
}

pub fn upstream_url(owner: &str, repo: &str) -> (r: String)
    ensures
        r@ == repo_url(owner@, repo@),
{
    let mut r = String::from_str("https://api.github.com/repos/");
    r.append(owner);
    r.append("/");
    r.append(repo);
    r
}

/// The count that an upstream answer gives: a 2xx status and a body whose
/// `stargazers_count` could be read (`parsed`); anything else is a failure.
pub fn upstream_count(status: u16, parsed: Option<i32>) -> (r: Result<i32, StarError>)
    ensures
        (200 <= status < 300 && parsed is Some) ==> r == Ok::<i32, StarError>(parsed->Some_0),
        !(200 <= status < 300 && parsed is Some) ==> r == Err::<i32, StarError>(
            StarError::Upstream,
        ),
{
    match parsed {
        Some(v) => if 200 <= status && status < 300 {
            Ok(v)
        } else {
            Err(StarError::Upstream)
        },
        None => Err(StarError::Upstream),
    }
}

/// Of two reads, the second made within the time-to-live of the entry that the first
/// left, and the first successful: the second makes no upstream call and returns what the
/// first returned, so the two make at most one upstream call.
pub proof fn lemma_reads_within_ttl(
    c: StarCache,
    t1: i64,
    fetched1: Result<i32, StarError>,
    t2: i64,
    fetched2: Result<i32, StarError>,
)
    requires
        read_result(c, t1, fetched1) is Ok,
        t2 - read_state(c, t1, fetched1).last_fetched < STAR_TTL_MS,
    ensures
        !calls_upstream(read_state(c, t1, fetched1), t2),
        read_result(read_state(c, t1, fetched1), t2, fetched2) == read_result(c, t1, fetched1),
        read_state(read_state(c, t1, fetched1), t2, fetched2) == read_state(c, t1, fetched1),
{
}

/// A read after the time-to-live calls upstream; when the call fails the entry stays as it
/// was, its count kept and still stale, so every later read calls upstream again.
pub proof fn lemma_failed_refresh_keeps_entry(c: StarCache, t1: i64, e: StarError, t2: i64)
    requires
        !is_fresh(c, t1),
        t1 <= t2,
    ensures
        calls_upstream(c, t1),
        read_result(c, t1, Err(e)) == Err::<i32, StarError>(e),
        read_state(c, t1, Err(e)) == c,
        calls_upstream(read_state(c, t1, Err(e)), t2),
{
}

} // verus!
