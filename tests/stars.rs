use rayspace::stars::{upstream_count, upstream_url, StarCache, StarError, StarRead, STAR_TTL_MS};

#[test]
fn fresh_cache_is_stale() {
    let c = StarCache::new();
    assert_eq!(c, StarCache { star_count: 0, last_fetched: 0 });
    assert_eq!(c.lookup(1_700_000_000_000), StarRead::Refresh);
}

#[test]
fn reads_within_ttl_are_cached() {
    let mut c = StarCache::new();
    let t = 1_700_000_000_000;
    assert_eq!(c.lookup(t), StarRead::Refresh);
    assert_eq!(c.complete_refresh(t, Ok(12)), Ok(12));
    assert_eq!(c.lookup(t + 1), StarRead::Cached(12));
    assert_eq!(c.lookup(t + STAR_TTL_MS - 1), StarRead::Cached(12));
}

#[test]
fn ttl_boundary_refreshes() {
    let c = StarCache { star_count: 5, last_fetched: 1_000 };
    assert_eq!(c.lookup(1_000 + STAR_TTL_MS), StarRead::Refresh);
    assert_eq!(c.lookup(1_000 + 15 * 60 * 1000 - 1), StarRead::Cached(5));
    assert_eq!(c.lookup(0), StarRead::Cached(5));
}

#[test]
fn failed_refresh_keeps_entry() {
    let mut c = StarCache { star_count: 5, last_fetched: 1_000 };
    let now = 1_000 + 2 * STAR_TTL_MS;
    assert_eq!(c.complete_refresh(now, Err(StarError::Upstream)), Err(StarError::Upstream));
    assert_eq!(c, StarCache { star_count: 5, last_fetched: 1_000 });
    assert_eq!(c.lookup(now + 1), StarRead::Refresh);
    assert_eq!(c.complete_refresh(now + 1, Ok(6)), Ok(6));
    assert_eq!(c.lookup(now + 2), StarRead::Cached(6));
}

#[test]
fn extreme_times_do_not_overflow() {
    let c = StarCache { star_count: 1, last_fetched: i64::MIN };
    assert_eq!(c.lookup(i64::MAX), StarRead::Refresh);
    let d = StarCache { star_count: 1, last_fetched: i64::MAX };
    assert_eq!(d.lookup(i64::MIN), StarRead::Cached(1));
}

#[test]
fn refresh_now_records_count() {
    let mut c = StarCache::new();
    assert_eq!(c.complete_refresh_now(Ok(3)), Ok(3));
    assert_eq!(c.lookup_now(), StarRead::Cached(3));
    assert!(c.last_fetched > 0);
}

#[test]
fn url_names_owner_and_repo() {
    assert_eq!(upstream_url("rx0a", "rayspace.dev"), "https://api.github.com/repos/rx0a/rayspace.dev");
}

#[test]
fn upstream_answers() {
    assert_eq!(upstream_count(200, Some(7)), Ok(7));
    assert_eq!(upstream_count(299, Some(0)), Ok(0));
    assert_eq!(upstream_count(404, Some(7)), Err(StarError::Upstream));
    assert_eq!(upstream_count(199, Some(7)), Err(StarError::Upstream));
    assert_eq!(upstream_count(200, None), Err(StarError::Upstream));
}
