use std::sync::atomic::{AtomicUsize, Ordering};
use std::sync::Arc;

use credential_cache::{TemporaryToken, TimeDelta, Timestamp, TokenCache};

fn ts(secs: i64) -> Timestamp {
    Timestamp::new(secs, 0)
}

fn token(value: &str, expiry: Option<Timestamp>) -> TemporaryToken<Arc<String>> {
    TemporaryToken::new(Arc::new(value.to_string()), expiry)
}

#[test]
fn defaults_are_five_minutes_and_a_tenth_of_a_second() {
    let cache: TokenCache<Arc<String>> = TokenCache::new();
    assert_eq!(cache.min_ttl().num_nanoseconds(), 300_000_000_000);
    assert_eq!(cache.fetch_backoff().num_nanoseconds(), 100_000_000);
    let cache = cache.with_min_ttl(TimeDelta::seconds(60));
    assert_eq!(cache.min_ttl().num_nanoseconds(), 60_000_000_000);
    assert_eq!(cache.fetch_backoff().num_nanoseconds(), 100_000_000);
}

#[test]
fn time_spans_are_exact() {
    assert_eq!(TimeDelta::seconds(2).num_nanoseconds(), 2_000_000_000);
    assert_eq!(TimeDelta::milliseconds(-3).num_nanoseconds(), -3_000_000);
    assert_eq!(TimeDelta::from_parts(-1, -500).num_nanoseconds(), -1_000_000_500);
    assert_eq!(TimeDelta::zero().num_nanoseconds(), 0);
    let a = Timestamp::new(10, 250);
    let b = Timestamp::new(7, 1_000);
    assert_eq!(a.as_nanos(), 10_000_000_250);
    assert_eq!(a.signed_duration_since(&b).num_nanoseconds(), 2_999_999_250);
    assert_eq!(b.signed_duration_since(&a).num_nanoseconds(), -2_999_999_250);
}

#[test]
fn clock_reads_the_current_time() {
    let t = Timestamp::now();
    // 2020-09-13 in seconds since the epoch: any real clock is past it.
    assert!(t.secs > 1_600_000_000);
    assert!(t.nanos < 1_000_000_000);
}

#[test]
fn empty_cache_asks_for_a_refresh() {
    let cache: TokenCache<Arc<String>> = TokenCache::new();
    assert_eq!(cache.lookup(ts(0), ts(0)), None);
    assert_eq!(cache.lookup(ts(1_000_000), ts(1_000_000)), None);
}

#[test]
fn never_expiring_token_reused() {
    let calls = AtomicUsize::new(0);
    let mut cache = TokenCache::new();
    for _ in 0..5 {
        let r: Result<Arc<String>, String> = cache.get_or_insert_with(|| {
            calls.fetch_add(1, Ordering::SeqCst);
            Ok(token("static", None))
        });
        assert_eq!(r.unwrap().as_str(), "static");
    }
    assert_eq!(calls.load(Ordering::SeqCst), 1);
    // at any simulated time, however far off, the token is reused
    for secs in [0, 1_000, 1_000_000_000, i64::MAX] {
        assert_eq!(cache.lookup(ts(secs), ts(secs)).unwrap().as_str(), "static");
    }
}

#[test]
fn ample_ttl_reused() {
    let mut cache = TokenCache::new();
    let now = ts(1_000);
    let fetched: Result<Arc<String>, ()> = cache.finish(Ok(token("t", Some(ts(1_000 + 300 + 1)))), ts(0));
    assert_eq!(fetched.unwrap().as_str(), "t");
    assert_eq!(cache.lookup(now, now).unwrap().as_str(), "t");
    // exactly min_ttl left is not ample, and the backoff has long passed
    assert_eq!(cache.lookup(ts(1_001), ts(1_001)), None);
}

#[test]
fn expiry_triggers_exactly_one_refresh_under_concurrency() {
    let runtime = tokio::runtime::Builder::new_multi_thread()
        .worker_threads(4)
        .build()
        .unwrap();
    let calls = Arc::new(AtomicUsize::new(0));
    let cache = Arc::new(tokio::sync::Mutex::new(TokenCache::new()));
    let results = runtime.block_on(async {
        {
            // prime with a token that has already expired, fetched long ago
            let mut primed = cache.lock().await;
            let r: Result<Arc<String>, String> = primed.finish(Ok(token("old", Some(ts(1)))), ts(0));
            assert_eq!(r.unwrap().as_str(), "old");
        }
        let mut handles = Vec::new();
        for _ in 0..16 {
            let cache = cache.clone();
            let calls = calls.clone();
            handles.push(tokio::spawn(async move {
                let mut locked = cache.lock().await;
                locked.get_or_insert_with(|| -> Result<TemporaryToken<Arc<String>>, String> {
                    calls.fetch_add(1, Ordering::SeqCst);
                    Ok(token("fresh", Some(ts(i64::MAX / 2))))
                })
            }));
        }
        let mut results = Vec::new();
        for h in handles {
            results.push(h.await.unwrap().unwrap());
        }
        results
    });
    assert_eq!(calls.load(Ordering::SeqCst), 1);
    assert_eq!(results.len(), 16);
    for r in &results {
        assert_eq!(r.as_str(), "fresh");
    }
}

#[test]
fn backoff_suppresses_immediate_refresh() {
    let mut cache = TokenCache::new();
    let fetched_at = ts(5_000);
    // the fresh token has ten seconds left: within min_ttl, but not expired
    let r: Result<Arc<String>, ()> = cache.finish(Ok(token("short", Some(ts(5_010)))), fetched_at);
    assert_eq!(r.unwrap().as_str(), "short");
    let within = Timestamp::new(5_000, 50_000_000);
    assert_eq!(cache.lookup(within, within).unwrap().as_str(), "short");
    let just_before = Timestamp::new(5_000, 99_999_999);
    assert_eq!(cache.lookup(just_before, just_before).unwrap().as_str(), "short");
    let at_backoff = Timestamp::new(5_000, 100_000_000);
    assert_eq!(cache.lookup(at_backoff, at_backoff), None);
    let after = Timestamp::new(5_001, 0);
    assert_eq!(cache.lookup(after, after), None);
}

#[test]
fn backoff_never_returns_an_expired_token() {
    let mut cache = TokenCache::new();
    let r: Result<Arc<String>, ()> = cache.finish(Ok(token("gone", Some(ts(100)))), ts(100));
    assert!(r.is_ok());
    // within the backoff window, but no life left at all
    assert_eq!(cache.lookup(ts(100), ts(100)), None);
}

#[test]
fn backoff_measured_from_the_clock_after_locking() {
    let mut cache = TokenCache::new();
    let r: Result<Arc<String>, ()> = cache.finish(Ok(token("t", Some(ts(60)))), ts(0));
    assert!(r.is_ok());
    // the request started within the backoff window but got hold of the cache after it
    assert_eq!(cache.lookup(Timestamp::new(0, 50_000_000), ts(1)), None);
    // and the other way round
    assert_eq!(cache.lookup(ts(1), Timestamp::new(0, 50_000_000)).unwrap().as_str(), "t");
}

#[test]
fn refresh_failure_leaves_cache_untouched() {
    let mut cache = TokenCache::new();
    let r: Result<Arc<String>, String> = cache.finish(Ok(token("expired", Some(ts(1)))), ts(0));
    assert!(r.is_ok());
    let failed: Result<Arc<String>, String> =
        cache.get_or_insert_with(|| Err("callback failed".to_string()));
    assert_eq!(failed, Err("callback failed".to_string()));
    // the old entry is still there, and still due for a refresh
    assert_eq!(cache.lookup(ts(0), ts(1)), None);
    assert_eq!(cache.lookup(ts(0), Timestamp::new(0, 10)).unwrap().as_str(), "expired");
    let calls = AtomicUsize::new(0);
    let ok: Result<Arc<String>, String> = cache.get_or_insert_with(|| {
        calls.fetch_add(1, Ordering::SeqCst);
        Ok(token("renewed", None))
    });
    assert_eq!(ok.unwrap().as_str(), "renewed");
    assert_eq!(calls.load(Ordering::SeqCst), 1);
}

#[test]
fn finish_passes_the_error_through() {
    let mut cache: TokenCache<Arc<String>> = TokenCache::new();
    let r = cache.finish(Err(42u32), ts(3));
    assert_eq!(r, Err(42));
    assert_eq!(cache.lookup(ts(3), ts(3)), None);
}

#[test]
fn clone_isolation() {
    let mut original = TokenCache::new().with_min_ttl(TimeDelta::seconds(10));
    let r: Result<Arc<String>, ()> = original.get_or_insert_with(|| Ok(token("first", None)));
    assert_eq!(r.unwrap().as_str(), "first");
    let mut copy = original.clone();
    assert_eq!(copy.min_ttl().num_nanoseconds(), 10_000_000_000);
    let calls = AtomicUsize::new(0);
    let r: Result<Arc<String>, ()> = copy.get_or_insert_with(|| {
        calls.fetch_add(1, Ordering::SeqCst);
        Ok(token("second", None))
    });
    assert_eq!(r.unwrap().as_str(), "second");
    assert_eq!(calls.load(Ordering::SeqCst), 1);
    assert_eq!(original.lookup(ts(0), ts(0)).unwrap().as_str(), "first");
}

#[test]
fn token_clone_keeps_payload_and_expiry() {
    let t = token("x", Some(Timestamp::new(9, 9)));
    let c = t.clone();
    assert_eq!(c.token.as_str(), "x");
    assert_eq!(c.expiry, Some(Timestamp::new(9, 9)));
}
