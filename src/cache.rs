//! The credential cache: one slot, refreshed only when the cached token is
//! close to expiry.
use vstd::prelude::*;

use crate::time::{TimeDelta, Timestamp};
use crate::token::TemporaryToken;

verus! {

/// The abstract state of a [`TokenCache`]: the cached token and the instant
/// it was fetched, plus the two policy spans, in nanoseconds.
pub struct CacheView<T> {
    pub slot: Option<(TemporaryToken<T>, Timestamp)>,
    pub min_ttl: int,
    pub fetch_backoff: int,
}

/// The minimum remaining lifetime used when none is given: 300 seconds.
pub open spec fn default_min_ttl() -> int {
    300_000_000_000
}

/// The refresh backoff used when none is given: 100 milliseconds.
pub open spec fn default_fetch_backoff() -> int {
    100_000_000
}

/// The same cache with its slot emptied.
pub open spec fn cleared<T>(v: CacheView<T>) -> CacheView<T> {
    CacheView { slot: None, ..v }
}

/// The cache after `fresh`, fetched at `fetched_at`, has been stored.
pub open spec fn installed<T>(v: CacheView<T>, fresh: TemporaryToken<T>, fetched_at: Timestamp) -> CacheView<T> {
    CacheView { slot: Some((fresh, fetched_at)), ..v }
}

/// The cache after a refresh that returned `result` at `fetched_at`: a failure
/// leaves it as it was, a success stores the new token.
pub open spec fn after_refresh<T, E>(
    v: CacheView<T>,
    result: Result<TemporaryToken<T>, E>,
    fetched_at: Timestamp,
) -> CacheView<T> {
    match result {
        Ok(fresh) => installed(v, fresh, fetched_at),
        Err(_) => v,
    }
}

/// The token that a request answers from the cache, or `None` when it must
/// refresh. `now` is the clock read as the request starts; `checked_at` is the
/// clock read once the request holds the cache.
///
/// A token without expiry is always reused. One with an expiry is reused when
/// more than `min_ttl` of its life remains, or when it was fetched less than
/// `fetch_backoff` ago and has not yet expired.
pub open spec fn cached_reply<T>(v: CacheView<T>, now: int, checked_at: int) -> Option<T> {
    match v.slot {
        None => None,
        Some((cached, fetched_at)) => match cached.expiry {
            None => Some(cached.token),
            Some(expiry) => {
                if expiry@ - now > v.min_ttl || (checked_at - fetched_at@ < v.fetch_backoff
                    && expiry@ - now > 0) {
                    Some(cached.token)
                } else {
                    None
                }
            },
        },
    }
}

/// The cache holds a token that never expires.
pub open spec fn never_expires<T>(v: CacheView<T>) -> bool {
    v.slot matches Some((cached, _)) && cached.expiry is None
}

/// `r` is what a request returns after a refresh that gave `result`: a clone
/// of the fresh token, or the very same error.
pub open spec fn reply_of<T: Clone, E>(result: Result<TemporaryToken<T>, E>, r: Result<T, E>) -> bool {
    match result {
        Ok(fresh) => r matches Ok(x) && cloned(fresh.token, x),
        Err(e) => r == Err::<T, E>(e),
    }
}

/// The request was answered from the cache: `after` is `before`, and `r` is a
/// clone of the cached token.
pub open spec fn answered_from_cache<T: Clone, E>(
    before: CacheView<T>,
    after: CacheView<T>,
    r: Result<T, E>,
) -> bool {
    &&& after == before
    &&& before.slot matches Some((cached, _))
    &&& r matches Ok(x)
    &&& cloned(before.slot.unwrap().0.token, x)
}

/// The request called `refresh` once: for some outcome of it and some fetch
/// instant, `after` and `r` are what [`after_refresh`] and [`reply_of`] give.
pub open spec fn refreshed_by<T: Clone, E, F: FnOnce() -> Result<TemporaryToken<T>, E>>(
    refresh: F,
    before: CacheView<T>,
    after: CacheView<T>,
    r: Result<T, E>,
) -> bool {
    exists|result: Result<TemporaryToken<T>, E>, fetched_at: Timestamp|
        #![trigger refresh.ensures((), result), after_refresh(before, result, fetched_at)]
        {
            &&& refresh.ensures((), result)
            &&& after == after_refresh(before, result, fetched_at)
            &&& reply_of(result, r)
        }
}

/// At some clock readings since the Unix epoch the cache answers a request
/// from its slot.
pub open spec fn reuse_at_some_time<T>(v: CacheView<T>) -> bool {
    exists|now: int, checked_at: int|
        #![trigger cached_reply(v, now, checked_at)]
        now >= 0 && checked_at >= 0 && cached_reply(v, now, checked_at) is Some
}

/// At some clock readings since the Unix epoch the cache has a refresh due.
pub open spec fn refresh_due_at_some_time<T>(v: CacheView<T>) -> bool {
    exists|now: int, checked_at: int|
        #![trigger cached_reply(v, now, checked_at)]
        now >= 0 && checked_at >= 0 && cached_reply(v, now, checked_at) is None
}

/// A cache of one temporary token.
///
/// [`TokenCache::get_or_insert_with`] takes the cache by `&mut`, so a refresh
/// runs while the request holds the cache exclusively; requests that share one
/// cache put it behind a lock and are served one at a time. Cloning gives an
/// empty cache with the same policy.
#[derive(Debug)]
pub struct TokenCache<T> {
    slot: Option<(TemporaryToken<T>, Timestamp)>,
    min_ttl: TimeDelta,
    fetch_backoff: TimeDelta,
}

impl<T> View for TokenCache<T> {
    type V = CacheView<T>;

    closed spec fn view(&self) -> CacheView<T> {
        CacheView { slot: self.slot, min_ttl: self.min_ttl@, fetch_backoff: self.fetch_backoff@ }
    }
}

impl<T> Default for TokenCache<T> {
    fn default() -> (r: Self)
        ensures
            r@.slot is None,
            r@.min_ttl == default_min_ttl(),
            r@.fetch_backoff == default_fetch_backoff(),
    {
        TokenCache {
            slot: None,
            min_ttl: TimeDelta::seconds(300),
            fetch_backoff: TimeDelta::milliseconds(100),
        }
    }
}

impl<T> Clone for TokenCache<T> {
    /// Cloning does not copy the cached token: the clone starts empty.
    fn clone(&self) -> (r: Self)
        ensures
            r@ == cleared(self@),
    {
        TokenCache { slot: None, min_ttl: self.min_ttl, fetch_backoff: self.fetch_backoff }
    }
}

impl<T: Clone> TokenCache<T> {
    /// An empty cache with the default policy.
    pub fn new() -> (r: Self)
        ensures
            r@.slot is None,
            r@.min_ttl == default_min_ttl(),
            r@.fetch_backoff == default_fetch_backoff(),
    {
        Self::default()
    }

    /// The same cache with the minimum remaining lifetime set to `min_ttl`.
    pub fn with_min_ttl(self, min_ttl: TimeDelta) -> (r: Self)
        ensures
            r@ == (CacheView { min_ttl: min_ttl@, ..self@ }),
    {
        TokenCache { min_ttl, ..self }
    }

    /// The minimum remaining lifetime for a cached token to be reused.
    pub fn min_ttl(&self) -> (r: TimeDelta)
        ensures
            r@ == self@.min_ttl,
    {
        self.min_ttl
    }

    /// How long after a fetch a token close to expiry is still reused.
    pub fn fetch_backoff(&self) -> (r: TimeDelta)
        ensures
            r@ == self@.fetch_backoff,
    {
        self.fetch_backoff
    }

    /// A clone of the cached token when the request may be answered from the
    /// cache (see [`cached_reply`]), `None` when a refresh is due.
    pub fn lookup(&self, now: Timestamp, checked_at: Timestamp) -> (r: Option<T>)
        ensures
            match cached_reply(self@, now@, checked_at@) {
                None => r is None,
                Some(t) => r matches Some(x) && cloned(t, x),
            },
    {
        match &self.slot {
            None => None,
            Some((cached, fetched_at)) => match &cached.expiry {
                None => Some(cached.token.clone()),
                Some(expiry) => {
                    let remaining = expiry.signed_duration_since(&now);
                    let since_fetch = checked_at.signed_duration_since(fetched_at);
                    if remaining.nanos > self.min_ttl.nanos || (since_fetch.nanos
                        < self.fetch_backoff.nanos && remaining.nanos > 0) {
                        Some(cached.token.clone())
                    } else {
                        None
                    }
                },
            },
        }
    }

    /// Records the outcome of a refresh finished at `fetched_at`. A fresh token
    /// replaces the slot and a clone of it is returned; an error is returned
    /// as it came and leaves the cache unchanged.
    pub fn finish<E>(&mut self, result: Result<TemporaryToken<T>, E>, fetched_at: Timestamp) -> (r: Result<T, E>)
        ensures
            final(self)@ == after_refresh(old(self)@, result, fetched_at),
            reply_of(result, r),
    {
        match result {
            Ok(fresh) => {
                let token = fresh.token.clone();
                self.slot = Some((fresh, fetched_at));
                Ok(token)
            },
            Err(e) => Err(e),
        }
    }

    /// Answers a request: reads the clock, then returns a clone of the cached
    /// token when it may be reused, and otherwise calls `refresh` once and
    /// records its outcome (see [`TokenCache::finish`]).
    ///
    /// A token without expiry is always reused and `refresh` is not called; on
    /// an empty cache `refresh` is always called. An error is the one that
    /// `refresh` returned, and leaves the cache as it was.
    pub fn get_or_insert_with<F, E>(&mut self, refresh: F) -> (r: Result<T, E>)
        where
            F: FnOnce() -> Result<TemporaryToken<T>, E>,
        requires
            refresh.requires(()),
        ensures
            // answered from the slot, where `cached_reply` allows that at the
            // clock's readings, or refreshed, where it does not
            answered_from_cache(old(self)@, final(self)@, r) && reuse_at_some_time(old(self)@)
                || refreshed_by(refresh, old(self)@, final(self)@, r) && refresh_due_at_some_time(
                old(self)@,
            ),
            never_expires(old(self)@) ==> answered_from_cache(old(self)@, final(self)@, r),
            old(self)@.slot is None ==> refreshed_by(refresh, old(self)@, final(self)@, r),
    {
        let now = Timestamp::now();
        let checked_at = Timestamp::now();
        match self.lookup(now, checked_at) {
            Some(token) => {
                assert(cached_reply(self@, now@, checked_at@) is Some);
                Ok(token)
            },
            None => {
                assert(cached_reply(self@, now@, checked_at@) is None);
                let result = refresh();
                let fetched_at = Timestamp::now();
                self.finish(result, fetched_at)
            },
        }
    }
}

} // verus!
