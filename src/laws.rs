//! Properties of the cache policy, stated over [`cached_reply`] and the state
//! changes that [`TokenCache`](crate::cache::TokenCache)'s methods promise.
use vstd::prelude::*;

use crate::cache::{after_refresh, cached_reply, cleared, installed, CacheView};
use crate::time::Timestamp;
use crate::token::TemporaryToken;

verus! {

/// One request as the clock saw it: when it started, when it got hold of the
/// cache, and when the refresh it made (if any) finished.
pub struct Request {
    pub now: Timestamp,
    pub checked_at: Timestamp,
    pub fetched_at: Timestamp,
}

/// Serving one request whose refresh would return `fresh`: the cache after it,
/// whether it refreshed, and the token it handed out.
pub open spec fn serve_one<T>(v: CacheView<T>, req: Request, fresh: TemporaryToken<T>) -> (
    CacheView<T>,
    bool,
    T,
) {
    match cached_reply(v, req.now@, req.checked_at@) {
        Some(t) => (v, false, t),
        None => (installed(v, fresh, req.fetched_at), true, fresh.token),
    }
}

/// Serving `reqs` one after another, as the cache's exclusive access orders
/// them, each refresh returning `fresh`: the cache after the last, how many
/// refreshes were made, and the token each request handed out.
pub open spec fn serve_all<T>(v: CacheView<T>, reqs: Seq<Request>, fresh: TemporaryToken<T>) -> (
    CacheView<T>,
    nat,
    Seq<T>,
)
    decreases reqs.len(),
{
    if reqs.len() == 0 {
        (v, 0, Seq::empty())
    } else {
        let (v1, refreshed, t) = serve_one(v, reqs[0], fresh);
        let (vn, n, ts) = serve_all(v1, reqs.drop_first(), fresh);
        (vn, n + if refreshed {
            1nat
        } else {
            0nat
        }, seq![t] + ts)
    }
}

/// While every request may be answered with the cached token, serving them
/// refreshes nothing, leaves the cache as it is, and hands out that token.
proof fn lemma_reusable_requests<T>(
    v: CacheView<T>,
    reqs: Seq<Request>,
    fresh: TemporaryToken<T>,
    token: T,
)
    requires
        forall|i: int| 0 <= i < reqs.len() ==> cached_reply(v, #[trigger] reqs[i].now@, reqs[i].checked_at@) == Some(token),
    ensures
        serve_all(v, reqs, fresh) == (v, 0nat, Seq::new(reqs.len(), |i: int| token)),
    decreases reqs.len(),
{
    if reqs.len() > 0 {
        let rest = reqs.drop_first();
        assert(forall|i: int| 0 <= i < rest.len() ==> #[trigger] rest[i] == reqs[i + 1]);
        lemma_reusable_requests(v, rest, fresh, token);
        assert(seq![token] + Seq::new(rest.len(), |i: int| token) =~= Seq::new(
            reqs.len(),
            |i: int| token,
        ));
    }
}

/// A cache holding a token that never expires answers every request, at any
/// time, with that token and never refreshes.
pub proof fn lemma_never_expiring_token_reused<T>(
    v: CacheView<T>,
    reqs: Seq<Request>,
    fresh: TemporaryToken<T>,
)
    requires
        v.slot matches Some((cached, _)) && cached.expiry is None,
    ensures
        serve_all(v, reqs, fresh) == (v, 0nat, Seq::new(reqs.len(), |i: int| v.slot.unwrap().0.token)),
{
    lemma_reusable_requests(v, reqs, fresh, v.slot.unwrap().0.token);
}

/// A cached token with more than `min_ttl` of its life left at the start of a
/// request is reused.
pub proof fn lemma_ample_ttl_reused<T>(v: CacheView<T>, now: Timestamp, checked_at: Timestamp)
    requires
        v.slot matches Some((cached, _)) && cached.expiry matches Some(expiry) && expiry@ - now@
            > v.min_ttl,
    ensures
        cached_reply(v, now@, checked_at@) == Some(v.slot.unwrap().0.token),
{
}

/// When the first of a queue of requests finds a refresh due, and the token
/// that the refresh returns has more than `min_ttl` of its life left for every
/// request of the queue (or never expires), exactly one refresh is made and
/// every request hands out the fresh token.
pub proof fn lemma_one_refresh_per_expiry<T>(
    v: CacheView<T>,
    reqs: Seq<Request>,
    fresh: TemporaryToken<T>,
)
    requires
        reqs.len() >= 1,
        cached_reply(v, reqs[0].now@, reqs[0].checked_at@) is None,
        forall|i: int|
            0 <= i < reqs.len() ==> (fresh.expiry matches Some(expiry) ==> expiry@ - (
            #[trigger] reqs[i]).now@ > v.min_ttl),
    ensures
        serve_all(v, reqs, fresh).0 == installed(v, fresh, reqs[0].fetched_at),
        serve_all(v, reqs, fresh).1 == 1,
        serve_all(v, reqs, fresh).2 == Seq::new(reqs.len(), |i: int| fresh.token),
{
    let w = installed(v, fresh, reqs[0].fetched_at);
    let rest = reqs.drop_first();
    assert forall|i: int| 0 <= i < rest.len() implies cached_reply(
        w,
        #[trigger] rest[i].now@,
        rest[i].checked_at@,
    ) == Some(fresh.token) by {
        assert(rest[i] == reqs[i + 1]);
    }
    lemma_reusable_requests(w, rest, fresh, fresh.token);
    assert(seq![fresh.token] + Seq::new(rest.len(), |i: int| fresh.token) =~= Seq::new(
        reqs.len(),
        |i: int| fresh.token,
    ));
}

/// A stored token that has at most `min_ttl` but some of its life left is
/// reused while less than `fetch_backoff` has passed since it was fetched,
/// and refreshed once that much has passed.
pub proof fn lemma_backoff_window<T>(
    v: CacheView<T>,
    fresh: TemporaryToken<T>,
    fetched_at: Timestamp,
    now: Timestamp,
    checked_at: Timestamp,
)
    requires
        fresh.expiry matches Some(expiry) && 0 < expiry@ - now@ <= v.min_ttl,
    ensures
        checked_at@ - fetched_at@ < v.fetch_backoff ==> cached_reply(
            installed(v, fresh, fetched_at),
            now@,
            checked_at@,
        ) == Some(fresh.token),
        checked_at@ - fetched_at@ >= v.fetch_backoff ==> cached_reply(
            installed(v, fresh, fetched_at),
            now@,
            checked_at@,
        ) is None,
{
}

/// Once a refresh is due it stays due for every later request, as long as the
/// cache is not changed.
pub proof fn lemma_refresh_stays_due<T>(
    v: CacheView<T>,
    now: Timestamp,
    checked_at: Timestamp,
    later_now: Timestamp,
    later_checked_at: Timestamp,
)
    requires
        cached_reply(v, now@, checked_at@) is None,
        now@ <= later_now@,
        checked_at@ <= later_checked_at@,
    ensures
        cached_reply(v, later_now@, later_checked_at@) is None,
{
}

/// A failed refresh leaves the cache as it was: a later request still finds
/// the refresh due, and when that refresh succeeds its token is stored.
pub proof fn lemma_failed_refresh_retried<T, E>(
    v: CacheView<T>,
    err: E,
    failed_at: Timestamp,
    now: Timestamp,
    checked_at: Timestamp,
    later_now: Timestamp,
    later_checked_at: Timestamp,
    fresh: TemporaryToken<T>,
    fetched_at: Timestamp,
)
    requires
        cached_reply(v, now@, checked_at@) is None,
        now@ <= later_now@,
        checked_at@ <= later_checked_at@,
    ensures
        after_refresh(v, Err::<TemporaryToken<T>, E>(err), failed_at) == v,
        cached_reply(
            after_refresh(v, Err::<TemporaryToken<T>, E>(err), failed_at),
            later_now@,
            later_checked_at@,
        ) is None,
        after_refresh(
            after_refresh(v, Err::<TemporaryToken<T>, E>(err), failed_at),
            Ok::<TemporaryToken<T>, E>(fresh),
            fetched_at,
        ) == installed(v, fresh, fetched_at),
{
    lemma_refresh_stays_due(v, now, checked_at, later_now, later_checked_at);
}

/// A clone starts empty, so its first request refreshes whatever the original
/// holds.
pub proof fn lemma_clone_refreshes<T>(v: CacheView<T>, now: Timestamp, checked_at: Timestamp)
    ensures
        cached_reply(cleared(v), now@, checked_at@) is None,
{
}

} // verus!
