//! Convenience operations built purely from the service contract: waiting
//! for readiness, one-shot calls, and processing a whole sequence of
//! requests. None of them holds state of its own.
//!
//! Waiting is cooperative: a service may answer a readiness report with
//! `Pending` many times before it settles, so every waiting operation takes
//! a `patience` bound on how many reports the caller is willing to make,
//! and says in its contract what happened when the bound ran out.

use vstd::prelude::*;
use crate::service::{Readiness, Service};

verus! {

/// `post` is reachable from `pre` by `n` readiness reports, every one of
/// which left the service pending.
pub open spec fn pending_polls<Req, Resp, E, S: Service<Req, Resp, E>>(
    pre: S,
    post: S,
    n: nat,
) -> bool
    decreases n,
{
    if n == 0 {
        post == pre
    } else {
        exists|mid: S|
            #[trigger] S::polled_rel(pre, mid) && mid.readiness_spec() is Pending
                && pending_polls::<Req, Resp, E, S>(mid, post, (n - 1) as nat)
    }
}

/// A run of pending reports extends by one more report that also left the
/// service pending.
pub proof fn lemma_pending_polls_push<Req, Resp, E, S: Service<Req, Resp, E>>(
    pre: S,
    mid: S,
    post: S,
    n: nat,
)
    requires
        pending_polls::<Req, Resp, E, S>(pre, mid, n),
        S::polled_rel(mid, post),
        post.readiness_spec() is Pending,
    ensures
        pending_polls::<Req, Resp, E, S>(pre, post, n + 1),
    decreases n,
{
    if n == 0 {
        assert(pending_polls::<Req, Resp, E, S>(post, post, 0));
        assert(S::polled_rel(pre, post));
    } else {
        let m1 = choose|m: S|
            #[trigger] S::polled_rel(pre, m) && m.readiness_spec() is Pending
                && pending_polls::<Req, Resp, E, S>(m, mid, (n - 1) as nat);
        lemma_pending_polls_push::<Req, Resp, E, S>(m1, mid, post, (n - 1) as nat);
        assert(pending_polls::<Req, Resp, E, S>(m1, post, n));
        assert(S::polled_rel(pre, m1));
    }
}

/// Ask for readiness until the service settles on `Ready` or `Broken`, or
/// until `patience` reports have all come back `Pending`; the verdict of
/// the last report is returned. This resolves as soon as a report yields
/// ready, and a `Pending` result means the patience ran out.
pub fn ready<Req, Resp, E, S: Service<Req, Resp, E>>(svc: &mut S, patience: u64) -> (r: Readiness<
    E,
>)
    requires
        patience >= 1,
    ensures
        r == final(svc).readiness_spec(),
        exists|k: nat, mid: S|
            #![trigger pending_polls::<Req, Resp, E, S>(*old(svc), mid, k), S::polled_rel(
                mid,
                *final(svc),
            )]
            k < patience && pending_polls::<Req, Resp, E, S>(*old(svc), mid, k) && S::polled_rel(
                mid,
                *final(svc),
            ) && (r is Pending ==> k == patience - 1),
{
    let ghost start = *svc;
    let ghost mut mid = start;
    let mut pends: u64 = 0;
    let mut verdict = svc.report_readiness();
    while matches!(verdict, Readiness::Pending) && pends < patience - 1
        invariant
            patience >= 1,
            pends < patience,
            pending_polls::<Req, Resp, E, S>(start, mid, pends as nat),
            S::polled_rel(mid, *svc),
            verdict == svc.readiness_spec(),
        decreases patience - pends,
    {
        proof {
            lemma_pending_polls_push::<Req, Resp, E, S>(start, mid, *svc, pends as nat);
            mid = *svc;
        }
        pends = pends + 1;
        verdict = svc.report_readiness();
    }
    proof {
        assert(pending_polls::<Req, Resp, E, S>(start, mid, pends as nat));
        assert(S::polled_rel(mid, *svc));
    }
    verdict
}

/// Wait for readiness as [`ready`] does, yielding the service back to the
/// caller together with the verdict it settled on.
pub fn ready_oneshot<Req, Resp, E, S: Service<Req, Resp, E>>(svc: S, patience: u64) -> (r: (
    S,
    Readiness<E>,
))
    requires
        patience >= 1,
    ensures
        r.1 == r.0.readiness_spec(),
        exists|k: nat, mid: S|
            #![trigger pending_polls::<Req, Resp, E, S>(svc, mid, k), S::polled_rel(mid, r.0)]
            k < patience && pending_polls::<Req, Resp, E, S>(svc, mid, k) && S::polled_rel(mid, r.0)
                && (r.1 is Pending ==> k == patience - 1),
{
    let mut s = svc;
    let verdict = ready(&mut s, patience);
    (s, verdict)
}

/// Wait for readiness, make exactly one call, and consume the service.
///
/// `Some` carries the call's result once the service became ready, or the
/// readiness-phase error of a service that settled on `Broken`, which is
/// never called. `None` means the service was still pending after
/// `patience` reports, and no call was made.
pub fn oneshot<Req, Resp, E, S: Service<Req, Resp, E>>(svc: S, req: Req, patience: u64) -> (r:
    Option<Result<Resp, E>>)
    requires
        patience >= 1,
    ensures
        exists|k: nat, mid: S, s2: S|
            #![trigger pending_polls::<Req, Resp, E, S>(svc, mid, k), S::polled_rel(mid, s2)]
            k < patience && pending_polls::<Req, Resp, E, S>(svc, mid, k) && S::polled_rel(mid, s2)
                && match s2.readiness_spec() {
                Readiness::Ready => r == Some(s2.response_spec(req)),
                Readiness::Pending => r == None::<Result<Resp, E>> && k == patience - 1,
                Readiness::Broken(e) => r == Some(Err::<Resp, E>(e)),
            },
{
    let mut s = svc;
    let verdict = ready(&mut s, patience);
    let ghost s2 = s;
    match verdict {
        Readiness::Ready => {
            let out = s.call(req);
            proof {
                let (k, mid) = choose|k: nat, mid: S|
                    #![trigger pending_polls::<Req, Resp, E, S>(svc, mid, k)]
                    k < patience && pending_polls::<Req, Resp, E, S>(svc, mid, k) && S::polled_rel(
                        mid,
                        s2,
                    );
                assert(pending_polls::<Req, Resp, E, S>(svc, mid, k) && S::polled_rel(mid, s2));
            }
            Some(out)
        },
        Readiness::Pending => None,
        Readiness::Broken(e) => Some(Err(e)),
    }
}

/// `post` and the result sequence `res` are what processing `reqs` in
/// order, one call at a time and waiting for readiness before each call
/// with the given patience, can leave behind starting from `pre`.
///
/// Each request in turn is issued once its readiness wait settles on
/// ready, and its result is the next element of `res`. A service that
/// settles on `Broken` contributes that error as the final element and
/// ends the run, its remaining requests never issued; a service still
/// pending after a full patience of reports ends the run with no further
/// element.
pub open spec fn serves<Req, Resp, E, S: Service<Req, Resp, E>>(
    pre: S,
    reqs: Seq<Req>,
    res: Seq<Result<Resp, E>>,
    post: S,
    patience: u64,
) -> bool
    decreases reqs.len(),
{
    if reqs.len() == 0 {
        res.len() == 0 && post == pre
    } else {
        exists|k: nat, mid: S, s2: S|
            #![trigger pending_polls::<Req, Resp, E, S>(pre, mid, k), S::polled_rel(mid, s2)]
            k < patience && pending_polls::<Req, Resp, E, S>(pre, mid, k) && S::polled_rel(mid, s2)
                && match s2.readiness_spec() {
                Readiness::Ready => res.len() >= 1 && res[0] == s2.response_spec(reqs[0]) && (
                exists|s3: S|
                    #[trigger] S::called_rel(s2, reqs[0], s3) && serves::<Req, Resp, E, S>(
                        s3,
                        reqs.drop_first(),
                        res.drop_first(),
                        post,
                        patience,
                    )),
                Readiness::Pending => k == patience - 1 && res.len() == 0 && post == s2,
                Readiness::Broken(e) => res.len() == 1 && res[0] == Err::<Resp, E>(e) && post
                    == s2,
            }
    }
}

/// Process a sequence of requests in order against one service: wait for
/// readiness before each call, make the call, and collect the results in
/// request order, at most one call in flight. The run stops early when the
/// service settles on `Broken` — that error becomes the final result — or
/// when a readiness wait runs out of patience.
pub fn call_all<Req, Resp, E, S: Service<Req, Resp, E>>(
    svc: &mut S,
    reqs: Vec<Req>,
    patience: u64,
) -> (res: Vec<Result<Resp, E>>)
    requires
        patience >= 1,
    ensures
        serves::<Req, Resp, E, S>(*old(svc), reqs@, res@, *final(svc), patience),
    decreases reqs@.len(),
{
    let ghost pre = *svc;
    if reqs.len() == 0 {
        let res: Vec<Result<Resp, E>> = Vec::new();
        return res;
    }
    let ghost reqs0 = reqs@;
    let mut reqs = reqs;
    let verdict = ready(svc, patience);
    let ghost s2 = *svc;
    match verdict {
        Readiness::Ready => {
            let req = reqs.remove(0);
            let r0 = svc.call(req);
            let ghost s3 = *svc;
            let rest = call_all(svc, reqs, patience);
            let ghost rest_seq = rest@;
            let mut res = rest;
            res.insert(0, r0);
            proof {
                let (k, mid) = choose|k: nat, mid: S|
                    #![trigger pending_polls::<Req, Resp, E, S>(pre, mid, k)]
                    k < patience && pending_polls::<Req, Resp, E, S>(pre, mid, k) && S::polled_rel(
                        mid,
                        s2,
                    );
                assert(reqs0.drop_first() =~= reqs0.remove(0));
                assert(res@.drop_first() =~= rest_seq);
                assert(S::called_rel(s2, reqs0[0], s3));
                assert(pending_polls::<Req, Resp, E, S>(pre, mid, k) && S::polled_rel(mid, s2));
            }
            res
        },
        Readiness::Pending => {
            let res: Vec<Result<Resp, E>> = Vec::new();
            res
        },
        Readiness::Broken(e) => {
            let mut res: Vec<Result<Resp, E>> = Vec::new();
            res.push(Err(e));
            res
        },
    }
}

/// Process a sequence of requests as [`call_all`] does, without promising
/// in which order the results come back: the results are, as a bag, those
/// of an in-order run. This implementation keeps at most one call in
/// flight, so its completion order happens to coincide with request order.
pub fn call_all_unordered<Req, Resp, E, S: Service<Req, Resp, E>>(
    svc: &mut S,
    reqs: Vec<Req>,
    patience: u64,
) -> (res: Vec<Result<Resp, E>>)
    requires
        patience >= 1,
    ensures
        exists|ordered: Seq<Result<Resp, E>>|
            #[trigger] serves::<Req, Resp, E, S>(*old(svc), reqs@, ordered, *final(svc), patience)
                && res@.to_multiset() == ordered.to_multiset(),
{
    let res = call_all(svc, reqs, patience);
    proof {
        assert(serves::<Req, Resp, E, S>(*old(svc), reqs@, res@, *final(svc), patience));
    }
    res
}

} // verus!
