//! Leaf services: self-contained implementations of the service contract
//! that stand at the bottom of a stack of wrappers.

use vstd::prelude::*;
use crate::service::{Readiness, Service};
use crate::ext::{pending_polls, serves};

verus! {

/// A service that is always ready and answers every request with the same
/// value.
#[derive(Clone, Copy, Debug, PartialEq, Eq)]
pub struct ConstService<T> {
    pub value: T,
}

impl<T> ConstService<T> {
    /// Make a service that always answers `value`.
    pub fn new(value: T) -> (s: Self)
        ensures
            s.value == value,
    {
        ConstService { value }
    }
}

impl<Req, T: Copy, E> Service<Req, T, E> for ConstService<T> {
    open spec fn readiness_spec(&self) -> Readiness<E> {
        Readiness::Ready
    }

    open spec fn polled_rel(pre: Self, post: Self) -> bool {
        post == pre
    }

    open spec fn response_spec(&self, req: Req) -> Result<T, E> {
        Ok(self.value)
    }

    open spec fn called_rel(pre: Self, req: Req, post: Self) -> bool {
        post == pre
    }

    fn report_readiness(&mut self) -> (r: Readiness<E>) {
        Readiness::Ready
    }

    fn call(&mut self, req: Req) -> (r: Result<T, E>) {
        Ok(self.value)
    }
}

/// A service that answers every request with the request itself, after a
/// per-call number of pending readiness reports — variable latency made
/// explicit in the readiness protocol.
#[derive(Debug)]
pub struct EchoService {
    /// Readiness reports still owed before the next call can be accepted.
    pub remaining: u64,
    /// The latencies of the calls after the next one, front first; a call
    /// beyond the list is owed no reports.
    pub delays: Vec<u64>,
}

impl EchoService {
    /// Make an echo service that owes `first_delay` reports before its
    /// first call, and one entry of `delays` before each later call.
    pub fn new(first_delay: u64, delays: Vec<u64>) -> (s: Self)
        ensures
            s.remaining == first_delay,
            s.delays == delays,
    {
        EchoService { remaining: first_delay, delays }
    }
}

impl<T, E> Service<T, T, E> for EchoService {
    open spec fn readiness_spec(&self) -> Readiness<E> {
        if self.remaining == 0 {
            Readiness::Ready
        } else {
            Readiness::Pending
        }
    }

    open spec fn polled_rel(pre: Self, post: Self) -> bool {
        &&& post.delays@ == pre.delays@
        &&& post.remaining == if pre.remaining > 0 {
            (pre.remaining - 1) as u64
        } else {
            0u64
        }
    }

    /// The echo: every request is answered with itself.
    open spec fn response_spec(&self, req: T) -> Result<T, E> {
        Ok(req)
    }

    open spec fn called_rel(pre: Self, req: T, post: Self) -> bool {
        if pre.delays@.len() > 0 {
            post.remaining == pre.delays@[0] && post.delays@ == pre.delays@.drop_first()
        } else {
            post.remaining == 0 && post.delays@ == pre.delays@
        }
    }

    fn report_readiness(&mut self) -> (r: Readiness<E>) {
        if self.remaining > 0 {
            self.remaining = self.remaining - 1;
        }
        if self.remaining == 0 {
            Readiness::Ready
        } else {
            Readiness::Pending
        }
    }

    fn call(&mut self, req: T) -> (r: Result<T, E>) {
        if self.delays.len() > 0 {
            self.remaining = self.delays.remove(0);
        } else {
            self.remaining = 0;
        }
        Ok(req)
    }
}

/// A service that hands out a fixed list of results, front first: ready
/// while the list is not exhausted, pending forever afterwards.
#[derive(Debug)]
pub struct ScriptedService<T, E> {
    /// The results still to hand out.
    pub script: Vec<Result<T, E>>,
}

impl<T, E> ScriptedService<T, E> {
    /// Make a service that answers its calls with `script`, in order.
    pub fn new(script: Vec<Result<T, E>>) -> (s: Self)
        ensures
            s.script == script,
    {
        ScriptedService { script }
    }
}

impl<Req, T, E> Service<Req, T, E> for ScriptedService<T, E> {
    open spec fn readiness_spec(&self) -> Readiness<E> {
        if self.script@.len() > 0 {
            Readiness::Ready
        } else {
            Readiness::Pending
        }
    }

    open spec fn polled_rel(pre: Self, post: Self) -> bool {
        post == pre
    }

    /// The front of the script; which request arrives makes no difference.
    open spec fn response_spec(&self, req: Req) -> Result<T, E> {
        if self.script@.len() > 0 {
            self.script@[0]
        } else {
            arbitrary()
        }
    }

    open spec fn called_rel(pre: Self, req: Req, post: Self) -> bool {
        if pre.script@.len() > 0 {
            post.script@ == pre.script@.drop_first()
        } else {
            post == pre
        }
    }

    fn report_readiness(&mut self) -> (r: Readiness<E>) {
        if self.script.len() > 0 {
            Readiness::Ready
        } else {
            Readiness::Pending
        }
    }

    fn call(&mut self, req: Req) -> (r: Result<T, E>) {
        self.script.remove(0)
    }
}

/// After any run of pending readiness reports, an echo service still owes
/// the same later latencies, and the reports it made came off its current
/// countdown one by one.
proof fn lemma_echo_pending_polls<T, E>(pre: EchoService, mid: EchoService, k: nat)
    requires
        pending_polls::<T, T, E, EchoService>(pre, mid, k),
    ensures
        mid.delays@ == pre.delays@,
        k <= pre.remaining,
        mid.remaining == pre.remaining - k,
        k > 0 ==> mid.remaining > 0,
    decreases k,
{
    if k > 0 {
        let m = choose|m: EchoService|
            #[trigger] <EchoService as Service<T, T, E>>::polled_rel(pre, m)
                && (<EchoService as Service<T, T, E>>::readiness_spec(&m)) is Pending
                && pending_polls::<T, T, E, EchoService>(m, mid, (k - 1) as nat);
        lemma_echo_pending_polls::<T, E>(m, mid, (k - 1) as nat);
    }
}

/// Ordered stream processing against an echo service: however the per-call
/// latencies vary, as long as each fits within the caller's patience, the
/// results come back as exactly the requests, in request order.
pub proof fn lemma_echo_serves_in_order<T, E>(
    pre: EchoService,
    reqs: Seq<T>,
    res: Seq<Result<T, E>>,
    post: EchoService,
    patience: u64,
)
    requires
        serves::<T, T, E, EchoService>(pre, reqs, res, post, patience),
        pre.remaining < patience,
        forall|i: int| 0 <= i < pre.delays@.len() ==> #[trigger] pre.delays@[i] < patience,
    ensures
        res.len() == reqs.len(),
        forall|i: int| 0 <= i < reqs.len() ==> res[i] == Ok::<T, E>(reqs[i]),
    decreases reqs.len(),
{
    if reqs.len() > 0 {
        let (k, mid, s2) = choose|k: nat, mid: EchoService, s2: EchoService|
            #![trigger pending_polls::<T, T, E, EchoService>(pre, mid, k),
                <EchoService as Service<T, T, E>>::polled_rel(mid, s2)]
            k < patience && pending_polls::<T, T, E, EchoService>(pre, mid, k)
                && <EchoService as Service<T, T, E>>::polled_rel(mid, s2)
                && match <EchoService as Service<T, T, E>>::readiness_spec(&s2) {
                Readiness::Ready => res.len() >= 1 && res[0]
                    == <EchoService as Service<T, T, E>>::response_spec(&s2, reqs[0]) && (
                exists|s3: EchoService|
                    #[trigger] <EchoService as Service<T, T, E>>::called_rel(s2, reqs[0], s3)
                        && serves::<T, T, E, EchoService>(
                        s3,
                        reqs.drop_first(),
                        res.drop_first(),
                        post,
                        patience,
                    )),
                Readiness::Pending => k == patience - 1 && res.len() == 0 && post == s2,
                Readiness::Broken(e) => res.len() == 1 && res[0] == Err::<T, E>(e) && post == s2,
            };
        lemma_echo_pending_polls::<T, E>(pre, mid, k);
        assert(<EchoService as Service<T, T, E>>::readiness_spec(&s2) is Ready);
        let s3 = choose|s3: EchoService|
            #[trigger] <EchoService as Service<T, T, E>>::called_rel(s2, reqs[0], s3)
                && serves::<T, T, E, EchoService>(
                s3,
                reqs.drop_first(),
                res.drop_first(),
                post,
                patience,
            );
        assert(s3.remaining < patience);
        assert forall|i: int| 0 <= i < s3.delays@.len() implies #[trigger] s3.delays@[i]
            < patience by {
            assert(s3.delays@[i] == pre.delays@[i + 1]);
        }
        lemma_echo_serves_in_order::<T, E>(s3, reqs.drop_first(), res.drop_first(), post, patience);
        assert forall|i: int| 0 <= i < reqs.len() implies res[i] == Ok::<T, E>(reqs[i]) by {
            if i > 0 {
                assert(res.drop_first()[i - 1] == res[i]);
                assert(reqs.drop_first()[i - 1] == reqs[i]);
            }
        }
    }
}

} // verus!
