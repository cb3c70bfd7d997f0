//! The continuation chainer: runs a continuation on the whole call result
//! of a service, and the continuation's result becomes the outer result.

use vstd::prelude::*;
use core::marker::PhantomData;
use crate::service::{Readiness, Service};
use crate::transform::Continuation;

verus! {

/// Wraps a service and chains a [`Continuation`] after it: the continuation
/// receives the inner call result, successful or not, and produces the
/// outer result. It is the result mapper's sibling for continuations that
/// carry work of their own, and it supports recovery policies the same way.
/// Readiness is forwarded unchanged, with a readiness-phase error widened
/// into the new error type, since that phase bypasses the continuation.
#[derive(Debug)]
pub struct Chain<S, F, Resp, E> {
    /// The wrapped service.
    pub inner: S,
    /// The continuation run on each call result.
    pub f: F,
    /// The response type of the wrapped service.
    pub _resp: PhantomData<Resp>,
    /// The error type of the wrapped service.
    pub _err: PhantomData<E>,
}

impl<S, F, Resp, E> Chain<S, F, Resp, E> {
    /// Wrap `inner` so that each call result runs through the continuation
    /// `f`.
    pub fn new(inner: S, f: F) -> (s: Self)
        ensures
            s.inner == inner,
            s.f == f,
    {
        Chain { inner, f, _resp: PhantomData, _err: PhantomData }
    }
}

impl<Req, Resp, Resp2, E, E2, S, F> Service<Req, Resp2, E2> for Chain<S, F, Resp, E> where
    S: Service<Req, Resp, E>,
    F: Continuation<Resp, E, Resp2, E2>,
 {
    /// The readiness verdict of the inner service, with a broken verdict's
    /// error widened into the new error type.
    open spec fn readiness_spec(&self) -> Readiness<E2> {
        match self.inner.readiness_spec() {
            Readiness::Ready => Readiness::Ready,
            Readiness::Pending => Readiness::Pending,
            Readiness::Broken(e) => Readiness::Broken(self.f.widen_spec(e)),
        }
    }

    open spec fn polled_rel(pre: Self, post: Self) -> bool {
        &&& post.f == pre.f
        &&& S::polled_rel(pre.inner, post.inner)
    }

    /// The continuation's result on the inner answer.
    open spec fn response_spec(&self, req: Req) -> Result<Resp2, E2> {
        self.f.run_spec(self.inner.response_spec(req))
    }

    open spec fn called_rel(pre: Self, req: Req, post: Self) -> bool {
        &&& post.f == pre.f
        &&& S::called_rel(pre.inner, req, post.inner)
    }

    fn report_readiness(&mut self) -> (r: Readiness<E2>) {
        match self.inner.report_readiness() {
            Readiness::Ready => Readiness::Ready,
            Readiness::Pending => Readiness::Pending,
            Readiness::Broken(e) => Readiness::Broken(self.f.widen(e)),
        }
    }

    fn call(&mut self, req: Req) -> (r: Result<Resp2, E2>) {
        let inner_result = self.inner.call(req);
        self.f.run(inner_result)
    }
}

/// Chaining law: the chainer answers every request with the continuation's
/// result on the inner answer, whether the inner service succeeded or
/// failed.
pub proof fn lemma_chain<Req, Resp, Resp2, E, E2, S, F>(c: Chain<S, F, Resp, E>, req: Req)
    where S: Service<Req, Resp, E>, F: Continuation<Resp, E, Resp2, E2>
    ensures
        c.inner.readiness_spec() is Ready <==> c.readiness_spec() is Ready,
        c.response_spec(req) == c.f.run_spec(c.inner.response_spec(req)),
{
}

} // verus!
