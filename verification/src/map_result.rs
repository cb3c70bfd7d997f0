//! The result mapper: applies one function to the whole call result,
//! successful or not, allowing recovery and rejection policies.

use vstd::prelude::*;
use core::marker::PhantomData;
use crate::service::{Readiness, Service};
use crate::transform::{RecoverValue, ResultTransform};

verus! {

/// Wraps a service and maps its whole call result with a
/// [`ResultTransform`], which may turn an error into a success or a success
/// into an error. Readiness is forwarded unchanged, with a readiness-phase
/// error widened into the new error type, since that phase bypasses the
/// transform.
#[derive(Debug)]
pub struct MapResult<S, F, Resp, E> {
    /// The wrapped service.
    pub inner: S,
    /// The transform applied to each call result.
    pub f: F,
    /// The response type of the wrapped service.
    pub _resp: PhantomData<Resp>,
    /// The error type of the wrapped service.
    pub _err: PhantomData<E>,
}

impl<S, F, Resp, E> MapResult<S, F, Resp, E> {
    /// Wrap `inner` so that each call result runs through `f`.
    pub fn new(inner: S, f: F) -> (s: Self)
        ensures
            s.inner == inner,
            s.f == f,
    {
        MapResult { inner, f, _resp: PhantomData, _err: PhantomData }
    }
}

impl<Req, Resp, Resp2, E, E2, S, F> Service<Req, Resp2, E2> for MapResult<S, F, Resp, E> where
    S: Service<Req, Resp, E>,
    F: ResultTransform<Resp, E, Resp2, E2>,
 {
    /// The readiness verdict of the inner service, with a broken verdict's
    /// error widened into the new error type.
    open spec fn readiness_spec(&self) -> Readiness<E2> {
        match self.inner.readiness_spec() {
            Readiness::Ready => Readiness::Ready,
            Readiness::Pending => Readiness::Pending,
            Readiness::Broken(e) => Readiness::Broken(self.f.widen_spec(e)),
        }
    }

    open spec fn polled_rel(pre: Self, post: Self) -> bool {
        &&& post.f == pre.f
        &&& S::polled_rel(pre.inner, post.inner)
    }

    /// The inner answer, mapped through the transform whether it succeeded
    /// or failed.
    open spec fn response_spec(&self, req: Req) -> Result<Resp2, E2> {
        self.f.apply_spec(self.inner.response_spec(req))
    }

    open spec fn called_rel(pre: Self, req: Req, post: Self) -> bool {
        &&& post.f == pre.f
        &&& S::called_rel(pre.inner, req, post.inner)
    }

    fn report_readiness(&mut self) -> (r: Readiness<E2>) {
        match self.inner.report_readiness() {
            Readiness::Ready => Readiness::Ready,
            Readiness::Pending => Readiness::Pending,
            Readiness::Broken(e) => Readiness::Broken(self.f.widen(e)),
        }
    }

    fn call(&mut self, req: Req) -> (r: Result<Resp2, E2>) {
        let inner_result = self.inner.call(req);
        self.f.apply(inner_result)
    }
}

/// Mapping law: a result mapper answers every request with the transform of
/// the inner answer, whether the inner service succeeded or failed.
pub proof fn lemma_map_result<Req, Resp, Resp2, E, E2, S, F>(m: MapResult<S, F, Resp, E>, req: Req)
    where S: Service<Req, Resp, E>, F: ResultTransform<Resp, E, Resp2, E2>
    ensures
        m.inner.readiness_spec() is Ready <==> m.readiness_spec() is Ready,
        m.response_spec(req) == m.f.apply_spec(m.inner.response_spec(req)),
{
}

/// Recovery law: with a transform that turns one specific error into a
/// replacement success, the outer service succeeds exactly where the inner
/// service triggered that error, and every other outcome — success or a
/// different error — passes through unchanged.
pub proof fn lemma_map_result_recovers<Req, S>(m: MapResult<S, RecoverValue, u64, u64>, req: Req)
    where S: Service<Req, u64, u64>
    ensures
        m.inner.response_spec(req) == Err::<u64, u64>(m.f.bad) ==> m.response_spec(req)
            == Ok::<u64, u64>(m.f.replacement),
        match m.inner.response_spec(req) {
            Ok(v) => m.response_spec(req) == Ok::<u64, u64>(v),
            Err(e) => e != m.f.bad ==> m.response_spec(req) == Err::<u64, u64>(e),
        },
{
}

} // verus!
