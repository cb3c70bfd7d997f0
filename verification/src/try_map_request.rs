//! The fallible request mapper: composes a function in front of a service
//! that may reject the request outright.

use vstd::prelude::*;
use core::marker::PhantomData;
use crate::service::{Readiness, Service};
use crate::transform::TryTransform;

verus! {

/// Wraps a service and passes each request through a [`TryTransform`]. On
/// success the transformed request is forwarded; on rejection the call
/// resolves immediately to the rejection error and the inner service is not
/// invoked. The rejection error has the inner service's own error type.
#[derive(Debug)]
pub struct TryMapRequest<S, F, Req> {
    /// The wrapped service.
    pub inner: S,
    /// The fallible transform applied to each request.
    pub f: F,
    /// The request type of the wrapped service.
    pub _req: PhantomData<Req>,
}

impl<S, F, Req> TryMapRequest<S, F, Req> {
    /// Wrap `inner` so that each request runs through `f` first.
    pub fn new(inner: S, f: F) -> (s: Self)
        ensures
            s.inner == inner,
            s.f == f,
    {
        TryMapRequest { inner, f, _req: PhantomData }
    }
}

impl<Req2, Req, Resp, E, S, F> Service<Req2, Resp, E> for TryMapRequest<S, F, Req> where
    S: Service<Req, Resp, E>,
    F: TryTransform<Req2, Req, E>,
 {
    /// The readiness verdict of the inner service, unchanged.
    open spec fn readiness_spec(&self) -> Readiness<E> {
        self.inner.readiness_spec()
    }

    open spec fn polled_rel(pre: Self, post: Self) -> bool {
        &&& post.f == pre.f
        &&& S::polled_rel(pre.inner, post.inner)
    }

    /// The inner answer to the transformed request, or the rejection error
    /// when the transform refuses the request.
    open spec fn response_spec(&self, req: Req2) -> Result<Resp, E> {
        match self.f.apply_spec(req) {
            Ok(q) => self.inner.response_spec(q),
            Err(e) => Err(e),
        }
    }

    /// The inner service accepts the transformed request, or is left
    /// untouched when the transform rejects it.
    open spec fn called_rel(pre: Self, req: Req2, post: Self) -> bool {
        &&& post.f == pre.f
        &&& match pre.f.apply_spec(req) {
            Ok(q) => S::called_rel(pre.inner, q, post.inner),
            Err(e) => post.inner == pre.inner,
        }
    }

    fn report_readiness(&mut self) -> (r: Readiness<E>) {
        self.inner.report_readiness()
    }

    fn call(&mut self, req: Req2) -> (r: Result<Resp, E>) {
        match self.f.apply(req) {
            Ok(q) => self.inner.call(q),
            Err(e) => Err(e),
        }
    }
}

/// Mapping law: a fallible request mapper answers `req` as the inner
/// service answers the transformed request, and resolves to the rejection
/// error without touching the inner service when the transform refuses.
pub proof fn lemma_try_map_request<Req2, Req, Resp, E, S, F>(m: TryMapRequest<S, F, Req>, req: Req2)
    where S: Service<Req, Resp, E>, F: TryTransform<Req2, Req, E>
    ensures
        m.readiness_spec() == m.inner.readiness_spec(),
        match m.f.apply_spec(req) {
            Ok(q) => m.response_spec(req) == m.inner.response_spec(q),
            Err(e) => m.response_spec(req) == Err::<Resp, E>(e),
        },
{
}

} // verus!
