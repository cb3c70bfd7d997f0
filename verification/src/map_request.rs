//! The request mapper: composes a pure function in front of a service.

use vstd::prelude::*;
use core::marker::PhantomData;
use crate::service::{Readiness, Service};
use crate::transform::Transform;

verus! {

/// Wraps a service and passes each request through a [`Transform`] before
/// forwarding it; results and the readiness contract of the inner service
/// are untouched.
#[derive(Debug)]
pub struct MapRequest<S, F, Req> {
    /// The wrapped service.
    pub inner: S,
    /// The transform applied to each request before it is forwarded.
    pub f: F,
    /// The request type of the wrapped service.
    pub _req: PhantomData<Req>,
}

impl<S, F, Req> MapRequest<S, F, Req> {
    /// Wrap `inner` so that each request runs through `f` first.
    pub fn new(inner: S, f: F) -> (s: Self)
        ensures
            s.inner == inner,
            s.f == f,
    {
        MapRequest { inner, f, _req: PhantomData }
    }
}

impl<Req2, Req, Resp, E, S, F> Service<Req2, Resp, E> for MapRequest<S, F, Req> where
    S: Service<Req, Resp, E>,
    F: Transform<Req2, Req>,
 {
    /// The readiness verdict of the inner service, unchanged.
    open spec fn readiness_spec(&self) -> Readiness<E> {
        self.inner.readiness_spec()
    }

    open spec fn polled_rel(pre: Self, post: Self) -> bool {
        &&& post.f == pre.f
        &&& S::polled_rel(pre.inner, post.inner)
    }

    /// The inner answer to the transformed request.
    open spec fn response_spec(&self, req: Req2) -> Result<Resp, E> {
        self.inner.response_spec(self.f.apply_spec(req))
    }

    open spec fn called_rel(pre: Self, req: Req2, post: Self) -> bool {
        &&& post.f == pre.f
        &&& S::called_rel(pre.inner, pre.f.apply_spec(req), post.inner)
    }

    fn report_readiness(&mut self) -> (r: Readiness<E>) {
        self.inner.report_readiness()
    }

    fn call(&mut self, req: Req2) -> (r: Result<Resp, E>) {
        let q = self.f.apply(req);
        self.inner.call(q)
    }
}

/// Mapping law: a request mapper answers `req` exactly as the inner
/// service answers `f(req)`.
pub proof fn lemma_map_request<Req2, Req, Resp, E, S, F>(m: MapRequest<S, F, Req>, req: Req2)
    where S: Service<Req, Resp, E>, F: Transform<Req2, Req>
    ensures
        m.readiness_spec() == m.inner.readiness_spec(),
        m.response_spec(req) == m.inner.response_spec(m.f.apply_spec(req)),
{
}

} // verus!
