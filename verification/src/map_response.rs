//! The response mapper: applies a pure function to a successful response
//! and passes errors through unchanged.

use vstd::prelude::*;
use core::marker::PhantomData;
use crate::service::{Readiness, Service};
use crate::transform::Transform;

verus! {

/// Wraps a service and maps its successful responses with a [`Transform`];
/// errors and the readiness contract of the inner service are untouched.
#[derive(Debug)]
pub struct MapResponse<S, F, Resp> {
    /// The wrapped service.
    pub inner: S,
    /// The transform applied to each successful response.
    pub f: F,
    /// The response type of the wrapped service.
    pub _resp: PhantomData<Resp>,
}

impl<S, F, Resp> MapResponse<S, F, Resp> {
    /// Wrap `inner` so that each successful response runs through `f`.
    pub fn new(inner: S, f: F) -> (s: Self)
        ensures
            s.inner == inner,
            s.f == f,
    {
        MapResponse { inner, f, _resp: PhantomData }
    }
}

impl<Req, Resp, Resp2, E, S, F> Service<Req, Resp2, E> for MapResponse<S, F, Resp> where
    S: Service<Req, Resp, E>,
    F: Transform<Resp, Resp2>,
 {
    /// The readiness verdict of the inner service, unchanged.
    open spec fn readiness_spec(&self) -> Readiness<E> {
        self.inner.readiness_spec()
    }

    open spec fn polled_rel(pre: Self, post: Self) -> bool {
        &&& post.f == pre.f
        &&& S::polled_rel(pre.inner, post.inner)
    }

    /// The inner answer, with a success mapped through the transform and an
    /// error passed through unchanged.
    open spec fn response_spec(&self, req: Req) -> Result<Resp2, E> {
        match self.inner.response_spec(req) {
            Ok(v) => Ok(self.f.apply_spec(v)),
            Err(e) => Err(e),
        }
    }

    open spec fn called_rel(pre: Self, req: Req, post: Self) -> bool {
        &&& post.f == pre.f
        &&& S::called_rel(pre.inner, req, post.inner)
    }

    fn report_readiness(&mut self) -> (r: Readiness<E>) {
        self.inner.report_readiness()
    }

    fn call(&mut self, req: Req) -> (r: Result<Resp2, E>) {
        match self.inner.call(req) {
            Ok(v) => Ok(self.f.apply(v)),
            Err(e) => Err(e),
        }
    }
}

/// Mapping law: a response mapper turns an inner success `Ok(v)` into
/// `Ok(f(v))` and hands an inner error on unchanged, for every request.
pub proof fn lemma_map_response<Req, Resp, Resp2, E, S, F>(m: MapResponse<S, F, Resp>, req: Req)
    where S: Service<Req, Resp, E>, F: Transform<Resp, Resp2>
    ensures
        m.readiness_spec() == m.inner.readiness_spec(),
        match m.inner.response_spec(req) {
            Ok(v) => m.response_spec(req) == Ok::<Resp2, E>(m.f.apply_spec(v)),
            Err(e) => m.response_spec(req) == Err::<Resp2, E>(e),
        },
{
}

} // verus!
