//! The error mapper: applies a pure function to an error and passes
//! successful responses through unchanged.

use vstd::prelude::*;
use core::marker::PhantomData;
use crate::service::{Readiness, Service};
use crate::transform::Transform;

verus! {

/// Wraps a service and maps its errors with a [`Transform`]; successes are
/// untouched. Readiness is forwarded unchanged, with a readiness-phase
/// error mapped the same way so that it fits the new error type.
#[derive(Debug)]
pub struct MapErr<S, F, E> {
    /// The wrapped service.
    pub inner: S,
    /// The transform applied to each error.
    pub f: F,
    /// The error type of the wrapped service.
    pub _err: PhantomData<E>,
}

impl<S, F, E> MapErr<S, F, E> {
    /// Wrap `inner` so that each error runs through `f`.
    pub fn new(inner: S, f: F) -> (s: Self)
        ensures
            s.inner == inner,
            s.f == f,
    {
        MapErr { inner, f, _err: PhantomData }
    }
}

impl<Req, Resp, E, E2, S, F> Service<Req, Resp, E2> for MapErr<S, F, E> where
    S: Service<Req, Resp, E>,
    F: Transform<E, E2>,
 {
    /// The readiness verdict of the inner service, with a broken verdict's
    /// error mapped through the transform.
    open spec fn readiness_spec(&self) -> Readiness<E2> {
        match self.inner.readiness_spec() {
            Readiness::Ready => Readiness::Ready,
            Readiness::Pending => Readiness::Pending,
            Readiness::Broken(e) => Readiness::Broken(self.f.apply_spec(e)),
        }
    }

    open spec fn polled_rel(pre: Self, post: Self) -> bool {
        &&& post.f == pre.f
        &&& S::polled_rel(pre.inner, post.inner)
    }

    /// The inner answer, with an error mapped through the transform and a
    /// success passed through unchanged.
    open spec fn response_spec(&self, req: Req) -> Result<Resp, E2> {
        match self.inner.response_spec(req) {
            Ok(v) => Ok(v),
            Err(e) => Err(self.f.apply_spec(e)),
        }
    }

    open spec fn called_rel(pre: Self, req: Req, post: Self) -> bool {
        &&& post.f == pre.f
        &&& S::called_rel(pre.inner, req, post.inner)
    }

    fn report_readiness(&mut self) -> (r: Readiness<E2>) {
        match self.inner.report_readiness() {
            Readiness::Ready => Readiness::Ready,
            Readiness::Pending => Readiness::Pending,
            Readiness::Broken(e) => Readiness::Broken(self.f.apply(e)),
        }
    }

    fn call(&mut self, req: Req) -> (r: Result<Resp, E2>) {
        match self.inner.call(req) {
            Ok(v) => Ok(v),
            Err(e) => Err(self.f.apply(e)),
        }
    }
}

/// Mapping law, the dual of the response mapper's: an error mapper turns an
/// inner error `Err(e)` into `Err(f(e))` and hands an inner success on
/// unchanged, for every request.
pub proof fn lemma_map_err<Req, Resp, E, E2, S, F>(m: MapErr<S, F, E>, req: Req)
    where S: Service<Req, Resp, E>, F: Transform<E, E2>
    ensures
        m.inner.readiness_spec() is Ready <==> m.readiness_spec() is Ready,
        match m.inner.response_spec(req) {
            Ok(v) => m.response_spec(req) == Ok::<Resp, E2>(v),
            Err(e) => m.response_spec(req) == Err::<Resp, E2>(m.f.apply_spec(e)),
        },
{
}

} // verus!
