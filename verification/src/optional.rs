//! The empty-inner guard: a service wrapping zero or one inner service,
//! with a dedicated error when none is configured.

use vstd::prelude::*;
use crate::service::{Readiness, Service};

verus! {

/// The error type of [`Optional`]: either no inner service is configured,
/// or the present inner service failed with an error of its own.
#[derive(Clone, Copy, Debug, PartialEq, Eq)]
pub enum OptionalError<E> {
    /// No inner service is configured; nothing was invoked.
    Absent,
    /// The present inner service failed; its error is carried unchanged.
    Inner(E),
}

/// Optionally forwards requests to an inner service.
///
/// With a present inner service, calls are forwarded and results come back
/// unchanged, with errors widened into [`OptionalError`] so that the
/// guard's error type is the same whether or not an inner service is
/// there. With no inner service — a permanent state for the instance —
/// every call resolves immediately to [`OptionalError::Absent`] and the
/// guard is always ready, since there is nothing to wait on.
#[derive(Clone, Copy, Debug)]
pub struct Optional<T> {
    /// The inner service, if one is configured.
    pub inner: Option<T>,
}

impl<T> Optional<T> {
    /// Create a new [`Optional`] around zero or one inner service.
    pub fn new(inner: Option<T>) -> (s: Self)
        ensures
            s.inner == inner,
    {
        Optional { inner }
    }
}

impl<Req, Resp, E, T> Service<Req, Resp, OptionalError<E>> for Optional<T> where
    T: Service<Req, Resp, E>,
 {
    /// Ready when no inner service is configured, and otherwise exactly
    /// when the inner service is; an inner broken verdict is widened.
    open spec fn readiness_spec(&self) -> Readiness<OptionalError<E>> {
        match self.inner {
            Option::None => Readiness::Ready,
            Option::Some(s) => match s.readiness_spec() {
                Readiness::Ready => Readiness::Ready,
                Readiness::Pending => Readiness::Pending,
                Readiness::Broken(e) => Readiness::Broken(OptionalError::Inner(e)),
            },
        }
    }

    open spec fn polled_rel(pre: Self, post: Self) -> bool {
        match (pre.inner, post.inner) {
            (Option::None, Option::None) => post == pre,
            (Option::Some(a), Option::Some(b)) => T::polled_rel(a, b),
            _ => false,
        }
    }

    /// The inner answer with its error widened, or the absent-inner error
    /// when no inner service is configured, whatever the request.
    open spec fn response_spec(&self, req: Req) -> Result<Resp, OptionalError<E>> {
        match self.inner {
            Option::None => Err(OptionalError::Absent),
            Option::Some(s) => match s.response_spec(req) {
                Ok(v) => Ok(v),
                Err(e) => Err(OptionalError::Inner(e)),
            },
        }
    }

    open spec fn called_rel(pre: Self, req: Req, post: Self) -> bool {
        match (pre.inner, post.inner) {
            (Option::None, Option::None) => post == pre,
            (Option::Some(a), Option::Some(b)) => T::called_rel(a, req, b),
            _ => false,
        }
    }

    fn report_readiness(&mut self) -> (r: Readiness<OptionalError<E>>) {
        match &mut self.inner {
            Option::None => Readiness::Ready,
            Option::Some(s) => match s.report_readiness() {
                Readiness::Ready => Readiness::Ready,
                Readiness::Pending => Readiness::Pending,
                Readiness::Broken(e) => Readiness::Broken(OptionalError::Inner(e)),
            },
        }
    }

    fn call(&mut self, req: Req) -> (r: Result<Resp, OptionalError<E>>) {
        match &mut self.inner {
            Option::None => Err(OptionalError::Absent),
            Option::Some(s) => match s.call(req) {
                Ok(v) => Ok(v),
                Err(e) => Err(OptionalError::Inner(e)),
            },
        }
    }
}

/// Guard law: with no inner service the guard is always ready and every
/// call resolves to the absent-inner error, whatever the request; with a
/// present inner service the result equals the inner service's result,
/// with an error widened into [`OptionalError::Inner`].
pub proof fn lemma_optional_call<Req, Resp, E, T>(o: Optional<T>, req: Req)
    where T: Service<Req, Resp, E>
    ensures
        o.inner is None ==> <Optional<T> as Service<Req, Resp, OptionalError<E>>>::readiness_spec(
            &o,
        ) is Ready,
        match o.inner {
            Option::None => o.response_spec(req) == Err::<Resp, OptionalError<E>>(
                OptionalError::Absent,
            ),
            Option::Some(s) => o.response_spec(req) == (match s.response_spec(req) {
                Ok(v) => Ok::<Resp, OptionalError<E>>(v),
                Err(e) => Err::<Resp, OptionalError<E>>(OptionalError::Inner(e)),
            }),
        },
{
}

} // verus!
