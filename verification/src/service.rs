//! The service contract: a readiness report followed by exactly one call.
//!
//! A service accepts a request and produces a response or an error. Before
//! each call the caller must ask for readiness and observe [`Readiness::Ready`];
//! this two-phase protocol makes backpressure explicit, so wrappers never need
//! a queue of their own.

use vstd::prelude::*;

verus! {

/// The verdict a service gives when asked whether it can accept a request.
#[derive(Clone, Copy, Debug, PartialEq, Eq)]
pub enum Readiness<E> {
    /// The service can accept exactly one request now.
    Ready,
    /// Not yet; ask again later.
    Pending,
    /// The service is permanently broken and must not be asked or called again.
    Broken(E),
}

/// The request-in/result-out capability.
///
/// Every implementation describes itself with four spec functions: the
/// readiness verdict of a state, the result a call on a state returns, and
/// two relations saying how a readiness report and a call may change the
/// state. The two executable methods are pinned to those descriptions, so
/// whatever is proved about a stack of wrappers holds for every
/// implementation.
///
/// A caller must observe [`Readiness::Ready`] from `report_readiness` before
/// each `call`; `call` demands this as a precondition, so a caller that skips
/// the readiness check is rejected outright rather than left with an
/// implementation-defined outcome. A [`Readiness::Broken`] verdict is
/// terminal: nothing obliges such a service to accept a call, and its
/// readiness never has to become `Ready` again.
pub trait Service<Req, Resp, E>: Sized {
    /// The readiness verdict this state reports.
    spec fn readiness_spec(&self) -> Readiness<E>;

    /// How one readiness report may change the state.
    spec fn polled_rel(pre: Self, post: Self) -> bool;

    /// The result a call on this state returns.
    spec fn response_spec(&self, req: Req) -> Result<Resp, E>;

    /// How accepting a request may change the state.
    spec fn called_rel(pre: Self, req: Req, post: Self) -> bool;

    /// Report whether the service can accept a request, advancing its state
    /// by one poll. The verdict describes the state the service is left in.
    fn report_readiness(&mut self) -> (r: Readiness<E>)
        ensures
            Self::polled_rel(*old(self), *final(self)),
            r == final(self).readiness_spec(),
    ;

    /// Accept exactly one request. May only be invoked on a state that
    /// reports `Ready`.
    fn call(&mut self, req: Req) -> (r: Result<Resp, E>)
        requires
            old(self).readiness_spec() is Ready,
        ensures
            r == old(self).response_spec(req),
            Self::called_rel(*old(self), req, *final(self)),
    ;
}

} // verus!
