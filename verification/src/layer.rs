//! The layer abstraction: a pure transform from one service to another,
//! used to build middleware stacks.

use vstd::prelude::*;

verus! {

/// A pure, synchronous transform that wraps one service to produce
/// another; it holds no runtime state of its own beyond its configuration.
pub trait Layer<S, Out> {
    /// The service this layer turns `inner` into.
    spec fn apply_spec(&self, inner: S) -> Out;

    /// Wrap `inner`.
    fn apply(&self, inner: S) -> (out: Out)
        ensures
            out == self.apply_spec(inner),
    ;
}

/// The layer that returns its service unchanged, the unit for combining
/// layers.
#[derive(Clone, Copy, Debug, PartialEq, Eq)]
pub struct Identity;

impl Identity {
    /// Make the identity layer.
    pub fn new() -> (l: Self)
        ensures
            l == Identity,
    {
        Identity
    }
}

impl<S> Layer<S, S> for Identity {
    open spec fn apply_spec(&self, inner: S) -> S {
        inner
    }

    fn apply(&self, inner: S) -> (out: S) {
        inner
    }
}

} // verus!
