//! The transforms that the combinator adapters apply to the values flowing
//! through a service: pure value maps, fallible maps, and maps over a whole
//! call result.

use vstd::prelude::*;

verus! {

/// A pure transform of one value into another.
pub trait Transform<A, B> {
    /// The value this transform turns `a` into.
    spec fn apply_spec(&self, a: A) -> B;

    fn apply(&self, a: A) -> (b: B)
        ensures
            b == self.apply_spec(a),
    ;
}

/// A transform that may reject its input with an error instead.
pub trait TryTransform<A, B, E> {
    /// The outcome this transform gives `a`.
    spec fn apply_spec(&self, a: A) -> Result<B, E>;

    fn apply(&self, a: A) -> (r: Result<B, E>)
        ensures
            r == self.apply_spec(a),
    ;
}

/// A transform of a whole call result, free to turn an error into a success
/// or a success into an error.
///
/// `widen` says how a readiness-phase error of the inner service fits the
/// new error type: that phase bypasses the transform, so the new error type
/// must be constructible from the old one.
pub trait ResultTransform<Resp, E, Resp2, E2> {
    /// The result this transform turns `r` into.
    spec fn apply_spec(&self, r: Result<Resp, E>) -> Result<Resp2, E2>;

    /// How a readiness-phase error is carried into the new error type.
    spec fn widen_spec(&self, e: E) -> E2;

    fn apply(&self, r: Result<Resp, E>) -> (out: Result<Resp2, E2>)
        ensures
            out == self.apply_spec(r),
    ;

    fn widen(&self, e: E) -> (out: E2)
        ensures
            out == self.widen_spec(e),
    ;
}

/// A continuation chained after a service: it receives the whole call
/// result, successful or not, and its own result becomes the outer result.
/// Here a continuation runs to completion within the call that receives it.
///
/// As with [`ResultTransform`], `widen` carries readiness-phase errors,
/// which bypass the continuation, into the new error type.
pub trait Continuation<Resp, E, Resp2, E2> {
    /// The result the continuation produces from `r`.
    spec fn run_spec(&self, r: Result<Resp, E>) -> Result<Resp2, E2>;

    /// How a readiness-phase error is carried into the new error type.
    spec fn widen_spec(&self, e: E) -> E2;

    fn run(&self, r: Result<Resp, E>) -> (out: Result<Resp2, E2>)
        ensures
            out == self.run_spec(r),
    ;

    fn widen(&self, e: E) -> (out: E2)
        ensures
            out == self.widen_spec(e),
    ;
}

/// Adds a constant, stopping at the largest representable value.
#[derive(Clone, Copy, Debug, PartialEq, Eq)]
pub struct SaturatingAdd {
    pub k: u64,
}

impl SaturatingAdd {
    /// Make a transform that adds `k`.
    pub fn new(k: u64) -> (t: Self)
        ensures
            t.k == k,
    {
        SaturatingAdd { k }
    }
}

impl Transform<u64, u64> for SaturatingAdd {
    open spec fn apply_spec(&self, a: u64) -> u64 {
        if a + self.k <= u64::MAX {
            (a + self.k) as u64
        } else {
            u64::MAX
        }
    }

    fn apply(&self, a: u64) -> (b: u64) {
        if a <= u64::MAX - self.k {
            a + self.k
        } else {
            u64::MAX
        }
    }
}

/// Admits a value up to a limit and rejects anything above it, handing the
/// offending value back as the error.
#[derive(Clone, Copy, Debug, PartialEq, Eq)]
pub struct LimitCheck {
    pub limit: u64,
}

impl LimitCheck {
    /// Make a check that admits values up to `limit`.
    pub fn new(limit: u64) -> (t: Self)
        ensures
            t.limit == limit,
    {
        LimitCheck { limit }
    }
}

impl TryTransform<u64, u64, u64> for LimitCheck {
    open spec fn apply_spec(&self, a: u64) -> Result<u64, u64> {
        if a <= self.limit {
            Ok(a)
        } else {
            Err(a)
        }
    }

    fn apply(&self, a: u64) -> (r: Result<u64, u64>) {
        if a <= self.limit {
            Ok(a)
        } else {
            Err(a)
        }
    }
}

/// Turns one specific error into a replacement success and leaves every
/// other outcome unchanged.
#[derive(Clone, Copy, Debug, PartialEq, Eq)]
pub struct RecoverValue {
    /// The error that is recovered.
    pub bad: u64,
    /// The success that stands in for it.
    pub replacement: u64,
}

impl RecoverValue {
    /// Make a transform that turns the error `bad` into `Ok(replacement)`.
    pub fn new(bad: u64, replacement: u64) -> (t: Self)
        ensures
            t.bad == bad,
            t.replacement == replacement,
    {
        RecoverValue { bad, replacement }
    }
}

impl ResultTransform<u64, u64, u64, u64> for RecoverValue {
    open spec fn apply_spec(&self, r: Result<u64, u64>) -> Result<u64, u64> {
        match r {
            Ok(v) => Ok(v),
            Err(e) => if e == self.bad {
                Ok(self.replacement)
            } else {
                Err(e)
            },
        }
    }

    open spec fn widen_spec(&self, e: u64) -> u64 {
        e
    }

    fn apply(&self, r: Result<u64, u64>) -> (out: Result<u64, u64>) {
        match r {
            Ok(v) => Ok(v),
            Err(e) => if e == self.bad {
                Ok(self.replacement)
            } else {
                Err(e)
            },
        }
    }

    fn widen(&self, e: u64) -> (out: u64) {
        e
    }
}

/// A continuation that recovers every error into one replacement success.
#[derive(Clone, Copy, Debug, PartialEq, Eq)]
pub struct RecoverAll {
    /// The success that stands in for any error.
    pub replacement: u64,
}

impl RecoverAll {
    /// Make a continuation that turns every error into `Ok(replacement)`.
    pub fn new(replacement: u64) -> (t: Self)
        ensures
            t.replacement == replacement,
    {
        RecoverAll { replacement }
    }
}

impl Continuation<u64, u64, u64, u64> for RecoverAll {
    open spec fn run_spec(&self, r: Result<u64, u64>) -> Result<u64, u64> {
        match r {
            Ok(v) => Ok(v),
            Err(e) => Ok(self.replacement),
        }
    }

    open spec fn widen_spec(&self, e: u64) -> u64 {
        e
    }

    fn run(&self, r: Result<u64, u64>) -> (out: Result<u64, u64>) {
        match r {
            Ok(v) => Ok(v),
            Err(_) => Ok(self.replacement),
        }
    }

    fn widen(&self, e: u64) -> (out: u64) {
        e
    }
}

} // verus!
