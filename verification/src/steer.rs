//! Routing requests between services.
//!
//! [`Steer`] holds an ordered list of services and a [`Picker`]; every
//! request is forwarded to exactly the service the picker chooses for it.

use vstd::prelude::*;
use crate::service::{Readiness, Service};

verus! {

/// Chooses, per request, which of an ordered list of services the request
/// goes to. This is how callers of [`Steer`] tell it which service a request
/// corresponds to.
///
/// A picker may keep private state of its own across picks, but it sees the
/// services read-only. Its index must land in range: that obligation is part
/// of the trait, so a picker that could send a request out of the index
/// space is rejected by the verifier before it can reach a router.
pub trait Picker<S, Req>: Sized {
    /// The index this picker state chooses for `r` among `services`.
    spec fn pick_spec(&self, r: Req, services: Seq<S>) -> int;

    /// How one pick may change the picker's own state.
    spec fn picked_rel(pre: Self, r: Req, services: Seq<S>, post: Self) -> bool;

    /// Every pick lands in the index space of the service list.
    proof fn pick_in_range(&self, r: Req, services: Seq<S>)
        requires
            services.len() > 0,
        ensures
            0 <= self.pick_spec(r, services) < services.len(),
    ;

    /// Return an index into the list of services handed to [`Steer::new`].
    fn pick(&mut self, r: &Req, services: &Vec<S>) -> (i: usize)
        requires
            services@.len() > 0,
        ensures
            i as int == old(self).pick_spec(*r, services@),
            Self::picked_rel(*old(self), *r, services@, *final(self)),
    ;
}

/// A picker that always chooses the same slot. If the slot lies outside the
/// list, the first service stands in, so that the choice is in range for
/// every non-empty list.
#[derive(Clone, Copy, Debug, PartialEq, Eq)]
pub struct FixedPicker {
    pub slot: usize,
}

impl FixedPicker {
    /// Make a picker that always chooses `slot`.
    pub fn new(slot: usize) -> (p: Self)
        ensures
            p.slot == slot,
    {
        FixedPicker { slot }
    }
}

impl<S, Req> Picker<S, Req> for FixedPicker {
    open spec fn pick_spec(&self, r: Req, services: Seq<S>) -> int {
        if self.slot < services.len() {
            self.slot as int
        } else {
            0
        }
    }

    open spec fn picked_rel(pre: Self, r: Req, services: Seq<S>, post: Self) -> bool {
        post == pre
    }

    proof fn pick_in_range(&self, r: Req, services: Seq<S>) {
    }

    fn pick(&mut self, r: &Req, services: &Vec<S>) -> (i: usize) {
        if self.slot < services.len() {
            self.slot
        } else {
            0
        }
    }
}

/// A stateful picker that walks the service list slot by slot, wrapping
/// around at the end.
#[derive(Clone, Copy, Debug, PartialEq, Eq)]
pub struct RoundRobinPicker {
    pub next: usize,
}

impl RoundRobinPicker {
    /// Make a picker whose first choice is slot 0.
    pub fn new() -> (p: Self)
        ensures
            p.next == 0,
    {
        RoundRobinPicker { next: 0 }
    }
}

impl<S, Req> Picker<S, Req> for RoundRobinPicker {
    open spec fn pick_spec(&self, r: Req, services: Seq<S>) -> int {
        if services.len() > 0 {
            (self.next as int) % (services.len() as int)
        } else {
            0
        }
    }

    open spec fn picked_rel(pre: Self, r: Req, services: Seq<S>, post: Self) -> bool {
        if services.len() > 0 {
            post.next as int == (pre.pick_spec(r, services) + 1) % (services.len() as int)
        } else {
            post == pre
        }
    }

    proof fn pick_in_range(&self, r: Req, services: Seq<S>) {
        assert(0 <= (self.next as int) % (services.len() as int) < services.len())
            by (nonlinear_arith)
            requires services.len() > 0;
    }

    fn pick(&mut self, r: &Req, services: &Vec<S>) -> (i: usize) {
        let n = services.len();
        let i = self.next % n;
        self.next = (i + 1) % n;
        i
    }
}

/// The readiness verdict of a list of services as a whole: the verdict of
/// the first service that is not ready, or `Ready` when all of them are.
pub open spec fn scan_readiness<Req, Resp, E, S: Service<Req, Resp, E>>(
    services: Seq<S>,
) -> Readiness<E>
    decreases services.len(),
{
    if services.len() == 0 {
        Readiness::Ready
    } else {
        match services[0].readiness_spec() {
            Readiness::Ready => scan_readiness::<Req, Resp, E, S>(services.drop_first()),
            Readiness::Pending => Readiness::Pending,
            Readiness::Broken(e) => Readiness::Broken(e),
        }
    }
}

/// Extending a scanned list by one service on the right leaves an un-ready
/// verdict alone and otherwise takes the new service's verdict.
pub proof fn lemma_scan_readiness_push<Req, Resp, E, S: Service<Req, Resp, E>>(
    services: Seq<S>,
    x: S,
)
    ensures
        scan_readiness::<Req, Resp, E, S>(services.push(x)) == (
            match scan_readiness::<Req, Resp, E, S>(services) {
                Readiness::Ready => x.readiness_spec(),
                Readiness::Pending => Readiness::Pending,
                Readiness::Broken(e) => Readiness::Broken(e),
            }
        ),
    decreases services.len(),
{
    if services.len() == 0 {
        assert(services.push(x).drop_first() =~= services);
    } else {
        assert(services.push(x).drop_first() =~= services.drop_first().push(x));
        lemma_scan_readiness_push::<Req, Resp, E, S>(services.drop_first(), x);
    }
}

/// When the scan of a list is `Ready`, every service in it is ready.
pub proof fn lemma_scan_readiness_all_ready<Req, Resp, E, S: Service<Req, Resp, E>>(
    services: Seq<S>,
)
    requires
        scan_readiness::<Req, Resp, E, S>(services) is Ready,
    ensures
        forall|i: int|
            0 <= i < services.len() ==> (#[trigger] services[i].readiness_spec()) is Ready,
    decreases services.len(),
{
    if services.len() > 0 {
        lemma_scan_readiness_all_ready::<Req, Resp, E, S>(services.drop_first());
        assert forall|i: int|
            0 <= i < services.len() implies (#[trigger] services[i].readiness_spec())
            is Ready by {
            if i > 0 {
                assert(services.drop_first()[i - 1] == services[i]);
            }
        }
    }
}

/// Routes each request to one of an ordered list of services, all handling
/// the same type of request.
///
/// On each call the router asks the [`Picker`] which service the request
/// corresponds to and forwards the call there; exactly one service receives
/// each request. The router does not multiplex readiness: since it cannot
/// know which service the next request will target, it reports ready only
/// when every contained service does, which trades head-of-line blocking for
/// never dispatching to a service that is not ready.
///
/// A router is cloneable whenever its picker and all its services are; a
/// clone duplicates the picker state and every service handle, sharing no
/// mutable state with the original.
#[derive(Clone, Debug)]
pub struct Steer<S, F> {
    /// The picker consulted once per request.
    pub router: F,
    /// The ordered services; the order defines the index space the picker
    /// returns into, and the list is meant to be fixed after construction.
    pub services: Vec<S>,
}

impl<S, F> Steer<S, F> {
    /// Make a new [`Steer`] from an ordered list of services and a
    /// [`Picker`]. Index 0 corresponds to the first service of the list.
    pub fn new(services: Vec<S>, router: F) -> (s: Self)
        ensures
            s.services == services,
            s.router == router,
    {
        Steer { router, services }
    }
}

impl<Req, Resp, E, S, F> Service<Req, Resp, E> for Steer<S, F> where
    S: Service<Req, Resp, E>,
    F: Picker<S, Req>,
 {
    /// Ready exactly when every contained service is ready; an empty router
    /// has no service to dispatch to and never reports ready.
    open spec fn readiness_spec(&self) -> Readiness<E> {
        if self.services@.len() == 0 {
            Readiness::Pending
        } else {
            scan_readiness::<Req, Resp, E, S>(self.services@)
        }
    }

    open spec fn polled_rel(pre: Self, post: Self) -> bool {
        &&& post.router == pre.router
        &&& post.services@.len() == pre.services@.len()
        &&& forall|j: int|
            0 <= j < pre.services@.len() ==> S::polled_rel(
                pre.services@[j],
                #[trigger] post.services@[j],
            )
    }

    /// The answer of the service the picker chooses for this request.
    open spec fn response_spec(&self, req: Req) -> Result<Resp, E> {
        self.services@[self.router.pick_spec(req, self.services@)].response_spec(req)
    }

    /// Exactly the chosen service accepts the request; the picker may move
    /// its own state; every other service is untouched.
    open spec fn called_rel(pre: Self, req: Req, post: Self) -> bool {
        let i = pre.router.pick_spec(req, pre.services@);
        &&& F::picked_rel(pre.router, req, pre.services@, post.router)
        &&& post.services@.len() == pre.services@.len()
        &&& 0 <= i < pre.services@.len()
        &&& S::called_rel(pre.services@[i], req, post.services@[i])
        &&& forall|j: int|
            0 <= j < pre.services@.len() && j != i ==> #[trigger] post.services@[j]
                == pre.services@[j]
    }

    fn report_readiness(&mut self) -> (r: Readiness<E>) {
        let ghost pre = *self;
        let n = self.services.len();
        let mut first_bad: Option<Readiness<E>> = None;
        let mut i: usize = 0;
        while i < n
            invariant
                n == pre.services@.len(),
                i <= n,
                self.router == pre.router,
                self.services@.len() == n,
                forall|j: int|
                    0 <= j < i ==> S::polled_rel(pre.services@[j], #[trigger] self.services@[j]),
                forall|j: int| i <= j < n ==> #[trigger] self.services@[j] == pre.services@[j],
                match first_bad {
                    None => scan_readiness::<Req, Resp, E, S>(self.services@.subrange(0, i as int))
                        is Ready,
                    Some(v) => scan_readiness::<Req, Resp, E, S>(
                        self.services@.subrange(0, i as int),
                    ) == v && !(v is Ready),
                },
            decreases n - i,
        {
            let ghost prefix = self.services@.subrange(0, i as int);
            let sv = &mut self.services[i];
            let verdict = sv.report_readiness();
            proof {
                assert(self.services@.subrange(0, i + 1 as int) =~= prefix.push(
                    self.services@[i as int],
                ));
                lemma_scan_readiness_push::<Req, Resp, E, S>(prefix, self.services@[i as int]);
            }
            match verdict {
                Readiness::Ready => {},
                v => {
                    if first_bad.is_none() {
                        first_bad = Some(v);
                    }
                },
            }
            i = i + 1;
        }
        proof {
            assert(self.services@.subrange(0, n as int) =~= self.services@);
        }
        if n == 0 {
            Readiness::Pending
        } else {
            match first_bad {
                None => Readiness::Ready,
                Some(v) => v,
            }
        }
    }

    fn call(&mut self, req: Req) -> (r: Result<Resp, E>) {
        proof {
            self.router.pick_in_range(req, self.services@);
            lemma_scan_readiness_all_ready::<Req, Resp, E, S>(self.services@);
        }
        let router = &mut self.router;
        let i = router.pick(&req, &self.services);
        let sv = &mut self.services[i];
        sv.call(req)
    }
}

/// Routing law: a router answers a request with exactly the answer of the
/// service its picker chooses for that request.
pub proof fn lemma_steer_routes<Req, Resp, E, S, F>(st: Steer<S, F>, req: Req)
    where S: Service<Req, Resp, E>, F: Picker<S, Req>
    ensures
        st.response_spec(req) == st.services@[st.router.pick_spec(req, st.services@)]
            .response_spec(req),
{
}

/// Fail-fast law: on a non-empty router the consulted index always lies in
/// the index space of the services. A picker whose index could fall
/// outside cannot discharge [`Picker::pick_in_range`], so a routing that
/// would dispatch out of range is rejected by the verifier instead of
/// returning a value or reaching any service.
pub proof fn lemma_steer_pick_in_range<Req, Resp, E, S, F>(st: Steer<S, F>, req: Req)
    where S: Service<Req, Resp, E>, F: Picker<S, Req>
    requires
        st.services@.len() > 0,
    ensures
        0 <= st.router.pick_spec(req, st.services@) < st.services@.len(),
{
    st.router.pick_in_range(req, st.services@);
}

/// Single-dispatch law: a call leaves every service other than the chosen
/// one exactly as it was — one service receives each request, and no other
/// service is invoked.
pub proof fn lemma_steer_touches_only_the_chosen<Req, Resp, E, S, F>(
    st: Steer<S, F>,
    req: Req,
    post: Steer<S, F>,
)
    where S: Service<Req, Resp, E>, F: Picker<S, Req>
    requires
        <Steer<S, F> as Service<Req, Resp, E>>::called_rel(st, req, post),
    ensures
        S::called_rel(
            st.services@[st.router.pick_spec(req, st.services@)],
            req,
            post.services@[st.router.pick_spec(req, st.services@)],
        ),
        forall|j: int|
            0 <= j < st.services@.len() && j != st.router.pick_spec(req, st.services@)
                ==> post.services@[j] == st.services@[j],
{
}

} // verus!
