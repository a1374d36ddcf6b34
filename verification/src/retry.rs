//! Per-destination retry decoration.
//!
//! When a handler is constructed for a destination, a policy factory
//! is consulted once; the optional policy is stored beside the inner
//! handler. A request through a destination with no policy is
//! dispatched exactly once. With a policy, the policy is cloned for
//! the request and a compound operation drives attempts: after each
//! attempt the policy is consulted with the outcome, and a granted
//! retry dispatches again with the successor policy state.

use vstd::prelude::*;

verus! {

/// A strategy for obtaining per-destination retry policies.
pub trait NewPolicy<T> {
    type Policy;

    /// The policy this factory assigns to a destination; `None`
    /// disables retries for it.
    spec fn spec_new_policy(&self, target: T) -> Option<Self::Policy>;

    /// Consulted once, when a handler for `target` is constructed.
    fn new_policy(&self, target: &T) -> (r: Option<Self::Policy>)
        ensures
            r == self.spec_new_policy(*target),
    ;
}

/// A constructor of request handlers for destinations.
pub trait NewService<T> {
    type Service;

    /// The handler this constructor builds for a destination.
    spec fn spec_new_service(&self, target: T) -> Self::Service;

    /// Builds the handler for `target`.
    fn new_service(&self, target: T) -> (r: Self::Service)
        ensures
            r == self.spec_new_service(target),
    ;
}

/// A retry policy: consulted with each attempt's outcome; granting a
/// retry yields the policy state for the next attempt. Policies are
/// cloned once per request, so shared budget state must live behind
/// the clone.
pub trait Policy: Sized {
    /// The decision this policy takes on an attempt outcome: `Some`
    /// grants a retry and carries the next attempt's policy state.
    spec fn spec_retry(&self, ok: bool) -> Option<Self>;

    /// Consults the policy with an attempt's outcome.
    fn retry(&self, ok: bool) -> (r: Option<Self>)
        ensures
            r == self.spec_retry(ok),
    ;

    /// An independent policy instance with the same decision state,
    /// taken once per request.
    fn clone_policy(&self) -> (r: Self)
        ensures
            r == *self,
    ;
}

/// A layer that applies per-destination retry policies.
#[derive(Clone, Debug)]
pub struct NewRetryLayer<P> {
    pub new_policy: P,
}

/// A handler constructor that pairs each constructed handler with the
/// destination's optional retry policy.
#[derive(Clone, Debug)]
pub struct NewRetry<P, N> {
    pub new_policy: P,
    pub inner: N,
}

/// A request handler decorated with an optional retry policy.
#[derive(Clone, Debug)]
pub struct Retry<P, S> {
    pub policy: Option<P>,
    pub inner: S,
}

/// The compound operation for one request: a single dispatch when the
/// destination has no policy, or policy-driven attempts.
#[derive(Debug)]
pub enum ResponseFuture<R> {
    /// No policy: the one dispatch's outcome resolves the operation.
    Disabled,
    /// A policy, cloned for this request, drives the attempts.
    Retry(R),
}

impl<P> NewRetryLayer<P> {
    /// A retry layer around a policy factory.
    pub fn new(new_policy: P) -> (r: Self)
        ensures
            r.new_policy == new_policy,
    {
        Self { new_policy }
    }

    /// Wraps a handler constructor, pairing it with this layer's
    /// policy factory.
    pub fn layer<N>(self, inner: N) -> (r: NewRetry<P, N>)
        ensures
            r.new_policy == self.new_policy,
            r.inner == inner,
    {
        NewRetry { inner, new_policy: self.new_policy }
    }
}

impl<T, N: NewService<T>, P: NewPolicy<T>> NewService<T> for NewRetry<P, N> {
    type Service = Retry<P::Policy, N::Service>;

    open spec fn spec_new_service(&self, target: T) -> Self::Service {
        Retry {
            policy: self.new_policy.spec_new_policy(target),
            inner: self.inner.spec_new_service(target),
        }
    }

    /// Consults the policy factory once for the destination and
    /// stores its answer beside the constructed inner handler.
    fn new_service(&self, target: T) -> (r: Self::Service) {
        let policy = self.new_policy.new_policy(&target);
        let inner = self.inner.new_service(target);
        Retry { policy, inner }
    }
}

impl<R: Policy, S> Retry<R, S> {
    /// Starts the compound operation for one request: with no stored
    /// policy the dispatch is single; otherwise this request gets its
    /// own clone of the policy, equivalent in decision state.
    pub fn proxy(&self) -> (r: ResponseFuture<R>)
        ensures
            self.policy is None ==> r == ResponseFuture::<R>::Disabled,
            self.policy matches Some(p) ==> r == ResponseFuture::Retry(p),
    {
        match &self.policy {
            Some(policy) => ResponseFuture::Retry(policy.clone_policy()),
            None => ResponseFuture::Disabled,
        }
    }
}

/// How many dispatch attempts the compound operation makes driving
/// policy `p` when successive attempts would produce the outcomes
/// `outs`: one per outcome consumed, stopping after the first outcome
/// for which the policy declines a retry.
pub open spec fn spec_attempts<R: Policy>(p: R, outs: Seq<bool>) -> nat
    decreases outs.len(),
{
    if outs.len() == 0 {
        0
    } else {
        match p.spec_retry(outs[0]) {
            None => 1,
            Some(p2) => 1 + spec_attempts(p2, outs.drop_first()),
        }
    }
}

/// The outcome that resolves the compound operation, or `None` when
/// the given outcomes run out with the policy still granting retries.
pub open spec fn spec_resolution<R: Policy>(p: R, outs: Seq<bool>) -> Option<bool>
    decreases outs.len(),
{
    if outs.len() == 0 {
        None
    } else {
        match p.spec_retry(outs[0]) {
            None => Some(outs[0]),
            Some(p2) => spec_resolution(p2, outs.drop_first()),
        }
    }
}

impl<R: Policy> ResponseFuture<R> {
    /// Drives the compound operation to its resolution, given the
    /// outcomes successive dispatch attempts would produce. Returns
    /// the number of attempts made and the outcome that resolved the
    /// operation. With no policy, exactly one dispatch attempt occurs,
    /// whatever its outcome. With a policy, attempts repeat until the
    /// policy declines a retry; the whole drive is one atomic unit of
    /// work, so abandoning it abandons every outstanding attempt.
    pub fn drive(self, outcomes: &Vec<bool>) -> (r: (usize, Option<bool>))
        requires
            outcomes@.len() >= 1,
        ensures
            self matches ResponseFuture::Disabled ==> r.0 == 1 && r.1 == Some(outcomes@[0]),
            self matches ResponseFuture::Retry(p) ==> r.0 == spec_attempts(p, outcomes@) && r.1
                == spec_resolution(p, outcomes@),
    {
        match self {
            ResponseFuture::Disabled => (1, Some(outcomes[0])),
            ResponseFuture::Retry(p) => {
                let ghost p0 = p;
                let mut policy = p;
                let mut i: usize = 0;
                let n = outcomes.len();
                proof {
                    assert(outcomes@.skip(0) =~= outcomes@);
                }
                loop
                    invariant
                        self == ResponseFuture::Retry(p0),
                        n == outcomes@.len(),
                        i < n,
                        spec_attempts(p0, outcomes@) == i + spec_attempts(
                            policy,
                            outcomes@.skip(i as int),
                        ),
                        spec_resolution(p0, outcomes@) == spec_resolution(
                            policy,
                            outcomes@.skip(i as int),
                        ),
                    decreases outcomes@.len() - i,
                {
                    let ok = outcomes[i];
                    proof {
                        assert(outcomes@.skip(i as int)[0] == outcomes@[i as int]);
                        assert(outcomes@.skip(i as int).drop_first() =~= outcomes@.skip(
                            i as int + 1,
                        ));
                    }
                    match policy.retry(ok) {
                        None => {
                            return (i + 1, Some(ok));
                        },
                        Some(p2) => {
                            policy = p2;
                        },
                    }
                    if i + 1 == outcomes.len() {
                        proof {
                            assert(outcomes@.skip(i as int + 1) =~= Seq::<bool>::empty());
                            assert(spec_attempts(policy, outcomes@.skip(i as int + 1)) == 0);
                            assert(spec_resolution(policy, outcomes@.skip(i as int + 1)) is None);
                            assert(spec_attempts(p0, outcomes@) == i + 1);
                            assert(spec_resolution(p0, outcomes@) is None);
                        }
                        return (i + 1, None);
                    }
                    i = i + 1;
                }
            },
        }
    }
}

/// A policy that grants a fixed number of retries, whatever each
/// attempt's outcome, spending one grant per consultation.
#[derive(Clone, Copy, Debug, PartialEq, Eq, Structural)]
pub struct Budget {
    pub retries: u64,
}

impl Policy for Budget {
    open spec fn spec_retry(&self, ok: bool) -> Option<Budget> {
        if self.retries > 0 {
            Some(Budget { retries: (self.retries - 1) as u64 })
        } else {
            None
        }
    }

    fn retry(&self, ok: bool) -> (r: Option<Budget>) {
        if self.retries > 0 {
            Some(Budget { retries: self.retries - 1 })
        } else {
            None
        }
    }

    fn clone_policy(&self) -> (r: Budget) {
        Budget { retries: self.retries }
    }
}

/// A policy granting `n` retries drives exactly `n + 1` dispatch
/// attempts before the compound operation resolves, provided that
/// many outcomes are available.
pub proof fn lemma_budget_attempt_count(n: u64, outs: Seq<bool>)
    requires
        outs.len() > n,
    ensures
        spec_attempts(Budget { retries: n }, outs) == n + 1,
        spec_resolution(Budget { retries: n }, outs) == Some(outs[n as int]),
    decreases n,
{
    if n > 0 {
        lemma_budget_attempt_count((n - 1) as u64, outs.drop_first());
        assert(outs.drop_first()[n - 1 as int] == outs[n as int]);
    }
}

} // verus!
