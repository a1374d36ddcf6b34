//! Idle eviction with jittered deadlines.
//!
//! A decorated handler arms a deadline when it is built and re-arms it
//! on every dispatch, each time to `now + draw` where the draw is a
//! fresh uniform sample from `[0, jitter window)` — independent draws
//! desynchronize expirations across a fleet, where a fixed timeout
//! would cause synchronized mass-eviction. Expiry is detected lazily:
//! a readiness check against a clock reading, not a timer callback.
//! An expired handler fails readiness terminally and must be rebuilt.

use vstd::prelude::*;

verus! {

/// Relies on `rand::rngs::SmallRng` as an opaque generator state.
#[verifier::external_type_specification]
#[verifier::external_body]
pub struct ExSmallRng(rand::rngs::SmallRng);

/// Relies on rand's `SeedableRng::from_entropy` to seed a small, fast
/// generator from system entropy; nothing is assumed of its state.
#[verifier::external_body]
fn rng_from_entropy() -> rand::rngs::SmallRng {
    <rand::rngs::SmallRng as rand::SeedableRng>::from_entropy()
}

/// Relies on rand's `RngCore::next_u64`; the draw is random, so
/// nothing is assumed of the result.
#[verifier::external_body]
fn rng_next_u64(rng: &mut rand::rngs::SmallRng) -> u64 {
    rand::RngCore::next_u64(rng)
}

/// Relies on `Clone` for `rand::rngs::SmallRng`; the copy's state is
/// not modeled.
#[verifier::external_body]
fn rng_clone(rng: &rand::rngs::SmallRng) -> rand::rngs::SmallRng {
    rng.clone()
}

/// Builds idle-evicting decorators around request handlers: a nominal
/// timeout for diagnostics, a jitter window the armed intervals are
/// drawn from, and the generator that draws them.
#[derive(Debug)]
pub struct IdleLayer {
    timeout_ms: u64,
    jitter_ms: u64,
    rng: rand::rngs::SmallRng,
}

/// An idle-evicting decorator around a request handler: the inner
/// handler, the currently armed deadline, the interval it was armed
/// with, and the configuration for re-arming.
#[derive(Debug)]
pub struct Idle<S> {
    inner: S,
    deadline_ms: u64,
    current_ms: u64,
    config: IdleLayer,
}

/// The terminal error a handler's readiness check fails with once its
/// armed deadline has elapsed; carries the armed interval, in
/// milliseconds, for diagnostics.
#[derive(Copy, Clone, Debug, PartialEq, Eq, Structural)]
pub struct IdleError(pub u64);

impl IdleLayer {
    /// A non-empty jitter window, so an armed interval can be drawn
    /// from it.
    pub open spec fn wf(self) -> bool {
        self.spec_jitter_ms() > 0
    }

    /// The nominal idle timeout, in milliseconds.
    pub closed spec fn spec_timeout_ms(self) -> u64 {
        self.timeout_ms
    }

    /// The jitter window, in milliseconds.
    pub closed spec fn spec_jitter_ms(self) -> u64 {
        self.jitter_ms
    }

    /// A layer with the given nominal timeout and jitter window, both
    /// in milliseconds, seeded from system entropy.
    pub fn new(timeout_ms: u64, jitter_ms: u64) -> (r: Self)
        requires
            jitter_ms > 0,
        ensures
            r.wf(),
            r.spec_timeout_ms() == timeout_ms,
            r.spec_jitter_ms() == jitter_ms,
    {
        let rng = rng_from_entropy();
        Self { timeout_ms, jitter_ms, rng }
    }

    /// Draws a fresh armed interval: uniform over `[0, jitter_ms)`.
    fn next_timeout(&mut self) -> (r: u64)
        requires
            old(self).wf(),
        ensures
            final(self).wf(),
            final(self).spec_timeout_ms() == old(self).spec_timeout_ms(),
            final(self).spec_jitter_ms() == old(self).spec_jitter_ms(),
            r < final(self).spec_jitter_ms(),
    {
        let draw = rng_next_u64(&mut self.rng);
        draw % self.jitter_ms
    }

    /// Decorates a handler: arms the first deadline at `now + draw`,
    /// the draw taken from this layer's jitter window.
    pub fn layer<S>(&self, inner: S, now_ms: u64) -> (r: Idle<S>)
        requires
            self.wf(),
            now_ms <= u64::MAX - self.spec_jitter_ms(),
        ensures
            r.wf(),
            r.spec_timeout_ms() == self.spec_timeout_ms(),
            r.spec_jitter_ms() == self.spec_jitter_ms(),
            r.spec_inner() == inner,
            r.spec_deadline_ms() == now_ms + r.spec_current_ms(),
            r.spec_current_ms() < self.spec_jitter_ms(),
    {
        let mut config = IdleLayer {
            timeout_ms: self.timeout_ms,
            jitter_ms: self.jitter_ms,
            rng: rng_clone(&self.rng),
        };
        let current = config.next_timeout();
        Idle { inner, deadline_ms: now_ms + current, current_ms: current, config }
    }
}

impl<S> Idle<S> {
    /// The configuration is well formed and the armed interval came
    /// from its jitter window.
    pub open spec fn wf(self) -> bool {
        self.spec_jitter_ms() > 0 && self.spec_current_ms() < self.spec_jitter_ms()
    }

    /// The decorated handler.
    pub closed spec fn spec_inner(self) -> S {
        self.inner
    }

    /// The nominal idle timeout, in milliseconds.
    pub closed spec fn spec_timeout_ms(self) -> u64 {
        self.config.timeout_ms
    }

    /// The jitter window, in milliseconds.
    pub closed spec fn spec_jitter_ms(self) -> u64 {
        self.config.jitter_ms
    }

    /// The armed deadline, as a clock reading in milliseconds.
    pub closed spec fn spec_deadline_ms(self) -> u64 {
        self.deadline_ms
    }

    /// The interval the deadline was armed with, in milliseconds.
    pub closed spec fn spec_current_ms(self) -> u64 {
        self.current_ms
    }

    /// Whether the armed deadline has elapsed at clock reading `now`.
    pub open spec fn spec_expired(self, now_ms: u64) -> bool {
        now_ms >= self.spec_deadline_ms()
    }

    /// The readiness decision at clock reading `now`: once the armed
    /// deadline has elapsed, fails — terminally for this handler —
    /// with the idle-timeout error carrying the armed interval;
    /// otherwise readiness is delegated to the inner handler's own
    /// readiness check.
    pub fn poll_ready(&self, now_ms: u64) -> (r: Result<(), IdleError>)
        ensures
            r == (if self.spec_expired(now_ms) {
                Err::<(), IdleError>(IdleError(self.spec_current_ms()))
            } else {
                Ok::<(), IdleError>(())
            }),
    {
        if now_ms >= self.deadline_ms {
            Err(IdleError(self.current_ms))
        } else {
            Ok(())
        }
    }

    /// A dispatch at clock reading `now`: re-arms the deadline to
    /// `now + draw` with a fresh draw from the jitter window, then
    /// the request is forwarded to the inner handler.
    pub fn call(&mut self, now_ms: u64)
        requires
            old(self).wf(),
            now_ms <= u64::MAX - old(self).spec_jitter_ms(),
        ensures
            final(self).wf(),
            final(self).spec_inner() == old(self).spec_inner(),
            final(self).spec_timeout_ms() == old(self).spec_timeout_ms(),
            final(self).spec_jitter_ms() == old(self).spec_jitter_ms(),
            final(self).spec_current_ms() < final(self).spec_jitter_ms(),
            final(self).spec_deadline_ms() == now_ms + final(self).spec_current_ms(),
    {
        let next = self.config.next_timeout();
        self.deadline_ms = now_ms + next;
        self.current_ms = next;
    }

    /// A borrow of the decorated handler, for forwarding a dispatch.
    pub fn inner(&self) -> (r: &S)
        ensures
            r == self.spec_inner(),
    {
        &self.inner
    }

    /// Discards the decorator — as a caller must, once readiness has
    /// failed — and hands back the inner handler.
    pub fn into_inner(self) -> (r: S)
        ensures
            r == self.spec_inner(),
    {
        self.inner
    }
}

/// A handler dispatched at clock reading `now` does not fail a
/// readiness check before its re-armed deadline, and that deadline
/// lies within a jitter window of the dispatch; a handler that
/// receives no dispatch fails every readiness check at or past its
/// armed deadline.
pub proof fn lemma_idle_eviction<S>(idle: Idle<S>, now_ms: u64, t: u64)
    requires
        idle.wf(),
        idle.spec_deadline_ms() == now_ms + idle.spec_current_ms(),
    ensures
        t < idle.spec_deadline_ms() ==> !idle.spec_expired(t),
        t >= idle.spec_deadline_ms() ==> idle.spec_expired(t),
        idle.spec_deadline_ms() < now_ms + idle.spec_jitter_ms(),
{
}

} // verus!
