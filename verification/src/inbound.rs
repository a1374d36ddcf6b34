//! Loop prevention at the inbound trust boundary.
//!
//! The inbound side must never originate a connection to itself as a
//! destination: wherever such a path is reachable, this guard stands
//! as an always-failing sentinel, and as an admission predicate it
//! rejects any candidate whose port is the proxy's own, whatever the
//! address.

use vstd::prelude::*;
use crate::addr::SocketAddr;
use crate::errors::LoopDetected;

verus! {

/// A connection policy that rejects targets routing the proxy back to
/// itself.
#[derive(Copy, Clone, Debug)]
pub struct PreventLoop {
    port: u16,
}

impl PreventLoop {
    /// The proxy's own listening port.
    pub closed spec fn spec_port(self) -> u16 {
        self.port
    }

    /// Whether the guard admits a candidate target: any whose port is
    /// not the proxy's own.
    pub open spec fn spec_admits(self, ep: SocketAddr) -> bool {
        ep.port != self.spec_port()
    }

    /// A guard for the proxy's own listening port.
    pub fn new(port: u16) -> (r: Self)
        ensures
            r.spec_port() == port,
    {
        Self { port }
    }

    /// As a sentinel handler, readiness always fails with the
    /// loop-detected error.
    pub fn poll_ready(&self) -> (r: Result<(), LoopDetected>)
        ensures
            r == Err::<(), LoopDetected>(LoopDetected),
    {
        Err(LoopDetected::default())
    }

    /// As a sentinel handler, every dispatch fails with the
    /// loop-detected error, whatever the target.
    pub fn call(&self) -> (r: Result<(), LoopDetected>)
        ensures
            r == Err::<(), LoopDetected>(LoopDetected),
    {
        Err(LoopDetected::default())
    }

    /// Admits or rejects a candidate connection target: rejected
    /// exactly when its port equals the guard's configured port,
    /// regardless of address.
    pub fn check(&self, ep: &SocketAddr) -> (r: Result<(), LoopDetected>)
        ensures
            r == (if self.spec_admits(*ep) {
                Ok::<(), LoopDetected>(())
            } else {
                Err::<(), LoopDetected>(LoopDetected)
            }),
    {
        if ep.port == self.port {
            Err(LoopDetected::default())
        } else {
            Ok(())
        }
    }
}

} // verus!
