//! Loop prevention at the outbound trust boundary.
//!
//! Outbound traffic to the proxy's own port on a different host is
//! legitimate; only a loopback address on the proxy's own port would
//! route the proxy back to itself, so only that is rejected.

use vstd::prelude::*;
use crate::addr::IpAddr;
use crate::addr::SocketAddr;
use crate::errors::LoopDetected;

verus! {

/// A connection policy that rejects targets routing the proxy back to
/// itself.
#[derive(Copy, Clone, Debug)]
pub struct PreventLoop {
    port: u16,
}

impl PreventLoop {
    /// The proxy's own listening port.
    pub closed spec fn spec_port(self) -> u16 {
        self.port
    }

    /// Whether the guard admits a candidate endpoint: all but a
    /// loopback address on the proxy's own port.
    pub open spec fn spec_admits(self, ep: SocketAddr) -> bool {
        !(ep.ip.spec_is_loopback() && ep.port == self.spec_port())
    }

    /// A guard for the proxy's own listening port.
    pub fn new(port: u16) -> (r: Self)
        ensures
            r.spec_port() == port,
    {
        Self { port }
    }

    /// Admits or rejects a candidate endpoint: rejected exactly when
    /// its address is loopback and its port equals the guard's
    /// configured port.
    pub fn check(&self, ep: &SocketAddr) -> (r: Result<(), LoopDetected>)
        ensures
            r == (if self.spec_admits(*ep) {
                Ok::<(), LoopDetected>(())
            } else {
                Err::<(), LoopDetected>(LoopDetected)
            }),
    {
        if ep.ip.is_loopback() && ep.port == self.port {
            Err(LoopDetected::default())
        } else {
            Ok(())
        }
    }
}

/// The outbound guard admits the proxy's own port on any non-loopback
/// address and rejects it on a loopback address; the inbound guard
/// rejects every candidate bearing the guarded port, whatever the
/// address.
pub proof fn lemma_loop_prevention(
    out_guard: PreventLoop,
    in_guard: crate::inbound::PreventLoop,
    ep: SocketAddr,
)
    ensures
        !ep.ip.spec_is_loopback() ==> out_guard.spec_admits(ep),
        ep.ip.spec_is_loopback() && ep.port == out_guard.spec_port() ==> !out_guard.spec_admits(ep),
        ep.port == in_guard.spec_port() ==> !in_guard.spec_admits(ep),
        ep.port != in_guard.spec_port() ==> in_guard.spec_admits(ep),
{
}

} // verus!
