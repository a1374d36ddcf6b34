use proxy_resilience::addr::{IpAddr, SocketAddr};
use proxy_resilience::{inbound, outbound};

#[test]
fn outbound_admits_own_port_on_other_hosts() {
    let guard = outbound::PreventLoop::new(4143);
    let remote = SocketAddr::new(IpAddr::V4(203, 0, 113, 5), 4143);
    assert!(guard.check(&remote).is_ok());
}

#[test]
fn outbound_rejects_own_port_on_loopback() {
    let guard = outbound::PreventLoop::new(4143);
    let local = SocketAddr::new(IpAddr::V4(127, 0, 0, 1), 4143);
    assert!(guard.check(&local).is_err());
    let v6_local = SocketAddr::new(IpAddr::V6(0, 0, 0, 0, 0, 0, 0, 1), 4143);
    assert!(guard.check(&v6_local).is_err());
    // loopback on a different port is fine
    let other_port = SocketAddr::new(IpAddr::V4(127, 0, 0, 1), 8080);
    assert!(guard.check(&other_port).is_ok());
}

#[test]
fn inbound_rejects_own_port_on_any_address() {
    let guard = inbound::PreventLoop::new(4143);
    let remote = SocketAddr::new(IpAddr::V4(203, 0, 113, 5), 4143);
    assert!(guard.check(&remote).is_err());
    let local = SocketAddr::new(IpAddr::V4(127, 0, 0, 1), 4143);
    assert!(guard.check(&local).is_err());
    let other_port = SocketAddr::new(IpAddr::V4(203, 0, 113, 5), 80);
    assert!(guard.check(&other_port).is_ok());
}

#[test]
fn inbound_sentinel_always_fails() {
    let guard = inbound::PreventLoop::new(4143);
    assert!(guard.poll_ready().is_err());
    assert!(guard.call().is_err());
}

#[test]
fn loopback_recognition() {
    assert!(IpAddr::V4(127, 0, 0, 1).is_loopback());
    assert!(IpAddr::V4(127, 255, 0, 7).is_loopback());
    assert!(!IpAddr::V4(128, 0, 0, 1).is_loopback());
    assert!(IpAddr::V6(0, 0, 0, 0, 0, 0, 0, 1).is_loopback());
    assert!(!IpAddr::V6(0, 0, 0, 0, 0, 0, 0, 2).is_loopback());
}
