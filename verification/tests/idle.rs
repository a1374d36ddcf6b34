use proxy_resilience::idle::IdleLayer;

#[test]
fn call_succeeds_when_idle() {
    let timeout: u64 = 100;
    let layer = IdleLayer::new(timeout, timeout);
    let mut service = layer.layer((), 100);

    // The inner starts available: the deadline is armed at or after
    // the arming instant, so an earlier readiness check never fails.
    assert!(service.poll_ready(0).is_ok());

    // Then we wait past the whole jitter window, at which point the
    // service is still usable if readiness is not checked again: the
    // dispatch itself re-arms the deadline.
    service.call(201);
    service.poll_ready(200).expect("must get a request");

    // Service remains usable before the re-armed deadline.
    assert!(service.poll_ready(200).is_ok());
}

#[test]
fn poll_ready_fails_after_idle() {
    let timeout: u64 = 100;
    let layer = IdleLayer::new(timeout, timeout);
    let service = layer.layer((), 100);

    // The inner starts available.
    assert!(service.poll_ready(0).is_ok());

    // Then we wait past every possible deadline, at which point the
    // service should fail.
    let err = service.poll_ready(300).err().expect("must fail");
    assert!(err.0 < timeout);
}

#[test]
fn zero_jitter_window_draw_is_deterministic() {
    // a window of one millisecond forces a zero draw, so the armed
    // deadline is the arming instant itself
    let layer = IdleLayer::new(50, 1);
    let service = layer.layer((), 10);
    assert!(service.poll_ready(9).is_ok());
    assert!(service.poll_ready(10).is_err());
}

#[test]
fn dispatch_rearms_the_deadline() {
    let layer = IdleLayer::new(50, 1);
    let mut service = layer.layer((), 10);
    // expired at its armed deadline
    assert!(service.poll_ready(10).is_err());
    // a dispatch re-arms it: with a window of one the new deadline is
    // exactly the dispatch instant
    service.call(40);
    assert!(service.poll_ready(39).is_ok());
    assert!(service.poll_ready(40).is_err());
}

#[test]
fn idle_error_carries_armed_interval() {
    let layer = IdleLayer::new(50, 1);
    let service = layer.layer((), 10);
    let err = service.poll_ready(10).err().expect("armed deadline elapsed");
    assert_eq!(err.0, 0);
}

#[test]
fn into_inner_returns_the_handler() {
    let layer = IdleLayer::new(50, 5);
    let service = layer.layer(String::from("handler"), 0);
    assert_eq!(service.inner(), "handler");
    assert_eq!(service.into_inner(), "handler");
}
