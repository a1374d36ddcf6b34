use proxy_resilience::retry::{Budget, NewRetryLayer, ResponseFuture, Retry};

#[test]
fn no_policy_dispatches_exactly_once() {
    let service: Retry<Budget, ()> = Retry { policy: None, inner: () };
    let op = service.proxy();
    assert!(matches!(op, ResponseFuture::<Budget>::Disabled));
    let (attempts, resolved) = op.drive(&vec![false, false, false]);
    assert_eq!(attempts, 1);
    assert_eq!(resolved, Some(false));

    let op = service.proxy();
    let (attempts, resolved) = op.drive(&vec![true]);
    assert_eq!(attempts, 1);
    assert_eq!(resolved, Some(true));
}

#[test]
fn policy_with_n_retries_makes_n_plus_one_attempts() {
    let n: u64 = 3;
    let service: Retry<Budget, ()> = Retry { policy: Some(Budget { retries: n }), inner: () };
    let op = service.proxy();
    let outcomes = vec![false, false, false, false, false];
    let (attempts, resolved) = op.drive(&outcomes);
    assert_eq!(attempts as u64, n + 1);
    assert_eq!(resolved, Some(false));
}

#[test]
fn each_request_gets_an_equivalent_policy_clone() {
    let service: Retry<Budget, ()> = Retry { policy: Some(Budget { retries: 2 }), inner: () };
    for _ in 0..2 {
        // the per-request clone starts from the stored decision state
        match service.proxy() {
            ResponseFuture::Retry(p) => assert_eq!(p, Budget { retries: 2 }),
            ResponseFuture::Disabled => panic!("a stored policy must drive retries"),
        }
    }
}

#[test]
fn drive_stops_when_outcomes_run_out() {
    let service: Retry<Budget, ()> = Retry { policy: Some(Budget { retries: 9 }), inner: () };
    let (attempts, resolved) = service.proxy().drive(&vec![false, false]);
    assert_eq!(attempts, 2);
    assert_eq!(resolved, None);
}

#[test]
fn exhausted_budget_resolves_with_the_last_outcome() {
    let service: Retry<Budget, ()> = Retry { policy: Some(Budget { retries: 0 }), inner: () };
    let (attempts, resolved) = service.proxy().drive(&vec![true, false]);
    assert_eq!(attempts, 1);
    assert_eq!(resolved, Some(true));
}

#[test]
fn layer_pairs_factory_with_inner() {
    let layer = NewRetryLayer::new(41u32);
    let stack = layer.layer(String::from("handler"));
    assert_eq!(stack.new_policy, 41);
    assert_eq!(stack.inner, "handler");
}
