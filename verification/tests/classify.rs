use proxy_resilience::errors::{Cause, Direction, ErrorChain, IdentityRequired, LabelError, Metrics, Reason};

fn nested(leaf: Cause) -> ErrorChain {
    ErrorChain::chained(Cause::Other(String::from("request failed")), ErrorChain::leaf(leaf))
}

#[test]
fn response_timeout_reason_found_in_nested_chain() {
    let chain = nested(Cause::ResponseTimeout);
    assert_eq!(LabelError::reason(&chain), Reason::ResponseTimeout);
}

#[test]
fn failfast_reason_found_anywhere_in_chain() {
    // fail-fast buried under two unrecognized wrappers
    let chain = ErrorChain::chained(
        Cause::Other(String::from("outer")),
        ErrorChain::chained(Cause::H2Reset(0), ErrorChain::leaf(Cause::FailFast)),
    );
    assert_eq!(LabelError::reason(&chain), Reason::FailFast);
}

#[test]
fn recognized_cause_shadows_deeper_ones() {
    let chain = ErrorChain::chained(Cause::ResponseTimeout, ErrorChain::leaf(Cause::FailFast));
    assert_eq!(LabelError::reason(&chain), Reason::ResponseTimeout);
}

#[test]
fn classification_is_idempotent() {
    let chain = nested(Cause::Io(Some(104)));
    let first = LabelError::reason(&chain);
    let second = LabelError::reason(&chain);
    assert_eq!(first, second);
    assert_eq!(first, Reason::Io(Some(104)));
}

#[test]
fn unrecognized_chain_is_unexpected() {
    let chain = nested(Cause::Other(String::from("inner")));
    assert_eq!(LabelError::reason(&chain), Reason::Unexpected);
}

#[test]
fn dispatch_timeout_and_identity_reasons() {
    assert_eq!(
        LabelError::reason(&ErrorChain::leaf(Cause::DispatchTimeout)),
        Reason::DispatchTimeout
    );
    let id = IdentityRequired { required: String::from("a.example"), found: None };
    assert_eq!(
        LabelError::reason(&ErrorChain::leaf(Cause::IdentityRequired(id))),
        Reason::IdentityRequired
    );
}

#[test]
fn identity_required_messages() {
    let none_found = IdentityRequired { required: String::from("a.example"), found: None };
    assert_eq!(
        none_found.message(),
        "request required the identity 'a.example' but no identity found"
    );
    let mismatched = IdentityRequired {
        required: String::from("a.example"),
        found: Some(String::from("b.example")),
    };
    assert_eq!(
        mismatched.message(),
        "request required the identity 'a.example' but 'b.example' found"
    );
}

#[test]
fn label_text_for_each_reason() {
    assert_eq!(Reason::FailFast.label_string(), "message=\"failfast\"");
    assert_eq!(Reason::DispatchTimeout.label_string(), "message=\"dispatch timeout\"");
    assert_eq!(Reason::ResponseTimeout.label_string(), "message=\"response timeout\"");
    assert_eq!(Reason::IdentityRequired.label_string(), "message=\"identity required\"");
    assert_eq!(Reason::Unexpected.label_string(), "message=\"unexpected\"");
    assert_eq!(Reason::Io(None).label_string(), "message=\"i/o\"");
}

#[test]
fn label_text_carries_errno() {
    assert_eq!(Reason::Io(Some(104)).label_string(), "message=\"i/o\",errno=\"104\"");
    assert_eq!(Reason::Io(Some(0)).label_string(), "message=\"i/o\",errno=\"0\"");
    assert_eq!(Reason::Io(Some(-2)).label_string(), "message=\"i/o\",errno=\"-2\"");
}

#[test]
fn metrics_record_labels_in_order() {
    let mut metrics = Metrics::default();
    assert_eq!(metrics.report().len(), 0);
    let inbound = metrics.inbound();
    let outbound = metrics.outbound();
    metrics.record(&inbound, &ErrorChain::leaf(Cause::FailFast));
    metrics.record(&outbound, &nested(Cause::ResponseTimeout));
    let report = metrics.report();
    assert_eq!(report.len(), 2);
    assert_eq!(report[0], (Direction::In, Reason::FailFast));
    assert_eq!(report[1], (Direction::Out, Reason::ResponseTimeout));
}

#[test]
fn h2_reason_walks_the_chain() {
    let chain = ErrorChain::chained(
        Cause::Other(String::from("outer")),
        ErrorChain::leaf(Cause::H2Reset(7)),
    );
    assert_eq!(chain.h2_reason(), Some(7));
    assert_eq!(ErrorChain::leaf(Cause::FailFast).h2_reason(), None);
}
