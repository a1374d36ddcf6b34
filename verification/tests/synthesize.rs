use proxy_resilience::errors::{Cause, ErrorChain, IdentityRequired, http_status};
use proxy_resilience::respond::{
    BodyPoll, GrpcCode, Request, Respond, Response, ResponseBody, TrailerStep, Version,
    code_header, grpc_status, layer,
};

fn plain_response(body: u32) -> Response<u32> {
    Response {
        version: Version::Http11,
        status: 201,
        headers: vec![(String::from("x-request-id"), String::from("abc"))],
        body,
    }
}

#[test]
fn http_status_table() {
    assert_eq!(http_status(&ErrorChain::leaf(Cause::ResponseTimeout)), 504);
    assert_eq!(http_status(&ErrorChain::leaf(Cause::FailFast)), 503);
    assert_eq!(http_status(&ErrorChain::leaf(Cause::DispatchTimeout)), 503);
    let id = IdentityRequired { required: String::from("a.example"), found: None };
    assert_eq!(http_status(&ErrorChain::leaf(Cause::IdentityRequired(id))), 403);
    assert_eq!(http_status(&ErrorChain::leaf(Cause::Other(String::from("boom")))), 502);
}

#[test]
fn http_walk_has_no_io_case() {
    // the HTTP walk falls through an I/O cause to the 502 fallback,
    // while the gRPC walk recognizes it as Unavailable
    let chain = ErrorChain::leaf(Cause::Io(Some(104)));
    assert_eq!(http_status(&chain), 502);
    let trailers = grpc_status(&chain);
    assert_eq!(trailers.status, GrpcCode::Unavailable);
    assert_eq!(trailers.message.as_deref(), Some("connection closed"));
}

#[test]
fn grpc_status_table() {
    let t = grpc_status(&ErrorChain::leaf(Cause::ResponseTimeout));
    assert_eq!(t.status, GrpcCode::DeadlineExceeded);
    assert_eq!(t.message.as_deref(), Some("request timed out"));
    let t = grpc_status(&ErrorChain::leaf(Cause::FailFast));
    assert_eq!(t.status, GrpcCode::Unavailable);
    assert_eq!(t.message.as_deref(), Some("proxy max-concurrency exhausted"));
    let t = grpc_status(&ErrorChain::leaf(Cause::DispatchTimeout));
    assert_eq!(t.status, GrpcCode::Unavailable);
    assert_eq!(t.message.as_deref(), Some("proxy dispatch timed out"));
    let t = grpc_status(&ErrorChain::leaf(Cause::Other(String::from("kaboom"))));
    assert_eq!(t.status, GrpcCode::Internal);
    assert_eq!(t.message.as_deref(), Some("kaboom"));
}

#[test]
fn grpc_message_dropped_when_not_a_header_value() {
    // a newline may not appear in a header value, so the message is
    // withheld rather than synthesized invalid
    let id = IdentityRequired { required: String::from("a.example\nb"), found: None };
    let t = grpc_status(&ErrorChain::leaf(Cause::IdentityRequired(id)));
    assert_eq!(t.status, GrpcCode::FailedPrecondition);
    assert!(t.message.is_none());

    let id = IdentityRequired { required: String::from("a.example"), found: None };
    let t = grpc_status(&ErrorChain::leaf(Cause::IdentityRequired(id)));
    assert_eq!(
        t.message.as_deref(),
        Some("request required the identity 'a.example' but no identity found")
    );
}

#[test]
fn code_header_wire_text() {
    assert_eq!(code_header(GrpcCode::Okay), "0");
    assert_eq!(code_header(GrpcCode::DeadlineExceeded), "4");
    assert_eq!(code_header(GrpcCode::FailedPrecondition), "9");
    assert_eq!(code_header(GrpcCode::Internal), "13");
    assert_eq!(code_header(GrpcCode::Unavailable), "14");
    assert_eq!(code_header(GrpcCode::Unauthenticated), "16");
}

#[test]
fn new_respond_captures_context() {
    let factory = layer();
    let grpc = Request {
        version: Version::Http2,
        content_type: Some(String::from("application/grpc+proto")),
    };
    assert_eq!(factory.new_respond(&grpc), Respond::Http2 { is_grpc: true });
    let h2_plain = Request {
        version: Version::Http2,
        content_type: Some(String::from("text/html")),
    };
    assert_eq!(factory.new_respond(&h2_plain), Respond::Http2 { is_grpc: false });
    let no_type = Request { version: Version::Http2, content_type: None };
    assert_eq!(factory.new_respond(&no_type), Respond::Http2 { is_grpc: false });
    let h1 = Request {
        version: Version::Http11,
        content_type: Some(String::from("application/grpc")),
    };
    assert_eq!(factory.new_respond(&h1), Respond::Http1(Version::Http11));
}

#[test]
fn success_passes_through_unchanged() {
    let ctx = Respond::Http1(Version::Http11);
    let out = ctx.respond(Ok(plain_response(7))).expect("success stays a success");
    assert_eq!(out.version, Version::Http11);
    assert_eq!(out.status, 201);
    assert_eq!(out.headers, vec![(String::from("x-request-id"), String::from("abc"))]);
    match out.body {
        ResponseBody::NonGrpc(b) => assert_eq!(b, 7),
        ResponseBody::Grpc { .. } => panic!("plain context must not wrap as gRPC"),
    }
}

#[test]
fn grpc_success_gets_grpc_wrapper() {
    let ctx = Respond::Http2 { is_grpc: true };
    let mut rsp = plain_response(9);
    rsp.version = Version::Http2;
    let out = ctx.respond(Ok(rsp)).expect("success stays a success");
    match out.body {
        ResponseBody::Grpc { inner, trailers } => {
            assert_eq!(inner, 9);
            assert!(trailers.is_none());
        }
        ResponseBody::NonGrpc(_) => panic!("gRPC context must wrap as gRPC"),
    }
}

#[test]
fn http_error_synthesizes_status() {
    let ctx = Respond::Http1(Version::Http11);
    let result: Result<Response<u32>, ErrorChain> = Err(ErrorChain::leaf(Cause::FailFast));
    let out = ctx.respond(result).expect("classified failure becomes a response");
    assert_eq!(out.version, Version::Http11);
    assert_eq!(out.status, 503);
    assert_eq!(out.headers, vec![(String::from("content-length"), String::from("0"))]);
    assert!(matches!(out.body, ResponseBody::NonGrpc(_)));
}

#[test]
fn grpc_error_synthesizes_trailers_only_response() {
    let ctx = Respond::Http2 { is_grpc: true };
    let result: Result<Response<u32>, ErrorChain> = Err(ErrorChain::leaf(Cause::ResponseTimeout));
    let out = ctx.respond(result).expect("classified failure becomes a response");
    assert_eq!(out.version, Version::Http2);
    assert_eq!(out.status, 200);
    assert_eq!(
        out.headers,
        vec![
            (String::from("content-length"), String::from("0")),
            (String::from("grpc-status"), String::from("4")),
            (String::from("grpc-message"), String::from("request timed out")),
        ]
    );
    assert!(matches!(out.body, ResponseBody::NonGrpc(_)));
}

#[test]
fn h2_reset_propagates_the_error() {
    let ctx = Respond::Http2 { is_grpc: false };
    let chain = ErrorChain::chained(
        Cause::Other(String::from("stream closed")),
        ErrorChain::leaf(Cause::H2Reset(8)),
    );
    let result: Result<Response<u32>, ErrorChain> = Err(chain);
    let back = ctx.respond(result).err().expect("reset must propagate");
    assert_eq!(back.h2_reason(), Some(8));
}

#[test]
fn http1_never_propagates_resets() {
    let ctx = Respond::Http1(Version::Http11);
    let result: Result<Response<u32>, ErrorChain> = Err(ErrorChain::leaf(Cause::H2Reset(8)));
    let out = ctx.respond(result).expect("plain HTTP always gets a response");
    assert_eq!(out.status, 502);
}

#[test]
fn midstream_failure_becomes_pending_trailers() {
    let mut body: ResponseBody<u32> = ResponseBody::Grpc { inner: 0, trailers: None };
    let polled = body.poll_data(BodyPoll::Failed(ErrorChain::leaf(Cause::FailFast)));
    assert!(matches!(polled, BodyPoll::<u32>::End));
    // the pending set keeps the stream open
    assert!(!body.is_end_stream(true));
    match body.poll_trailers() {
        TrailerStep::Ready(t) => {
            assert_eq!(t.status, GrpcCode::Unavailable);
            assert_eq!(t.message.as_deref(), Some("proxy max-concurrency exhausted"));
            let pairs = t.render();
            assert_eq!(pairs.len(), 2);
            assert_eq!(pairs[0].0, "grpc-status");
            assert_eq!(pairs[0].1, "14");
            assert_eq!(pairs[1].0, "grpc-message");
        }
        TrailerStep::Delegate => panic!("pending trailers must be returned, not delegated"),
    }
    // taken exactly once; afterwards the inner body answers
    assert!(matches!(body.poll_trailers(), TrailerStep::Delegate));
    assert!(body.is_end_stream(true));
}

#[test]
fn plain_body_passes_polls_through() {
    let mut body: ResponseBody<u32> = ResponseBody::NonGrpc(0);
    assert!(matches!(body.poll_data(BodyPoll::Chunk(5)), BodyPoll::Chunk(5)));
    assert!(matches!(body.poll_data(BodyPoll::<u32>::Pending), BodyPoll::<u32>::Pending));
    assert!(matches!(body.poll_trailers(), TrailerStep::Delegate));
    assert!(body.is_end_stream(true));
    assert!(!body.is_end_stream(false));
}

#[test]
fn grpc_body_passes_data_through_until_failure() {
    let mut body: ResponseBody<u32> = ResponseBody::Grpc { inner: 0, trailers: None };
    assert!(matches!(body.poll_data(BodyPoll::Chunk(1)), BodyPoll::Chunk(1)));
    assert!(matches!(body.poll_data(BodyPoll::<u32>::End), BodyPoll::<u32>::End));
    assert!(matches!(body.poll_trailers(), TrailerStep::Delegate));
}
