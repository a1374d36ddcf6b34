//! Response synthesis for failed requests.
//!
//! A per-request respond context, captured when the request arrives,
//! records which synthesis strategy applies. When the request's
//! outcome is known, a success passes through with its body wrapped,
//! and a failure is turned into a protocol-correct response: an HTTP
//! status for plain requests, a gRPC status-and-message trailer pair
//! for gRPC requests, or — when the failure carries a native HTTP/2
//! reset — the error itself, so the transport can emit the reset.
//! After response headers have been committed, a mid-stream gRPC body
//! failure is converted into a pending trailer set instead.

use vstd::prelude::*;
use vstd::string::StringExecFns;
use vstd::string::StrSliceExecFns;
use crate::errors::Cause;
use crate::errors::ErrorChain;
use crate::errors::spec_cause_message;
use crate::errors::spec_http_status;
use crate::errors::spec_h2_reason;
use crate::errors::spec_reason;
use crate::errors::http_status;

verus! {

/// An HTTP protocol version.
#[derive(Copy, Clone, Debug, PartialEq, Eq, Structural)]
pub enum Version {
    Http09,
    Http10,
    Http11,
    Http2,
    Http3,
}

/// A gRPC status code.
#[derive(Copy, Clone, Debug, PartialEq, Eq, Structural)]
pub enum GrpcCode {
    Okay,
    Cancelled,
    Unknown,
    InvalidArgument,
    DeadlineExceeded,
    NotFound,
    AlreadyExists,
    PermissionDenied,
    ResourceExhausted,
    FailedPrecondition,
    Aborted,
    OutOfRange,
    Unimplemented,
    Internal,
    Unavailable,
    DataLoss,
    Unauthenticated,
}

/// The wire text of a gRPC status code.
pub open spec fn spec_code_header(code: GrpcCode) -> Seq<char> {
    match code {
        GrpcCode::Okay => "0"@,
        GrpcCode::Cancelled => "1"@,
        GrpcCode::Unknown => "2"@,
        GrpcCode::InvalidArgument => "3"@,
        GrpcCode::DeadlineExceeded => "4"@,
        GrpcCode::NotFound => "5"@,
        GrpcCode::AlreadyExists => "6"@,
        GrpcCode::PermissionDenied => "7"@,
        GrpcCode::ResourceExhausted => "8"@,
        GrpcCode::FailedPrecondition => "9"@,
        GrpcCode::Aborted => "10"@,
        GrpcCode::OutOfRange => "11"@,
        GrpcCode::Unimplemented => "12"@,
        GrpcCode::Internal => "13"@,
        GrpcCode::Unavailable => "14"@,
        GrpcCode::DataLoss => "15"@,
        GrpcCode::Unauthenticated => "16"@,
    }
}

/// Renders a gRPC status code as the decimal text carried in a
/// `grpc-status` trailer.
pub fn code_header(code: GrpcCode) -> (r: String)
    ensures
        r@ == spec_code_header(code),
{
    match code {
        GrpcCode::Okay => String::from_str("0"),
        GrpcCode::Cancelled => String::from_str("1"),
        GrpcCode::Unknown => String::from_str("2"),
        GrpcCode::InvalidArgument => String::from_str("3"),
        GrpcCode::DeadlineExceeded => String::from_str("4"),
        GrpcCode::NotFound => String::from_str("5"),
        GrpcCode::AlreadyExists => String::from_str("6"),
        GrpcCode::PermissionDenied => String::from_str("7"),
        GrpcCode::ResourceExhausted => String::from_str("8"),
        GrpcCode::FailedPrecondition => String::from_str("9"),
        GrpcCode::Aborted => String::from_str("10"),
        GrpcCode::OutOfRange => String::from_str("11"),
        GrpcCode::Unimplemented => String::from_str("12"),
        GrpcCode::Internal => String::from_str("13"),
        GrpcCode::Unavailable => String::from_str("14"),
        GrpcCode::DataLoss => String::from_str("15"),
        GrpcCode::Unauthenticated => String::from_str("16"),
    }
}

/// The gRPC status code synthesized for a chain: the first recognized
/// cause decides; an unrecognized leaf falls back to `Internal`.
pub open spec fn spec_grpc_code(e: ErrorChain) -> GrpcCode
    decreases e,
{
    match e.cause {
        Cause::ResponseTimeout => GrpcCode::DeadlineExceeded,
        Cause::FailFast => GrpcCode::Unavailable,
        Cause::DispatchTimeout => GrpcCode::Unavailable,
        Cause::IdentityRequired(_) => GrpcCode::FailedPrecondition,
        Cause::Io(_) => GrpcCode::Unavailable,
        _ => match e.source {
            Some(s) => spec_grpc_code(*s),
            None => GrpcCode::Internal,
        },
    }
}

/// The gRPC status message synthesized for a chain: a fixed text for
/// the timeout, fail-fast and I/O causes, and the deciding node's own
/// display message otherwise.
pub open spec fn spec_grpc_message(e: ErrorChain) -> Seq<char>
    decreases e,
{
    match e.cause {
        Cause::ResponseTimeout => "request timed out"@,
        Cause::FailFast => "proxy max-concurrency exhausted"@,
        Cause::DispatchTimeout => "proxy dispatch timed out"@,
        Cause::IdentityRequired(id) => id.spec_message(),
        Cause::Io(_) => "connection closed"@,
        _ => match e.source {
            Some(s) => spec_grpc_message(*s),
            None => spec_cause_message(e.cause),
        },
    }
}

/// Whether the chain's gRPC message is attached only after a
/// header-value validity check: true for the identity cause and for
/// the unrecognized-leaf fallback, whose messages are not fixed text.
pub open spec fn spec_grpc_message_checked(e: ErrorChain) -> bool
    decreases e,
{
    match e.cause {
        Cause::ResponseTimeout => false,
        Cause::FailFast => false,
        Cause::DispatchTimeout => false,
        Cause::IdentityRequired(_) => true,
        Cause::Io(_) => false,
        _ => match e.source {
            Some(s) => spec_grpc_message_checked(*s),
            None => true,
        },
    }
}

/// Whether a byte may appear in an HTTP header value: any byte except
/// the control range and DEL, plus tab.
pub open spec fn spec_valid_header_byte(b: u8) -> bool {
    (b >= 32 && b != 127) || b == 9
}

/// Whether every byte of a rendered string may appear in an HTTP
/// header value.
pub open spec fn spec_header_value_ok(s: Seq<char>) -> bool {
    forall|i: int|
        0 <= i < vstd::utf8::encode_utf8(s).len() ==> spec_valid_header_byte(
            #[trigger] vstd::utf8::encode_utf8(s)[i],
        )
}

/// Relies on `http::HeaderValue::from_str`: it accepts a string
/// exactly when every byte is outside the ASCII control range and not
/// DEL, tab excepted.
#[verifier::external_body]
fn is_valid_header_value(s: &str) -> (r: bool)
    ensures
        r == spec_header_value_ok(s@),
{
    http::HeaderValue::from_str(s).is_ok()
}

/// A gRPC trailer set: the status code and, when one could be
/// attached, the status message.
#[derive(Debug)]
pub struct GrpcTrailers {
    pub status: GrpcCode,
    pub message: Option<String>,
}

/// Relates a chain to the trailer set synthesized for it: the status
/// is the chain's gRPC code; the message is the chain's gRPC message,
/// attached unconditionally for fixed texts and only when it is a
/// valid header value otherwise.
pub open spec fn spec_grpc_trailers_for(e: ErrorChain, t: GrpcTrailers) -> bool {
    &&& t.status == spec_grpc_code(e)
    &&& if spec_grpc_message_checked(e) {
        if spec_header_value_ok(spec_grpc_message(e)) {
            t.message matches Some(m) && m@ == spec_grpc_message(e)
        } else {
            t.message is None
        }
    } else {
        t.message matches Some(m) && m@ == spec_grpc_message(e)
    }
}

/// Synthesizes the gRPC trailer set for a failure: walks the chain
/// for the first recognized cause and materializes its status code
/// and message per the classification table.
pub fn grpc_status(error: &ErrorChain) -> (r: GrpcTrailers)
    ensures
        spec_grpc_trailers_for(*error, r),
    decreases *error,
{
    match &error.cause {
        Cause::ResponseTimeout => GrpcTrailers {
            status: GrpcCode::DeadlineExceeded,
            message: Some(String::from_str("request timed out")),
        },
        Cause::FailFast => GrpcTrailers {
            status: GrpcCode::Unavailable,
            message: Some(String::from_str("proxy max-concurrency exhausted")),
        },
        Cause::DispatchTimeout => GrpcTrailers {
            status: GrpcCode::Unavailable,
            message: Some(String::from_str("proxy dispatch timed out")),
        },
        Cause::IdentityRequired(id) => {
            let msg = id.message();
            let message = if is_valid_header_value(msg.as_str()) {
                Some(msg)
            } else {
                None
            };
            GrpcTrailers { status: GrpcCode::FailedPrecondition, message }
        },
        Cause::Io(_) => GrpcTrailers {
            status: GrpcCode::Unavailable,
            message: Some(String::from_str("connection closed")),
        },
        _ => match &error.source {
            Some(source) => grpc_status(source),
            None => {
                let msg = error.cause.message();
                let message = if is_valid_header_value(msg.as_str()) {
                    Some(msg)
                } else {
                    None
                };
                GrpcTrailers { status: GrpcCode::Internal, message }
            },
        },
    }
}

impl GrpcTrailers {
    /// Renders this trailer set as wire header pairs: `grpc-status`,
    /// then `grpc-message` when a message is attached.
    pub fn render(&self) -> (r: Vec<(String, String)>)
        ensures
            r@.len() == (if self.message is Some { 2int } else { 1int }),
            r@[0].0@ == "grpc-status"@,
            r@[0].1@ == spec_code_header(self.status),
            self.message matches Some(m) ==> r@[1].0@ == "grpc-message"@ && r@[1].1@ == m@,
    {
        let mut out: Vec<(String, String)> = Vec::new();
        out.push((String::from_str("grpc-status"), code_header(self.status)));
        match &self.message {
            Some(m) => {
                out.push((String::from_str("grpc-message"), String::from_str(m.as_str())));
            },
            None => {},
        }
        out
    }
}

/// Whether a byte sequence begins with the sixteen bytes of
/// `application/grpc`.
pub open spec fn spec_grpc_prefix(bs: Seq<u8>) -> bool {
    &&& bs.len() >= 16
    &&& bs[0] == 97u8
    &&& bs[1] == 112u8
    &&& bs[2] == 112u8
    &&& bs[3] == 108u8
    &&& bs[4] == 105u8
    &&& bs[5] == 99u8
    &&& bs[6] == 97u8
    &&& bs[7] == 116u8
    &&& bs[8] == 105u8
    &&& bs[9] == 111u8
    &&& bs[10] == 110u8
    &&& bs[11] == 47u8
    &&& bs[12] == 103u8
    &&& bs[13] == 114u8
    &&& bs[14] == 112u8
    &&& bs[15] == 99u8
}

/// Whether a request's content type marks it as gRPC: present and
/// beginning with `application/grpc`.
pub open spec fn spec_is_grpc(ct: Option<String>) -> bool {
    match ct {
        Some(s) => spec_grpc_prefix(vstd::utf8::encode_utf8(s@)),
        None => false,
    }
}

/// Whether a content type begins with `application/grpc`.
pub fn is_grpc_content_type(ct: &Option<String>) -> (r: bool)
    ensures
        r == spec_is_grpc(*ct),
{
    match ct {
        Some(s) => {
            let b = s.as_str().as_bytes_vec();
            if b.len() < 16 {
                false
            } else {
                b[0] == 97u8 && b[1] == 112u8 && b[2] == 112u8 && b[3] == 108u8 && b[4] == 105u8
                    && b[5] == 99u8 && b[6] == 97u8 && b[7] == 116u8 && b[8] == 105u8
                    && b[9] == 111u8 && b[10] == 110u8 && b[11] == 47u8 && b[12] == 103u8
                    && b[13] == 114u8 && b[14] == 112u8 && b[15] == 99u8
            }
        },
        None => false,
    }
}

/// What a respond context reads from a request when it arrives: the
/// protocol version and the content-type header, if one was present
/// and was valid text.
#[derive(Debug)]
pub struct Request {
    pub version: Version,
    pub content_type: Option<String>,
}

/// Captures a respond context per request.
#[derive(Copy, Clone, Debug)]
pub struct NewRespond(());

/// The responder layer: a context factory for the outermost error
/// interceptor.
pub fn layer() -> NewRespond {
    NewRespond(())
}

/// The per-request respond context: which synthesis strategy applies
/// to this request's outcome. Immutable once captured.
#[derive(Copy, Clone, Debug, PartialEq, Eq, Structural)]
pub enum Respond {
    Http1(Version),
    Http2 { is_grpc: bool },
}

/// The context captured for a request: HTTP/2 requests record whether
/// they are gRPC; anything else records its version.
pub open spec fn spec_new_respond(req: Request) -> Respond {
    if req.version == Version::Http2 {
        Respond::Http2 { is_grpc: spec_is_grpc(req.content_type) }
    } else {
        Respond::Http1(req.version)
    }
}

impl NewRespond {
    /// Captures the respond context for an arriving request.
    pub fn new_respond(&self, req: &Request) -> (r: Respond)
        ensures
            r == spec_new_respond(*req),
    {
        match req.version {
            Version::Http2 => Respond::Http2 { is_grpc: is_grpc_content_type(&req.content_type) },
            v => Respond::Http1(v),
        }
    }
}

/// An HTTP response: status line data, headers in order, and a body.
#[derive(Debug)]
pub struct Response<B> {
    pub version: Version,
    pub status: u16,
    pub headers: Vec<(String, String)>,
    pub body: B,
}

/// A response body handed back to the transport: either a plain body,
/// or a gRPC-wrapped body that may hold a pending trailer set after a
/// mid-stream failure.
#[derive(Debug)]
pub enum ResponseBody<B> {
    NonGrpc(B),
    Grpc { inner: B, trailers: Option<GrpcTrailers> },
}

/// One outcome of polling a body for data.
#[derive(Debug)]
pub enum BodyPoll<D> {
    /// No data yet; poll again later.
    Pending,
    /// One chunk of data.
    Chunk(D),
    /// The data stream is exhausted.
    End,
    /// The body failed.
    Failed(ErrorChain),
}

/// What a trailer poll decided: a synthesized trailer set, or an
/// instruction to delegate to the inner body.
#[derive(Debug)]
pub enum TrailerStep {
    /// Return this pending trailer set; the inner body is not
    /// consulted.
    Ready(GrpcTrailers),
    /// No pending set: the caller polls the inner body for its own
    /// trailers.
    Delegate,
}

impl<B> ResponseBody<B> {
    /// The wrapped body.
    pub open spec fn spec_inner(self) -> B {
        match self {
            ResponseBody::NonGrpc(b) => b,
            ResponseBody::Grpc { inner, .. } => inner,
        }
    }

    /// The pending trailer set, if a mid-stream failure produced one.
    pub open spec fn spec_pending_trailers(self) -> Option<GrpcTrailers> {
        match self {
            ResponseBody::NonGrpc(_) => None,
            ResponseBody::Grpc { trailers, .. } => trailers,
        }
    }

    /// Whether the inner body may still be polled for data: once a
    /// pending trailer set exists, the data stream is exhausted and
    /// the inner body must not be polled again.
    pub open spec fn spec_wants_data(self) -> bool {
        self.spec_pending_trailers() is None
    }

    /// Feeds the wrapper one inner data-poll outcome. A plain body
    /// passes the outcome through. A gRPC body converts a failure
    /// into a pending trailer set — classified by the same chain walk
    /// as a synthesized response — and reports the data stream
    /// exhausted; every other outcome passes through.
    pub fn poll_data<D>(&mut self, inner: BodyPoll<D>) -> (r: BodyPoll<D>)
        requires
            old(self).spec_wants_data(),
        ensures
            final(self).spec_inner() == old(self).spec_inner(),
            ((*final(self)) matches ResponseBody::NonGrpc(_)) == ((*old(self))
                matches ResponseBody::NonGrpc(_)),
            old(self) matches ResponseBody::NonGrpc(_) ==> r == inner
                && final(self).spec_pending_trailers() is None,
            old(self) matches ResponseBody::Grpc { .. } ==> match inner {
                BodyPoll::Failed(e) => r == BodyPoll::<D>::End
                    && (final(self).spec_pending_trailers() matches Some(t)
                    && spec_grpc_trailers_for(e, t)),
                _ => r == inner && final(self).spec_pending_trailers() is None,
            },
    {
        match self {
            ResponseBody::NonGrpc(_) => inner,
            ResponseBody::Grpc { trailers, .. } => match inner {
                BodyPoll::Failed(error) => {
                    let t = grpc_status(&error);
                    *trailers = Some(t);
                    BodyPoll::End
                },
                other => other,
            },
        }
    }

    /// Decides a trailer poll. A pending trailer set is taken and
    /// returned directly — the inner body is never consulted for it;
    /// with no pending set the caller is told to delegate to the
    /// inner body.
    pub fn poll_trailers(&mut self) -> (r: TrailerStep)
        ensures
            final(self).spec_inner() == old(self).spec_inner(),
            ((*final(self)) matches ResponseBody::NonGrpc(_)) == ((*old(self))
                matches ResponseBody::NonGrpc(_)),
            final(self).spec_pending_trailers() is None,
            match old(self).spec_pending_trailers() {
                Some(t) => r == TrailerStep::Ready(t),
                None => r == TrailerStep::Delegate,
            },
    {
        match self {
            ResponseBody::NonGrpc(_) => TrailerStep::Delegate,
            ResponseBody::Grpc { trailers, .. } => match trailers.take() {
                Some(t) => TrailerStep::Ready(t),
                None => TrailerStep::Delegate,
            },
        }
    }

    /// Whether the stream is over, given whether the inner body says
    /// its own stream is: a pending trailer set still has to be
    /// delivered, so it keeps the stream open.
    pub fn is_end_stream(&self, inner_end: bool) -> (r: bool)
        ensures
            r == (self.spec_pending_trailers() is None && inner_end),
    {
        match self {
            ResponseBody::NonGrpc(_) => inner_end,
            ResponseBody::Grpc { trailers, .. } => trailers.is_none() && inner_end,
        }
    }
}

/// Whether a message accompanies the chain's synthesized gRPC status:
/// always for the fixed texts, and only when the text is a valid
/// header value for the identity and unrecognized-leaf messages.
pub open spec fn spec_grpc_message_attached(e: ErrorChain) -> bool {
    !spec_grpc_message_checked(e) || spec_header_value_ok(spec_grpc_message(e))
}

/// The version a synthesized plain-HTTP error response carries: the
/// request's own version.
pub open spec fn spec_error_version(ctx: Respond) -> Version {
    match ctx {
        Respond::Http1(v) => v,
        Respond::Http2 { .. } => Version::Http2,
    }
}

impl Respond {
    /// Converts a request outcome into a response.
    ///
    /// A success passes through unchanged in status, headers and body
    /// identity, aside from the body wrapper: gRPC requests get the
    /// gRPC wrapper with no pending trailers, everything else the
    /// plain wrapper. A failure on an HTTP/2 request that carries a
    /// native reset reason is propagated unchanged, for the transport
    /// to emit the reset. Any other failure on a gRPC request becomes
    /// an HTTP/2 response with an empty body whose headers carry
    /// `content-length: 0` and the classified `grpc-status` and
    /// `grpc-message`. Any other failure becomes a response in the
    /// request's version with the classified HTTP status,
    /// `content-length: 0` and an empty body.
    pub fn respond<B: Default>(&self, result: Result<Response<B>, ErrorChain>) -> (r: Result<
        Response<ResponseBody<B>>,
        ErrorChain,
    >)
        ensures
            match result {
                Ok(rsp) => {
                    &&& r matches Ok(out)
                    &&& out.version == rsp.version
                    &&& out.status == rsp.status
                    &&& out.headers@ == rsp.headers@
                    &&& out.body.spec_inner() == rsp.body
                    &&& out.body.spec_pending_trailers() is None
                    &&& (out.body matches ResponseBody::Grpc { .. }) == (*self == Respond::Http2 {
                        is_grpc: true,
                    })
                },
                Err(e) => {
                    if (*self matches Respond::Http2 { .. }) && spec_h2_reason(e) is Some {
                        r == Err::<Response<ResponseBody<B>>, ErrorChain>(e)
                    } else if *self == (Respond::Http2 { is_grpc: true }) {
                        &&& r matches Ok(out)
                        &&& out.version == Version::Http2
                        &&& out.status == 200
                        &&& out.headers@.len() == (if spec_grpc_message_attached(e) {
                            3int
                        } else {
                            2int
                        })
                        &&& out.headers@[0].0@ == "content-length"@
                        &&& out.headers@[0].1@ == "0"@
                        &&& out.headers@[1].0@ == "grpc-status"@
                        &&& out.headers@[1].1@ == spec_code_header(spec_grpc_code(e))
                        &&& spec_grpc_message_attached(e) ==> out.headers@[2].0@
                            == "grpc-message"@ && out.headers@[2].1@ == spec_grpc_message(e)
                        &&& out.body matches ResponseBody::NonGrpc(_)
                    } else {
                        &&& r matches Ok(out)
                        &&& out.version == spec_error_version(*self)
                        &&& out.status == spec_http_status(e)
                        &&& out.headers@.len() == 1
                        &&& out.headers@[0].0@ == "content-length"@
                        &&& out.headers@[0].1@ == "0"@
                        &&& out.body matches ResponseBody::NonGrpc(_)
                    }
                },
            },
    {
        match result {
            Ok(response) => {
                let Response { version, status, headers, body } = response;
                let wrapped = match self {
                    Respond::Http2 { is_grpc } => if *is_grpc {
                        ResponseBody::Grpc { inner: body, trailers: None }
                    } else {
                        ResponseBody::NonGrpc(body)
                    },
                    _ => ResponseBody::NonGrpc(body),
                };
                Ok(Response { version, status, headers, body: wrapped })
            },
            Err(error) => {
                if let Respond::Http2 { is_grpc } = self {
                    if error.h2_reason().is_some() {
                        return Err(error);
                    }
                    if *is_grpc {
                        let t = grpc_status(&error);
                        let mut headers: Vec<(String, String)> = Vec::new();
                        headers.push((String::from_str("content-length"), String::from_str("0")));
                        headers.push((String::from_str("grpc-status"), code_header(t.status)));
                        match t.message {
                            Some(m) => {
                                headers.push((String::from_str("grpc-message"), m));
                            },
                            None => {},
                        }
                        return Ok(
                            Response {
                                version: Version::Http2,
                                status: 200,
                                headers,
                                body: ResponseBody::default(),
                            },
                        );
                    }
                }
                let version = match self {
                    Respond::Http1(v) => *v,
                    Respond::Http2 { .. } => Version::Http2,
                };
                let status = http_status(&error);
                let mut headers: Vec<(String, String)> = Vec::new();
                headers.push((String::from_str("content-length"), String::from_str("0")));
                Ok(Response { version, status, headers, body: ResponseBody::default() })
            },
        }
    }
}

/// A chain classified as a response timeout always synthesizes HTTP
/// status 504 and, for a gRPC request, status `DeadlineExceeded`
/// (wire text `4`) with the fixed message `request timed out`.
pub proof fn lemma_response_timeout_mapping(e: ErrorChain)
    requires
        spec_reason(e) == crate::errors::Reason::ResponseTimeout,
    ensures
        spec_http_status(e) == 504,
        spec_grpc_code(e) == GrpcCode::DeadlineExceeded,
        spec_grpc_message(e) == "request timed out"@,
        spec_grpc_message_attached(e),
    decreases e,
{
    match e.cause {
        Cause::H2Reset(_) => match e.source {
            Some(s) => lemma_response_timeout_mapping(*s),
            None => {},
        },
        Cause::Other(_) => match e.source {
            Some(s) => lemma_response_timeout_mapping(*s),
            None => {},
        },
        _ => {},
    }
}

/// Whether the chain reaches a fail-fast cause with no recognized
/// cause standing before it on the walk.
pub open spec fn spec_failfast_first(e: ErrorChain) -> bool
    decreases e,
{
    match e.cause {
        Cause::FailFast => true,
        c => !crate::errors::spec_recognized(c) && match e.source {
            Some(s) => spec_failfast_first(*s),
            None => false,
        },
    }
}

/// A chain holding a fail-fast cause anywhere, with no other
/// recognized cause before it, classifies as fail-fast via the chain
/// walk: HTTP status 503 and gRPC status `Unavailable` (wire text
/// `14`) with the fixed message `proxy max-concurrency exhausted`.
pub proof fn lemma_failfast_found_by_walk(e: ErrorChain)
    requires
        spec_failfast_first(e),
    ensures
        spec_reason(e) == crate::errors::Reason::FailFast,
        spec_http_status(e) == 503,
        spec_grpc_code(e) == GrpcCode::Unavailable,
        spec_grpc_message(e) == "proxy max-concurrency exhausted"@,
        spec_grpc_message_attached(e),
    decreases e,
{
    match e.cause {
        Cause::H2Reset(_) => match e.source {
            Some(s) => lemma_failfast_found_by_walk(*s),
            None => {},
        },
        Cause::Other(_) => match e.source {
            Some(s) => lemma_failfast_found_by_walk(*s),
            None => {},
        },
        _ => {},
    }
}

/// Classification is deterministic end to end: equal chains yield the
/// same reason, the same HTTP status, and the same gRPC status,
/// message and message-attachment decision.
pub proof fn lemma_classification_deterministic(a: ErrorChain, b: ErrorChain)
    requires
        a == b,
    ensures
        spec_reason(a) == spec_reason(b),
        spec_http_status(a) == spec_http_status(b),
        spec_grpc_code(a) == spec_grpc_code(b),
        spec_grpc_message(a) == spec_grpc_message(b),
        spec_grpc_message_attached(a) == spec_grpc_message_attached(b),
{
}

/// Once a gRPC body wrapper holds a pending trailer set, the data
/// stream is exhausted: the wrapper admits no further inner data poll.
/// The trailer poll's own contract then returns exactly the pending
/// set, never a second inner-body poll.
pub proof fn lemma_pending_trailers_terminal<B>(b: ResponseBody<B>, t: GrpcTrailers)
    requires
        b.spec_pending_trailers() == Some(t),
    ensures
        !b.spec_wants_data(),
{
}

impl<B: Default> Default for ResponseBody<B> {
    /// An empty plain body.
    fn default() -> (r: ResponseBody<B>)
        ensures
            r matches ResponseBody::NonGrpc(_),
    {
        ResponseBody::NonGrpc(B::default())
    }
}

} // verus!
