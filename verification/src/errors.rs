//! Error-chain classification and error metric labels.
//!
//! A runtime failure is a chain of causes. Classification walks the
//! chain depth-first and maps the first recognized cause to a
//! [`Reason`]; independent walks map the same chain to an HTTP status
//! and to a gRPC status (see the respond module). A classified reason,
//! paired with a traffic direction, is recorded as a metric label.

use vstd::prelude::*;
use vstd::string::StringExecFns;

verus! {

/// Traffic direction, the first half of an error metric label.
#[derive(Copy, Clone, Debug, PartialEq, Eq, Hash, Structural)]
pub enum Direction {
    In,
    Out,
}

/// A required peer identity was missing or did not match.
#[derive(Debug)]
pub struct IdentityRequired {
    pub required: String,
    pub found: Option<String>,
}

/// One cause in an error chain. The first five variants are the causes
/// the classification walks recognize; a reset or any other failure is
/// walked past into its source.
#[derive(Debug)]
pub enum Cause {
    /// A dispatch-stage deadline elapsed before the handler accepted
    /// the request.
    DispatchTimeout,
    /// The response deadline elapsed.
    ResponseTimeout,
    /// A required peer identity was missing or mismatched.
    IdentityRequired(IdentityRequired),
    /// An underlying I/O failure, with the OS error code if one was
    /// reported.
    Io(Option<i32>),
    /// Concurrency budget exhausted; the handler is failing fast.
    FailFast,
    /// The failure carries a native HTTP/2 reset reason.
    H2Reset(u32),
    /// Any other failure, carrying its display message.
    Other(String),
}

/// A failure with its chain of causes: a cause plus an optional
/// source, forming a non-cyclic singly-linked chain ending at a leaf.
#[derive(Debug)]
pub struct ErrorChain {
    pub cause: Cause,
    pub source: Option<Box<ErrorChain>>,
}

/// The closed classification of an error chain: the leaf-most
/// recognized cause, or `Unexpected` when no cause is recognized.
#[derive(Copy, Clone, Debug, PartialEq, Eq, Hash)]
pub enum Reason {
    DispatchTimeout,
    ResponseTimeout,
    IdentityRequired,
    Io(Option<i32>),
    FailFast,
    Unexpected,
}

/// The error raised when a connection target would route the proxy
/// back to itself.
#[derive(Copy, Clone, Debug, PartialEq, Eq, Structural)]
pub struct LoopDetected;

impl Default for LoopDetected {
    fn default() -> (r: Self)
        ensures
            r == LoopDetected,
    {
        LoopDetected
    }
}

/// Whether a cause is one the classification walks recognize, so that
/// a walk stops at it rather than recursing into its source.
pub open spec fn spec_recognized(c: Cause) -> bool {
    match c {
        Cause::DispatchTimeout => true,
        Cause::ResponseTimeout => true,
        Cause::IdentityRequired(_) => true,
        Cause::Io(_) => true,
        Cause::FailFast => true,
        Cause::H2Reset(_) => false,
        Cause::Other(_) => false,
    }
}

/// The classification of a chain: the first recognized cause found
/// walking from the outermost error toward the leaf, else
/// `Unexpected`.
pub open spec fn spec_reason(e: ErrorChain) -> Reason
    decreases e,
{
    match e.cause {
        Cause::ResponseTimeout => Reason::ResponseTimeout,
        Cause::FailFast => Reason::FailFast,
        Cause::DispatchTimeout => Reason::DispatchTimeout,
        Cause::IdentityRequired(_) => Reason::IdentityRequired,
        Cause::Io(code) => Reason::Io(code),
        _ => match e.source {
            Some(s) => spec_reason(*s),
            None => Reason::Unexpected,
        },
    }
}

/// The HTTP status synthesized for a chain. This walk has no I/O
/// case: an I/O cause falls through to its source and, at the leaf,
/// to the 502 fallback shared with unrecognized causes.
pub open spec fn spec_http_status(e: ErrorChain) -> u16
    decreases e,
{
    match e.cause {
        Cause::ResponseTimeout => 504,
        Cause::FailFast => 503,
        Cause::DispatchTimeout => 503,
        Cause::IdentityRequired(_) => 403,
        _ => match e.source {
            Some(s) => spec_http_status(*s),
            None => 502,
        },
    }
}

/// The first native HTTP/2 reset reason found along the chain, if any.
pub open spec fn spec_h2_reason(e: ErrorChain) -> Option<u32>
    decreases e,
{
    match e.cause {
        Cause::H2Reset(r) => Some(r),
        _ => match e.source {
            Some(s) => spec_h2_reason(*s),
            None => None,
        },
    }
}

impl ErrorChain {
    /// A chain of a single cause.
    pub fn leaf(cause: Cause) -> (r: ErrorChain)
        ensures
            r == (ErrorChain { cause, source: None }),
    {
        ErrorChain { cause, source: None }
    }

    /// A cause wrapped around the chain it arose from.
    pub fn chained(cause: Cause, source: ErrorChain) -> (r: ErrorChain)
        ensures
            r == (ErrorChain { cause, source: Some(Box::new(source)) }),
    {
        ErrorChain { cause, source: Some(Box::new(source)) }
    }

    /// The first native HTTP/2 reset reason along the chain, if any.
    pub fn h2_reason(&self) -> (r: Option<u32>)
        ensures
            r == spec_h2_reason(*self),
        decreases *self,
    {
        match &self.cause {
            Cause::H2Reset(reset) => Some(*reset),
            _ => match &self.source {
                Some(s) => s.h2_reason(),
                None => None,
            },
        }
    }
}

/// The HTTP status synthesized for a chain: 504 for a response
/// timeout, 503 for fail-fast and dispatch timeouts, 403 for a missing
/// identity, else the source's status, else 502.
pub fn http_status(error: &ErrorChain) -> (r: u16)
    ensures
        r == spec_http_status(*error),
    decreases *error,
{
    match &error.cause {
        Cause::ResponseTimeout => 504,
        Cause::FailFast => 503,
        Cause::DispatchTimeout => 503,
        Cause::IdentityRequired(_) => 403,
        _ => match &error.source {
            Some(source) => http_status(source),
            None => 502,
        },
    }
}

impl IdentityRequired {
    /// The human-readable message carried by this cause.
    pub open spec fn spec_message(self) -> Seq<char> {
        match self.found {
            Some(f) => "request required the identity '"@ + self.required@ + "' but '"@ + f@
                + "' found"@,
            None => "request required the identity '"@ + self.required@
                + "' but no identity found"@,
        }
    }

    /// Renders the message for this cause.
    pub fn message(&self) -> (r: String)
        ensures
            r@ == self.spec_message(),
    {
        let mut s = String::from_str("request required the identity '");
        s.append(self.required.as_str());
        match &self.found {
            Some(f) => {
                s.append("' but '");
                s.append(f.as_str());
                s.append("' found");
            },
            None => {
                s.append("' but no identity found");
            },
        }
        proof {
            assert(s@ =~= self.spec_message());
        }
        s
    }
}

/// The display message of a cause, used where a synthesized gRPC
/// status carries the failing leaf's own message.
pub open spec fn spec_cause_message(c: Cause) -> Seq<char> {
    match c {
        Cause::DispatchTimeout => "proxy dispatch timed out"@,
        Cause::ResponseTimeout => "request timed out"@,
        Cause::IdentityRequired(id) => id.spec_message(),
        Cause::Io(_) => "connection closed"@,
        Cause::FailFast => "proxy max-concurrency exhausted"@,
        Cause::H2Reset(_) => "http2 stream reset"@,
        Cause::Other(m) => m@,
    }
}

impl Cause {
    /// Renders this cause's display message.
    pub fn message(&self) -> (r: String)
        ensures
            r@ == spec_cause_message(*self),
    {
        match self {
            Cause::DispatchTimeout => String::from_str("proxy dispatch timed out"),
            Cause::ResponseTimeout => String::from_str("request timed out"),
            Cause::IdentityRequired(id) => id.message(),
            Cause::Io(_) => String::from_str("connection closed"),
            Cause::FailFast => String::from_str("proxy max-concurrency exhausted"),
            Cause::H2Reset(_) => String::from_str("http2 stream reset"),
            Cause::Other(m) => String::from_str(m.as_str()),
        }
    }
}

/// Labels errors with a traffic direction for the metrics sink.
#[derive(Copy, Clone, Debug)]
pub struct LabelError(Direction);

impl LabelError {
    /// The direction this labeler stamps onto every label.
    pub closed spec fn direction(self) -> Direction {
        self.0
    }

    /// Classifies an error chain: walks the chain from the outermost
    /// cause and returns the first recognized one, else `Unexpected`.
    pub fn reason(err: &ErrorChain) -> (r: Reason)
        ensures
            r == spec_reason(*err),
        decreases *err,
    {
        match &err.cause {
            Cause::ResponseTimeout => Reason::ResponseTimeout,
            Cause::FailFast => Reason::FailFast,
            Cause::DispatchTimeout => Reason::DispatchTimeout,
            Cause::IdentityRequired(_) => Reason::IdentityRequired,
            Cause::Io(code) => Reason::Io(*code),
            _ => match &err.source {
                Some(e) => Self::reason(e),
                None => Reason::Unexpected,
            },
        }
    }

    /// Produces the metric label for an error: this labeler's
    /// direction and the chain's classified reason.
    pub fn label_error(&self, err: &ErrorChain) -> (r: (Direction, Reason))
        ensures
            r.0 == self.direction(),
            r.1 == spec_reason(*err),
    {
        (self.0, Self::reason(err))
    }
}

/// The decimal digits of `n`, most significant first.
pub open spec fn spec_decimal(n: nat) -> Seq<char>
    decreases n,
{
    if n < 10 {
        seq![spec_digit(n)]
    } else {
        spec_decimal(n / 10).push(spec_digit(n % 10))
    }
}

/// The character for one decimal digit.
pub open spec fn spec_digit(d: nat) -> char {
    if d == 0 {
        '0'
    } else if d == 1 {
        '1'
    } else if d == 2 {
        '2'
    } else if d == 3 {
        '3'
    } else if d == 4 {
        '4'
    } else if d == 5 {
        '5'
    } else if d == 6 {
        '6'
    } else if d == 7 {
        '7'
    } else if d == 8 {
        '8'
    } else {
        '9'
    }
}

/// Appends the decimal rendering of `n` to `s`.
fn push_decimal(s: &mut String, n: u64)
    ensures
        final(s)@ == old(s)@ + spec_decimal(n as nat),
    decreases n,
{
    proof {
        reveal_strlit("0");
        reveal_strlit("1");
        reveal_strlit("2");
        reveal_strlit("3");
        reveal_strlit("4");
        reveal_strlit("5");
        reveal_strlit("6");
        reveal_strlit("7");
        reveal_strlit("8");
        reveal_strlit("9");
    }
    let ghost pre = s@;
    if n >= 10 {
        push_decimal(s, n / 10);
    }
    let d = n % 10;
    if d == 0 {
        s.append("0");
    } else if d == 1 {
        s.append("1");
    } else if d == 2 {
        s.append("2");
    } else if d == 3 {
        s.append("3");
    } else if d == 4 {
        s.append("4");
    } else if d == 5 {
        s.append("5");
    } else if d == 6 {
        s.append("6");
    } else if d == 7 {
        s.append("7");
    } else if d == 8 {
        s.append("8");
    } else {
        s.append("9");
    }
    proof {
        assert(s@ =~= pre + spec_decimal(n as nat));
    }
}

/// The human reason text of a classified reason, as it appears in the
/// metric label.
pub open spec fn spec_reason_text(r: Reason) -> Seq<char> {
    match r {
        Reason::FailFast => "failfast"@,
        Reason::DispatchTimeout => "dispatch timeout"@,
        Reason::ResponseTimeout => "response timeout"@,
        Reason::IdentityRequired => "identity required"@,
        Reason::Io(_) => "i/o"@,
        Reason::Unexpected => "unexpected"@,
    }
}

/// The decimal rendering of an OS error code, with a sign when
/// negative.
pub open spec fn spec_errno_text(e: i32) -> Seq<char> {
    if e >= 0 {
        spec_decimal(e as nat)
    } else {
        seq!['-'] + spec_decimal((-(e as int)) as nat)
    }
}

/// The stable text of a reason's metric label:
/// `message="<human reason>"`, and `,errno="<code>"` for an I/O
/// failure that reported an OS error code.
pub open spec fn spec_label_text(r: Reason) -> Seq<char> {
    let base = "message=\""@ + spec_reason_text(r) + "\""@;
    match r {
        Reason::Io(Some(e)) => base + ",errno=\""@ + spec_errno_text(e) + "\""@,
        _ => base,
    }
}

impl Reason {
    /// Renders this reason's metric label.
    pub fn label_string(&self) -> (r: String)
        ensures
            r@ == spec_label_text(*self),
    {
        let mut s = String::from_str("message=\"");
        match self {
            Reason::FailFast => s.append("failfast"),
            Reason::DispatchTimeout => s.append("dispatch timeout"),
            Reason::ResponseTimeout => s.append("response timeout"),
            Reason::IdentityRequired => s.append("identity required"),
            Reason::Io(_) => s.append("i/o"),
            Reason::Unexpected => s.append("unexpected"),
        }
        s.append("\"");
        if let Reason::Io(Some(e)) = self {
            s.append(",errno=\"");
            if *e < 0 {
                proof {
                    reveal_strlit("-");
                }
                s.append("-");
                let m: u64 = (-(*e as i64)) as u64;
                push_decimal(&mut s, m);
            } else {
                push_decimal(&mut s, *e as u64);
            }
            s.append("\"");
        }
        proof {
            assert(s@ =~= spec_label_text(*self));
        }
        s
    }
}

/// Records classified error labels for the metrics subsystem. The
/// record is append-only: every terminal error adds one label.
#[derive(Debug)]
pub struct Metrics {
    recorded: Vec<(Direction, Reason)>,
}

impl Metrics {
    /// The labels recorded so far, oldest first.
    pub closed spec fn spec_recorded(self) -> Seq<(Direction, Reason)> {
        self.recorded@
    }

    /// A labeler that stamps the inbound direction.
    pub fn inbound(&self) -> (r: LabelError)
        ensures
            r.direction() == Direction::In,
    {
        LabelError(Direction::In)
    }

    /// A labeler that stamps the outbound direction.
    pub fn outbound(&self) -> (r: LabelError)
        ensures
            r.direction() == Direction::Out,
    {
        LabelError(Direction::Out)
    }

    /// Records a terminal error under the labeler's direction and the
    /// chain's classified reason.
    pub fn record(&mut self, labeler: &LabelError, err: &ErrorChain)
        ensures
            final(self).spec_recorded() == old(self).spec_recorded().push(
                (labeler.direction(), spec_reason(*err)),
            ),
    {
        let label = labeler.label_error(err);
        self.recorded.push(label);
    }

    /// A copy of every label recorded so far, oldest first.
    pub fn report(&self) -> (r: Vec<(Direction, Reason)>)
        ensures
            r@ == self.spec_recorded(),
    {
        let mut out: Vec<(Direction, Reason)> = Vec::new();
        let mut i: usize = 0;
        while i < self.recorded.len()
            invariant
                i <= self.recorded.len(),
                out@ == self.recorded@.subrange(0, i as int),
            decreases self.recorded.len() - i,
        {
            out.push(self.recorded[i]);
            i = i + 1;
            proof {
                assert(out@ =~= self.recorded@.subrange(0, i as int));
            }
        }
        proof {
            assert(out@ =~= self.recorded@);
        }
        out
    }
}

impl Default for Metrics {
    /// A registry with nothing recorded.
    fn default() -> (r: Self)
        ensures
            r.spec_recorded() == Seq::<(Direction, Reason)>::empty(),
    {
        Metrics { recorded: Vec::new() }
    }
}

} // verus!
