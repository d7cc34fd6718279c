//! What the client asks of a transport, and what a transport reports back.
//!
//! The client performs no I/O. It describes a [`Request`]; a driver sends it
//! and reports the [`Outcome`].

use vstd::prelude::*;
use crate::text::decimal;

verus! {

/// The name of the header that carries the access token.
pub const TOKEN_HEADER: &'static str = "Token";

/// The HTTP method of a request.
#[derive(Debug, Clone, Copy, PartialEq, Eq, Structural)]
pub enum Method {
    Get,
    Post,
}

/// An HTTP request for the driver to send.
#[derive(Debug, Clone)]
pub struct Request {
    pub method: Method,
    pub url: String,
    /// The value of the [`TOKEN_HEADER`] header; `None` for the token request itself.
    pub token: Option<String>,
    /// The JSON-encoded body of a POST.
    pub body: Option<String>,
}

/// The mathematical content of a [`Request`].
pub struct RequestView {
    pub method: Method,
    pub url: Seq<char>,
    pub token: Option<Seq<char>>,
    pub body: Option<Seq<char>>,
}

/// The characters of an optional string.
pub open spec fn optional_text(text: Option<String>) -> Option<Seq<char>> {
    match text {
        Some(t) => Some(t@),
        None => None,
    }
}

impl View for Request {
    type V = RequestView;

    open spec fn view(&self) -> RequestView {
        RequestView {
            method: self.method,
            url: self.url@,
            token: optional_text(self.token),
            body: optional_text(self.body),
        }
    }
}

/// The reason phrase that `reqwest::StatusCode` prints after the number of a
/// status code, `<unknown status code>` where it knows none.
pub uninterp spec fn canonical_reason(code: u16) -> Seq<char>;

/// A status code as it appears in a message: its number, a space, its reason phrase.
pub open spec fn status_line(code: u16) -> Seq<char> {
    decimal(code as nat) + seq![' '] + canonical_reason(code)
}

/// Renders a status code with the `Display` of `reqwest::StatusCode`, which
/// writes the number in decimal, a space, and the canonical reason phrase.
/// `StatusCode::from_u16` accepts exactly the codes from 100 to 999.
#[verifier::external_body]
fn display_status(code: u16) -> (line: Option<String>)
    ensures
        line is Some <==> 100 <= code <= 999,
        line matches Some(text) ==> text@ == decimal(code as nat) + seq![' '] + canonical_reason(
            code,
        ),
{
    reqwest::StatusCode::from_u16(code).ok().map(|status| status.to_string())
}

/// An HTTP status code, between 100 and 999.
#[derive(Debug, Clone, Copy)]
pub struct Status {
    code: u16,
}

impl Status {
    #[verifier::type_invariant]
    spec fn in_range(self) -> bool {
        100 <= self.code <= 999
    }

    /// The number of this status code.
    pub closed spec fn number(self) -> u16 {
        self.code
    }

    /// The status with the given number, if it lies between 100 and 999.
    pub fn new(code: u16) -> (status: Option<Status>)
        ensures
            status is Some <==> 100 <= code <= 999,
            status matches Some(s) ==> s.number() == code,
    {
        if 100 <= code && code <= 999 {
            Some(Status { code })
        } else {
            None
        }
    }

    /// The number of this status code.
    pub fn code(&self) -> (code: u16)
        ensures
            code == self.number(),
            100 <= code <= 999,
    {
        proof {
            use_type_invariant(self);
        }
        self.code
    }

    /// Whether this is status 200, the only one that counts as success.
    pub fn is_success(&self) -> (ok: bool)
        ensures
            ok == (self.number() == 200),
    {
        self.code == 200
    }

    /// The status as it appears in a message.
    pub fn line(&self) -> (line: String)
        ensures
            line@ == status_line(self.number()),
    {
        proof {
            use_type_invariant(self);
        }
        match display_status(self.code) {
            Some(line) => line,
            None => String::new(),
        }
    }
}

/// What the transport reports of one request.
#[derive(Debug, Clone)]
pub enum Outcome {
    /// The request could not be completed; the text says why.
    SendFailed(String),
    /// A response arrived, but its body could not be read as text; the text says why.
    BodyFailed(String),
    /// A response arrived, with this status and this body.
    Received { status: Status, body: String },
}

/// The mathematical content of an [`Outcome`].
pub enum OutcomeView {
    SendFailed(Seq<char>),
    BodyFailed(Seq<char>),
    Received { code: u16, body: Seq<char> },
}

impl View for Outcome {
    type V = OutcomeView;

    open spec fn view(&self) -> OutcomeView {
        match *self {
            Outcome::SendFailed(reason) => OutcomeView::SendFailed(reason@),
            Outcome::BodyFailed(reason) => OutcomeView::BodyFailed(reason@),
            Outcome::Received { status, body } => OutcomeView::Received {
                code: status.number(),
                body: body@,
            },
        }
    }
}

/// Whether a character may stand in a header value: a tab, or any character
/// but the ASCII control characters.
pub open spec fn header_char_ok(c: char) -> bool {
    c == '\t' || (c >= ' ' && c != '\x7f')
}

/// Whether a text may be sent as a header value.
pub open spec fn header_value_ok(text: Seq<char>) -> bool {
    forall|i: int| 0 <= i < text.len() ==> header_char_ok(#[trigger] text[i])
}

/// What `reqwest::header::HeaderValue::from_str` objects to in a text, as the
/// `Display` of its error prints it. The function refuses a text exactly if one
/// of its bytes is below 32 and no tab, or is 127; its error always prints the
/// same sentence.
#[verifier::external_body]
pub(crate) fn header_value_objection(text: &str) -> (objection: Option<String>)
    ensures
        objection is None <==> header_value_ok(text@),
        objection matches Some(reason) ==> reason@ == "failed to parse header value"@,
{
    reqwest::header::HeaderValue::from_str(text).err().map(|e| e.to_string())
}

} // verus!
