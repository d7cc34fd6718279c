//! How the outcome of a request is classified, and what the messages say.

use vstd::prelude::*;
use crate::error::{Error, ErrorKind, ErrorView};
use crate::transport::{status_line, Outcome, OutcomeView};

verus! {

/// The message for a request that the transport could not complete.
pub open spec fn send_failure(reason: Seq<char>) -> Seq<char> {
    "Could not send message ("@ + reason + ")."@
}

/// The message for a response whose body the transport could not read.
pub open spec fn body_failure(reason: Seq<char>) -> Seq<char> {
    "Could not read response ("@ + reason + ")."@
}

/// The message for a body that is no JSON.
pub open spec fn unreadable(reason: Seq<char>) -> Seq<char> {
    "Could not deserialize response ("@ + reason + ")."@
}

/// The message for a body that does not have the expected shape; it quotes the body.
pub open spec fn undecodable(reason: Seq<char>, body: Seq<char>) -> Seq<char> {
    "Could not deserialize response ("@ + reason + ") from "@ + body + "."@
}

/// The message for a status other than 200: the status, the body as it came,
/// the address that was called and, for an authenticated call, the token.
pub open spec fn refusal(code: u16, body: Seq<char>, url: Seq<char>, token: Option<Seq<char>>) -> Seq<
    char,
> {
    let head = "Got "@ + status_line(code) + " / "@ + body + " calling "@ + url;
    match token {
        Some(t) => head + " with token "@ + t + "."@,
        None => head + "."@,
    }
}

/// The body of a reply that counts as a success, or the error that the
/// outcome amounts to. Only status 200 is a success; whatever the transport
/// could not complete, sending the request or reading the body, is a
/// `NetworkError`.
pub open spec fn reply_text(url: Seq<char>, token: Option<Seq<char>>, outcome: OutcomeView) -> Result<
    Seq<char>,
    ErrorView,
> {
    match outcome {
        OutcomeView::SendFailed(reason) => Err(
            ErrorView { kind: ErrorKind::NetworkError, message: send_failure(reason) },
        ),
        OutcomeView::BodyFailed(reason) => Err(
            ErrorView { kind: ErrorKind::NetworkError, message: body_failure(reason) },
        ),
        OutcomeView::Received { code, body } => if code == 200 {
            Ok(body)
        } else {
            Err(ErrorView { kind: ErrorKind::ApiError, message: refusal(code, body, url, token) })
        },
    }
}

/// That a decoder, given the text `text`, answered `decoded`.
pub open spec fn decoded_by<T, D: Fn(&String) -> Result<T, String>>(
    decode: D,
    text: Seq<char>,
    decoded: Result<T, String>,
) -> bool {
    exists|input: String| input@ == text && #[trigger] decode.ensures((&input,), decoded)
}

/// What becomes of a body once its decoder has answered: the decoded value as
/// it is, or a `ParseError` that quotes the decoder's reason and the body.
pub open spec fn decoded_from<T>(
    text: Seq<char>,
    decoded: Result<T, String>,
    result: Result<T, Error>,
) -> bool {
    match decoded {
        Ok(value) => result == Ok::<T, Error>(value),
        Err(reason) => result matches Err(e) && e@ == (ErrorView {
            kind: ErrorKind::ParseError,
            message: undecodable(reason@, text),
        }),
    }
}

/// That `result` is what becomes of the body `text` when `decode` reads it.
pub open spec fn body_read<T, F: Fn(&String) -> Result<T, String>>(
    text: Seq<char>,
    decode: F,
    result: Result<T, Error>,
) -> bool {
    exists|decoded: Result<T, String>| #[trigger]
        decoded_by(decode, text, decoded) && decoded_from(text, decoded, result)
}

/// The characters of an optional borrowed string.
pub open spec fn borrowed_text(text: Option<&String>) -> Option<Seq<char>> {
    match text {
        Some(t) => Some(t@),
        None => None,
    }
}

/// Joins three texts.
pub fn join3(first: &str, second: &str, third: &str) -> (text: String)
    ensures
        text@ == first@ + second@ + third@,
{
    let mut text = String::from_str(first);
    text.append(second);
    text.append(third);
    text
}

/// Classifies the outcome of the request to `url`, sent with `token` if it was
/// an authenticated one: the body of a reply with status 200, or the error.
pub fn classify(url: &str, token: Option<&String>, outcome: Outcome) -> (body: Result<
    String,
    Error,
>)
    ensures
        match reply_text(url@, borrowed_text(token), outcome@) {
            Ok(text) => body matches Ok(b) && b@ == text,
            Err(error) => body matches Err(e) && e@ == error,
        },
{
    match outcome {
        Outcome::SendFailed(reason) => Err(
            Error::NetworkError(join3("Could not send message (", reason.as_str(), ").")),
        ),
        Outcome::BodyFailed(reason) => Err(
            Error::NetworkError(join3("Could not read response (", reason.as_str(), ").")),
        ),
        Outcome::Received { status, body } => {
            if status.is_success() {
                Ok(body)
            } else {
                let line = status.line();
                let mut message = String::from_str("Got ");
                message.append(line.as_str());
                message.append(" / ");
                message.append(body.as_str());
                message.append(" calling ");
                message.append(url);
                match token {
                    Some(t) => {
                        message.append(" with token ");
                        message.append(t.as_str());
                    },
                    None => {},
                }
                message.append(".");
                Err(Error::ApiError(message))
            }
        },
    }
}

/// Hands a body to its decoder and turns the answer into the result of the call.
pub fn read_body<T, F: Fn(&String) -> Result<T, String>>(text: &String, decode: F) -> (result:
    Result<T, Error>)
    requires
        forall|input: &String| decode.requires((input,)),
    ensures
        body_read(text@, decode, result),
{
    let decoded = decode(text);
    assert(decoded_by(decode, text@, decoded));
    decoded_body(text, decoded)
}

/// Turns the answer of a body's decoder into the result of the call.
pub fn decoded_body<T>(text: &String, decoded: Result<T, String>) -> (result: Result<T, Error>)
    ensures
        decoded_from(text@, decoded, result),
{
    match decoded {
        Ok(value) => Ok(value),
        Err(reason) => {
            let mut message = join3("Could not deserialize response (", reason.as_str(), ") from ");
            message.append(text.as_str());
            message.append(".");
            Err(Error::ParseError(message))
        },
    }
}

} // verus!
