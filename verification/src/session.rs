//! The request executor: one authenticated call, step by step.
//!
//! A call takes two requests, one for a fresh token and one for the data. The
//! client decides; a driver sends. The driver starts a [`Session`], hands each
//! [`Event`] to the same operation, and does what the [`Action`] says until the
//! call is done.

use vstd::prelude::*;
use crate::auth::token_acquired;
use crate::client::{token_url, Client, ClientView, GetTokenResponse};
use crate::error::{Error, ErrorKind, ErrorView};
use crate::reply::{body_read, borrowed_text, classify, join3, read_body, reply_text};
use crate::transport::{
    header_value_objection,
    header_value_ok,
    Method,
    Outcome,
    Request,
    RequestView,
};

verus! {

/// How far a call has come.
#[derive(Debug, Clone)]
pub enum Session {
    /// Nothing was sent yet.
    Fresh,
    /// The token request is out.
    Authenticating,
    /// The authenticated request is out; it carries this token.
    Requesting { token: String },
    /// The call is over.
    Closed,
}

/// The mathematical content of a [`Session`].
pub enum SessionView {
    Fresh,
    Authenticating,
    Requesting { token: Seq<char> },
    Closed,
}

impl View for Session {
    type V = SessionView;

    open spec fn view(&self) -> SessionView {
        match *self {
            Session::Fresh => SessionView::Fresh,
            Session::Authenticating => SessionView::Authenticating,
            Session::Requesting { token } => SessionView::Requesting { token: token@ },
            Session::Closed => SessionView::Closed,
        }
    }
}

impl Session {
    /// A session at the start of a call.
    pub fn new() -> (session: Session)
        ensures
            session@ == SessionView::Fresh,
    {
        Session::Fresh
    }

    /// Whether the call is over.
    pub fn is_closed(&self) -> (closed: bool)
        ensures
            closed == (self@ == SessionView::Closed),
    {
        match self {
            Session::Closed => true,
            _ => false,
        }
    }

    fn snapshot(&self) -> (copy: Session)
        ensures
            copy@ == self@,
    {
        match self {
            Session::Fresh => Session::Fresh,
            Session::Authenticating => Session::Authenticating,
            Session::Requesting { token } => Session::Requesting { token: token.clone() },
            Session::Closed => Session::Closed,
        }
    }
}

/// What the driver reports to a call.
#[derive(Debug, Clone)]
pub enum Event {
    /// The call begins.
    Start,
    /// The request that the call asked for has this outcome.
    Reply(Outcome),
}

/// What a call asks of the driver.
#[derive(Debug)]
pub enum Action<T> {
    /// Send this request and report its outcome.
    Send(Request),
    /// The call is over, with this result.
    Done(Result<T, Error>),
}

/// A step of a call before its body is decoded.
pub enum Progress {
    Send(Request),
    Body(String),
    Failed(Error),
}

/// The mathematical content of a [`Progress`].
pub enum ProgressView {
    Send(RequestView),
    Body(Seq<char>),
    Failed(ErrorView),
}

impl View for Progress {
    type V = ProgressView;

    open spec fn view(&self) -> ProgressView {
        match *self {
            Progress::Send(request) => ProgressView::Send(request@),
            Progress::Body(text) => ProgressView::Body(text@),
            Progress::Failed(error) => ProgressView::Failed(error@),
        }
    }
}

/// The request that a call makes once it has a token.
pub struct Call {
    pub method: Method,
    pub url: Seq<char>,
    pub body: Option<Seq<char>>,
}

/// The message for a token that cannot be sent as a header value.
pub open spec fn bad_token_header(reason: Seq<char>) -> Seq<char> {
    "Could not parse auth token header value ("@ + reason + ")."@
}

/// The message for an event that the session does not wait for.
pub open spec fn out_of_turn() -> Seq<char> {
    "Unexpected event for the state of the call."@
}

/// The step after the token request: with a token that can be sent as a
/// header value the authenticated request goes out; any other token is a
/// `ParseError`, and with it, or with no token at all, the call is over.
pub open spec fn authorized(
    call: Call,
    token: Result<GetTokenResponse, Error>,
    after: SessionView,
    progress: ProgressView,
) -> bool {
    match token {
        Err(error) => after == SessionView::Closed && progress == ProgressView::Failed(error@),
        Ok(granted) => if header_value_ok(granted.token@) {
            after == (SessionView::Requesting { token: granted.token@ }) && progress
                == ProgressView::Send(
                RequestView {
                    method: call.method,
                    url: call.url,
                    token: Some(granted.token@),
                    body: call.body,
                },
            )
        } else {
            after == SessionView::Closed && progress == ProgressView::Failed(
                ErrorView {
                    kind: ErrorKind::ParseError,
                    message: bad_token_header("failed to parse header value"@),
                },
            )
        },
    }
}

/// One step of a call, up to the body of the reply.
///
/// A fresh session sends the token request. The reply to it either ends the
/// call or sends the authenticated request; the reply to that ends the call,
/// with the body of a reply of status 200 or with an error. Any other event
/// ends the call with an `Unspecified` error.
pub open spec fn exchanged<D: Fn(&String) -> Result<GetTokenResponse, String>>(
    client: ClientView,
    call: Call,
    before: SessionView,
    event: Event,
    decode_token: D,
    after: SessionView,
    progress: ProgressView,
) -> bool {
    match (before, event) {
        (SessionView::Fresh, Event::Start) => after == SessionView::Authenticating && progress
            == ProgressView::Send(
            RequestView { method: Method::Get, url: token_url(client), token: None, body: None },
        ),
        (SessionView::Authenticating, Event::Reply(outcome)) => exists|
            token: Result<GetTokenResponse, Error>,
        |
            #[trigger] token_acquired(client, outcome@, decode_token, token) && authorized(
                call,
                token,
                after,
                progress,
            ),
        (SessionView::Requesting { token }, Event::Reply(outcome)) => after == SessionView::Closed
            && match reply_text(call.url, Some(token), outcome@) {
            Ok(text) => progress == ProgressView::Body(text),
            Err(error) => progress == ProgressView::Failed(error),
        },
        _ => after == SessionView::Closed && progress == ProgressView::Failed(
            ErrorView { kind: ErrorKind::Unspecified, message: out_of_turn() },
        ),
    }
}

/// What a call whose body `decode` reads does with a step's progress.
pub open spec fn finished<T, F: Fn(&String) -> Result<T, String>>(
    progress: ProgressView,
    decode: F,
    action: Action<T>,
) -> bool {
    match progress {
        ProgressView::Send(request) => action matches Action::Send(r) && r@ == request,
        ProgressView::Failed(error) => action matches Action::Done(Err(e)) && e@ == error,
        ProgressView::Body(text) => action matches Action::Done(result) && body_read(
            text,
            decode,
            result,
        ),
    }
}

/// That `action` and the session `after` are one step of the call `call`,
/// whose body `decode` reads.
pub open spec fn stepped<
    T,
    D: Fn(&String) -> Result<GetTokenResponse, String>,
    F: Fn(&String) -> Result<T, String>,
>(
    client: ClientView,
    call: Call,
    before: SessionView,
    event: Event,
    decode_token: D,
    decode: F,
    after: SessionView,
    action: Action<T>,
) -> bool {
    exists|progress: ProgressView| #[trigger]
        exchanged(client, call, before, event, decode_token, after, progress) && finished(
            progress,
            decode,
            action,
        )
}

/// The call that `get` makes to `url`.
pub open spec fn get_call(url: Seq<char>) -> Call {
    Call { method: Method::Get, url, body: None }
}

/// The call that `get_map` makes to `url`.
pub open spec fn get_map_call(url: Seq<char>) -> Call {
    Call { method: Method::Get, url, body: None }
}

/// The call that `post` makes to `url` with the JSON text `body`.
pub open spec fn post_call(url: Seq<char>, body: Seq<char>) -> Call {
    Call { method: Method::Post, url, body: Some(body) }
}

fn cloned_text(text: Option<&String>) -> (copy: Option<String>)
    ensures
        crate::transport::optional_text(copy) == borrowed_text(text),
{
    match text {
        Some(t) => Some(t.clone()),
        None => None,
    }
}

impl Client {
    /// The step that follows the token request: checks that the token can be
    /// sent as a header value and builds the authenticated request.
    pub fn authorize(
        method: Method,
        url: &str,
        body: Option<&String>,
        token: Result<GetTokenResponse, Error>,
        session: &mut Session,
    ) -> (progress: Progress)
        ensures
            authorized(
                Call { method, url: url@, body: borrowed_text(body) },
                token,
                final(session)@,
                progress@,
            ),
    {
        match token {
            Err(error) => {
                *session = Session::Closed;
                Progress::Failed(error)
            },
            Ok(granted) => {
                match header_value_objection(granted.token.as_str()) {
                    Some(reason) => {
                        *session = Session::Closed;
                        let message = join3(
                            "Could not parse auth token header value (",
                            reason.as_str(),
                            ").",
                        );
                        Progress::Failed(Error::ParseError(message))
                    },
                    None => {
                        let request = Request {
                            method,
                            url: String::from_str(url),
                            token: Some(granted.token.clone()),
                            body: cloned_text(body),
                        };
                        *session = Session::Requesting { token: granted.token };
                        Progress::Send(request)
                    },
                }
            },
        }
    }

    /// One step of a call, up to the body of the reply.
    pub fn exchange<D: Fn(&String) -> Result<GetTokenResponse, String>>(
        &self,
        method: Method,
        url: &str,
        body: Option<&String>,
        session: &mut Session,
        event: Event,
        decode_token: D,
    ) -> (progress: Progress)
        requires
            forall|text: &String| decode_token.requires((text,)),
        ensures
            exchanged(
                self@,
                Call { method, url: url@, body: borrowed_text(body) },
                old(session)@,
                event,
                decode_token,
                final(session)@,
                progress@,
            ),
    {
        let before = session.snapshot();
        *session = Session::Closed;
        match (before, event) {
            (Session::Fresh, Event::Start) => {
                *session = Session::Authenticating;
                Progress::Send(self.token_request())
            },
            (Session::Authenticating, Event::Reply(outcome)) => {
                let token = self.get_token(outcome, decode_token);
                Self::authorize(method, url, body, token, session)
            },
            (Session::Requesting { token }, Event::Reply(outcome)) => {
                match classify(url, Some(&token), outcome) {
                    Ok(text) => Progress::Body(text),
                    Err(error) => Progress::Failed(error),
                }
            },
            _ => Progress::Failed(
                Error::Unspecified(String::from_str("Unexpected event for the state of the call.")),
            ),
        }
    }

    /// Ends a step of a call whose body `decode` reads.
    fn finish<T, F: Fn(&String) -> Result<T, String>>(progress: Progress, decode: F) -> (action:
        Action<T>)
        requires
            forall|text: &String| decode.requires((text,)),
        ensures
            finished(progress@, decode, action),
    {
        match progress {
            Progress::Send(request) => Action::Send(request),
            Progress::Failed(error) => Action::Done(Err(error)),
            Progress::Body(text) => Action::Done(read_body(&text, decode)),
        }
    }

    /// One step of an authenticated GET of `url`, whose body `decode` reads.
    ///
    /// The call fetches a fresh token, sends it in the `Token` header, and
    /// hands the body of a reply with status 200 to `decode`. A token that
    /// cannot be sent as a header value is a `ParseError`.
    pub fn get<
        T,
        D: Fn(&String) -> Result<GetTokenResponse, String>,
        F: Fn(&String) -> Result<T, String>,
    >(&self, url: &str, session: &mut Session, event: Event, decode_token: D, decode: F) -> (action:
        Action<T>)
        requires
            forall|text: &String| decode_token.requires((text,)),
            forall|text: &String| decode.requires((text,)),
        ensures
            stepped(
                self@,
                get_call(url@),
                old(session)@,
                event,
                decode_token,
                decode,
                final(session)@,
                action,
            ),
    {
        let progress = self.exchange(
            Method::Get,
            url,
            None,
            session,
            event,
            decode_token,
        );
        Self::finish(progress, decode)
    }

    /// One step of an authenticated POST of the JSON text `body` to `url`; the
    /// body of the reply is read by `decode`.
    ///
    /// As [`Client::get`], with the method and the body of a POST.
    pub fn post<
        T,
        D: Fn(&String) -> Result<GetTokenResponse, String>,
        F: Fn(&String) -> Result<T, String>,
    >(
        &self,
        url: &str,
        body: &String,
        session: &mut Session,
        event: Event,
        decode_token: D,
        decode: F,
    ) -> (action: Action<T>)
        requires
            forall|text: &String| decode_token.requires((text,)),
            forall|text: &String| decode.requires((text,)),
        ensures
            stepped(
                self@,
                post_call(url@, body@),
                old(session)@,
                event,
                decode_token,
                decode,
                final(session)@,
                action,
            ),
    {
        let progress = self.exchange(
            Method::Post,
            url,
            Some(body),
            session,
            event,
            decode_token,
        );
        Self::finish(progress, decode)
    }
}

} // verus!
