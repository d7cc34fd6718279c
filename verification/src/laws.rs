//! What holds of every call, proved from the contracts of the operations.

use vstd::prelude::*;
use crate::auth::token_acquired;
use crate::client::{token_url, ClientView, GetTokenResponse};
use crate::error::{Error, ErrorKind, ErrorView};
use crate::client::{tag_history_url, tag_info_url, tags_url};
use crate::get_map::{find, map_finished, map_read, map_stepped};
use crate::get_tag_history::{
    history_finished,
    history_selected,
    history_stepped,
    point_time,
    points_listed,
};
use crate::get_tag_info::{info_finished, info_selected, info_stepped};
use crate::get_tags::{tags_finished, tags_stepped};
use crate::reply::{refusal, reply_text};
use crate::session::{
    authorized,
    exchanged,
    finished,
    get_map_call,
    stepped,
    Action,
    Call,
    Event,
    ProgressView,
    SessionView,
};
use crate::tag::{promoted, PartialTag, Tag, REAL};
use crate::text::{contains, decimal, lemma_contains_middle, lemma_contains_within};
use crate::time::{Timestamp, UtcInstant};
use crate::transport::{status_line, Outcome, OutcomeView};

verus! {

/// The numeral of 401 is `401`.
pub proof fn law_numeral_of_401()
    ensures
        decimal(401) == seq!['4', '0', '1'],
{
    crate::text::lemma_decimal_three_digits(401);
}

/// The message for a status other than 200 contains the number of the status,
/// the body as it came, and the address that was called.
pub proof fn law_refusal_quotes(code: u16, body: Seq<char>, url: Seq<char>, token: Option<Seq<char>>)
    ensures
        contains(refusal(code, body, url, token), decimal(code as nat)),
        contains(refusal(code, body, url, token), body),
        contains(refusal(code, body, url, token), url),
{
    let message = refusal(code, body, url, token);
    let tail = match token {
        Some(t) => " with token "@ + t + "."@,
        None => "."@,
    };
    let line = status_line(code);
    assert(message =~= "Got "@ + line + (" / "@ + body + " calling "@ + url + tail));
    assert(message =~= ("Got "@ + line + " / "@) + body + (" calling "@ + url + tail));
    assert(message =~= ("Got "@ + line + " / "@ + body + " calling "@) + url + tail);
    lemma_contains_middle("Got "@ + line + " / "@, body, " calling "@ + url + tail);
    lemma_contains_middle("Got "@ + line + " / "@ + body + " calling "@, url, tail);
    assert(line =~= Seq::<char>::empty() + decimal(code as nat) + (seq![' ']
        + crate::transport::canonical_reason(code)));
    lemma_contains_middle(
        Seq::<char>::empty(),
        decimal(code as nat),
        seq![' '] + crate::transport::canonical_reason(code),
    );
    lemma_contains_within(
        "Got "@,
        line,
        " / "@ + body + " calling "@ + url + tail,
        decimal(code as nat),
    );
}

/// A reply with a status other than 200 is an `ApiError` whose message
/// contains the number of the status, the body and the address.
pub proof fn law_refused_reply_is_api_error(
    url: Seq<char>,
    token: Option<Seq<char>>,
    code: u16,
    body: Seq<char>,
)
    requires
        code != 200,
    ensures
        reply_text(url, token, OutcomeView::Received { code, body }) matches Err(error)
            && error.kind == ErrorKind::ApiError && contains(error.message, decimal(code as nat))
            && contains(error.message, body) && contains(error.message, url),
{
    law_refusal_quotes(code, body, url, token);
}

/// That a reply to the request in flight has a status other than 200.
pub open spec fn refused(before: SessionView, outcome: Outcome) -> bool {
    (before is Authenticating || before is Requesting) && outcome@ is Received && outcome@->code
        != 200
}

/// The address of the request in flight: that of the token endpoint while the
/// call authenticates, that of the call afterwards.
pub open spec fn requested_url(client: ClientView, url: Seq<char>, before: SessionView) -> Seq<char> {
    if before is Authenticating {
        token_url(client)
    } else {
        url
    }
}

/// That an error is an `ApiError` whose message contains the number of the
/// status, the body of the reply and the address that was requested.
pub open spec fn quotes_refusal(error: ErrorView, outcome: Outcome, url: Seq<char>) -> bool {
    error.kind == ErrorKind::ApiError && contains(error.message, decimal(outcome@->code as nat))
        && contains(error.message, outcome@->body) && contains(error.message, url)
}

/// Whatever the call and whichever of its two requests is out: a reply with a
/// status other than 200, such as 401, ends the call with an `ApiError` whose
/// message contains the number of the status, the body of the reply, and the
/// address that was requested.
pub proof fn law_refused_reply_ends_call<D: Fn(&String) -> Result<GetTokenResponse, String>>(
    client: ClientView,
    call: Call,
    before: SessionView,
    outcome: Outcome,
    decode_token: D,
    after: SessionView,
    progress: ProgressView,
)
    requires
        refused(before, outcome),
        exchanged(client, call, before, Event::Reply(outcome), decode_token, after, progress),
    ensures
        after == SessionView::Closed,
        progress matches ProgressView::Failed(error) && quotes_refusal(
            error,
            outcome,
            requested_url(client, call.url, before),
        ),
{
    let code = outcome@->code;
    let body = outcome@->body;
    match before {
        SessionView::Authenticating => {
            law_refused_reply_is_api_error(token_url(client), None, code, body);
            let token = choose|token: Result<GetTokenResponse, Error>| #[trigger]
                token_acquired(client, outcome@, decode_token, token) && authorized(
                    call,
                    token,
                    after,
                    progress,
                );
            assert(token is Err);
        },
        SessionView::Requesting { token } => {
            law_refused_reply_is_api_error(call.url, Some(token), code, body);
        },
        _ => {},
    }
}

/// A reply with a status other than 200 ends `get` and `post` with an
/// `ApiError` that quotes the status, the body and the address.
pub proof fn law_refused_reply_ends_get_and_post<
    T,
    D: Fn(&String) -> Result<GetTokenResponse, String>,
    F: Fn(&String) -> Result<T, String>,
>(
    client: ClientView,
    call: Call,
    before: SessionView,
    outcome: Outcome,
    decode_token: D,
    decode: F,
    after: SessionView,
    action: Action<T>,
)
    requires
        refused(before, outcome),
        stepped(client, call, before, Event::Reply(outcome), decode_token, decode, after, action),
    ensures
        action matches Action::Done(Err(error)) && quotes_refusal(
            error@,
            outcome,
            requested_url(client, call.url, before),
        ),
{
    let progress = choose|progress: ProgressView| #[trigger]
        exchanged(client, call, before, Event::Reply(outcome), decode_token, after, progress)
            && finished(progress, decode, action);
    law_refused_reply_ends_call(client, call, before, outcome, decode_token, after, progress);
}

/// A reply with a status other than 200 ends `get_map` with an `ApiError`
/// that quotes the status, the body and the address.
pub proof fn law_refused_reply_ends_get_map<
    T,
    D: Fn(&String) -> Result<GetTokenResponse, String>,
    F: Fn(&serde_json::Value) -> Result<T, String>,
>(
    client: ClientView,
    url: Seq<char>,
    before: SessionView,
    outcome: Outcome,
    decode_token: D,
    decode: F,
    after: SessionView,
    action: Action<Vec<(String, T)>>,
)
    requires
        refused(before, outcome),
        map_stepped(client, url, before, Event::Reply(outcome), decode_token, decode, after, action),
    ensures
        action matches Action::Done(Err(error)) && quotes_refusal(
            error@,
            outcome,
            requested_url(client, url, before),
        ),
{
    let progress = choose|progress: ProgressView| #[trigger]
        exchanged(
            client,
            get_map_call(url),
            before,
            Event::Reply(outcome),
            decode_token,
            after,
            progress,
        ) && map_finished(progress, decode, action);
    law_refused_reply_ends_call(
        client,
        get_map_call(url),
        before,
        outcome,
        decode_token,
        after,
        progress,
    );
}

/// A reply with a status other than 200 ends `get_tags` with an `ApiError`
/// that quotes the status, the body and the address.
pub proof fn law_refused_reply_ends_get_tags<D: Fn(&String) -> Result<GetTokenResponse, String>>(
    client: ClientView,
    before: SessionView,
    outcome: Outcome,
    decode_token: D,
    after: SessionView,
    action: Action<Vec<(String, String)>>,
)
    requires
        refused(before, outcome),
        tags_stepped(client, before, Event::Reply(outcome), decode_token, after, action),
    ensures
        action matches Action::Done(Err(error)) && quotes_refusal(
            error@,
            outcome,
            requested_url(client, tags_url(client), before),
        ),
{
    let call = get_map_call(tags_url(client));
    let progress = choose|progress: ProgressView| #[trigger]
        exchanged(client, call, before, Event::Reply(outcome), decode_token, after, progress)
            && tags_finished(progress, action);
    law_refused_reply_ends_call(client, call, before, outcome, decode_token, after, progress);
}

/// A reply with a status other than 200 ends `get_tag_info` with an
/// `ApiError` that quotes the status, the body and the address.
pub proof fn law_refused_reply_ends_get_tag_info<
    V,
    D: Fn(&String) -> Result<GetTokenResponse, String>,
    F: Fn(&serde_json::Value) -> Result<PartialTag, String>,
    P: Fn(&String) -> Result<V, String>,
>(
    client: ClientView,
    tag_key: Seq<char>,
    before: SessionView,
    outcome: Outcome,
    decode_token: D,
    decode: F,
    parse_real: P,
    after: SessionView,
    action: Action<Tag<V>>,
)
    requires
        refused(before, outcome),
        info_stepped(
            client,
            tag_key,
            before,
            Event::Reply(outcome),
            decode_token,
            decode,
            parse_real,
            after,
            action,
        ),
    ensures
        action matches Action::Done(Err(error)) && quotes_refusal(
            error@,
            outcome,
            requested_url(client, tag_info_url(client, tag_key), before),
        ),
{
    let call = get_map_call(tag_info_url(client, tag_key));
    let progress = choose|progress: ProgressView| #[trigger]
        exchanged(client, call, before, Event::Reply(outcome), decode_token, after, progress)
            && info_finished(progress, tag_key, decode, parse_real, action);
    law_refused_reply_ends_call(client, call, before, outcome, decode_token, after, progress);
}

/// A reply with a status other than 200 ends `get_tag_history` with an
/// `ApiError` that quotes the status, the body and the address.
pub proof fn law_refused_reply_ends_get_tag_history<
    V,
    D: Fn(&String) -> Result<GetTokenResponse, String>,
    F: Fn(&serde_json::Value) -> Result<Vec<(String, V)>, String>,
>(
    client: ClientView,
    tag_key: Seq<char>,
    start: Timestamp,
    end: Timestamp,
    before: SessionView,
    outcome: Outcome,
    decode_token: D,
    decode: F,
    after: SessionView,
    action: Action<Vec<(UtcInstant, V)>>,
)
    requires
        start@.nanoseconds == 0,
        end@.nanoseconds == 0,
        refused(before, outcome),
        history_stepped(
            client,
            tag_key,
            start,
            end,
            before,
            Event::Reply(outcome),
            decode_token,
            decode,
            after,
            action,
        ),
    ensures
        action matches Action::Done(Err(error)) && quotes_refusal(
            error@,
            outcome,
            requested_url(
                client,
                tag_history_url(client, tag_key, start.text(), end.text()),
                before,
            ),
        ),
{
    let call = get_map_call(tag_history_url(client, tag_key, start.text(), end.text()));
    let progress = choose|progress: ProgressView| #[trigger]
        exchanged(client, call, before, Event::Reply(outcome), decode_token, after, progress)
            && history_finished(progress, tag_key, decode, action);
    law_refused_reply_ends_call(client, call, before, outcome, decode_token, after, progress);
}

/// Whatever the transport could not complete is a `NetworkError`: a request
/// that was not sent through, and a response whose body could not be read to
/// its end, for one because the timeout expired.
pub proof fn law_transport_failure_is_network_error(
    url: Seq<char>,
    token: Option<Seq<char>>,
    outcome: OutcomeView,
)
    requires
        outcome is SendFailed || outcome is BodyFailed,
    ensures
        reply_text(url, token, outcome) matches Err(error) && error.kind
            == ErrorKind::NetworkError,
{
}

/// A token that cannot be sent as a header value ends every call alike,
/// whatever its method, address and body: with a `ParseError`, and with
/// nothing sent.
pub proof fn law_illegal_token_is_a_parse_error(
    call: Call,
    granted: GetTokenResponse,
    after: SessionView,
    progress: ProgressView,
)
    requires
        !crate::transport::header_value_ok(granted.token@),
        authorized(call, Ok::<GetTokenResponse, Error>(granted), after, progress),
    ensures
        after == SessionView::Closed,
        progress matches ProgressView::Failed(error) && error.kind == ErrorKind::ParseError,
{
}

/// A body that does not describe the tag that was asked for is a `ParseError`
/// whose message names the tag.
pub proof fn law_missing_tag_is_named<V, P: Fn(&String) -> Result<V, String>>(
    tag_key: Seq<char>,
    list: Vec<(String, PartialTag)>,
    parse_real: P,
    result: Result<Tag<V>, Error>,
)
    requires
        find(list@, tag_key) is None,
        info_selected(tag_key, Ok::<Vec<(String, PartialTag)>, Error>(list), parse_real, result),
    ensures
        result matches Err(error) && error@.kind == ErrorKind::ParseError && contains(
            error@.message,
            tag_key,
        ),
{
    lemma_contains_middle(
        "Could not parse tag info for tag key \""@,
        tag_key,
        "\" (tag name not found)."@,
    );
}

/// A call sends at most two requests, in this order: the token request, from
/// a fresh session and without a token, and then the authenticated request,
/// with the token that the service has just granted. Nothing is sent once the
/// authenticated request is out, and no token is kept for another call.
pub proof fn law_token_then_one_request<D: Fn(&String) -> Result<GetTokenResponse, String>>(
    client: ClientView,
    call: Call,
    before: SessionView,
    event: Event,
    decode_token: D,
    after: SessionView,
    progress: ProgressView,
)
    requires
        exchanged(client, call, before, event, decode_token, after, progress),
    ensures
        progress matches ProgressView::Send(request) ==> {
            ||| before is Fresh && after is Authenticating && request.token is None && request.url
                == token_url(client)
            ||| before is Authenticating && after == (SessionView::Requesting {
                token: request.token->Some_0,
            }) && request.token is Some && request.url == call.url && request.method
                == call.method && request.body == call.body
        },
        !(progress is Send) ==> after == SessionView::Closed,
{
    if before is Authenticating && event is Reply {
        let token = choose|token: Result<GetTokenResponse, Error>| #[trigger]
            token_acquired(client, event->Reply_0@, decode_token, token) && authorized(
                call,
                token,
                after,
                progress,
            );
    }
}

/// A range of which a bound does not fall on a whole second ends
/// `get_tag_history` with an `ArgumentError`, whatever the state of the call
/// and whatever the event: no request is ever sent for it.
pub proof fn law_subsecond_range_sends_nothing<
    V,
    D: Fn(&String) -> Result<GetTokenResponse, String>,
    F: Fn(&serde_json::Value) -> Result<Vec<(String, V)>, String>,
>(
    client: ClientView,
    tag_key: Seq<char>,
    start: Timestamp,
    end: Timestamp,
    before: SessionView,
    event: Event,
    decode_token: D,
    decode: F,
    after: SessionView,
    action: Action<Vec<(UtcInstant, V)>>,
)
    requires
        start@.nanoseconds > 0 || end@.nanoseconds > 0,
        history_stepped(
            client,
            tag_key,
            start,
            end,
            before,
            event,
            decode_token,
            decode,
            after,
            action,
        ),
    ensures
        !(action is Send),
        action matches Action::Done(Err(error)) && error@.kind == ErrorKind::ArgumentError,
{
}

/// A body that is JSON but no object, an array for one, makes `get_map` fail
/// with a `ParseError`: nothing of it is handed out.
pub proof fn law_body_that_is_no_object_fails<T, F: Fn(&serde_json::Value) -> Result<T, String>>(
    text: Seq<char>,
    decode: F,
    result: Result<Vec<(String, T)>, Error>,
)
    requires
        crate::json::json_document(text) matches Ok(value) && crate::json::json_members(value)
            is None,
        map_read(text, decode, result),
    ensures
        result matches Err(error) && error@.kind == ErrorKind::ParseError,
{
}

/// A tag whose datatype is not `REAL` is a `ParseError` whose message names
/// the datatype.
pub proof fn law_unknown_datatype_is_named<V, P: Fn(&String) -> Result<V, String>>(
    tag_key: Seq<char>,
    partial: PartialTag,
    parse_real: P,
    result: Result<Tag<V>, Error>,
)
    requires
        partial.datatype@ != REAL@,
        promoted(tag_key, partial, parse_real, result),
    ensures
        result matches Err(error) && error@.kind == ErrorKind::ParseError && contains(
            error@.message,
            partial.datatype@,
        ),
{
    lemma_contains_middle("Unrecognized tag datatype ("@, partial.datatype@, ")."@);
}

/// Where a key of a series is no time, one of them is the first.
proof fn lemma_first_unreadable<V>(series: Seq<(String, V)>, i: int) -> (first: int)
    requires
        0 <= i < series.len(),
        point_time(series[i].0@) is Err,
    ensures
        0 <= first <= i,
        point_time(series[first].0@) is Err,
        forall|j: int| 0 <= j < first ==> point_time((#[trigger] series[j]).0@) is Ok,
    decreases i,
{
    if exists|j: int| 0 <= j < i && point_time((#[trigger] series[j]).0@) is Err {
        let j = choose|j: int| 0 <= j < i && point_time((#[trigger] series[j]).0@) is Err;
        lemma_first_unreadable(series, j)
    } else {
        i
    }
}

/// That a list of points keeps a series: a point for each entry, in the order
/// of the series, whose time is the instant that reading the entry's key as an
/// RFC 3339 time gives, in UTC and to the nanosecond, and whose value is the
/// entry's value.
pub open spec fn keeps_times<V>(series: Seq<(String, V)>, list: Seq<(UtcInstant, V)>) -> bool {
    list.len() == series.len() && forall|i: int|
        0 <= i < series.len() ==> point_time(series[i].0@) == Ok::<UtcInstant, Seq<char>>(
            (#[trigger] list[i]).0,
        ) && list[i].1 == series[i].1
}

/// Every point of a history is the instant that the service's text denotes.
pub proof fn law_points_keep_their_times<V>(
    tag_key: Seq<char>,
    series: Seq<(String, V)>,
    list: Vec<(UtcInstant, V)>,
)
    requires
        points_listed(tag_key, series, Ok::<Vec<(UtcInstant, V)>, Error>(list)),
    ensures
        keeps_times(series, list@),
{
    if exists|i: int| 0 <= i < series.len() && point_time((#[trigger] series[i]).0@) is Err {
        let i = choose|i: int|
            0 <= i < series.len() && point_time((#[trigger] series[i]).0@) is Err;
        let first = lemma_first_unreadable(series, i);
        assert(point_time(series[first].0@) is Err);
        assert(false);
    }
    assert forall|i: int| 0 <= i < series.len() implies point_time(series[i].0@) == Ok::<
        UtcInstant,
        Seq<char>,
    >((#[trigger] list@[i]).0) && list@[i].1 == series[i].1 by {
        assert(point_time(series[i].0@) is Ok);
    }
}

/// That `series` is what the body `text` holds under `tag_key`, read as a JSON
/// object whose members `decode` reads.
pub open spec fn series_of<V, F: Fn(&serde_json::Value) -> Result<Vec<(String, V)>, String>>(
    text: Seq<char>,
    tag_key: Seq<char>,
    decode: F,
    series: Vec<(String, V)>,
) -> bool {
    exists|decoded: Vec<(String, Vec<(String, V)>)>| #[trigger]
        map_read(text, decode, Ok::<Vec<(String, Vec<(String, V)>)>, Error>(decoded)) && find(
            decoded@,
            tag_key,
        ) == Some(series)
}

/// Whatever `get_tag_history` returns as a history comes from the body of a
/// reply with status 200, and keeps the series that the body holds under the
/// tag's key: every time is the instant that the service's RFC 3339 text
/// denotes, with nothing lost, and every value is the one under that text.
pub proof fn law_history_keeps_times<
    V,
    D: Fn(&String) -> Result<GetTokenResponse, String>,
    F: Fn(&serde_json::Value) -> Result<Vec<(String, V)>, String>,
>(
    client: ClientView,
    tag_key: Seq<char>,
    start: Timestamp,
    end: Timestamp,
    before: SessionView,
    event: Event,
    decode_token: D,
    decode: F,
    after: SessionView,
    action: Action<Vec<(UtcInstant, V)>>,
)
    requires
        history_stepped(
            client,
            tag_key,
            start,
            end,
            before,
            event,
            decode_token,
            decode,
            after,
            action,
        ),
        action matches Action::Done(Ok(_)),
    ensures
        start@.nanoseconds == 0 && end@.nanoseconds == 0,
        event matches Event::Reply(outcome) && outcome@ matches OutcomeView::Received {
            code,
            body,
        } && code == 200 && exists|series: Vec<(String, V)>| #[trigger]
            series_of(body, tag_key, decode, series) && keeps_times(
                series@,
                action->Done_0->Ok_0@,
            ),
{
    let list = action->Done_0->Ok_0;
    let call = get_map_call(tag_history_url(client, tag_key, start.text(), end.text()));
    let progress = choose|progress: ProgressView| #[trigger]
        exchanged(client, call, before, event, decode_token, after, progress) && history_finished(
            progress,
            tag_key,
            decode,
            action,
        );
    assert(progress is Body);
    let text = progress->Body_0;
    if before is Authenticating && event is Reply {
        let token = choose|token: Result<GetTokenResponse, Error>| #[trigger]
            token_acquired(client, event->Reply_0@, decode_token, token) && authorized(
                call,
                token,
                after,
                progress,
            );
        assert(false);
    }
    let decoded = choose|decoded: Result<Vec<(String, Vec<(String, V)>)>, Error>| #[trigger]
        map_read(text, decode, decoded) && history_selected(tag_key, decoded, action->Done_0);
    assert(decoded is Ok);
    let series = find(decoded->Ok_0@, tag_key)->Some_0;
    law_points_keep_their_times(tag_key, series@, list);
    assert(series_of(text, tag_key, decode, series));
}

} // verus!
