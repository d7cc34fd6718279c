//! The recorded values of one tag over a range of time.

use vstd::prelude::*;
use crate::client::{tag_history_url, Client, ClientView, GetTokenResponse};
use crate::error::{Error, ErrorKind, ErrorView};
use crate::get_map::{find, lookup, map_finished, map_read};
use crate::reply::join3;
use crate::session::{exchanged, get_map_call, Action, Event, ProgressView, Session, SessionView};
use crate::time::{parse_utc, parsed_utc, Timestamp, TimestampView, UtcInstant};

verus! {

/// The message for a start that does not fall on a whole second.
pub open spec fn start_not_whole() -> Seq<char> {
    "Start cannot contain sub-seconds."@
}

/// The message for an end that does not fall on a whole second.
pub open spec fn end_not_whole() -> Seq<char> {
    "End cannot contain sub-seconds."@
}

/// The message for a body that holds no history of the tag that was asked for.
pub open spec fn history_not_found(tag_key: Seq<char>) -> Seq<char> {
    "Could not parse tag history for tag key \""@ + tag_key + "\" (tag name not found)."@
}

/// The message for a point whose time cannot be read; it names the text.
pub open spec fn bad_timestamp(tag_key: Seq<char>, input: Seq<char>, reason: Seq<char>) -> Seq<
    char,
> {
    "Could not parse tag history for tag key \""@ + tag_key + "\" with input \""@ + input
        + "\" ("@ + reason + ")."@
}

/// The error for a range that the service cannot be asked for: the service
/// takes whole seconds only. The start is looked at first.
pub open spec fn range_error(start: TimestampView, end: TimestampView) -> Option<ErrorView> {
    if start.nanoseconds > 0 {
        Some(ErrorView { kind: ErrorKind::ArgumentError, message: start_not_whole() })
    } else if end.nanoseconds > 0 {
        Some(ErrorView { kind: ErrorKind::ArgumentError, message: end_not_whole() })
    } else {
        None
    }
}

/// The instant that the key of a point denotes.
pub open spec fn point_time(key: Seq<char>) -> Result<UtcInstant, Seq<char>> {
    parsed_utc(key)
}

/// That `result` is the list of points that a series stands for.
///
/// Where every key is a time, the result holds, in the order of the series, the
/// instant that each key denotes, in UTC, with the value under that key.
/// Otherwise it is a `ParseError` that names the first key that is no time.
pub open spec fn points_listed<V>(
    tag_key: Seq<char>,
    series: Seq<(String, V)>,
    result: Result<Vec<(UtcInstant, V)>, Error>,
) -> bool {
    &&& (forall|i: int| 0 <= i < series.len() ==> point_time((#[trigger] series[i]).0@) is Ok)
        ==> (result matches Ok(list) && list@.len() == series.len() && forall|i: int|
        0 <= i < series.len() ==> #[trigger] list@[i] == (
            point_time(series[i].0@)->Ok_0,
            series[i].1,
        ))
    &&& forall|i: int|
        0 <= i < series.len() && point_time((#[trigger] series[i]).0@) is Err && (forall|j: int|
            0 <= j < i ==> point_time((#[trigger] series[j]).0@) is Ok) ==> (result matches Err(e)
            && e@ == (ErrorView {
            kind: ErrorKind::ParseError,
            message: bad_timestamp(tag_key, series[i].0@, point_time(series[i].0@)->Err_0),
        }))
}

/// Checks that both bounds of a range fall on whole seconds.
pub fn check_range(start: &Timestamp, end: &Timestamp) -> (checked: Result<(), Error>)
    ensures
        match range_error(start@, end@) {
            Some(error) => checked matches Err(e) && e@ == error,
            None => checked is Ok,
        },
{
    if !start.is_whole_second() {
        Err(Error::ArgumentError(String::from_str("Start cannot contain sub-seconds.")))
    } else if !end.is_whole_second() {
        Err(Error::ArgumentError(String::from_str("End cannot contain sub-seconds.")))
    } else {
        Ok(())
    }
}

/// Reads the time of each point of a series: all of them, or none.
pub fn list_points<V>(tag_key: &str, series: Vec<(String, V)>) -> (result: Result<
    Vec<(UtcInstant, V)>,
    Error,
>)
    ensures
        points_listed(tag_key@, series@, result),
{
    let ghost all = series@;
    let mut list: Vec<(UtcInstant, V)> = Vec::new();
    for member in it: series.into_iter()
        invariant
            all == series@,
            it.seq() == all,
            list@.len() == it.index(),
            forall|k: int|
                0 <= k < it.index() ==> point_time((#[trigger] all[k]).0@) is Ok && list@[k] == (
                    point_time(all[k].0@)->Ok_0,
                    all[k].1,
                ),
    {
        let (key, value) = member;
        match parse_utc(key.as_str()) {
            Ok(instant) => {
                list.push((instant, value));
            },
            Err(reason) => {
                let mut message = join3(
                    "Could not parse tag history for tag key \"",
                    tag_key,
                    "\" with input \"",
                );
                message.append(key.as_str());
                message.append("\" (");
                message.append(reason.as_str());
                message.append(").");
                return Err(Error::ParseError(message));
            },
        }
    }
    Ok(list)
}

/// That `result` is the history of `tag_key` as the decoded body `decoded` holds it.
///
/// An error of the call stays as it is. A body without the key is a
/// `ParseError`; the series under the key becomes a list of points.
pub open spec fn history_selected<V>(
    tag_key: Seq<char>,
    decoded: Result<Vec<(String, Vec<(String, V)>)>, Error>,
    result: Result<Vec<(UtcInstant, V)>, Error>,
) -> bool {
    match decoded {
        Err(error) => result matches Err(e) && e@ == error@,
        Ok(list) => match find(list@, tag_key) {
            None => result matches Err(e) && e@ == (ErrorView {
                kind: ErrorKind::ParseError,
                message: history_not_found(tag_key),
            }),
            Some(series) => points_listed(tag_key, series@, result),
        },
    }
}

/// That `result` is the history of `tag_key` as the body `text` holds it,
/// where `decode` reads a series.
pub open spec fn history_read<V, F: Fn(&serde_json::Value) -> Result<Vec<(String, V)>, String>>(
    text: Seq<char>,
    tag_key: Seq<char>,
    decode: F,
    result: Result<Vec<(UtcInstant, V)>, Error>,
) -> bool {
    exists|decoded: Result<Vec<(String, Vec<(String, V)>)>, Error>| #[trigger]
        map_read(text, decode, decoded) && history_selected(tag_key, decoded, result)
}

/// What `get_tag_history` does with a step's progress.
pub open spec fn history_finished<
    V,
    F: Fn(&serde_json::Value) -> Result<Vec<(String, V)>, String>,
>(
    progress: ProgressView,
    tag_key: Seq<char>,
    decode: F,
    action: Action<Vec<(UtcInstant, V)>>,
) -> bool {
    match progress {
        ProgressView::Send(request) => action matches Action::Send(r) && r@ == request,
        ProgressView::Failed(error) => action matches Action::Done(Err(e)) && e@ == error,
        ProgressView::Body(text) => action matches Action::Done(result) && history_read(
            text,
            tag_key,
            decode,
            result,
        ),
    }
}

/// That `action` and the session `after` are one step of `get_tag_history`
/// for `tag_key` between `start` and `end`.
///
/// A range that does not fall on whole seconds ends the call at once, with an
/// `ArgumentError` and without a request.
pub open spec fn history_stepped<
    V,
    D: Fn(&String) -> Result<GetTokenResponse, String>,
    F: Fn(&serde_json::Value) -> Result<Vec<(String, V)>, String>,
>(
    client: ClientView,
    tag_key: Seq<char>,
    start: Timestamp,
    end: Timestamp,
    before: SessionView,
    event: Event,
    decode_token: D,
    decode: F,
    after: SessionView,
    action: Action<Vec<(UtcInstant, V)>>,
) -> bool {
    match range_error(start@, end@) {
        Some(error) => after == SessionView::Closed && (action matches Action::Done(Err(e)) && e@
            == error),
        None => exists|progress: ProgressView| #[trigger]
            exchanged(
                client,
                get_map_call(tag_history_url(client, tag_key, start.text(), end.text())),
                before,
                event,
                decode_token,
                after,
                progress,
            ) && history_finished(progress, tag_key, decode, action),
    }
}

/// Picks the series of `tag_key` out of a decoded body and lists its points.
pub fn select_points<V>(
    tag_key: &str,
    decoded: Result<Vec<(String, Vec<(String, V)>)>, Error>,
) -> (result: Result<Vec<(UtcInstant, V)>, Error>)
    ensures
        history_selected(tag_key@, decoded, result),
{
    match decoded {
        Err(error) => Err(error),
        Ok(list) => match lookup(list, tag_key) {
            None => Err(
                Error::ParseError(
                    join3(
                        "Could not parse tag history for tag key \"",
                        tag_key,
                        "\" (tag name not found).",
                    ),
                ),
            ),
            Some(series) => list_points(tag_key, series),
        },
    }
}

impl Client {
    /// One step of fetching the values that the tag `tag_key` had from `start`
    /// to `end`.
    ///
    /// Both bounds must fall on whole seconds: otherwise the call ends with an
    /// `ArgumentError` before anything is sent. The call is an authenticated
    /// GET of [`Client::tag_history_url`]. Its body is a JSON object that
    /// holds, under the tag's key, a series: an object whose keys are times
    /// with an offset and whose values `decode` reads. Each point of the result
    /// is the instant that a key denotes, in UTC, with its value. A body
    /// without the tag's key and a key that is no time are each a `ParseError`.
    pub fn get_tag_history<
        V,
        D: Fn(&String) -> Result<GetTokenResponse, String>,
        F: Fn(&serde_json::Value) -> Result<Vec<(String, V)>, String>,
    >(
        &self,
        tag_key: &str,
        start: Timestamp,
        end: Timestamp,
        session: &mut Session,
        event: Event,
        decode_token: D,
        decode: F,
    ) -> (action: Action<Vec<(UtcInstant, V)>>)
        requires
            forall|text: &String| decode_token.requires((text,)),
            forall|value: &serde_json::Value| decode.requires((value,)),
        ensures
            history_stepped(
                self@,
                tag_key@,
                start,
                end,
                old(session)@,
                event,
                decode_token,
                decode,
                final(session)@,
                action,
            ),
    {
        match check_range(&start, &end) {
            Err(error) => {
                *session = Session::Closed;
                return Action::Done(Err(error));
            },
            Ok(_) => {},
        }
        let url = self.tag_history_url(tag_key, &start, &end);
        let step = self.get_map(url.as_str(), session, event, decode_token, decode);
        let ghost progress = choose|progress: ProgressView| #[trigger]
            exchanged(
                self@,
                get_map_call(url@),
                old(session)@,
                event,
                decode_token,
                session@,
                progress,
            ) && map_finished(progress, decode, step);
        match step {
            Action::Send(request) => {
                let action = Action::Send(request);
                assert(history_finished(progress, tag_key@, decode, action));
                action
            },
            Action::Done(decoded) => {
                let result = select_points(tag_key, decoded);
                let action = Action::Done(result);
                proof {
                    if let ProgressView::Body(text) = progress {
                        assert(map_read(text, decode, decoded));
                        assert(history_read(text, tag_key@, decode, result));
                    }
                    assert(history_finished(progress, tag_key@, decode, action));
                }
                action
            },
        }
    }
}

} // verus!
