//! The current value and the description of one tag.

use vstd::prelude::*;
use crate::client::{tag_info_url, Client, ClientView, GetTokenResponse};
use crate::error::{Error, ErrorKind, ErrorView};
use crate::get_map::{find, lookup, map_finished, map_read};
use crate::reply::join3;
use crate::session::{exchanged, get_map_call, Action, Event, ProgressView, Session, SessionView};
use crate::tag::{promoted, PartialTag, Tag};

verus! {

/// The message for a body that does not describe the tag that was asked for;
/// it names the tag.
pub open spec fn tag_not_found(tag_key: Seq<char>) -> Seq<char> {
    "Could not parse tag info for tag key \""@ + tag_key + "\" (tag name not found)."@
}

/// That `result` is the tag `tag_key` as the decoded body `decoded` describes it.
///
/// An error of the call stays as it is. A body without the key is a
/// `ParseError`; the description under the key is promoted to a typed tag.
pub open spec fn info_selected<V, P: Fn(&String) -> Result<V, String>>(
    tag_key: Seq<char>,
    decoded: Result<Vec<(String, PartialTag)>, Error>,
    parse_real: P,
    result: Result<Tag<V>, Error>,
) -> bool {
    match decoded {
        Err(error) => result matches Err(e) && e@ == error@,
        Ok(list) => match find(list@, tag_key) {
            None => result matches Err(e) && e@ == (ErrorView {
                kind: ErrorKind::ParseError,
                message: tag_not_found(tag_key),
            }),
            Some(partial) => promoted(tag_key, partial, parse_real, result),
        },
    }
}

/// That `result` is the tag `tag_key` as the body `text` describes it, where
/// `decode` reads a description and `parse_real` the value of a real-valued tag.
pub open spec fn info_read<
    V,
    F: Fn(&serde_json::Value) -> Result<PartialTag, String>,
    P: Fn(&String) -> Result<V, String>,
>(
    text: Seq<char>,
    tag_key: Seq<char>,
    decode: F,
    parse_real: P,
    result: Result<Tag<V>, Error>,
) -> bool {
    exists|decoded: Result<Vec<(String, PartialTag)>, Error>| #[trigger]
        map_read(text, decode, decoded) && info_selected(tag_key, decoded, parse_real, result)
}

/// What `get_tag_info` does with a step's progress.
pub open spec fn info_finished<
    V,
    F: Fn(&serde_json::Value) -> Result<PartialTag, String>,
    P: Fn(&String) -> Result<V, String>,
>(
    progress: ProgressView,
    tag_key: Seq<char>,
    decode: F,
    parse_real: P,
    action: Action<Tag<V>>,
) -> bool {
    match progress {
        ProgressView::Send(request) => action matches Action::Send(r) && r@ == request,
        ProgressView::Failed(error) => action matches Action::Done(Err(e)) && e@ == error,
        ProgressView::Body(text) => action matches Action::Done(result) && info_read(
            text,
            tag_key,
            decode,
            parse_real,
            result,
        ),
    }
}

/// That `action` and the session `after` are one step of `get_tag_info` for `tag_key`.
pub open spec fn info_stepped<
    V,
    D: Fn(&String) -> Result<GetTokenResponse, String>,
    F: Fn(&serde_json::Value) -> Result<PartialTag, String>,
    P: Fn(&String) -> Result<V, String>,
>(
    client: ClientView,
    tag_key: Seq<char>,
    before: SessionView,
    event: Event,
    decode_token: D,
    decode: F,
    parse_real: P,
    after: SessionView,
    action: Action<Tag<V>>,
) -> bool {
    exists|progress: ProgressView| #[trigger]
        exchanged(
            client,
            get_map_call(tag_info_url(client, tag_key)),
            before,
            event,
            decode_token,
            after,
            progress,
        ) && info_finished(progress, tag_key, decode, parse_real, action)
}

/// Picks the description of `tag_key` out of a decoded body and promotes it to
/// a typed tag.
pub fn select_tag<V, P: Fn(&String) -> Result<V, String>>(
    tag_key: &str,
    decoded: Result<Vec<(String, PartialTag)>, Error>,
    parse_real: P,
) -> (result: Result<Tag<V>, Error>)
    requires
        forall|text: &String| parse_real.requires((text,)),
    ensures
        info_selected(tag_key@, decoded, parse_real, result),
{
    match decoded {
        Err(error) => Err(error),
        Ok(list) => match lookup(list, tag_key) {
            None => Err(
                Error::ParseError(
                    join3(
                        "Could not parse tag info for tag key \"",
                        tag_key,
                        "\" (tag name not found).",
                    ),
                ),
            ),
            Some(partial) => partial.promote(tag_key, parse_real),
        },
    }
}

impl Client {
    /// One step of fetching the tag `tag_key`.
    ///
    /// The call is an authenticated GET of [`Client::tag_info_url`]. Its body is
    /// a JSON object that holds, under the tag's key, the tag's description;
    /// `decode` reads a description, `parse_real` the value of a real-valued
    /// tag. A body without the key, a value that is no number and a datatype
    /// other than `REAL` are each a `ParseError`.
    pub fn get_tag_info<
        V,
        D: Fn(&String) -> Result<GetTokenResponse, String>,
        F: Fn(&serde_json::Value) -> Result<PartialTag, String>,
        P: Fn(&String) -> Result<V, String>,
    >(
        &self,
        tag_key: &str,
        session: &mut Session,
        event: Event,
        decode_token: D,
        decode: F,
        parse_real: P,
    ) -> (action: Action<Tag<V>>)
        requires
            forall|text: &String| decode_token.requires((text,)),
            forall|value: &serde_json::Value| decode.requires((value,)),
            forall|text: &String| parse_real.requires((text,)),
        ensures
            info_stepped(
                self@,
                tag_key@,
                old(session)@,
                event,
                decode_token,
                decode,
                parse_real,
                final(session)@,
                action,
            ),
    {
        let url = self.tag_info_url(tag_key);
        let step = self.get_map(url.as_str(), session, event, decode_token, decode);
        let ghost progress = choose|progress: ProgressView| #[trigger]
            exchanged(
                self@,
                get_map_call(url@),
                old(session)@,
                event,
                decode_token,
                session@,
                progress,
            ) && map_finished(progress, decode, step);
        match step {
            Action::Send(request) => {
                let action = Action::Send(request);
                assert(info_finished(progress, tag_key@, decode, parse_real, action));
                action
            },
            Action::Done(decoded) => {
                let result = select_tag(tag_key, decoded, parse_real);
                let action = Action::Done(result);
                proof {
                    if let ProgressView::Body(text) = progress {
                        assert(map_read(text, decode, decoded));
                        assert(info_read(text, tag_key@, decode, parse_real, result));
                    }
                    assert(info_finished(progress, tag_key@, decode, parse_real, action));
                }
                action
            },
        }
    }
}

} // verus!
