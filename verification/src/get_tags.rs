//! Listing the tags of the service.

use vstd::prelude::*;
use crate::client::{tags_url, Client, ClientView, GetTokenResponse};
use crate::error::{Error, ErrorKind, ErrorView};
use crate::get_map::{
    accepted,
    accepted_before,
    map_finished,
    map_read,
    not_an_object,
    wrong_member,
};
use crate::json::{decode_string, distinct_keys, json_document, json_members, json_string, member_views};
use crate::reply::unreadable;
use crate::session::{exchanged, get_map_call, Action, Event, ProgressView, Session, SessionView};

verus! {

/// That `result` is the list of tags that the members of an object stand for.
///
/// Where every member is a string, the result lists each key with its string,
/// in the order of the members. Otherwise it is a `ParseError` that quotes the
/// reason for which the first member that is no string was refused.
pub open spec fn tags_listed(
    members: Seq<(Seq<char>, serde_json::Value)>,
    result: Result<Vec<(String, String)>, Error>,
) -> bool {
    &&& (forall|i: int| 0 <= i < members.len() ==> json_string(#[trigger] members[i].1) is Ok)
        ==> (result matches Ok(list) && list@.len() == members.len() && forall|i: int|
        0 <= i < members.len() ==> (#[trigger] list@[i]).0@ == members[i].0 && json_string(
            members[i].1,
        ) == Ok::<Seq<char>, Seq<char>>(list@[i].1@))
    &&& forall|i: int|
        0 <= i < members.len() && json_string(#[trigger] members[i].1) is Err && (forall|j: int|
            0 <= j < i ==> json_string(#[trigger] members[j].1) is Ok) ==> (result matches Err(e)
            && e@ == (ErrorView {
            kind: ErrorKind::ParseError,
            message: wrong_member(json_string(members[i].1)->Err_0),
        }))
}

/// That `result` is the list of tags that the body `text` stands for: a JSON
/// object in which each member names a tag and gives its description.
pub open spec fn tags_read(text: Seq<char>, result: Result<Vec<(String, String)>, Error>) -> bool {
    match json_document(text) {
        Err(reason) => result matches Err(e) && e@ == (ErrorView {
            kind: ErrorKind::ParseError,
            message: unreadable(reason),
        }),
        Ok(value) => match json_members(value) {
            None => result matches Err(e) && e@ == (ErrorView {
                kind: ErrorKind::ParseError,
                message: not_an_object(),
            }),
            Some(members) => tags_listed(members, result) && (result matches Ok(list)
                ==> distinct_keys(member_views(list@))),
        },
    }
}

/// What `get_tags` does with a step's progress.
pub open spec fn tags_finished(progress: ProgressView, action: Action<Vec<(String, String)>>) -> bool {
    match progress {
        ProgressView::Send(request) => action matches Action::Send(r) && r@ == request,
        ProgressView::Failed(error) => action matches Action::Done(Err(e)) && e@ == error,
        ProgressView::Body(text) => action matches Action::Done(result) && tags_read(text, result),
    }
}

/// That `action` and the session `after` are one step of `get_tags`.
pub open spec fn tags_stepped<D: Fn(&String) -> Result<GetTokenResponse, String>>(
    client: ClientView,
    before: SessionView,
    event: Event,
    decode_token: D,
    after: SessionView,
    action: Action<Vec<(String, String)>>,
) -> bool {
    exists|progress: ProgressView| #[trigger]
        exchanged(
            client,
            get_map_call(tags_url(client)),
            before,
            event,
            decode_token,
            after,
            progress,
        ) && tags_finished(progress, action)
}

/// That a decoder answers for every value what reading it as a string gives.
pub open spec fn reads_strings<F: Fn(&serde_json::Value) -> Result<String, String>>(
    decode: F,
) -> bool {
    forall|value: &serde_json::Value, decoded: Result<String, String>| #[trigger]
        decode.ensures((value,), decoded) ==> match decoded {
            Ok(text) => json_string(*value) == Ok::<Seq<char>, Seq<char>>(text@),
            Err(reason) => json_string(*value) == Err::<Seq<char>, Seq<char>>(reason@),
        }
}

/// A map whose members were read as strings is a list of tags.
proof fn lemma_strings_are_tags<F: Fn(&serde_json::Value) -> Result<String, String>>(
    text: Seq<char>,
    decode: F,
    result: Result<Vec<(String, String)>, Error>,
)
    requires
        reads_strings(decode),
        map_read(text, decode, result),
    ensures
        tags_read(text, result),
{
    if let Ok(value) = json_document(text) {
        if let Some(members) = json_members(value) {
            match result {
                Ok(list) => {
                    assert forall|i: int| 0 <= i < members.len() implies (#[trigger] list@[i]).0@
                        == members[i].0 && json_string(members[i].1) == Ok::<
                        Seq<char>,
                        Seq<char>,
                    >(list@[i].1@) by {
                        assert(decode.ensures((&members[i].1,), Ok::<String, String>(list@[i].1)));
                    }
                    assert forall|i: int| 0 <= i < members.len() implies json_string(
                        #[trigger] members[i].1,
                    ) is Ok by {
                        assert(list@[i].0@ == members[i].0);
                    }
                    assert(tags_listed(members, result));
                },
                Err(error) => {
                    let (i, reason) = choose|i: int, reason: String|
                        0 <= i < members.len() && #[trigger] decode.ensures(
                            (&members[i].1,),
                            Err::<String, String>(reason),
                        ) && accepted_before::<String, F>(members, decode, i) && error@
                            == (ErrorView {
                            kind: ErrorKind::ParseError,
                            message: wrong_member(reason@),
                        });
                    assert(json_string(members[i].1) == Err::<Seq<char>, Seq<char>>(reason@));
                    assert forall|j: int| 0 <= j < i implies json_string(
                        #[trigger] members[j].1,
                    ) is Ok by {
                        assert(accepted::<String, F>(decode, members[j].1));
                        let value = choose|value: String| #[trigger]
                            decode.ensures((&members[j].1,), Ok::<String, String>(value));
                        assert(json_string(members[j].1) == Ok::<Seq<char>, Seq<char>>(value@));
                    }
                    assert forall|k: int|
                        0 <= k < members.len() && json_string(#[trigger] members[k].1) is Err && (
                        forall|j: int| 0 <= j < k ==> json_string(#[trigger] members[j].1) is Ok)
                        implies k == i by {
                        if k < i {
                            assert(json_string(members[k].1) is Ok);
                        } else if i < k {
                            assert(json_string(members[i].1) is Ok);
                        }
                    }
                    assert(tags_listed(members, result));
                },
            }
        }
    }
}

impl Client {
    /// One step of listing the tags: each tag's key with its description.
    ///
    /// The call is an authenticated GET of [`Client::tags_url`]. Its body is a
    /// JSON object whose members are strings; the result lists them in the
    /// order in which the object yields them, each key once.
    pub fn get_tags<D: Fn(&String) -> Result<GetTokenResponse, String>>(
        &self,
        session: &mut Session,
        event: Event,
        decode_token: D,
    ) -> (action: Action<Vec<(String, String)>>)
        requires
            forall|text: &String| decode_token.requires((text,)),
        ensures
            tags_stepped(self@, old(session)@, event, decode_token, final(session)@, action),
    {
        let url = self.tags_url();
        let decode = |value: &serde_json::Value| -> (decoded: Result<String, String>)
            ensures
                match decoded {
                    Ok(text) => json_string(*value) == Ok::<Seq<char>, Seq<char>>(text@),
                    Err(reason) => json_string(*value) == Err::<Seq<char>, Seq<char>>(reason@),
                },
            { decode_string(value) };
        let action = self.get_map(url.as_str(), session, event, decode_token, decode);
        proof {
            let progress = choose|progress: ProgressView| #[trigger]
                exchanged(
                    self@,
                    get_map_call(url@),
                    old(session)@,
                    event,
                    decode_token,
                    session@,
                    progress,
                ) && map_finished(progress, decode, action);
            if let ProgressView::Body(text) = progress {
                lemma_strings_are_tags(text, decode, action->Done_0);
            }
            assert(tags_finished(progress, action));
        }
        action
    }
}

} // verus!
