//! The generic map decoder: a body that is a JSON object, each member decoded
//! on its own, all of them or none.

use vstd::prelude::*;
use crate::client::{Client, ClientView, GetTokenResponse};
use crate::error::{Error, ErrorKind, ErrorView};
use crate::json::{
    distinct_keys,
    json_document,
    json_members,
    member_views,
    object_members,
    parse_document,
};
use crate::reply::{join3, unreadable};
use crate::session::{exchanged, get_map_call, Action, Event, Progress, ProgressView, Session, SessionView};

verus! {

/// The message for a body that is JSON, but no object.
pub open spec fn not_an_object() -> Seq<char> {
    "Could not deserialize response into map, as it was not an object."@
}

/// The message for a member that does not have the expected shape.
pub open spec fn wrong_member(reason: Seq<char>) -> Seq<char> {
    "Could not deserialize response into map of specified type ("@ + reason + ")."@
}

/// That `decode` accepted the value `member`.
pub open spec fn accepted<T, F: Fn(&serde_json::Value) -> Result<T, String>>(
    decode: F,
    member: serde_json::Value,
) -> bool {
    exists|value: T| #[trigger] decode.ensures((&member,), Ok::<T, String>(value))
}

/// That `decode` accepted every member before the one at `end`.
pub open spec fn accepted_before<T, F: Fn(&serde_json::Value) -> Result<T, String>>(
    members: Seq<(Seq<char>, serde_json::Value)>,
    decode: F,
    end: int,
) -> bool {
    forall|j: int| 0 <= j < end ==> #[trigger] accepted::<T, F>(decode, members[j].1)
}

/// That `result` is what becomes of the members of an object when `decode`
/// reads each.
///
/// The result is a list only if `decode` accepted every member; the list then
/// holds, in the order of the members, each key with what `decode` made of its
/// value. Otherwise the result is a `ParseError` that quotes the reason for
/// which `decode` refused a member, the members before it being accepted.
pub open spec fn members_read<T, F: Fn(&serde_json::Value) -> Result<T, String>>(
    members: Seq<(Seq<char>, serde_json::Value)>,
    decode: F,
    result: Result<Vec<(String, T)>, Error>,
) -> bool {
    match result {
        Ok(list) => list@.len() == members.len() && forall|i: int|
            0 <= i < members.len() ==> (#[trigger] list@[i]).0@ == members[i].0 && decode.ensures(
                (&members[i].1,),
                Ok::<T, String>(list@[i].1),
            ),
        Err(error) => exists|i: int, reason: String|
            0 <= i < members.len() && #[trigger] decode.ensures(
                (&members[i].1,),
                Err::<T, String>(reason),
            ) && accepted_before::<T, F>(members, decode, i) && error@ == (ErrorView {
                kind: ErrorKind::ParseError,
                message: wrong_member(reason@),
            }),
    }
}

/// That `result` is what becomes of the body `text` when it is read as a JSON
/// object whose members `decode` reads.
pub open spec fn map_read<T, F: Fn(&serde_json::Value) -> Result<T, String>>(
    text: Seq<char>,
    decode: F,
    result: Result<Vec<(String, T)>, Error>,
) -> bool {
    match json_document(text) {
        Err(reason) => result matches Err(e) && e@ == (ErrorView {
            kind: ErrorKind::ParseError,
            message: unreadable(reason),
        }),
        Ok(value) => match json_members(value) {
            None => result matches Err(e) && e@ == (ErrorView {
                kind: ErrorKind::ParseError,
                message: not_an_object(),
            }),
            Some(members) => members_read(members, decode, result) && (result matches Ok(list)
                ==> distinct_keys(member_views(list@))),
        },
    }
}

/// What a call whose body is a JSON object does with a step's progress.
pub open spec fn map_finished<T, F: Fn(&serde_json::Value) -> Result<T, String>>(
    progress: ProgressView,
    decode: F,
    action: Action<Vec<(String, T)>>,
) -> bool {
    match progress {
        ProgressView::Send(request) => action matches Action::Send(r) && r@ == request,
        ProgressView::Failed(error) => action matches Action::Done(Err(e)) && e@ == error,
        ProgressView::Body(text) => action matches Action::Done(result) && map_read(
            text,
            decode,
            result,
        ),
    }
}

/// That `action` and the session `after` are one step of `get_map` on `url`.
pub open spec fn map_stepped<
    T,
    D: Fn(&String) -> Result<GetTokenResponse, String>,
    F: Fn(&serde_json::Value) -> Result<T, String>,
>(
    client: ClientView,
    url: Seq<char>,
    before: SessionView,
    event: Event,
    decode_token: D,
    decode: F,
    after: SessionView,
    action: Action<Vec<(String, T)>>,
) -> bool {
    exists|progress: ProgressView| #[trigger]
        exchanged(client, get_map_call(url), before, event, decode_token, after, progress)
            && map_finished(progress, decode, action)
}

/// Reads each member of an object with `decode`: all of them, or none.
pub fn read_members<T, F: Fn(&serde_json::Value) -> Result<T, String>>(
    members: &Vec<(String, serde_json::Value)>,
    decode: F,
) -> (result: Result<Vec<(String, T)>, Error>)
    requires
        forall|value: &serde_json::Value| decode.requires((value,)),
    ensures
        members_read(member_views(members@), decode, result),
{
    let ghost model = member_views(members@);
    let mut list: Vec<(String, T)> = Vec::new();
    let mut i: usize = 0;
    while i < members.len()
        invariant
            i <= members.len(),
            list@.len() == i,
            model == member_views(members@),
            forall|value: &serde_json::Value| decode.requires((value,)),
            forall|k: int|
                0 <= k < i ==> (#[trigger] list@[k]).0@ == model[k].0 && decode.ensures(
                    (&model[k].1,),
                    Ok::<T, String>(list@[k].1),
                ),
        decreases members.len() - i,
    {
        let decoded = decode(&members[i].1);
        assert(model[i as int].1 == members@[i as int].1);
        match decoded {
            Ok(value) => {
                let key = members[i].0.clone();
                list.push((key, value));
            },
            Err(reason) => {
                let message = join3(
                    "Could not deserialize response into map of specified type (",
                    reason.as_str(),
                    ").",
                );
                let error = Error::ParseError(message);
                proof {
                    assert(decode.ensures((&model[i as int].1,), Err::<T, String>(reason)));
                    assert forall|j: int| 0 <= j < i implies #[trigger] accepted::<T, F>(
                        decode,
                        model[j].1,
                    ) by {
                        assert(decode.ensures((&model[j].1,), Ok::<T, String>(list@[j].1)));
                    }
                    assert(accepted_before::<T, F>(model, decode, i as int));
                }
                return Err(error);
            },
        }
        i += 1;
    }
    Ok(list)
}

/// Reads a body as a JSON object and each of its members with `decode`.
pub fn read_map<T, F: Fn(&serde_json::Value) -> Result<T, String>>(text: &String, decode: F) -> (result:
    Result<Vec<(String, T)>, Error>)
    requires
        forall|value: &serde_json::Value| decode.requires((value,)),
    ensures
        map_read(text@, decode, result),
{
    match parse_document(text.as_str()) {
        Err(reason) => Err(
            Error::ParseError(join3("Could not deserialize response (", reason.as_str(), ").")),
        ),
        Ok(value) => match object_members(&value) {
            None => Err(
                Error::ParseError(
                    String::from_str(
                        "Could not deserialize response into map, as it was not an object.",
                    ),
                ),
            ),
            Some(members) => {
                let result = read_members(&members, decode);
                proof {
                    if result is Ok {
                        let list = result->Ok_0;
                        assert(member_views(list@).len() == list@.len());
                        assert forall|i: int, j: int|
                            0 <= i < j < list@.len() implies (#[trigger] member_views(
                            list@,
                        )[i]).0 != (#[trigger] member_views(list@)[j]).0 by {
                            assert(list@[i].0@ == member_views(members@)[i].0);
                            assert(list@[j].0@ == member_views(members@)[j].0);
                        }
                    }
                }
                result
            },
        },
    }
}

/// The value under `key` in a list of members: that of the first member with
/// this key, if there is one.
pub open spec fn find<T>(members: Seq<(String, T)>, key: Seq<char>) -> Option<T>
    decreases members.len(),
{
    if members.len() == 0 {
        None
    } else if members[0].0@ == key {
        Some(members[0].1)
    } else {
        find(members.drop_first(), key)
    }
}

/// Where no member before `start` has the key, the search may begin at `start`.
pub proof fn lemma_find_skips<T>(members: Seq<(String, T)>, key: Seq<char>, start: int)
    requires
        0 <= start <= members.len(),
        forall|j: int| 0 <= j < start ==> (#[trigger] members[j]).0@ != key,
    ensures
        find(members, key) == find(members.skip(start), key),
    decreases start,
{
    if start == 0 {
        assert(members.skip(0) =~= members);
    } else {
        assert(members[0].0@ != key);
        let rest = members.drop_first();
        assert forall|j: int| 0 <= j < start - 1 implies (#[trigger] rest[j]).0@ != key by {
            assert(rest[j] == members[j + 1]);
        }
        lemma_find_skips(rest, key, start - 1);
        assert(rest.skip(start - 1) =~= members.skip(start));
    }
}

/// Takes the value under `key` out of a list of members.
pub fn lookup<T>(members: Vec<(String, T)>, key: &str) -> (found: Option<T>)
    ensures
        found == find(members@, key@),
{
    let ghost all = members@;
    let mut rest = members;
    let wanted = String::from_str(key);
    let mut i: usize = 0;
    while i < rest.len()
        invariant
            all == members@,
            rest@ == all,
            wanted@ == key@,
            i <= rest.len(),
            forall|j: int| 0 <= j < i ==> (#[trigger] all[j]).0@ != key@,
        decreases rest.len() - i,
    {
        if rest[i].0 == wanted {
            let member = rest.swap_remove(i);
            proof {
                lemma_find_skips(all, key@, i as int);
                let tail = all.skip(i as int);
                assert(tail.len() > 0);
                assert(tail[0] == all[i as int]);
                assert(all[i as int].0@ == key@);
                assert(find(tail, key@) == Some(member.1));
            }
            return Some(member.1);
        }
        i += 1;
    }
    proof {
        lemma_find_skips(all, key@, all.len() as int);
    }
    None
}

impl Client {
    /// One step of an authenticated GET of `url` whose body is a JSON object;
    /// `decode` reads each member on its own.
    ///
    /// As [`Client::get`] up to the body. A body that is no JSON, or no object, is a `ParseError`;
    /// so is a member that `decode` refuses, whatever the other members hold.
    pub fn get_map<
        T,
        D: Fn(&String) -> Result<GetTokenResponse, String>,
        F: Fn(&serde_json::Value) -> Result<T, String>,
    >(&self, url: &str, session: &mut Session, event: Event, decode_token: D, decode: F) -> (action:
        Action<Vec<(String, T)>>)
        requires
            forall|text: &String| decode_token.requires((text,)),
            forall|value: &serde_json::Value| decode.requires((value,)),
        ensures
            map_stepped(
                self@,
                url@,
                old(session)@,
                event,
                decode_token,
                decode,
                final(session)@,
                action,
            ),
    {
        let progress = self.exchange(
            crate::transport::Method::Get,
            url,
            None,
            session,
            event,
            decode_token,
        );
        match progress {
            Progress::Send(request) => Action::Send(request),
            Progress::Failed(error) => Action::Done(Err(error)),
            Progress::Body(text) => Action::Done(read_map(&text, decode)),
        }
    }
}

} // verus!
