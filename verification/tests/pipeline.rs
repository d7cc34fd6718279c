use webport::get_map::{lookup, read_map};
use webport::reply::{classify, decoded_body};
use webport::{
    Action, Client, Error, ErrorKind, Event, GetTokenResponse, Method, Outcome, Request, Session,
    Status,
};

fn client() -> Client {
    Client::new("https://plant.example".to_string(), "user".to_string(), "secret".to_string(), None)
}

fn text_of(value: &serde_json::Value, field: &str) -> Result<String, String> {
    match value.get(field).and_then(|v| v.as_str()) {
        Some(text) => Ok(text.to_string()),
        None => Err(format!("missing field `{}`", field)),
    }
}

fn decode_token(text: &String) -> Result<GetTokenResponse, String> {
    let value: serde_json::Value = serde_json::from_str(text).map_err(|e| e.to_string())?;
    Ok(GetTokenResponse {
        token: text_of(&value, "Token")?,
        valid_until: text_of(&value, "ValidUntil")?,
    })
}

fn decode_number(text: &String) -> Result<u64, String> {
    serde_json::from_str::<u64>(text).map_err(|e| e.to_string())
}

fn member_number(value: &serde_json::Value) -> Result<u64, String> {
    value.as_u64().ok_or("not a number".to_string())
}

fn received(code: u16, body: &str) -> Outcome {
    Outcome::Received { status: Status::new(code).unwrap(), body: body.to_string() }
}

fn token_reply(token: &str) -> Outcome {
    let mut body = serde_json::Map::new();
    body.insert("Token".to_string(), serde_json::Value::String(token.to_string()));
    body.insert("ValidUntil".to_string(), serde_json::Value::String("2030-01-01".to_string()));
    received(200, &serde_json::Value::Object(body).to_string())
}

fn drive<T>(
    mut step: impl FnMut(&mut Session, Event) -> Action<T>,
    outcomes: Vec<Outcome>,
) -> (Vec<Request>, Result<T, Error>, Session) {
    let mut session = Session::new();
    let mut sent = Vec::new();
    let mut outcomes = outcomes.into_iter();
    let mut action = step(&mut session, Event::Start);
    loop {
        match action {
            Action::Send(request) => {
                sent.push(request);
                let outcome = outcomes.next().unwrap();
                action = step(&mut session, Event::Reply(outcome));
            }
            Action::Done(result) => return (sent, result, session),
        }
    }
}

fn get_number(outcomes: Vec<Outcome>) -> (Vec<Request>, Result<u64, Error>, Session) {
    let c = client();
    drive(|s, e| c.get("https://plant.example/api/v1/n", s, e, decode_token, decode_number), outcomes)
}

fn failure<T>(result: Result<T, Error>) -> (ErrorKind, String) {
    match result {
        Ok(_) => panic!("the call succeeded"),
        Err(e) => (e.kind(), e.message()),
    }
}

#[test]
fn get_fetches_a_token_then_the_data() {
    let (sent, result, session) = get_number(vec![token_reply("abc"), received(200, "17")]);
    assert_eq!(result.unwrap(), 17);
    assert!(session.is_closed());
    assert_eq!(sent.len(), 2);
    assert_eq!(sent[0].method, Method::Get);
    assert_eq!(
        sent[0].url,
        "https://plant.example/api/v1/access/token?username=user&password=secret"
    );
    assert_eq!(sent[0].token, None);
    assert_eq!(sent[0].body, None);
    assert_eq!(sent[1].method, Method::Get);
    assert_eq!(sent[1].url, "https://plant.example/api/v1/n");
    assert_eq!(sent[1].token, Some("abc".to_string()));
    assert_eq!(sent[1].body, None);
}

#[test]
fn every_call_fetches_a_fresh_token() {
    let (first, _, _) = get_number(vec![token_reply("one"), received(200, "1")]);
    let (second, _, _) = get_number(vec![token_reply("two"), received(200, "2")]);
    assert_eq!(first[0].url, second[0].url);
    assert_eq!(first[1].token, Some("one".to_string()));
    assert_eq!(second[1].token, Some("two".to_string()));
}

#[test]
fn token_request_that_cannot_be_sent_is_a_network_error() {
    let (sent, result, _) = get_number(vec![Outcome::SendFailed("connection refused".to_string())]);
    assert_eq!(sent.len(), 1);
    assert_eq!(
        failure(result),
        (ErrorKind::NetworkError, "Could not send message (connection refused).".to_string())
    );
}

#[test]
fn token_reply_that_cannot_be_read_is_a_network_error() {
    let (_, result, _) = get_number(vec![Outcome::BodyFailed("bad encoding".to_string())]);
    assert_eq!(
        failure(result),
        (ErrorKind::NetworkError, "Could not read response (bad encoding).".to_string())
    );
}

#[test]
fn token_reply_401_is_an_api_error_with_status_body_and_url() {
    let (sent, result, session) = get_number(vec![received(401, "who are you")]);
    assert_eq!(sent.len(), 1);
    assert!(session.is_closed());
    let (kind, message) = failure(result);
    assert_eq!(kind, ErrorKind::ApiError);
    assert_eq!(
        message,
        "Got 401 Unauthorized / who are you calling \
         https://plant.example/api/v1/access/token?username=user&password=secret."
    );
    assert!(message.contains("401"));
    assert!(message.contains("who are you"));
    assert!(message.contains(&sent[0].url));
}

#[test]
fn token_reply_of_the_wrong_shape_is_a_parse_error_that_quotes_the_body() {
    let (sent, result, _) = get_number(vec![received(200, "{\"Token\":\"abc\"}")]);
    assert_eq!(sent.len(), 1);
    assert_eq!(
        failure(result),
        (
            ErrorKind::ParseError,
            "Could not deserialize response (missing field `ValidUntil`) from {\"Token\":\"abc\"}."
                .to_string()
        )
    );
}

#[test]
fn reply_401_is_an_api_error_with_status_body_url_and_token() {
    let (sent, result, session) = get_number(vec![token_reply("abc"), received(401, "expired")]);
    assert_eq!(sent.len(), 2);
    assert!(session.is_closed());
    let (kind, message) = failure(result);
    assert_eq!(kind, ErrorKind::ApiError);
    assert_eq!(
        message,
        "Got 401 Unauthorized / expired calling https://plant.example/api/v1/n with token abc."
    );
    assert!(message.contains("401"));
    assert!(message.contains("expired"));
    assert!(message.contains("https://plant.example/api/v1/n"));
}

#[test]
fn only_status_200_is_a_success() {
    let (_, result, _) = get_number(vec![token_reply("abc"), received(204, "17")]);
    let (kind, message) = failure(result);
    assert_eq!(kind, ErrorKind::ApiError);
    assert!(message.starts_with("Got 204 No Content / 17 calling "));
}

#[test]
fn status_without_a_reason_phrase_is_still_named() {
    let (_, result, _) = get_number(vec![token_reply("abc"), received(599, "")]);
    let (_, message) = failure(result);
    assert!(message.starts_with("Got 599 <unknown status code> / "));
}

#[test]
fn reply_that_cannot_be_sent_is_a_network_error() {
    let (sent, result, _) =
        get_number(vec![token_reply("abc"), Outcome::SendFailed("timed out".to_string())]);
    assert_eq!(sent.len(), 2);
    assert_eq!(
        failure(result),
        (ErrorKind::NetworkError, "Could not send message (timed out).".to_string())
    );
}

#[test]
fn reply_that_cannot_be_read_is_a_network_error() {
    let (_, result, _) =
        get_number(vec![token_reply("abc"), Outcome::BodyFailed("timed out".to_string())]);
    assert_eq!(
        failure(result),
        (ErrorKind::NetworkError, "Could not read response (timed out).".to_string())
    );
}

#[test]
fn body_that_does_not_decode_is_a_parse_error_that_quotes_it() {
    let (_, result, _) = get_number(vec![token_reply("abc"), received(200, "\"x\"")]);
    let (kind, message) = failure(result);
    assert_eq!(kind, ErrorKind::ParseError);
    assert!(message.starts_with("Could not deserialize response (invalid type: string \"x\""));
    assert!(message.ends_with(") from \"x\"."));
}

#[test]
fn token_that_is_no_header_value_is_a_parse_error_for_get() {
    let (sent, result, session) = get_number(vec![token_reply("a\nb")]);
    assert_eq!(sent.len(), 1);
    assert!(session.is_closed());
    assert_eq!(
        failure(result),
        (
            ErrorKind::ParseError,
            "Could not parse auth token header value (failed to parse header value).".to_string()
        )
    );
}

#[test]
fn token_that_is_no_header_value_is_a_parse_error_for_get_map_and_post() {
    let c = client();
    let (sent, result, _) = drive(
        |s, e| c.get_map("https://plant.example/m", s, e, decode_token, member_number),
        vec![token_reply("a\u{7f}b")],
    );
    assert_eq!(sent.len(), 1);
    assert_eq!(
        failure(result),
        (
            ErrorKind::ParseError,
            "Could not parse auth token header value (failed to parse header value).".to_string()
        )
    );
    let body = "{}".to_string();
    let (sent, result, _) = drive(
        |s, e| c.post("https://plant.example/p", &body, s, e, decode_token, decode_number),
        vec![token_reply("\u{1}")],
    );
    assert_eq!(sent.len(), 1);
    assert_eq!(failure(result).0, ErrorKind::ParseError);
}

#[test]
fn token_that_is_no_header_value_fails_the_same_for_every_entry_point() {
    let c = client();
    let body = "{}".to_string();
    let (_, got, _) = get_number(vec![token_reply("a\nb")]);
    let (_, mapped, _) = drive(
        |s, e| c.get_map("https://plant.example/n", s, e, decode_token, member_number),
        vec![token_reply("a\nb")],
    );
    let (_, posted, _) = drive(
        |s, e| c.post("https://plant.example/n", &body, s, e, decode_token, decode_number),
        vec![token_reply("a\nb")],
    );
    let expected = failure(got);
    assert_eq!(failure(mapped), expected);
    assert_eq!(failure(posted), expected);
}

#[test]
fn token_with_a_tab_or_beyond_ascii_is_a_header_value() {
    let (sent, result, _) = get_number(vec![token_reply("a\tb \u{e9}~"), received(200, "1")]);
    assert_eq!(result.unwrap(), 1);
    assert_eq!(sent[1].token, Some("a\tb \u{e9}~".to_string()));
}

#[test]
fn post_sends_the_body_with_the_token() {
    let c = client();
    let body = "{\"a\":1}".to_string();
    let (sent, result, _) = drive(
        |s, e| c.post("https://plant.example/p", &body, s, e, decode_token, decode_number),
        vec![token_reply("abc"), received(200, "5")],
    );
    assert_eq!(result.unwrap(), 5);
    assert_eq!(sent[0].method, Method::Get);
    assert_eq!(sent[1].method, Method::Post);
    assert_eq!(sent[1].url, "https://plant.example/p");
    assert_eq!(sent[1].token, Some("abc".to_string()));
    assert_eq!(sent[1].body, Some("{\"a\":1}".to_string()));
}

#[test]
fn event_out_of_turn_ends_the_call_as_unspecified() {
    let c = client();
    let mut session = Session::new();
    let action: Action<u64> = c.get("u", &mut session, Event::Reply(received(200, "1")), decode_token, decode_number);
    match action {
        Action::Done(result) => assert_eq!(
            failure(result),
            (ErrorKind::Unspecified, "Unexpected event for the state of the call.".to_string())
        ),
        Action::Send(_) => panic!("a request was sent"),
    }
    assert!(session.is_closed());
    let again: Action<u64> = c.get("u", &mut session, Event::Start, decode_token, decode_number);
    match again {
        Action::Done(result) => assert_eq!(failure(result).0, ErrorKind::Unspecified),
        Action::Send(_) => panic!("a closed call sent a request"),
    }
}

#[test]
fn get_token_reads_the_token() {
    let token = client().get_token(token_reply("abc"), decode_token).unwrap();
    assert_eq!(token.token, "abc");
    assert_eq!(token.valid_until, "2030-01-01");
}

#[test]
fn classify_hands_out_the_body_of_status_200() {
    assert_eq!(classify("u", None, received(200, "body")).unwrap(), "body");
}

#[test]
fn decoded_body_keeps_a_value_and_wraps_a_reason() {
    let body = "[]".to_string();
    assert_eq!(decoded_body(&body, Ok(3)).unwrap(), 3);
    let failed: Result<u64, Error> = decoded_body(&body, Err("no".to_string()));
    assert_eq!(
        failure(failed),
        (ErrorKind::ParseError, "Could not deserialize response (no) from [].".to_string())
    );
}

#[test]
fn get_map_decodes_each_member() {
    let c = client();
    let (sent, result, _) = drive(
        |s, e| c.get_map("https://plant.example/m", s, e, decode_token, member_number),
        vec![token_reply("abc"), received(200, "{\"b\":2,\"a\":1}")],
    );
    assert_eq!(sent.len(), 2);
    let mut list = result.unwrap();
    list.sort();
    assert_eq!(list, vec![("a".to_string(), 1), ("b".to_string(), 2)]);
}

#[test]
fn get_map_of_an_array_is_a_parse_error() {
    let c = client();
    let (_, result, _) = drive(
        |s, e| c.get_map("https://plant.example/m", s, e, decode_token, member_number),
        vec![token_reply("abc"), received(200, "[1,2]")],
    );
    assert_eq!(
        failure(result),
        (
            ErrorKind::ParseError,
            "Could not deserialize response into map, as it was not an object.".to_string()
        )
    );
}

#[test]
fn get_map_of_a_scalar_is_a_parse_error() {
    let failed: Result<Vec<(String, u64)>, Error> = read_map(&"7".to_string(), member_number);
    assert_eq!(
        failure(failed).1,
        "Could not deserialize response into map, as it was not an object."
    );
}

#[test]
fn get_map_of_what_is_no_json_is_a_parse_error() {
    let failed: Result<Vec<(String, u64)>, Error> = read_map(&"{".to_string(), member_number);
    assert_eq!(
        failure(failed),
        (
            ErrorKind::ParseError,
            "Could not deserialize response (EOF while parsing an object at line 1 column 1)."
                .to_string()
        )
    );
}

#[test]
fn get_map_with_one_bad_member_hands_out_nothing() {
    let failed: Result<Vec<(String, u64)>, Error> =
        read_map(&"{\"a\":1,\"b\":\"x\",\"c\":3}".to_string(), member_number);
    assert_eq!(
        failure(failed),
        (
            ErrorKind::ParseError,
            "Could not deserialize response into map of specified type (not a number).".to_string()
        )
    );
}

#[test]
fn get_map_of_an_empty_object_is_an_empty_list() {
    let list: Vec<(String, u64)> = read_map(&"{}".to_string(), member_number).unwrap();
    assert!(list.is_empty());
}

#[test]
fn get_map_keeps_each_key_once() {
    let list: Vec<(String, u64)> =
        read_map(&"{\"a\":1,\"a\":2}".to_string(), member_number).unwrap();
    assert_eq!(list, vec![("a".to_string(), 2)]);
}

#[test]
fn lookup_finds_the_value_under_a_key() {
    let list = vec![("a".to_string(), 1), ("b".to_string(), 2), ("c".to_string(), 3)];
    assert_eq!(lookup(list.clone(), "b"), Some(2));
    assert_eq!(lookup(list.clone(), "a"), Some(1));
    assert_eq!(lookup(list.clone(), "c"), Some(3));
    assert_eq!(lookup(list, "d"), None);
    assert_eq!(lookup(Vec::<(String, u64)>::new(), "a"), None);
}

#[test]
fn token_may_hold_a_tab_and_anything_but_ascii_controls() {
    for code in 0u32..0x300 {
        let c = char::from_u32(code).unwrap();
        let token = format!("a{}b", c);
        let (sent, result, _) = get_number(vec![token_reply(&token), received(200, "1")]);
        let allowed = c == '\t' || (c >= ' ' && c != '\u{7f}');
        assert_eq!(sent.len() == 2, allowed, "character {}", code);
        assert_eq!(result.is_ok(), allowed, "character {}", code);
    }
}

#[test]
fn status_line_begins_with_the_number() {
    for code in 100u16..=999 {
        let line = Status::new(code).unwrap().line();
        assert!(line.starts_with(&format!("{} ", code)), "status {}", code);
        assert!(line.len() > 4, "status {}", code);
    }
}
