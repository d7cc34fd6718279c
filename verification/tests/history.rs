use webport::get_tag_history::{check_range, list_points, select_points};
use webport::{
    Action, Client, Error, ErrorKind, Event, GetTokenResponse, Outcome, Request, Session, Status,
    Timestamp, UtcInstant,
};

fn client() -> Client {
    Client::new("https://plant.example".to_string(), "user".to_string(), "secret".to_string(), None)
}

fn decode_token(text: &String) -> Result<GetTokenResponse, String> {
    let value: serde_json::Value = serde_json::from_str(text).map_err(|e| e.to_string())?;
    let field = |name: &str| match value.get(name).and_then(|v| v.as_str()) {
        Some(text) => Ok(text.to_string()),
        None => Err(format!("missing field `{}`", name)),
    };
    Ok(GetTokenResponse { token: field("Token")?, valid_until: field("ValidUntil")? })
}

fn decode_series(value: &serde_json::Value) -> Result<Vec<(String, f64)>, String> {
    let object = value.as_object().ok_or("expected a map".to_string())?;
    let mut series = Vec::new();
    for (key, number) in object {
        series.push((key.clone(), number.as_f64().ok_or("expected a number".to_string())?));
    }
    Ok(series)
}

fn received(code: u16, body: &str) -> Outcome {
    Outcome::Received { status: Status::new(code).unwrap(), body: body.to_string() }
}

fn token_reply() -> Outcome {
    received(200, "{\"Token\":\"abc\",\"ValidUntil\":\"2030-01-01\"}")
}

fn failure<T>(result: Result<T, Error>) -> (ErrorKind, String) {
    match result {
        Ok(_) => panic!("the call succeeded"),
        Err(e) => (e.kind(), e.message()),
    }
}

fn whole(seconds: i64) -> Timestamp {
    Timestamp::new(seconds, 0, 0).unwrap()
}

fn history(
    start: Timestamp,
    end: Timestamp,
    outcomes: Vec<Outcome>,
) -> (Vec<Request>, Result<Vec<(UtcInstant, f64)>, Error>, Session) {
    let c = client();
    let mut session = Session::new();
    let mut sent = Vec::new();
    let mut outcomes = outcomes.into_iter();
    let mut action =
        c.get_tag_history("T1", start, end, &mut session, Event::Start, decode_token, decode_series);
    loop {
        match action {
            Action::Send(request) => {
                sent.push(request);
                let event = Event::Reply(outcomes.next().unwrap());
                action =
                    c.get_tag_history("T1", start, end, &mut session, event, decode_token, decode_series);
            }
            Action::Done(result) => return (sent, result, session),
        }
    }
}

fn history_of(body: &str) -> Result<Vec<(UtcInstant, f64)>, Error> {
    history(whole(1_577_836_800), whole(1_577_923_200), vec![token_reply(), received(200, body)]).1
}

#[test]
fn history_lists_each_point_in_utc() {
    let (sent, result, session) = history(
        whole(1_577_836_800),
        Timestamp::new(1_577_919_600, 0, 3600).unwrap(),
        vec![
            token_reply(),
            received(
                200,
                "{\"T1\":{\"2020-01-01T01:00:00+01:00\":1.5,\"2020-01-01T00:30:00.25Z\":-2}}",
            ),
        ],
    );
    assert!(session.is_closed());
    assert_eq!(sent.len(), 2);
    assert_eq!(
        sent[1].url,
        "https://plant.example/api/v1/trend/history?tag=T1\
         &start=2020-01-01T00%3A00%3A00%2B00%3A00&end=2020-01-02T00%3A00%3A00%2B01%3A00"
    );
    assert_eq!(sent[1].token, Some("abc".to_string()));
    let mut points = result.unwrap();
    points.sort_by_key(|p| (p.0.seconds, p.0.nanoseconds));
    assert_eq!(
        points,
        vec![
            (UtcInstant { seconds: 1_577_836_800, nanoseconds: 0 }, 1.5),
            (UtcInstant { seconds: 1_577_838_600, nanoseconds: 250_000_000 }, -2.0),
        ]
    );
}

#[test]
fn history_times_are_what_chrono_reads_from_the_keys() {
    let keys = ["2021-06-30T23:59:59-11:30", "1999-12-31T23:59:59.999999999+14:00"];
    let body = format!("{{\"T1\":{{\"{}\":1,\"{}\":2}}}}", keys[0], keys[1]);
    let points = history_of(&body).unwrap();
    assert_eq!(points.len(), 2);
    for key in keys {
        let parsed = chrono::DateTime::parse_from_rfc3339(key).unwrap();
        let utc = parsed.with_timezone(&chrono::Utc);
        let instant =
            UtcInstant { seconds: utc.timestamp(), nanoseconds: utc.timestamp_subsec_nanos() };
        assert!(points.iter().any(|p| p.0 == instant));
        let back = chrono::DateTime::from_timestamp(instant.seconds, instant.nanoseconds).unwrap();
        assert_eq!(back, parsed);
    }
}

#[test]
fn history_with_a_start_off_the_second_sends_nothing() {
    let start = Timestamp::new(1_577_836_800, 1, 0).unwrap();
    let (sent, result, session) = history(start, whole(1_577_923_200), vec![]);
    assert!(sent.is_empty());
    assert!(session.is_closed());
    assert_eq!(
        failure(result),
        (ErrorKind::ArgumentError, "Start cannot contain sub-seconds.".to_string())
    );
}

#[test]
fn history_with_an_end_off_the_second_sends_nothing() {
    let end = Timestamp::new(1_577_923_200, 999_999_999, 7200).unwrap();
    let (sent, result, _) = history(whole(1_577_836_800), end, vec![]);
    assert!(sent.is_empty());
    assert_eq!(
        failure(result),
        (ErrorKind::ArgumentError, "End cannot contain sub-seconds.".to_string())
    );
}

#[test]
fn history_looks_at_the_start_first() {
    let start = Timestamp::new(0, 5, 0).unwrap();
    let end = Timestamp::new(10, 5, 0).unwrap();
    assert_eq!(failure(check_range(&start, &end)).1, "Start cannot contain sub-seconds.");
    assert!(check_range(&whole(0), &whole(10)).is_ok());
}

#[test]
fn history_without_the_key_is_a_parse_error() {
    assert_eq!(
        failure(history_of("{\"T2\":{}}")),
        (
            ErrorKind::ParseError,
            "Could not parse tag history for tag key \"T1\" (tag name not found).".to_string()
        )
    );
}

#[test]
fn history_with_a_key_that_is_no_time_names_it() {
    assert_eq!(
        failure(history_of("{\"T1\":{\"2020-01-01T00:00:00Z\":1,\"noon\":2}}")),
        (
            ErrorKind::ParseError,
            "Could not parse tag history for tag key \"T1\" with input \"noon\" \
             (input contains invalid characters)."
                .to_string()
        )
    );
}

#[test]
fn history_with_a_time_without_offset_is_a_parse_error() {
    let (kind, message) = failure(history_of("{\"T1\":{\"2020-01-01T00:00:00\":1}}"));
    assert_eq!(kind, ErrorKind::ParseError);
    assert!(message.contains("with input \"2020-01-01T00:00:00\""));
}

#[test]
fn history_with_a_series_that_does_not_decode_is_a_parse_error() {
    assert_eq!(
        failure(history_of("{\"T1\":{\"2020-01-01T00:00:00Z\":\"x\"}}")),
        (
            ErrorKind::ParseError,
            "Could not deserialize response into map of specified type (expected a number)."
                .to_string()
        )
    );
}

#[test]
fn history_of_an_empty_series_is_empty() {
    assert!(history_of("{\"T1\":{}}").unwrap().is_empty());
}

#[test]
fn history_with_status_401_is_an_api_error() {
    let (sent, result, _) =
        history(whole(0), whole(60), vec![token_reply(), received(401, "no")]);
    let (kind, message) = failure(result);
    assert_eq!(kind, ErrorKind::ApiError);
    assert!(message.contains("401"));
    assert!(message.contains(&sent[1].url));
}

#[test]
fn list_points_keeps_order_and_values() {
    let series = vec![
        ("2020-01-01T00:00:02Z".to_string(), 'b'),
        ("2020-01-01T00:00:01Z".to_string(), 'a'),
    ];
    assert_eq!(
        list_points("T1", series).unwrap(),
        vec![
            (UtcInstant { seconds: 1_577_836_802, nanoseconds: 0 }, 'b'),
            (UtcInstant { seconds: 1_577_836_801, nanoseconds: 0 }, 'a'),
        ]
    );
}

#[test]
fn select_points_passes_an_error_on() {
    let failed: Result<Vec<(UtcInstant, f64)>, Error> =
        select_points("T1", Err(Error::ApiError("x".to_string())));
    assert_eq!(failure(failed), (ErrorKind::ApiError, "x".to_string()));
}

#[test]
fn history_with_a_leap_second_under_an_odd_offset_sends_nothing() {
    let zone = chrono::FixedOffset::east_opt(30).unwrap();
    let whole = chrono::DateTime::from_timestamp(1_483_228_769, 0).unwrap().with_timezone(&zone);
    let leap = chrono::Timelike::with_nanosecond(&whole, 1_000_000_000).unwrap();
    let start = Timestamp::new(
        leap.timestamp(),
        leap.timestamp_subsec_nanos(),
        leap.offset().local_minus_utc(),
    )
    .unwrap();
    let (sent, result, session) = history(start, whole_second(1_577_923_200), vec![]);
    assert!(sent.is_empty());
    assert!(session.is_closed());
    assert_eq!(
        failure(result),
        (ErrorKind::ArgumentError, "Start cannot contain sub-seconds.".to_string())
    );
}

fn whole_second(seconds: i64) -> Timestamp {
    Timestamp::new(seconds, 0, 0).unwrap()
}
