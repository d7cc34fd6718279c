use std::time::Duration;
use webport::time::parse_utc;
use webport::{Client, Error, ErrorKind, Status, Timestamp, UtcInstant};

fn client(timeout: Option<Duration>) -> Client {
    Client::new("http://h".to_string(), "u".to_string(), "p".to_string(), timeout)
}

#[test]
fn timeout_defaults_to_sixty_seconds() {
    assert_eq!(client(None).timeout(), Duration::new(60, 0));
}

#[test]
fn timeout_is_kept_as_given() {
    assert_eq!(client(Some(Duration::new(3, 500))).timeout(), Duration::new(3, 500));
}

#[test]
fn addresses_follow_the_templates() {
    let c = client(None);
    assert_eq!(c.url(), "http://h");
    assert_eq!(c.token_url(), "http://h/api/v1/access/token?username=u&password=p");
    assert_eq!(c.tags_url(), "http://h/api/v1/tag/list?type=list");
    assert_eq!(c.tag_info_url("TAG 1"), "http://h/api/v1/tag/info?tag=TAG 1");
}

#[test]
fn history_address_encodes_the_bounds() {
    let start = Timestamp::new(1_577_836_800, 0, 0).unwrap();
    let end = Timestamp::new(1_577_919_600, 0, 3600).unwrap();
    assert_eq!(
        client(None).tag_history_url("T1", &start, &end),
        "http://h/api/v1/trend/history?tag=T1&start=2020-01-01T00%3A00%3A00%2B00%3A00\
         &end=2020-01-02T00%3A00%3A00%2B01%3A00"
    );
}

#[test]
fn every_request_declares_json() {
    assert_eq!(
        Client::default_headers(),
        vec![("Content-Type".to_string(), "application/json".to_string())]
    );
}

#[test]
fn setup_failure_is_unspecified() {
    let error = Client::setup_failed("no tls");
    assert_eq!(error.kind(), ErrorKind::Unspecified);
    assert_eq!(error.message(), "Could not create reqwest client (no tls).");
}

#[test]
fn error_message_is_the_text_it_carries() {
    let all = vec![
        (Error::Unspecified("a".to_string()), ErrorKind::Unspecified, "a"),
        (Error::ParseError("b".to_string()), ErrorKind::ParseError, "b"),
        (Error::SerializationError("c".to_string()), ErrorKind::SerializationError, "c"),
        (Error::NetworkError("d".to_string()), ErrorKind::NetworkError, "d"),
        (Error::ApiError("e".to_string()), ErrorKind::ApiError, "e"),
        (Error::ArgumentError("f".to_string()), ErrorKind::ArgumentError, "f"),
    ];
    for (error, kind, message) in all {
        assert_eq!(error.kind(), kind);
        assert_eq!(error.message(), message);
        let rebuilt = Error::new(kind, message.to_string());
        assert_eq!(rebuilt.kind(), kind);
        assert_eq!(rebuilt.message(), message);
    }
}

#[test]
fn status_lies_between_100_and_999() {
    assert!(Status::new(99).is_none());
    assert!(Status::new(1000).is_none());
    assert!(Status::new(0).is_none());
    assert_eq!(Status::new(100).unwrap().code(), 100);
    assert_eq!(Status::new(999).unwrap().code(), 999);
    assert!(Status::new(200).unwrap().is_success());
    assert!(!Status::new(201).unwrap().is_success());
}

#[test]
fn status_line_is_number_and_reason() {
    assert_eq!(Status::new(200).unwrap().line(), "200 OK");
    assert_eq!(Status::new(401).unwrap().line(), "401 Unauthorized");
    assert_eq!(Status::new(999).unwrap().line(), "999 <unknown status code>");
}

#[test]
fn timestamp_is_written_in_its_offset() {
    let t = Timestamp::new(1_577_836_800, 0, 3600).unwrap();
    assert_eq!(t.to_rfc3339(), "2020-01-01T01:00:00+01:00");
    assert_eq!(t.seconds(), 1_577_836_800);
    assert_eq!(t.nanoseconds(), 0);
    assert_eq!(t.offset(), 3600);
    assert!(t.is_whole_second());
    let west = Timestamp::new(0, 250_000_000, -5 * 3600).unwrap();
    assert_eq!(west.to_rfc3339(), "1969-12-31T19:00:00.250-05:00");
    assert!(!west.is_whole_second());
}

#[test]
fn timestamp_without_a_text_is_refused() {
    assert!(Timestamp::new(0, 0, 86_400).is_none());
    assert!(Timestamp::new(0, 0, -86_400).is_none());
    assert!(Timestamp::new(0, 0, 86_399).is_some());
    assert!(Timestamp::new(i64::MAX, 0, 0).is_none());
    assert!(Timestamp::new(i64::MIN, 0, 0).is_none());
    assert!(Timestamp::new(0, 2_000_000_000, 0).is_none());
    assert!(Timestamp::new(0, 1_999_999_999, 0).is_some());
    assert!(Timestamp::new(59, 1_000_000_000, 0).is_some());
}

#[test]
fn parse_utc_brings_a_time_to_utc() {
    assert_eq!(
        parse_utc("2020-01-01T01:00:00+01:00"),
        Ok(UtcInstant { seconds: 1_577_836_800, nanoseconds: 0 })
    );
    assert_eq!(
        parse_utc("2020-01-01T00:00:00.5Z"),
        Ok(UtcInstant { seconds: 1_577_836_800, nanoseconds: 500_000_000 })
    );
    assert_eq!(
        parse_utc("yesterday"),
        Err("input contains invalid characters".to_string())
    );
}

#[test]
fn parse_utc_keeps_a_leap_second() {
    assert_eq!(
        parse_utc("2016-12-31T23:59:60Z"),
        Ok(UtcInstant { seconds: 1_483_228_799, nanoseconds: 1_000_000_000 })
    );
}

#[test]
fn every_time_of_chrono_has_a_timestamp_with_the_same_text() {
    let offsets = [0, 3600, -5 * 3600, 30, -1, 86_399, -86_399];
    let nanos = [0u32, 1, 999_999_999, 1_000_000_000, 1_500_000_000, 1_999_999_999];
    let seconds = [0i64, 59, 1_483_228_799, -1, 253_402_300_799, -62_198_755_200];
    for offset in offsets {
        let zone = chrono::FixedOffset::east_opt(offset).unwrap();
        for second in seconds {
            for nano in nanos {
                let whole = chrono::DateTime::from_timestamp(second, 0).unwrap();
                let time =
                    chrono::Timelike::with_nanosecond(&whole.with_timezone(&zone), nano).unwrap();
                let timestamp = Timestamp::new(
                    time.timestamp(),
                    time.timestamp_subsec_nanos(),
                    time.offset().local_minus_utc(),
                )
                .unwrap();
                assert_eq!(timestamp.to_rfc3339(), time.to_rfc3339());
                assert_eq!(timestamp.seconds(), second);
                assert_eq!(timestamp.nanoseconds(), nano);
                assert_eq!(timestamp.is_whole_second(), nano == 0);
            }
        }
    }
}
