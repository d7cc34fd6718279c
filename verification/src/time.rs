//! Instants, as plain numbers, and their RFC 3339 texts, as `chrono` writes and
//! reads them.

use vstd::prelude::*;

verus! {

/// The format under which `chrono` reads an RFC 3339 date and time.
pub const RFC3339_FORMAT: &'static str = "%+";

/// What `chrono::DateTime::to_rfc3339` writes for the instant `seconds` and
/// `nanoseconds` after the Unix epoch, shown at `offset` seconds east of UTC;
/// `None` where `chrono` has no such instant or no such offset.
pub uninterp spec fn rfc3339_text(seconds: i64, nanoseconds: u32, offset: i32) -> Option<
    Seq<char>,
>;

/// What `chrono::DateTime::parse_from_str` reads from a text under a format:
/// the seconds and nanoseconds after the Unix epoch and the offset in seconds
/// east of UTC, or the text of its error.
pub uninterp spec fn parsed_timestamp(text: Seq<char>, format: Seq<char>) -> Result<
    (i64, u32, i32),
    Seq<char>,
>;

/// Writes an instant with `chrono::DateTime::to_rfc3339`. The whole second is
/// made with `DateTime::from_timestamp` and moved to the offset made with
/// `FixedOffset::east_opt`; the nanoseconds are set with
/// `Timelike::with_nanosecond`, which takes those of a leap second at any
/// second. Where one of the three refuses, nothing is written.
#[verifier::external_body]
fn format_rfc3339(seconds: i64, nanoseconds: u32, offset: i32) -> (text: Option<String>)
    ensures
        match text {
            Some(t) => rfc3339_text(seconds, nanoseconds, offset) == Some(t@),
            None => rfc3339_text(seconds, nanoseconds, offset) is None,
        },
{
    let zone = chrono::FixedOffset::east_opt(offset)?;
    let whole = chrono::DateTime::from_timestamp(seconds, 0)?.with_timezone(&zone);
    let instant = chrono::Timelike::with_nanosecond(&whole, nanoseconds)?;
    Some(instant.to_rfc3339())
}

/// Reads a date and time with `chrono::DateTime::parse_from_str`, under the
/// format [`RFC3339_FORMAT`] and no other. What was read is handed back as
/// `timestamp()`, `timestamp_subsec_nanos()` and the offset's
/// `local_minus_utc()`; an error as the text that its `Display` prints.
#[verifier::external_body]
fn parse_timestamp(text: &str, format: &str) -> (parsed: Result<(i64, u32, i32), String>)
    requires
        format@ == RFC3339_FORMAT@,
    ensures
        match parsed {
            Ok(parts) => parsed_timestamp(text@, format@) == Ok::<(i64, u32, i32), Seq<char>>(
                parts,
            ),
            Err(reason) => parsed_timestamp(text@, format@) == Err::<(i64, u32, i32), Seq<char>>(
                reason@,
            ),
        },
{
    match chrono::DateTime::parse_from_str(text, format) {
        Ok(t) => Ok((t.timestamp(), t.timestamp_subsec_nanos(), t.offset().local_minus_utc())),
        Err(e) => Err(e.to_string()),
    }
}

/// An instant in UTC: seconds and nanoseconds after the Unix epoch.
///
/// The nanoseconds count from the last whole second and reach 1 000 000 000 or
/// more only within a leap second.
#[derive(Debug, Clone, Copy, PartialEq, Eq, Structural)]
pub struct UtcInstant {
    pub seconds: i64,
    pub nanoseconds: u32,
}

/// The numbers that make up a [`Timestamp`].
pub struct TimestampView {
    pub seconds: i64,
    pub nanoseconds: u32,
    pub offset: i32,
}

/// An instant together with the offset from UTC in which it is written.
///
/// Every value is one that has an RFC 3339 text.
#[derive(Debug, Clone, Copy)]
pub struct Timestamp {
    seconds: i64,
    nanoseconds: u32,
    offset: i32,
}

impl View for Timestamp {
    type V = TimestampView;

    closed spec fn view(&self) -> TimestampView {
        TimestampView { seconds: self.seconds, nanoseconds: self.nanoseconds, offset: self.offset }
    }
}

impl Timestamp {
    #[verifier::type_invariant]
    spec fn has_text(self) -> bool {
        rfc3339_text(self.seconds, self.nanoseconds, self.offset) is Some
    }

    /// The RFC 3339 text of this timestamp.
    pub open spec fn text(self) -> Seq<char> {
        rfc3339_text(self@.seconds, self@.nanoseconds, self@.offset).unwrap()
    }

    /// The instant `seconds` and `nanoseconds` after the Unix epoch, written
    /// `offset` seconds east of UTC; `None` if no RFC 3339 text stands for it.
    pub fn new(seconds: i64, nanoseconds: u32, offset: i32) -> (timestamp: Option<Timestamp>)
        ensures
            timestamp is Some <==> rfc3339_text(seconds, nanoseconds, offset) is Some,
            timestamp matches Some(t) ==> t@ == (TimestampView { seconds, nanoseconds, offset }),
    {
        match format_rfc3339(seconds, nanoseconds, offset) {
            Some(_) => Some(Timestamp { seconds, nanoseconds, offset }),
            None => None,
        }
    }

    /// Whole seconds after the Unix epoch.
    pub fn seconds(&self) -> (seconds: i64)
        ensures
            seconds == self@.seconds,
    {
        self.seconds
    }

    /// Nanoseconds after the last whole second.
    pub fn nanoseconds(&self) -> (nanoseconds: u32)
        ensures
            nanoseconds == self@.nanoseconds,
    {
        self.nanoseconds
    }

    /// Seconds east of UTC.
    pub fn offset(&self) -> (offset: i32)
        ensures
            offset == self@.offset,
    {
        self.offset
    }

    /// Whether the timestamp falls on a whole second.
    pub fn is_whole_second(&self) -> (whole: bool)
        ensures
            whole == (self@.nanoseconds == 0),
    {
        self.nanoseconds == 0
    }

    /// The RFC 3339 text of this timestamp.
    pub fn to_rfc3339(&self) -> (text: String)
        ensures
            text@ == self.text(),
    {
        proof {
            use_type_invariant(self);
        }
        match format_rfc3339(self.seconds, self.nanoseconds, self.offset) {
            Some(text) => text,
            None => String::new(),
        }
    }
}

/// The instant that a text denotes as an RFC 3339 time, brought to UTC; the
/// text of the parser's error where it denotes none.
pub open spec fn parsed_utc(text: Seq<char>) -> Result<UtcInstant, Seq<char>> {
    match parsed_timestamp(text, RFC3339_FORMAT@) {
        Ok(parts) => Ok(UtcInstant { seconds: parts.0, nanoseconds: parts.1 }),
        Err(reason) => Err(reason),
    }
}

/// Reads an RFC 3339 time with its offset and brings it to UTC.
pub fn parse_utc(text: &str) -> (parsed: Result<UtcInstant, String>)
    ensures
        match parsed {
            Ok(instant) => parsed_utc(text@) == Ok::<UtcInstant, Seq<char>>(instant),
            Err(reason) => parsed_utc(text@) == Err::<UtcInstant, Seq<char>>(reason@),
        },
{
    match parse_timestamp(text, RFC3339_FORMAT) {
        Ok(parts) => Ok(UtcInstant { seconds: parts.0, nanoseconds: parts.1 }),
        Err(reason) => Err(reason),
    }
}

} // verus!
