//! Instants of time as the library stores them, with `chrono` doing the
//! reading, the writing and the clock.

use vstd::prelude::*;

verus! {

/// An instant: whole seconds since the start of 1970 in UTC, and the
/// nanoseconds into that second.
#[derive(Debug, Clone, Copy, PartialEq, Eq, PartialOrd, Ord, Structural)]
pub struct Timestamp {
    pub seconds: i64,
    pub nanos: u32,
}

/// The instant that an RFC 3339 date-and-time text names, as seconds and
/// nanoseconds; `None` where the text is no such date and time.
pub uninterp spec fn rfc3339_instant(text: Seq<char>) -> Option<(i64, u32)>;

/// The text that `chrono` prints for an instant in UTC; `None` for an instant
/// outside the range of dates that `chrono` can hold.
pub uninterp spec fn utc_text(seconds: i64, nanos: u32) -> Option<Seq<char>>;

/// Calls `chrono::DateTime::parse_from_rfc3339` and reads the seconds and
/// nanoseconds of the instant with `timestamp` and `timestamp_subsec_nanos`.
#[verifier::external_body]
fn parse_rfc3339_parts(text: &str) -> (parts: Option<(i64, u32)>)
    ensures
        parts == rfc3339_instant(text@),
{
    match chrono::DateTime::parse_from_rfc3339(text) {
        Ok(instant) => Some((instant.timestamp(), instant.timestamp_subsec_nanos())),
        Err(_) => None,
    }
}

/// Calls `chrono::DateTime::from_timestamp` and `to_string` on the instant it
/// builds.
#[verifier::external_body]
fn print_utc(seconds: i64, nanos: u32) -> (text: Option<String>)
    ensures
        text.is_some() == utc_text(seconds, nanos).is_some(),
        text is Some ==> text.unwrap()@ == utc_text(seconds, nanos).unwrap(),
{
    chrono::DateTime::from_timestamp(seconds, nanos).map(|instant| instant.to_string())
}

/// Calls `chrono::Utc::now` and reads the seconds and nanoseconds of the
/// instant. The clock decides which instant comes out. Trusted: whichever it
/// is, it lies within the second that its seconds count, and `chrono` can
/// hold it, having made it. The call panics where the system clock stands
/// before 1970.
#[verifier::external_body]
fn clock_parts() -> (parts: (i64, u32))
    ensures
        parts.1 < 1_000_000_000,
        utc_text(parts.0, parts.1) is Some,
{
    let instant = chrono::Utc::now();
    (instant.timestamp(), instant.timestamp_subsec_nanos())
}

impl Timestamp {
    /// What reading `text` gives.
    pub open spec fn parsed(text: Seq<char>) -> Option<Timestamp> {
        match rfc3339_instant(text) {
            Some(parts) => Some(Timestamp { seconds: parts.0, nanos: parts.1 }),
            None => None,
        }
    }

    /// The text of the instant, empty where `chrono` cannot hold it.
    pub open spec fn text(self) -> Seq<char> {
        match utc_text(self.seconds, self.nanos) {
            Some(text) => text,
            None => Seq::empty(),
        }
    }

    /// Whether `self` comes strictly before `other`.
    pub open spec fn is_before(self, other: Timestamp) -> bool {
        self.seconds < other.seconds || (self.seconds == other.seconds && self.nanos
            < other.nanos)
    }

    /// Whether the instant is one that `chrono` can hold, and so has a text.
    pub open spec fn is_printable(self) -> bool {
        utc_text(self.seconds, self.nanos) is Some
    }

    /// The present instant. Whatever the clock says, the instant lies within
    /// the second that its seconds count and has a text.
    pub fn now() -> (now: Timestamp)
        ensures
            now.nanos < 1_000_000_000,
            now.is_printable(),
    {
        let parts = clock_parts();
        Timestamp { seconds: parts.0, nanos: parts.1 }
    }

    /// Reads an RFC 3339 date and time.
    pub fn parse_from_rfc3339(text: &str) -> (instant: Option<Timestamp>)
        ensures
            instant == Timestamp::parsed(text@),
    {
        match parse_rfc3339_parts(text) {
            Some(parts) => Some(Timestamp { seconds: parts.0, nanos: parts.1 }),
            None => None,
        }
    }

    /// The instant as text.
    pub fn to_text(&self) -> (text: String)
        ensures
            text@ == self.text(),
    {
        match print_utc(self.seconds, self.nanos) {
            Some(text) => text,
            None => String::new(),
        }
    }

    /// Whether `self` comes strictly before `other`.
    pub fn before(&self, other: &Timestamp) -> (earlier: bool)
        ensures
            earlier == self.is_before(*other),
    {
        self.seconds < other.seconds || (self.seconds == other.seconds && self.nanos
            < other.nanos)
    }
}

} // verus!
