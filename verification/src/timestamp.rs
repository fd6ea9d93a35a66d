//! Instants, read and printed by `chrono`.

use vstd::prelude::*;

verus! {

/// `chrono::NaiveDateTime`: a date and time of day without a time zone.
/// Nothing is seen of what is inside.
#[verifier::external_type_specification]
#[verifier::external_body]
pub struct ExNaiveDateTime(chrono::NaiveDateTime);

/// `chrono::ParseError`: why `chrono` rejects a text.
#[verifier::external_type_specification]
#[verifier::external_body]
pub struct ExParseError(chrono::ParseError);

/// An instant, held as its date and time in UTC.
#[derive(Debug, Clone, Copy, PartialEq, Eq)]
pub struct Timestamp {
    utc: chrono::NaiveDateTime,
}

/// The instant that `chrono` reads from `text`, or `None` where it rejects
/// the text.
pub uninterp spec fn timestamp_of_text(text: Seq<char>) -> Option<Timestamp>;

/// The text that `chrono` prints for the instant `at`.
pub uninterp spec fn text_of_timestamp(at: Timestamp) -> Seq<char>;

/// `DateTime::<Utc>::from_str` of `chrono`, which reads a relaxed form of
/// RFC 3339 and turns the instant to UTC; `DateTime::naive_utc` hands out the
/// date and time it holds. Nothing is claimed of which texts are accepted:
/// the result is the named instant of the text, and an error stands where
/// there is none.
#[verifier::external_body]
fn timestamp_from_text(text: &str) -> (r: Result<Timestamp, chrono::ParseError>)
    ensures
        r matches Ok(at) ==> timestamp_of_text(text@) == Some(at),
        r is Err ==> timestamp_of_text(text@) is None,
{
    text.parse::<chrono::DateTime<chrono::Utc>>().map(|at| Timestamp { utc: at.naive_utc() })
}

/// `to_string` on the `DateTime<Utc>` that `NaiveDateTime::and_utc` makes of
/// the date and time: the text is the named text of the instant.
#[verifier::external_body]
fn timestamp_to_text(at: &Timestamp) -> (text: String)
    ensures
        text@ == text_of_timestamp(*at),
{
    at.utc.and_utc().to_string()
}

impl Timestamp {
    /// Reads an instant from an ISO 8601 date and time with offset, such as
    /// `2023-05-17T08:30:00Z`; `None` where `text` is none.
    pub fn parse(text: &str) -> (found: Option<Timestamp>)
        ensures
            found == timestamp_of_text(text@),
    {
        match timestamp_from_text(text) {
            Ok(at) => Some(at),
            Err(_) => None,
        }
    }

    /// The instant as text: date, time and `UTC`.
    pub fn to_string(&self) -> (text: String)
        ensures
            text@ == text_of_timestamp(*self),
    {
        timestamp_to_text(self)
    }
}

} // verus!
