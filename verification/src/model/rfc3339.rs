//! Timestamps as the carrier writes them.

use crate::errors::Error;
use crate::model::Timestamp;
use chrono::ParseError;
use vstd::prelude::*;

verus! {

/// `chrono::ParseError`: why a text is no timestamp.
#[verifier::external_type_specification]
#[verifier::external_body]
pub struct ExParseError(ParseError);

/// The instant that `chrono::DateTime::parse_from_rfc3339` reads from `text`, where it
/// reads one.
pub uninterp spec fn rfc3339_instant(text: Seq<char>) -> Option<Timestamp>;

/// `chrono::DateTime::parse_from_rfc3339`, the instant taken apart by `timestamp`,
/// `timestamp_subsec_nanos` and the offset's `local_minus_utc`.
#[verifier::external_body]
fn parse_rfc3339(text: &str) -> (r: Result<Timestamp, ParseError>)
    ensures
        r is Ok <==> rfc3339_instant(text@) is Some,
        r matches Ok(instant) ==> rfc3339_instant(text@) == Some(instant),
{
    let instant = chrono::DateTime::parse_from_rfc3339(text)?;
    Ok(
        Timestamp {
            seconds: instant.timestamp(),
            nanos: instant.timestamp_subsec_nanos(),
            offset: instant.offset().local_minus_utc(),
        },
    )
}

/// Reads an RFC 3339 timestamp. A text that is none is a malformed response.
pub fn deserialize(time: &str) -> (r: Result<Timestamp, Error>)
    ensures
        match rfc3339_instant(time@) {
            Some(instant) => r == Ok::<Timestamp, Error>(instant),
            None => r matches Err(e) && e is Response,
        },
{
    match parse_rfc3339(time) {
        Ok(instant) => Ok(instant),
        Err(_) => Err(Error::Response),
    }
}

/// Reads an RFC 3339 timestamp where there is one to read.
pub fn deserialize_option(time: Option<&str>) -> (r: Result<Option<Timestamp>, Error>)
    ensures
        match time {
            None => r == Ok::<Option<Timestamp>, Error>(None),
            Some(text) => match rfc3339_instant(text@) {
                Some(instant) => r == Ok::<Option<Timestamp>, Error>(Some(instant)),
                None => r matches Err(e) && e is Response,
            },
        },
{
    match time {
        None => Ok(None),
        Some(text) => match deserialize(text) {
            Ok(instant) => Ok(Some(instant)),
            Err(e) => Err(e),
        },
    }
}

} // verus!
