//! Timestamps for the summary query: RFC 3339 date-and-time strings
//! are turned into epoch seconds once, at the boundary, and every
//! comparison after that is on integers.

use vstd::prelude::*;

verus! {

/// A summary range bound could not be parsed; the report answers the
/// caller with a bad-request failure.
#[derive(Clone, Copy, PartialEq, Eq, Structural, Debug)]
pub enum DateError {
    Malformed,
}

/// What chrono's RFC 3339 parser yields for a string: the instant in
/// epoch seconds, or nothing when the string is not a valid RFC 3339
/// date-and-time.
pub uninterp spec fn rfc3339_epoch(s: Seq<char>) -> Option<i64>;

/// Relies on chrono's `DateTime::parse_from_rfc3339` (parses every
/// valid RFC 3339 date-and-time, errors on anything else) and
/// `DateTime::timestamp` (the parsed instant's non-leap epoch
/// seconds): the result depends on the characters alone.
#[verifier::external_body]
fn parse_rfc3339(s: &str) -> (parsed: Option<i64>)
    ensures
        parsed == rfc3339_epoch(s@),
{
    match chrono::DateTime::parse_from_rfc3339(s) {
        Ok(instant) => Some(instant.timestamp()),
        Err(_) => None,
    }
}

/// The bound that a range parameter denotes: its epoch second when it
/// is a valid RFC 3339 date-and-time, else the malformed-date failure.
pub open spec fn spec_parse_date(chosen: Seq<char>) -> Result<i64, DateError> {
    match rfc3339_epoch(chosen) {
        Option::Some(instant) => Result::Ok(instant),
        Option::None => Result::Err(DateError::Malformed),
    }
}

/// Resolve one range bound of a summary query: the caller's parameter
/// where one was given, else the preset bound; malformed input is
/// rejected, never guessed at.
pub fn parse_date(param: Option<&String>, preset: &str) -> (bound: Result<i64, DateError>)
    ensures
        match param {
            Option::Some(given) => bound == spec_parse_date(given@),
            Option::None => bound == spec_parse_date(preset@),
        },
{
    let chosen: &str = match param {
        Option::Some(given) => given.as_str(),
        Option::None => preset,
    };
    match parse_rfc3339(chosen) {
        Option::Some(instant) => Result::Ok(instant),
        Option::None => Result::Err(DateError::Malformed),
    }
}

} // verus!
