//! Classification of raw lines into sentences.
//!
//! The sentence grammar itself is the parser crate's business: the library
//! consumes its output. A line classifies into a sender (talker) code, a
//! message-type code, and a time payload of one of three shapes: a full
//! calendar date and time (position/velocity fix and date/time sentences), a
//! time of day with no date, or no timestamp at all. A timestamp-bearing
//! sentence whose fields cannot yield its timestamp is marked defective; the
//! engine treats that as a fatal contract violation by the parser.

use vstd::prelude::*;

use chrono::{Datelike, Timelike};
use nmea::ParseResult;

use crate::time::{Timestamp, SECS_PER_DAY};

verus! {

/// The time payload a classified sentence carries.
#[derive(Clone, Copy, PartialEq, Eq, Structural, Debug)]
pub enum Payload {
    /// An absolute calendar date and time of day.
    Full(Timestamp),
    /// A time of day only, as seconds since midnight; the date is inferred.
    TimeOfDay(u32),
    /// The message carries no timestamp.
    Untimed,
    /// The message type carries a timestamp but its fields fail to yield one.
    Defective,
}

/// The sender and message-type codes the parser derives from a line, or
/// `None` when the line is not a well-formed sentence (bad framing, a bad
/// checksum, an unrecognized message-type code, or fields its type's grammar
/// rejects).
pub uninterp spec fn nmea_ids(line: Seq<char>) -> Option<(Seq<char>, Seq<char>)>;

/// The full calendar timestamp the parser derives from a line: `None` when
/// the line is not a full-timestamp-kind message; `Some(None)` when it is one
/// but its date or time fields fail to yield the timestamp.
pub uninterp spec fn nmea_full(line: Seq<char>) -> Option<Option<Timestamp>>;

/// The time of day the parser derives from a line: `None` when the line is
/// not a time-of-day-kind message; `Some(None)` when it is one but its time
/// field fails to yield the reading.
pub uninterp spec fn nmea_tod(line: Seq<char>) -> Option<Option<u32>>;

/// The time payload the parser derives from a line: a full timestamp from
/// the full-timestamp-kind messages, a time of day from the time-of-day-kind
/// messages, nothing from every other line; a timed message whose fields
/// fail to yield its timestamp is defective.
pub open spec fn nmea_payload(line: Seq<char>) -> Payload {
    match nmea_full(line) {
        Some(Some(t)) => Payload::Full(t),
        Some(None) => Payload::Defective,
        None => match nmea_tod(line) {
            Some(Some(s)) => Payload::TimeOfDay(s),
            Some(None) => Payload::Defective,
            None => Payload::Untimed,
        },
    }
}

/// Relies on `nmea::parse_nmea_sentence` for the talker and message-type
/// codes of a sentence, and on `nmea::parse_str` for deciding whether the
/// line is a well-formed, checksum-valid sentence of a known type.
#[verifier::external_body]
pub(crate) fn parse_ids(line: &str) -> (r: Option<(String, String)>)
    ensures
        r is Some <==> nmea_ids(line@) is Some,
        r matches Some(ids) ==> nmea_ids(line@) matches Some(v) && ids.0@ == v.0 && ids.1@
            == v.1,
{
    let head = match nmea::parse_nmea_sentence(line) {
        Ok(h) => h,
        Err(_) => {
            return None;
        },
    };
    if nmea::parse_str(line).is_err() {
        return None;
    }
    Some((head.talker_id.to_string(), head.message_id.as_str().to_string()))
}

/// Relies on `nmea::parse_str` and the date and time fields of the parsed
/// position/velocity fix and date/time sentences, the two message kinds that
/// carry a full calendar timestamp. Day numbers come from `chrono`'s
/// `num_days_from_ce` and seconds of day from `num_seconds_from_midnight`,
/// so every derived timestamp is valid: `chrono` bounds its calendar range.
#[verifier::external_body]
fn parse_full(line: &str) -> (r: Option<Option<Timestamp>>)
    ensures
        r == nmea_full(line@),
        r matches Some(Some(t)) ==> t.valid(),
{
    let ts = |d: chrono::NaiveDate, t: chrono::NaiveTime| Timestamp {
        day: d.num_days_from_ce() as i64,
        secs: t.num_seconds_from_midnight(),
    };
    match nmea::parse_str(line) {
        Ok(ParseResult::RMC(d)) => Some(d.fix_date.zip(d.fix_time).map(|(d, t)| ts(d, t))),
        Ok(ParseResult::ZDA(d)) => Some(d.utc_date().zip(d.utc_time).map(|(d, t)| ts(d, t))),
        _ => None,
    }
}

/// Relies on `nmea::parse_str` and the time fields of the parsed
/// bearing-to-waypoint, fault-detection, fix-quality, geographic-position
/// and pseudorange-statistics sentences, the message kinds that carry a time
/// of day without a date. Seconds of day come from `chrono`'s
/// `num_seconds_from_midnight` and so stay below one day.
#[verifier::external_body]
fn parse_tod(line: &str) -> (r: Option<Option<u32>>)
    ensures
        r == nmea_tod(line@),
        r matches Some(Some(s)) ==> s < SECS_PER_DAY,
{
    let tod = |t: Option<chrono::NaiveTime>| Some(t.map(|t| t.num_seconds_from_midnight()));
    match nmea::parse_str(line) {
        Ok(ParseResult::BWC(d)) => tod(d.fix_time),
        Ok(ParseResult::GBS(d)) => tod(d.time),
        Ok(ParseResult::GGA(d)) => tod(d.fix_time),
        Ok(ParseResult::GLL(d)) => tod(d.fix_time),
        Ok(ParseResult::GST(d)) => tod(d.time),
        _ => None,
    }
}

/// Classifies a line's time payload from the parser's full-timestamp and
/// time-of-day projections.
pub(crate) fn parse_payload(line: &str) -> (r: Payload)
    ensures
        r == nmea_payload(line@),
        r matches Payload::Full(t) ==> t.valid(),
        r matches Payload::TimeOfDay(s) ==> s < SECS_PER_DAY,
{
    match parse_full(line) {
        Some(Some(t)) => Payload::Full(t),
        Some(None) => Payload::Defective,
        None => match parse_tod(line) {
            Some(Some(s)) => Payload::TimeOfDay(s),
            Some(None) => Payload::Defective,
            None => Payload::Untimed,
        },
    }
}

} // verus!
