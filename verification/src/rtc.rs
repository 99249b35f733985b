//! Hardware clock values and the one-shot clock synchronization decoding.
//!
//! At boot, the bring-up task fetches the remote time once, decodes it into a
//! hardware clock value, and programs the device clock. This module holds the
//! decoding: the date string's fixed-offset fields, the weekday mapping, and
//! the closed set of failure modes the protocol reports. The HTTP transfer
//! and the clock programming are the host's; they hand this module the
//! response bytes and take back a clock value or a typed error.

use vstd::prelude::*;

use crate::digits::{parse_fixed_digits, spec_all_digits, spec_digits_value};
use crate::response::{parse_now_response, spec_parse_now_response};

verus! {

/// Day of the week as the hardware clock takes it.
#[derive(Clone, Copy, Debug, PartialEq, Eq, Structural)]
pub enum DayOfWeek {
    Sunday,
    Monday,
    Tuesday,
    Wednesday,
    Thursday,
    Friday,
    Saturday,
}

/// A value for the device's real-time clock, written once at boot and read
/// once per publish cycle thereafter.
#[derive(Clone, Copy, Debug, PartialEq, Eq, Structural)]
pub struct DateTime {
    pub year: u16,
    pub month: u8,
    pub day: u8,
    pub day_of_week: DayOfWeek,
    pub hour: u8,
    pub minute: u8,
    pub second: u8,
}

/// The closed set of clock-synchronization failures. The bring-up task
/// treats every variant identically: it aborts, and the readiness flag is
/// never written.
#[derive(Clone, Copy, Debug, PartialEq, Eq, Structural)]
pub enum RTCInitError {
    /// The transport failed or the request could not be built.
    APIError,
    /// The response body was not the expected time document.
    InvalidAPIResponse,
    /// The time service could not be reached.
    APIUnavailable,
    /// The hardware clock refused the assembled value.
    RtcError,
    /// A date field of the response was not numeric.
    DateTimeError,
}

/// The remote time sample: the date in `YYYY-MM-DDTHH:MM:SS` lexical form
/// (any trailing zone designator is never examined), and the weekday as an
/// integer, zero for Sunday.
pub struct ApiResponse {
    pub now: Vec<u8>,
    pub weekday: u8,
}

/// The weekday mapping, zero-based from Sunday; values past Saturday have no
/// day.
pub open spec fn spec_day_of_week_from_u8(v: u8) -> Result<DayOfWeek, ()> {
    if v == 0 {
        Ok(DayOfWeek::Sunday)
    } else if v == 1 {
        Ok(DayOfWeek::Monday)
    } else if v == 2 {
        Ok(DayOfWeek::Tuesday)
    } else if v == 3 {
        Ok(DayOfWeek::Wednesday)
    } else if v == 4 {
        Ok(DayOfWeek::Thursday)
    } else if v == 5 {
        Ok(DayOfWeek::Friday)
    } else if v == 6 {
        Ok(DayOfWeek::Saturday)
    } else {
        Err(())
    }
}

/// Maps a wire weekday code to a day, Sunday through Saturday for zero
/// through six; anything else is out of range.
pub fn day_of_week_from_u8(v: u8) -> (r: Result<DayOfWeek, ()>)
    ensures
        r == spec_day_of_week_from_u8(v),
{
    match v {
        0 => Ok(DayOfWeek::Sunday),
        1 => Ok(DayOfWeek::Monday),
        2 => Ok(DayOfWeek::Tuesday),
        3 => Ok(DayOfWeek::Wednesday),
        4 => Ok(DayOfWeek::Thursday),
        5 => Ok(DayOfWeek::Friday),
        6 => Ok(DayOfWeek::Saturday),
        _ => Err(()),
    }
}

/// The weekday the clock is programmed with: an out-of-range code falls back
/// to Monday rather than failing — the one field of the response that is not
/// a hard error.
pub open spec fn spec_weekday_or_monday(v: u8) -> DayOfWeek {
    match spec_day_of_week_from_u8(v) {
        Ok(d) => d,
        Err(_) => DayOfWeek::Monday,
    }
}

/// Whether every fixed-offset date field of `now` is numeric: the year at
/// `[0, 4)`, then month, day, hour, minute and second, two digits each at
/// offsets 5, 8, 11, 14 and 17. The separator positions in between are never
/// examined.
pub open spec fn spec_date_fields_numeric(now: Seq<u8>) -> bool {
    &&& spec_all_digits(now, 0, 4)
    &&& spec_all_digits(now, 5, 7)
    &&& spec_all_digits(now, 8, 10)
    &&& spec_all_digits(now, 11, 13)
    &&& spec_all_digits(now, 14, 16)
    &&& spec_all_digits(now, 17, 19)
}

/// The clock value a response denotes, when its date fields are numeric.
pub open spec fn spec_clock_value(now: Seq<u8>, weekday: u8) -> DateTime {
    DateTime {
        year: spec_digits_value(now, 0, 4) as u16,
        month: spec_digits_value(now, 5, 7) as u8,
        day: spec_digits_value(now, 8, 10) as u8,
        day_of_week: spec_weekday_or_monday(weekday),
        hour: spec_digits_value(now, 11, 13) as u8,
        minute: spec_digits_value(now, 14, 16) as u8,
        second: spec_digits_value(now, 17, 19) as u8,
    }
}

impl DateTime {
    /// Assembles a clock value from a remote time sample: each date field is
    /// read from its fixed offset, and a field that is not numeric is a
    /// `DateTimeError`. The weekday falls back to Monday when out of range.
    pub fn try_from(value: &ApiResponse) -> (r: Result<DateTime, RTCInitError>)
        requires
            value.now@.len() >= 19,
        ensures
            r == if spec_date_fields_numeric(value.now@) {
                Ok::<DateTime, RTCInitError>(spec_clock_value(value.now@, value.weekday))
            } else {
                Err::<DateTime, RTCInitError>(RTCInitError::DateTimeError)
            },
    {
        let now = value.now.as_slice();
        let year = match parse_fixed_digits(now, 0, 4) {
            Some(v) => v,
            None => {
                return Err(RTCInitError::DateTimeError);
            },
        };
        let month = match parse_fixed_digits(now, 5, 2) {
            Some(v) => v as u8,
            None => {
                return Err(RTCInitError::DateTimeError);
            },
        };
        let day = match parse_fixed_digits(now, 8, 2) {
            Some(v) => v as u8,
            None => {
                return Err(RTCInitError::DateTimeError);
            },
        };
        let hour = match parse_fixed_digits(now, 11, 2) {
            Some(v) => v as u8,
            None => {
                return Err(RTCInitError::DateTimeError);
            },
        };
        let minute = match parse_fixed_digits(now, 14, 2) {
            Some(v) => v as u8,
            None => {
                return Err(RTCInitError::DateTimeError);
            },
        };
        let second = match parse_fixed_digits(now, 17, 2) {
            Some(v) => v as u8,
            None => {
                return Err(RTCInitError::DateTimeError);
            },
        };
        let day_of_week = match day_of_week_from_u8(value.weekday) {
            Ok(d) => d,
            Err(_) => DayOfWeek::Monday,
        };
        proof {
            lemma_two_digit_fields_fit(value.now@);
        }
        Ok(DateTime { year, month, day, day_of_week, hour, minute, second })
    }
}

/// Each two-digit field denotes at most 99 and the year field at most 9999,
/// so the casts into the clock value's fields keep the values.
proof fn lemma_two_digit_fields_fit(now: Seq<u8>)
    ensures
        spec_all_digits(now, 0, 4) ==> spec_digits_value(now, 0, 4) <= 9999,
        spec_all_digits(now, 5, 7) ==> spec_digits_value(now, 5, 7) <= 99,
        spec_all_digits(now, 8, 10) ==> spec_digits_value(now, 8, 10) <= 99,
        spec_all_digits(now, 11, 13) ==> spec_digits_value(now, 11, 13) <= 99,
        spec_all_digits(now, 14, 16) ==> spec_digits_value(now, 14, 16) <= 99,
        spec_all_digits(now, 17, 19) ==> spec_digits_value(now, 17, 19) <= 99,
{
    reveal_with_fuel(crate::digits::spec_pow10, 6);
    if spec_all_digits(now, 0, 4) {
        crate::digits::lemma_digits_value_bound(now, 0, 4);
    }
    if spec_all_digits(now, 5, 7) {
        crate::digits::lemma_digits_value_bound(now, 5, 7);
    }
    if spec_all_digits(now, 8, 10) {
        crate::digits::lemma_digits_value_bound(now, 8, 10);
    }
    if spec_all_digits(now, 11, 13) {
        crate::digits::lemma_digits_value_bound(now, 11, 13);
    }
    if spec_all_digits(now, 14, 16) {
        crate::digits::lemma_digits_value_bound(now, 14, 16);
    }
    if spec_all_digits(now, 17, 19) {
        crate::digits::lemma_digits_value_bound(now, 17, 19);
    }
}

/// The pure core of the clock-synchronization protocol, from response body
/// to clock value. The body must be the remote time document, else
/// `InvalidAPIResponse`; its date field must be long enough for the fixed
/// layout and numeric in every field, else `DateTimeError` (the typed form
/// of what a raw fixed-offset slice would otherwise turn into a trap); the
/// weekday falls back to Monday when out of range.
pub fn clock_value_of_response(body: &[u8]) -> (r: Result<DateTime, RTCInitError>)
    ensures
        r == match spec_parse_now_response(body@) {
            Some((now, weekday)) => if now.len() >= 19 {
                if spec_date_fields_numeric(now) {
                    Ok::<DateTime, RTCInitError>(spec_clock_value(now, weekday))
                } else {
                    Err::<DateTime, RTCInitError>(RTCInitError::DateTimeError)
                }
            } else {
                Err::<DateTime, RTCInitError>(RTCInitError::DateTimeError)
            },
            None => Err::<DateTime, RTCInitError>(RTCInitError::InvalidAPIResponse),
        },
{
    let (now, weekday) = match parse_now_response(body) {
        Some(r) => r,
        None => {
            return Err(RTCInitError::InvalidAPIResponse);
        },
    };
    if now.len() < 19 {
        return Err(RTCInitError::DateTimeError);
    }
    let response = ApiResponse { now, weekday };
    DateTime::try_from(&response)
}

} // verus!
