//! The clock-synchronization decoding and the publish payload, end to end
//! on concrete documents.

use capteur::publish::{build_body, BuildBodyError, BODY_CAPACITY};
use capteur::rtc::{
    clock_value_of_response, day_of_week_from_u8, ApiResponse, DateTime, DayOfWeek, RTCInitError,
};

fn sample_clock() -> DateTime {
    DateTime {
        year: 2024,
        month: 11,
        day: 14,
        day_of_week: DayOfWeek::Friday,
        hour: 20,
        minute: 15,
        second: 30,
    }
}

#[test]
fn round_trip_from_literal_response() {
    let body = b"{\"now\": \"2024-11-14T20:15:30Z\", \"weekday\": 5}";
    assert_eq!(clock_value_of_response(body), Ok(sample_clock()));
}

#[test]
fn members_accepted_in_either_order() {
    let body = b"{\"weekday\": 5, \"now\": \"2024-11-14T20:15:30Z\"}";
    assert_eq!(clock_value_of_response(body), Ok(sample_clock()));
}

#[test]
fn blank_space_is_immaterial() {
    let tight = b"{\"now\":\"2024-11-14T20:15:30Z\",\"weekday\":5}";
    let airy = b"  {\n\t\"now\" :  \"2024-11-14T20:15:30Z\" ,\r\n \"weekday\" : 5 \n}  \n";
    assert_eq!(clock_value_of_response(tight), Ok(sample_clock()));
    assert_eq!(clock_value_of_response(airy), Ok(sample_clock()));
}

#[test]
fn malformed_date_field_is_a_typed_error() {
    let body = b"{\"now\": \"abcd-11-14T20:15:30Z\", \"weekday\": 5}";
    assert_eq!(clock_value_of_response(body), Err(RTCInitError::DateTimeError));
}

#[test]
fn short_date_field_is_a_typed_error() {
    let body = b"{\"now\": \"2024-11-14\", \"weekday\": 5}";
    assert_eq!(clock_value_of_response(body), Err(RTCInitError::DateTimeError));
}

#[test]
fn out_of_range_weekday_falls_back_to_monday() {
    // Documents the silent fallback as it stands: every other malformed
    // field fails hard, an out-of-range weekday does not.
    let body = b"{\"now\": \"2024-11-14T20:15:30Z\", \"weekday\": 9}";
    let expected = DateTime { day_of_week: DayOfWeek::Monday, ..sample_clock() };
    assert_eq!(clock_value_of_response(body), Ok(expected));
}

#[test]
fn weekday_codes_map_zero_based_from_sunday() {
    assert_eq!(day_of_week_from_u8(0), Ok(DayOfWeek::Sunday));
    assert_eq!(day_of_week_from_u8(1), Ok(DayOfWeek::Monday));
    assert_eq!(day_of_week_from_u8(2), Ok(DayOfWeek::Tuesday));
    assert_eq!(day_of_week_from_u8(3), Ok(DayOfWeek::Wednesday));
    assert_eq!(day_of_week_from_u8(4), Ok(DayOfWeek::Thursday));
    assert_eq!(day_of_week_from_u8(5), Ok(DayOfWeek::Friday));
    assert_eq!(day_of_week_from_u8(6), Ok(DayOfWeek::Saturday));
    assert_eq!(day_of_week_from_u8(7), Err(()));
    assert_eq!(day_of_week_from_u8(255), Err(()));
}

#[test]
fn documents_that_are_not_the_time_document_are_invalid() {
    let cases: &[&[u8]] = &[
        b"",
        b"null",
        b"{}",
        b"{\"now\": \"2024-11-14T20:15:30Z\"}",
        b"{\"weekday\": 5}",
        b"{\"now\": \"2024-11-14T20:15:30Z\", \"now\": \"2024-11-14T20:15:30Z\"}",
        b"{\"now\": \"2024-11-14T20:15:30Z\", \"weekday\": 300}",
        b"{\"now\": \"2024-11-14T20:15:30Z\", \"weekday\": }",
        b"{\"now\": 2024, \"weekday\": 5}",
        b"{\"now\": \"2024-11-14T20:15:30Z\", \"weekday\": 5} trailing",
        b"{\"now\": \"2024-11-14T20:15:30Z\", \"weekday\": 5",
        b"[{\"now\": \"2024-11-14T20:15:30Z\", \"weekday\": 5}]",
    ];
    for body in cases {
        assert_eq!(
            clock_value_of_response(body),
            Err(RTCInitError::InvalidAPIResponse),
            "accepted: {:?}",
            String::from_utf8_lossy(body)
        );
    }
}

#[test]
fn separator_positions_are_never_examined() {
    // Only the fixed-offset fields are read; the bytes between them are
    // never validated.
    let response = ApiResponse { now: b"2024#11#14#20#15#30".to_vec(), weekday: 5 };
    assert_eq!(DateTime::try_from(&response), Ok(sample_clock()));
}

#[test]
fn every_field_must_be_numeric() {
    let bad = [
        "2O24-11-14T20:15:30Z",
        "2024-1x-14T20:15:30Z",
        "2024-11-x4T20:15:30Z",
        "2024-11-14Tx0:15:30Z",
        "2024-11-14T20:x5:30Z",
        "2024-11-14T20:15:3xZ",
    ];
    for now in bad {
        let response = ApiResponse { now: now.as_bytes().to_vec(), weekday: 5 };
        assert_eq!(
            DateTime::try_from(&response),
            Err(RTCInitError::DateTimeError),
            "accepted: {now}"
        );
    }
}

#[test]
fn payload_renders_the_reading_exactly() {
    let measure = capteur::measure::Measure { temperature: 1234, humidity: 5678 };
    let body = build_body(&measure, &sample_clock(), "test").unwrap();
    assert_eq!(
        body,
        "{\"timestamp\": \"2024-11-14T20:15:30Z\",\
         \"temperature\": 12.34,\
         \"humidity\": 56.78,\
         \"capteur_id\": \"test\"}"
    );
    assert!(body.len() <= BODY_CAPACITY);
}

#[test]
fn payload_zero_pads_timestamp_fields() {
    let clock = DateTime {
        year: 987,
        month: 1,
        day: 2,
        day_of_week: DayOfWeek::Monday,
        hour: 3,
        minute: 4,
        second: 5,
    };
    let measure = capteur::measure::Measure { temperature: 0, humidity: 100 };
    let body = build_body(&measure, &clock, "x").unwrap();
    assert_eq!(
        body,
        "{\"timestamp\": \"0987-01-02T03:04:05Z\",\
         \"temperature\": 0.00,\
         \"humidity\": 1.00,\
         \"capteur_id\": \"x\"}"
    );
}

#[test]
fn payload_renders_negative_hundredths_with_two_places() {
    let measure = capteur::measure::Measure { temperature: -500, humidity: -7 };
    let body = build_body(&measure, &sample_clock(), "t").unwrap();
    assert!(body.contains("\"temperature\": -5.00,"), "{body}");
    assert!(body.contains("\"humidity\": -0.07,"), "{body}");
}

#[test]
fn oversized_payload_is_a_typed_error() {
    let measure = capteur::measure::Measure { temperature: 1234, humidity: 5678 };
    let id = "an-identifier-well-beyond-the-buffer-capacity";
    assert_eq!(
        build_body(&measure, &sample_clock(), id),
        Err(BuildBodyError::CannotBuildBodyErr)
    );
}
