//! The telemetry publisher's decisions and its JSON payload.
//!
//! After bring-up, one task runs the publish cycle forever: read the
//! hardware clock (retrying immediately while it is not running), block on
//! the measurement mailbox, render the reading as a compact JSON object in a
//! bounded buffer, and POST it best-effort. Serialization overflow and
//! transport failure alike drop the one affected measurement and start the
//! next cycle — nothing is retried or buffered. The HTTP client and the
//! clock are the host's; they feed the phase machine its events.

use vstd::prelude::*;

use vstd::string::StrSliceExecFns;
use vstd::string::StringExecFns;

use crate::measure::Measure;
use crate::render::{
    push_centi, push_pad2, push_pad4, spec_centi_str, spec_pad2_str, spec_pad4_str,
};
use crate::rtc::DateTime;

verus! {

/// Capacity of the payload text buffer, in characters.
pub const BODY_CAPACITY: usize = 100;

/// Capacity of the request URL buffer, in characters.
pub const URL_CAPACITY: usize = 100;

/// Path of the collector's time endpoint.
pub const NOW_PATH: &'static str = "/now";

/// Path of the collector's telemetry endpoint.
pub const MEASURE_PATH: &'static str = "/measure";

/// Failure to render the payload: the rendered object would overflow the
/// bounded buffer. The affected measurement is dropped, never retried.
#[derive(Clone, Copy, Debug, PartialEq, Eq, Structural)]
pub enum BuildBodyError {
    CannotBuildBodyErr,
}

/// Failure to read the hardware clock at the top of a publish cycle.
#[derive(Clone, Copy, Debug, PartialEq, Eq, Structural)]
pub enum ClockReadError {
    /// The clock is not running.
    NotRunning,
}

/// The clock value in the payload's lexical form:
/// `YYYY-MM-DDTHH:MM:SSZ`, each field zero-padded to its width.
pub open spec fn spec_timestamp_str(now: DateTime) -> Seq<char> {
    spec_pad4_str(now.year as nat) + seq!['-'] + spec_pad2_str(now.month as nat) + seq!['-']
        + spec_pad2_str(now.day as nat) + seq!['T'] + spec_pad2_str(now.hour as nat) + seq![':']
        + spec_pad2_str(now.minute as nat) + seq![':'] + spec_pad2_str(now.second as nat)
        + seq!['Z']
}

/// The payload: one JSON object carrying the timestamp, the reading with
/// two-place decimals, and the device identifier.
pub open spec fn spec_body_str(measure: Measure, now: DateTime, capteur_id: Seq<char>) -> Seq<
    char,
> {
    "{\"timestamp\": \""@ + spec_timestamp_str(now) + "\","@ + "\"temperature\": "@
        + spec_centi_str(measure.temperature as int) + ","@ + "\"humidity\": "@
        + spec_centi_str(measure.humidity as int) + ","@ + "\"capteur_id\": \""@ + capteur_id
        + "\"}"@
}

/// Appends the clock value in its lexical form.
fn push_timestamp(s: &mut String, now: &DateTime)
    ensures
        final(s)@ == old(s)@ + spec_timestamp_str(*now),
{
    proof {
        reveal_strlit("-");
        reveal_strlit("T");
        reveal_strlit(":");
        reveal_strlit("Z");
    }
    push_pad4(s, now.year as u64);
    s.append("-");
    push_pad2(s, now.month as u64);
    s.append("-");
    push_pad2(s, now.day as u64);
    s.append("T");
    push_pad2(s, now.hour as u64);
    s.append(":");
    push_pad2(s, now.minute as u64);
    s.append(":");
    push_pad2(s, now.second as u64);
    s.append("Z");
    proof {
        assert(s@ =~= old(s)@ + spec_timestamp_str(*now));
    }
}

/// Renders the payload for one reading. The object must fit the bounded
/// buffer: a rendering longer than `BODY_CAPACITY` characters is refused as
/// a typed error, and the measurement is dropped.
pub fn build_body(measure: &Measure, now: &DateTime, capteur_id: &str) -> (r: Result<
    String,
    BuildBodyError,
>)
    ensures
        match r {
            Ok(body) => body@ == spec_body_str(*measure, *now, capteur_id@) && body@.len()
                <= BODY_CAPACITY,
            Err(e) => e == BuildBodyError::CannotBuildBodyErr && spec_body_str(
                *measure,
                *now,
                capteur_id@,
            ).len() > BODY_CAPACITY,
        },
{
    let mut body = String::new();
    body.append("{\"timestamp\": \"");
    push_timestamp(&mut body, now);
    body.append("\",");
    body.append("\"temperature\": ");
    push_centi(&mut body, measure.temperature);
    body.append(",");
    body.append("\"humidity\": ");
    push_centi(&mut body, measure.humidity);
    body.append(",");
    body.append("\"capteur_id\": \"");
    body.append(capteur_id);
    body.append("\"}");
    proof {
        assert(body@ =~= spec_body_str(*measure, *now, capteur_id@));
    }
    if body.as_str().unicode_len() > BODY_CAPACITY {
        Err(BuildBodyError::CannotBuildBodyErr)
    } else {
        Ok(body)
    }
}

/// Joins the configured base URL and an endpoint path into the bounded URL
/// buffer. A URL past the buffer's capacity is refused, and the request is
/// never built.
pub fn build_url(base_url: &str, path: &str) -> (r: Option<String>)
    ensures
        match r {
            Some(url) => url@ == base_url@ + path@ && url@.len() <= URL_CAPACITY,
            None => base_url@.len() + path@.len() > URL_CAPACITY,
        },
{
    let mut url = String::new();
    url.append(base_url);
    url.append(path);
    if url.as_str().unicode_len() > URL_CAPACITY {
        None
    } else {
        Some(url)
    }
}

/// Where the publish cycle stands: reading the clock, waiting on the
/// measurement mailbox with the cycle's clock value in hand, or publishing
/// one reading.
#[derive(Clone, Copy, Debug, PartialEq, Eq)]
pub enum PublisherPhase {
    /// Read the hardware clock.
    ReadClock,
    /// Block on the measurement mailbox.
    AwaitMeasure(DateTime),
    /// Render and send this reading.
    Publish(DateTime, Measure),
}

/// What the host reports back to the publish cycle.
#[derive(Clone, Copy, Debug, PartialEq, Eq)]
pub enum PublisherEvent {
    /// The clock read finished.
    ClockRead(Result<DateTime, ClockReadError>),
    /// The measurement mailbox delivered a reading.
    MeasureReceived(Measure),
    /// The payload did not fit its buffer.
    BodyRejected,
    /// The POST finished; true on transport success. The response status is
    /// never inspected.
    SendOutcome(bool),
}

/// The publish cycle as a step function. A failed clock read retries
/// immediately; a delivered measurement is published with the cycle's clock
/// value; after the send — or a payload that would not fit — the cycle
/// starts over, carrying nothing: the one affected measurement is dropped,
/// never retried, never buffered.
pub open spec fn spec_publisher_step(phase: PublisherPhase, event: PublisherEvent) -> PublisherPhase {
    match (phase, event) {
        (PublisherPhase::ReadClock, PublisherEvent::ClockRead(Ok(now))) => PublisherPhase::AwaitMeasure(now),
        (PublisherPhase::ReadClock, PublisherEvent::ClockRead(Err(_))) => PublisherPhase::ReadClock,
        (PublisherPhase::AwaitMeasure(now), PublisherEvent::MeasureReceived(m)) => PublisherPhase::Publish(now, m),
        (PublisherPhase::Publish(_, _), PublisherEvent::BodyRejected) => PublisherPhase::ReadClock,
        (PublisherPhase::Publish(_, _), PublisherEvent::SendOutcome(_)) => PublisherPhase::ReadClock,
        (other, _) => other,
    }
}

/// Advances the publish cycle by one observed event.
pub fn publisher_step(phase: PublisherPhase, event: PublisherEvent) -> (next: PublisherPhase)
    ensures
        next == spec_publisher_step(phase, event),
{
    match (phase, event) {
        (PublisherPhase::ReadClock, PublisherEvent::ClockRead(Ok(now))) => PublisherPhase::AwaitMeasure(now),
        (PublisherPhase::ReadClock, PublisherEvent::ClockRead(Err(_))) => PublisherPhase::ReadClock,
        (PublisherPhase::AwaitMeasure(now), PublisherEvent::MeasureReceived(m)) => PublisherPhase::Publish(now, m),
        (PublisherPhase::Publish(_, _), PublisherEvent::BodyRejected) => PublisherPhase::ReadClock,
        (PublisherPhase::Publish(_, _), PublisherEvent::SendOutcome(_)) => PublisherPhase::ReadClock,
        (other, _) => other,
    }
}

/// The phase after a sequence of observed events, oldest first.
pub open spec fn spec_publisher_run(phase: PublisherPhase, events: Seq<PublisherEvent>) -> PublisherPhase
    decreases events.len(),
{
    if events.len() == 0 {
        phase
    } else {
        spec_publisher_run(
            spec_publisher_step(phase, events[0]),
            events.subrange(1, events.len() as int),
        )
    }
}

/// Nothing is buffered or invented: a cycle found publishing a reading got
/// that very reading from the measurement mailbox during the run.
pub proof fn lemma_published_reading_was_delivered(
    events: Seq<PublisherEvent>,
    now: DateTime,
    m: Measure,
)
    ensures
        spec_publisher_run(PublisherPhase::ReadClock, events) == PublisherPhase::Publish(now, m)
            ==> exists|i: int|
            0 <= i < events.len() && events[i] == PublisherEvent::MeasureReceived(m),
{
    if spec_publisher_run(PublisherPhase::ReadClock, events) == PublisherPhase::Publish(now, m) {
        lemma_publish_needs_delivery_from(PublisherPhase::ReadClock, events, now, m);
    }
}

/// From any phase but the publishing one itself, reaching it takes the
/// mailbox delivering that reading.
proof fn lemma_publish_needs_delivery_from(
    phase: PublisherPhase,
    events: Seq<PublisherEvent>,
    now: DateTime,
    m: Measure,
)
    requires
        spec_publisher_run(phase, events) == PublisherPhase::Publish(now, m),
        phase != PublisherPhase::Publish(now, m),
    ensures
        exists|i: int|
            0 <= i < events.len() && events[i] == PublisherEvent::MeasureReceived(m),
    decreases events.len(),
{
    let next = spec_publisher_step(phase, events[0]);
    let rest = events.subrange(1, events.len() as int);
    if next == PublisherPhase::Publish(now, m) {
        assert(events[0] == PublisherEvent::MeasureReceived(m));
    } else {
        lemma_publish_needs_delivery_from(next, rest, now, m);
        let j = choose|j: int|
            0 <= j < rest.len() && rest[j] == PublisherEvent::MeasureReceived(m);
        assert(events[j + 1] == PublisherEvent::MeasureReceived(m));
    }
}

/// Publish-path failure law: whatever reading was in flight and however the
/// send went — transport failure included — the cycle returns to reading the
/// clock, and the next wait starts with empty hands: no phase retains the
/// dropped measurement.
pub proof fn lemma_send_outcome_drops_measurement(
    now: DateTime,
    m: Measure,
    delivered: bool,
)
    ensures
        spec_publisher_step(PublisherPhase::Publish(now, m), PublisherEvent::SendOutcome(delivered))
            == PublisherPhase::ReadClock,
        spec_publisher_step(PublisherPhase::Publish(now, m), PublisherEvent::BodyRejected)
            == PublisherPhase::ReadClock,
{
}

} // verus!
