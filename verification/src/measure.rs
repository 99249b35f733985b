//! The measurement loop's data and decisions.
//!
//! The loop runs for the life of the process on its own execution context.
//! It first gates on two conditions evaluated concurrently — a fixed warm-up
//! delay and the readiness flag the bring-up task raises after clock sync —
//! and then, each cycle, reads the sensor once, hands a successful reading to
//! the measurement mailbox (newest wins), and sleeps out the remainder of the
//! five-second cadence. The sensor's wire protocol and the timers are the
//! host's business; they hand this module the read outcome and the elapsed
//! whole seconds.

use vstd::prelude::*;

use crate::mailbox::Mailbox;

verus! {

/// Seconds between cycle starts, start-to-start monotonic.
pub const CYCLE_SECONDS: u64 = 5;

/// Fixed warm-up delay before the first sample, in seconds.
pub const WARMUP_SECONDS: u64 = 2;

/// One reading, in hundredths of a degree Celsius and hundredths of a
/// percent relative humidity: the publisher serializes both with two-place
/// decimal precision, so hundredths carry the wire format exactly.
#[derive(Clone, Copy, Debug, PartialEq, Eq, Structural)]
pub struct Measure {
    pub temperature: i32,
    pub humidity: i32,
}

/// How a single timed sensor read can fail. A failed cycle is logged and
/// skipped; nothing retries within the cycle.
#[derive(Clone, Copy, Debug, PartialEq, Eq, Structural)]
pub enum SensorReadError {
    /// The transducer did not answer within the protocol's timeout.
    Timeout,
    /// The answer violated the bit-level protocol.
    Protocol,
}

/// The sleep owed after a cycle whose work took `elapsed_seconds`: the
/// remainder of the cadence, clamped at zero so that a slow read can never
/// underflow the subtraction.
pub open spec fn spec_cadence_delay(elapsed_seconds: u64) -> u64 {
    if elapsed_seconds >= CYCLE_SECONDS {
        0u64
    } else {
        (CYCLE_SECONDS - elapsed_seconds) as u64
    }
}

/// Computes the end-of-cycle sleep: `max(0, CYCLE_SECONDS - elapsed_seconds)`.
pub fn cadence_delay(elapsed_seconds: u64) -> (delay: u64)
    ensures
        delay == spec_cadence_delay(elapsed_seconds),
        delay <= CYCLE_SECONDS,
{
    if elapsed_seconds >= CYCLE_SECONDS {
        0
    } else {
        CYCLE_SECONDS - elapsed_seconds
    }
}

/// What the startup gate can observe while it waits: the warm-up timer
/// firing, or a value arriving in the readiness mailbox.
#[derive(Clone, Copy, Debug, PartialEq, Eq, Structural)]
pub enum GateEvent {
    /// The fixed warm-up delay has elapsed.
    WarmupElapsed,
    /// The readiness mailbox delivered this flag value.
    Readiness(bool),
}

/// The startup gate: sampling may begin only once the warm-up delay has
/// elapsed and the readiness flag has arrived true. A false flag keeps the
/// gate waiting; the flag is written at most once in a run, so the drain
/// around it is defensive.
#[derive(Clone, Copy, Debug, PartialEq, Eq, Structural)]
pub struct StartupGate {
    pub warmed_up: bool,
    pub ready: bool,
}

/// One observation applied to the startup gate.
pub open spec fn spec_gate_step(g: StartupGate, e: GateEvent) -> StartupGate {
    match e {
        GateEvent::WarmupElapsed => StartupGate { warmed_up: true, ..g },
        GateEvent::Readiness(flag) => StartupGate { ready: g.ready || flag, ..g },
    }
}

/// The startup gate after a sequence of observations, oldest first.
pub open spec fn spec_gate_run(g: StartupGate, events: Seq<GateEvent>) -> StartupGate
    decreases events.len(),
{
    if events.len() == 0 {
        g
    } else {
        spec_gate_run(spec_gate_step(g, events[0]), events.subrange(1, events.len() as int))
    }
}

impl StartupGate {
    /// Both conditions are still outstanding.
    pub fn new() -> (g: StartupGate)
        ensures
            g == (StartupGate { warmed_up: false, ready: false }),
    {
        StartupGate { warmed_up: false, ready: false }
    }

    /// Whether the loop may sample: both conditions are satisfied.
    pub open spec fn spec_can_sample(&self) -> bool {
        self.warmed_up && self.ready
    }

    /// Whether the loop may sample: both conditions are satisfied.
    pub fn can_sample(&self) -> (r: bool)
        ensures
            r == self.spec_can_sample(),
    {
        self.warmed_up && self.ready
    }

    /// Records one observation.
    pub fn observe(&mut self, e: GateEvent)
        ensures
            *final(self) == spec_gate_step(*old(self), e),
    {
        match e {
            GateEvent::WarmupElapsed => {
                self.warmed_up = true;
            },
            GateEvent::Readiness(flag) => {
                self.ready = self.ready || flag;
            },
        }
    }
}

/// Readiness gating law: however the timer firing and the mailbox deliveries
/// interleave, a gate that admits sampling has seen the warm-up delay elapse
/// and has seen the readiness flag arrive true. Before both, no sample.
pub proof fn lemma_no_sample_before_both(events: Seq<GateEvent>)
    ensures
        spec_gate_run((StartupGate { warmed_up: false, ready: false }), events).spec_can_sample()
            ==> events.contains(GateEvent::WarmupElapsed) && events.contains(
            GateEvent::Readiness(true),
        ),
{
    lemma_gate_progress_needs_events(StartupGate { warmed_up: false, ready: false }, events);
}

/// From any start, the run ends warmed up only if it started so or saw the
/// timer fire, and ends ready only if it started so or saw a true flag.
proof fn lemma_gate_progress_needs_events(g: StartupGate, events: Seq<GateEvent>)
    ensures
        spec_gate_run(g, events).warmed_up ==> g.warmed_up || events.contains(
            GateEvent::WarmupElapsed,
        ),
        spec_gate_run(g, events).ready ==> g.ready || events.contains(GateEvent::Readiness(true)),
    decreases events.len(),
{
    if events.len() > 0 {
        let rest = events.subrange(1, events.len() as int);
        lemma_gate_progress_needs_events(spec_gate_step(g, events[0]), rest);
        assert forall|e: GateEvent| rest.contains(e) implies events.contains(e) by {
            let i = choose|i: int| 0 <= i < rest.len() && rest[i] == e;
            assert(events[i + 1] == e);
        }
        if spec_gate_step(g, events[0]).warmed_up && !g.warmed_up {
            assert(events[0] == GateEvent::WarmupElapsed);
            assert(events.contains(GateEvent::WarmupElapsed));
        }
        if spec_gate_step(g, events[0]).ready && !g.ready {
            assert(events[0] == GateEvent::Readiness(true));
            assert(events.contains(GateEvent::Readiness(true)));
        }
    }
}

/// One steady-state cycle, given the outcome of this cycle's timed sensor
/// read and the whole seconds the cycle has consumed so far. A successful
/// reading goes to the measurement mailbox, overwriting any unconsumed older
/// one; a failed read changes nothing — the error is the host's to log, never
/// to escalate, and the cycle always proceeds to its sleep. Returns the
/// seconds to sleep before the next cycle.
pub fn measure_cycle(
    outcome: Result<Measure, SensorReadError>,
    elapsed_seconds: u64,
    measurements: &mut Mailbox<Measure>,
) -> (delay: u64)
    ensures
        delay == spec_cadence_delay(elapsed_seconds),
        match outcome {
            Ok(m) => *final(measurements) == old(measurements).after_signal(m)
                && final(measurements).pending() == Some(m),
            Err(_) => *final(measurements) == *old(measurements),
        },
{
    match outcome {
        Ok(m) => {
            measurements.signal(m);
        },
        Err(_) => {},
    }
    cadence_delay(elapsed_seconds)
}

} // verus!
