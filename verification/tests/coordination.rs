//! The task-coordination layer: mailbox handoff, startup gating, the
//! measurement cycle, bring-up, and the publish cycle.

use capteur::bringup::{
    bringup_action, bringup_step, BringupAction, BringupEvent, BringupState, DHCP_POLL_MILLIS,
    LINK_POLL_MILLIS,
};
use capteur::mailbox::Mailbox;
use capteur::measure::{
    cadence_delay, measure_cycle, GateEvent, Measure, SensorReadError, StartupGate, CYCLE_SECONDS,
    WARMUP_SECONDS,
};
use capteur::publish::{
    build_url, publisher_step, ClockReadError, PublisherEvent, PublisherPhase, MEASURE_PATH,
    NOW_PATH,
};
use capteur::rtc::{DateTime, DayOfWeek, RTCInitError};

fn sample_clock() -> DateTime {
    DateTime {
        year: 2024,
        month: 11,
        day: 14,
        day_of_week: DayOfWeek::Friday,
        hour: 20,
        minute: 15,
        second: 30,
    }
}

#[test]
fn mailbox_latest_write_wins() {
    let mut mailbox: Mailbox<u32> = Mailbox::new();
    mailbox.signal(1);
    mailbox.signal(2);
    assert_eq!(mailbox.take(), Some(2));
    assert_eq!(mailbox.take(), None);
}

#[test]
fn mailbox_reports_whether_a_value_waits() {
    let mut mailbox: Mailbox<bool> = Mailbox::new();
    assert!(!mailbox.is_signaled());
    mailbox.signal(true);
    assert!(mailbox.is_signaled());
    assert_eq!(mailbox.take(), Some(true));
    assert!(!mailbox.is_signaled());
}

#[test]
fn cadence_sleep_is_clamped_at_zero() {
    assert_eq!(cadence_delay(0), 5);
    assert_eq!(cadence_delay(3), 2);
    assert_eq!(cadence_delay(5), 0);
    assert_eq!(cadence_delay(7), 0);
}

#[test]
fn failed_read_skips_the_cycle_and_the_loop_goes_on() {
    let mut measurements: Mailbox<Measure> = Mailbox::new();
    let delay = measure_cycle(Err(SensorReadError::Timeout), 1, &mut measurements);
    assert_eq!(delay, 4);
    assert_eq!(measurements.take(), None);
    let delay = measure_cycle(Err(SensorReadError::Protocol), 6, &mut measurements);
    assert_eq!(delay, 0);
    assert_eq!(measurements.take(), None);
    // The loop proceeds: the very next successful cycle publishes.
    let reading = Measure { temperature: 2150, humidity: 4000 };
    let delay = measure_cycle(Ok(reading), 0, &mut measurements);
    assert_eq!(delay, 5);
    assert_eq!(measurements.take(), Some(reading));
}

#[test]
fn successful_read_overwrites_unconsumed_reading() {
    let mut measurements: Mailbox<Measure> = Mailbox::new();
    let first = Measure { temperature: 100, humidity: 200 };
    let second = Measure { temperature: 300, humidity: 400 };
    measure_cycle(Ok(first), 0, &mut measurements);
    measure_cycle(Ok(second), 0, &mut measurements);
    assert_eq!(measurements.take(), Some(second));
}

#[test]
fn sampling_waits_for_warmup_and_readiness() {
    let mut gate = StartupGate::new();
    assert!(!gate.can_sample());
    gate.observe(GateEvent::WarmupElapsed);
    assert!(!gate.can_sample());
    gate.observe(GateEvent::Readiness(false));
    assert!(!gate.can_sample());
    gate.observe(GateEvent::Readiness(true));
    assert!(gate.can_sample());
}

#[test]
fn gate_order_is_immaterial() {
    let mut gate = StartupGate::new();
    gate.observe(GateEvent::Readiness(true));
    assert!(!gate.can_sample());
    gate.observe(GateEvent::WarmupElapsed);
    assert!(gate.can_sample());
}

#[test]
fn warmup_and_cadence_constants() {
    assert_eq!(WARMUP_SECONDS, 2);
    assert_eq!(CYCLE_SECONDS, 5);
    assert_eq!(DHCP_POLL_MILLIS, 100);
    assert_eq!(LINK_POLL_MILLIS, 500);
}

#[test]
fn bringup_reaches_ready_in_order() {
    let mut state = BringupState::RadioPowerUp;
    let outcomes = [
        BringupEvent::FirmwareLoad,
        BringupEvent::DriverStart,
        BringupEvent::JoinResult(true),
        BringupEvent::DhcpStatus(true),
        BringupEvent::LinkStatus(true),
        BringupEvent::StackUp,
        BringupEvent::ClockSync(Ok(())),
        BringupEvent::ReadinessSignaled,
    ];
    let milestones = [
        BringupState::FirmwareLoaded,
        BringupState::DriverRunning,
        BringupState::Associated,
        BringupState::DhcpBound,
        BringupState::LinkUp,
        BringupState::StackReady,
        BringupState::ClockSynced,
        BringupState::Ready,
    ];
    for (outcome, milestone) in outcomes.iter().zip(milestones.iter()) {
        state = bringup_step(state, *outcome);
        assert_eq!(state, *milestone);
    }
    assert_eq!(bringup_action(BringupState::Ready), BringupAction::Publish);
}

#[test]
fn association_failure_is_retried_not_fatal() {
    let mut state = BringupState::DriverRunning;
    for _ in 0..3 {
        state = bringup_step(state, BringupEvent::JoinResult(false));
        assert_eq!(state, BringupState::DriverRunning);
        assert_eq!(bringup_action(state), BringupAction::Join);
    }
    state = bringup_step(state, BringupEvent::JoinResult(true));
    assert_eq!(state, BringupState::Associated);
}

#[test]
fn polls_repeat_until_true() {
    let state = bringup_step(BringupState::Associated, BringupEvent::DhcpStatus(false));
    assert_eq!(state, BringupState::Associated);
    assert_eq!(bringup_action(state), BringupAction::PollDhcp);
    let state = bringup_step(BringupState::DhcpBound, BringupEvent::LinkStatus(false));
    assert_eq!(state, BringupState::DhcpBound);
    assert_eq!(bringup_action(state), BringupAction::PollLink);
}

#[test]
fn clock_sync_failure_aborts_for_good() {
    let failures = [
        RTCInitError::APIError,
        RTCInitError::InvalidAPIResponse,
        RTCInitError::APIUnavailable,
        RTCInitError::RtcError,
        RTCInitError::DateTimeError,
    ];
    for failure in failures {
        let state = bringup_step(BringupState::StackReady, BringupEvent::ClockSync(Err(failure)));
        assert_eq!(state, BringupState::Aborted);
        assert_eq!(bringup_action(state), BringupAction::Stop);
        // Terminal: no later outcome revives the run.
        let state = bringup_step(state, BringupEvent::ClockSync(Ok(())));
        assert_eq!(state, BringupState::Aborted);
        let state = bringup_step(state, BringupEvent::ReadinessSignaled);
        assert_eq!(state, BringupState::Aborted);
    }
}

#[test]
fn readiness_is_signaled_from_the_synced_state_alone() {
    let states = [
        BringupState::RadioPowerUp,
        BringupState::FirmwareLoaded,
        BringupState::DriverRunning,
        BringupState::Associated,
        BringupState::DhcpBound,
        BringupState::LinkUp,
        BringupState::StackReady,
        BringupState::ClockSynced,
        BringupState::Ready,
        BringupState::Aborted,
    ];
    for state in states {
        let signals = bringup_action(state) == BringupAction::SignalReadiness;
        assert_eq!(signals, state == BringupState::ClockSynced);
    }
}

#[test]
fn unexpected_outcomes_change_nothing() {
    let state = bringup_step(BringupState::LinkUp, BringupEvent::DhcpStatus(true));
    assert_eq!(state, BringupState::LinkUp);
    let state = bringup_step(BringupState::RadioPowerUp, BringupEvent::StackUp);
    assert_eq!(state, BringupState::RadioPowerUp);
}

#[test]
fn failed_clock_read_retries_immediately() {
    let phase = publisher_step(
        PublisherPhase::ReadClock,
        PublisherEvent::ClockRead(Err(ClockReadError::NotRunning)),
    );
    assert_eq!(phase, PublisherPhase::ReadClock);
}

#[test]
fn publish_cycle_carries_clock_then_reading() {
    let clock = sample_clock();
    let reading = Measure { temperature: 2150, humidity: 4000 };
    let phase = publisher_step(PublisherPhase::ReadClock, PublisherEvent::ClockRead(Ok(clock)));
    assert_eq!(phase, PublisherPhase::AwaitMeasure(clock));
    let phase = publisher_step(phase, PublisherEvent::MeasureReceived(reading));
    assert_eq!(phase, PublisherPhase::Publish(clock, reading));
    let phase = publisher_step(phase, PublisherEvent::SendOutcome(true));
    assert_eq!(phase, PublisherPhase::ReadClock);
}

#[test]
fn transport_failure_drops_the_reading_and_the_cycle_goes_on() {
    let clock = sample_clock();
    let reading = Measure { temperature: 2150, humidity: 4000 };
    let phase = publisher_step(
        PublisherPhase::Publish(clock, reading),
        PublisherEvent::SendOutcome(false),
    );
    // Back to the top of the cycle, carrying nothing: the dropped reading
    // is never retried or buffered.
    assert_eq!(phase, PublisherPhase::ReadClock);
}

#[test]
fn request_urls_join_base_and_endpoint() {
    assert_eq!(NOW_PATH, "/now");
    assert_eq!(MEASURE_PATH, "/measure");
    assert_eq!(
        build_url("https://collector.example.org", NOW_PATH).as_deref(),
        Some("https://collector.example.org/now")
    );
    assert_eq!(
        build_url("https://collector.example.org", MEASURE_PATH).as_deref(),
        Some("https://collector.example.org/measure")
    );
}

#[test]
fn oversized_request_url_is_refused() {
    let base = "https://".to_string() + &"x".repeat(95);
    assert_eq!(build_url(&base, MEASURE_PATH), None);
}

#[test]
fn rejected_payload_skips_the_cycle() {
    let clock = sample_clock();
    let reading = Measure { temperature: 2150, humidity: 4000 };
    let phase = publisher_step(
        PublisherPhase::Publish(clock, reading),
        PublisherEvent::BodyRejected,
    );
    assert_eq!(phase, PublisherPhase::ReadClock);
}
