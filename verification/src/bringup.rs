//! The network bring-up state machine.
//!
//! One task drives the radio and the network stack from power-up to a usable
//! link, performs the one-shot clock synchronization, signals readiness, and
//! then becomes the telemetry publisher. Each state names the next blocking
//! step the host must perform; each event is that step's outcome. The radio
//! driver, DHCP, link detection and the HTTP transfer are the host's — two
//! perpetual pump tasks run beside this machine for the life of the process
//! and never report into it.

use vstd::prelude::*;

use crate::rtc::RTCInitError;

verus! {

/// Milliseconds between DHCP readiness polls.
pub const DHCP_POLL_MILLIS: u64 = 100;

/// Milliseconds between link readiness polls.
pub const LINK_POLL_MILLIS: u64 = 500;

/// The milestones of bring-up, in the order they are reached. `Aborted` is
/// the one terminal failure: clock synchronization failed, readiness will
/// never be signaled, and the task returns.
#[derive(Clone, Copy, Debug, PartialEq, Eq, Structural)]
pub enum BringupState {
    /// The radio is powered; its firmware is not yet loaded.
    RadioPowerUp,
    /// The firmware is loaded; the driver is not yet running.
    FirmwareLoaded,
    /// The driver runs; the node is not yet associated.
    DriverRunning,
    /// Association succeeded; DHCP has not yet bound.
    Associated,
    /// DHCP bound; the link is not yet up.
    DhcpBound,
    /// The link is up; the stack is not yet ready.
    LinkUp,
    /// The stack is ready; the clock is not yet synchronized.
    StackReady,
    /// The clock is synchronized; readiness is not yet signaled.
    ClockSynced,
    /// Readiness is signaled; the task becomes the publisher.
    Ready,
    /// Clock synchronization failed; the telemetry path is dead for this
    /// run.
    Aborted,
}

/// The outcome of the blocking step a state called for.
#[derive(Clone, Copy, Debug, PartialEq, Eq)]
pub enum BringupEvent {
    /// The radio accepted its firmware.
    FirmwareLoad,
    /// The driver initialized and entered power management.
    DriverStart,
    /// An association attempt finished, successfully or not.
    JoinResult(bool),
    /// A DHCP poll observed this configuration state.
    DhcpStatus(bool),
    /// A link poll observed this link state.
    LinkStatus(bool),
    /// The stack reported itself ready.
    StackUp,
    /// The one-shot clock synchronization finished.
    ClockSync(Result<(), RTCInitError>),
    /// The readiness flag was written.
    ReadinessSignaled,
}

/// The blocking step the host must perform in a state.
#[derive(Clone, Copy, Debug, PartialEq, Eq, Structural)]
pub enum BringupAction {
    /// Load the radio firmware.
    LoadFirmware,
    /// Initialize the driver and its power management.
    StartDriver,
    /// Attempt association with the configured credentials.
    Join,
    /// Poll DHCP, then wait `DHCP_POLL_MILLIS`.
    PollDhcp,
    /// Poll the link, then wait `LINK_POLL_MILLIS`.
    PollLink,
    /// Await the stack's readiness, indefinitely.
    AwaitStack,
    /// Perform the one-shot clock synchronization.
    SyncClock,
    /// Write `true` to the readiness mailbox.
    SignalReadiness,
    /// Run the publish cycle forever.
    Publish,
    /// Return; the telemetry path stays dead for this run.
    Stop,
}

/// Bring-up as a step function. Association failure is never fatal: it is
/// reported and retried immediately, without bound. The polls repeat their
/// state until true. A clock synchronization failure — any variant — aborts
/// for good; success alone leads to readiness. An event a state did not ask
/// for changes nothing.
pub open spec fn spec_bringup_step(state: BringupState, event: BringupEvent) -> BringupState {
    match (state, event) {
        (BringupState::RadioPowerUp, BringupEvent::FirmwareLoad) => BringupState::FirmwareLoaded,
        (BringupState::FirmwareLoaded, BringupEvent::DriverStart) => BringupState::DriverRunning,
        (BringupState::DriverRunning, BringupEvent::JoinResult(ok)) => if ok {
            BringupState::Associated
        } else {
            BringupState::DriverRunning
        },
        (BringupState::Associated, BringupEvent::DhcpStatus(up)) => if up {
            BringupState::DhcpBound
        } else {
            BringupState::Associated
        },
        (BringupState::DhcpBound, BringupEvent::LinkStatus(up)) => if up {
            BringupState::LinkUp
        } else {
            BringupState::DhcpBound
        },
        (BringupState::LinkUp, BringupEvent::StackUp) => BringupState::StackReady,
        (BringupState::StackReady, BringupEvent::ClockSync(outcome)) => match outcome {
            Ok(_) => BringupState::ClockSynced,
            Err(_) => BringupState::Aborted,
        },
        (BringupState::ClockSynced, BringupEvent::ReadinessSignaled) => BringupState::Ready,
        (other, _) => other,
    }
}

/// Advances bring-up by one observed outcome.
pub fn bringup_step(state: BringupState, event: BringupEvent) -> (next: BringupState)
    ensures
        next == spec_bringup_step(state, event),
{
    match (state, event) {
        (BringupState::RadioPowerUp, BringupEvent::FirmwareLoad) => BringupState::FirmwareLoaded,
        (BringupState::FirmwareLoaded, BringupEvent::DriverStart) => BringupState::DriverRunning,
        (BringupState::DriverRunning, BringupEvent::JoinResult(ok)) => if ok {
            BringupState::Associated
        } else {
            BringupState::DriverRunning
        },
        (BringupState::Associated, BringupEvent::DhcpStatus(up)) => if up {
            BringupState::DhcpBound
        } else {
            BringupState::Associated
        },
        (BringupState::DhcpBound, BringupEvent::LinkStatus(up)) => if up {
            BringupState::LinkUp
        } else {
            BringupState::DhcpBound
        },
        (BringupState::LinkUp, BringupEvent::StackUp) => BringupState::StackReady,
        (BringupState::StackReady, BringupEvent::ClockSync(outcome)) => match outcome {
            Ok(_) => BringupState::ClockSynced,
            Err(_) => BringupState::Aborted,
        },
        (BringupState::ClockSynced, BringupEvent::ReadinessSignaled) => BringupState::Ready,
        (other, _) => other,
    }
}

/// The blocking step a state calls for.
pub open spec fn spec_bringup_action(state: BringupState) -> BringupAction {
    match state {
        BringupState::RadioPowerUp => BringupAction::LoadFirmware,
        BringupState::FirmwareLoaded => BringupAction::StartDriver,
        BringupState::DriverRunning => BringupAction::Join,
        BringupState::Associated => BringupAction::PollDhcp,
        BringupState::DhcpBound => BringupAction::PollLink,
        BringupState::LinkUp => BringupAction::AwaitStack,
        BringupState::StackReady => BringupAction::SyncClock,
        BringupState::ClockSynced => BringupAction::SignalReadiness,
        BringupState::Ready => BringupAction::Publish,
        BringupState::Aborted => BringupAction::Stop,
    }
}

/// What the host must do next in `state`. Readiness is signaled from
/// exactly one state, the one only a successful clock synchronization
/// enters.
pub fn bringup_action(state: BringupState) -> (action: BringupAction)
    ensures
        action == spec_bringup_action(state),
        (action == BringupAction::SignalReadiness) == (state == BringupState::ClockSynced),
{
    match state {
        BringupState::RadioPowerUp => BringupAction::LoadFirmware,
        BringupState::FirmwareLoaded => BringupAction::StartDriver,
        BringupState::DriverRunning => BringupAction::Join,
        BringupState::Associated => BringupAction::PollDhcp,
        BringupState::DhcpBound => BringupAction::PollLink,
        BringupState::LinkUp => BringupAction::AwaitStack,
        BringupState::StackReady => BringupAction::SyncClock,
        BringupState::ClockSynced => BringupAction::SignalReadiness,
        BringupState::Ready => BringupAction::Publish,
        BringupState::Aborted => BringupAction::Stop,
    }
}

/// The state after a sequence of outcomes, oldest first.
pub open spec fn spec_bringup_run(state: BringupState, events: Seq<BringupEvent>) -> BringupState
    decreases events.len(),
{
    if events.len() == 0 {
        state
    } else {
        spec_bringup_run(
            spec_bringup_step(state, events[0]),
            events.subrange(1, events.len() as int),
        )
    }
}

/// The abort is terminal: no sequence of outcomes leaves it.
pub proof fn lemma_aborted_is_terminal(events: Seq<BringupEvent>)
    ensures
        spec_bringup_run(BringupState::Aborted, events) == BringupState::Aborted,
    decreases events.len(),
{
    if events.len() > 0 {
        lemma_aborted_is_terminal(events.subrange(1, events.len() as int));
    }
}

/// Whether an outcome reports a successful clock synchronization.
pub open spec fn spec_is_sync_success(event: BringupEvent) -> bool {
    match event {
        BringupEvent::ClockSync(outcome) => outcome is Ok,
        _ => false,
    }
}

/// One-shot synchronization law: a bring-up that reaches readiness saw the
/// clock synchronization succeed. No run publishes telemetry on an
/// unsynchronized clock.
pub proof fn lemma_no_readiness_without_clock_sync(events: Seq<BringupEvent>)
    ensures
        spec_bringup_run(BringupState::RadioPowerUp, events) == BringupState::Ready
            ==> exists|i: int| 0 <= i < events.len() && spec_is_sync_success(#[trigger] events[i]),
{
    if spec_bringup_run(BringupState::RadioPowerUp, events) == BringupState::Ready {
        lemma_ready_needs_sync_from(BringupState::RadioPowerUp, events);
    }
}

/// From any state short of the synchronized ones, reaching readiness takes
/// a successful clock synchronization among the outcomes.
proof fn lemma_ready_needs_sync_from(state: BringupState, events: Seq<BringupEvent>)
    requires
        spec_bringup_run(state, events) == BringupState::Ready,
        state != BringupState::Ready,
        state != BringupState::ClockSynced,
    ensures
        exists|i: int| 0 <= i < events.len() && spec_is_sync_success(#[trigger] events[i]),
    decreases events.len(),
{
    let next = spec_bringup_step(state, events[0]);
    let rest = events.subrange(1, events.len() as int);
    if next == BringupState::ClockSynced || next == BringupState::Ready {
        assert(spec_is_sync_success(events[0]));
    } else {
        lemma_ready_needs_sync_from(next, rest);
        let j = choose|j: int| 0 <= j < rest.len() && spec_is_sync_success(#[trigger] rest[j]);
        assert(spec_is_sync_success(events[j + 1]));
    }
}

} // verus!
