//! The power-cycle state machine.
//!
//! In normal operation the device wakes, connects, serves and fetches for
//! a bounded active window, disconnects, and deep-sleeps; waking from deep
//! sleep restarts the process, so only what was persisted survives.  A
//! failed connection attempt falls back to setup mode — the device raises
//! its own access point and stays reachable for reconfiguration instead of
//! sleeping unreachably.  A separate, shorter window tears the
//! configuration server down even while still connected, lest a stuck
//! server prevent sleep.  The timers, the radio and the sleep itself live
//! in the host, which feeds events in and performs the returned actions.

use vstd::prelude::*;

verus! {

/// Seconds the device stays connected and serving before it disconnects.
pub const ACTIVE_WINDOW_SECS: u32 = 90;

/// Seconds the configuration server stays up within the active window.
pub const SERVER_WINDOW_SECS: u32 = 600;

/// Seconds of deep sleep between active windows.
pub const DEEP_SLEEP_SECS: u32 = 1800;

/// Where the power cycle stands.
#[derive(Debug, Clone, Copy, PartialEq, Eq, Structural)]
pub enum PowerState {
    /// Access-point mode: terminal for the session, no deep sleep.
    SetupMode,
    /// Joining the configured network.
    Connecting,
    /// Connected, within the active window; the configuration server may
    /// still be up.
    Connected { server_up: bool },
    /// Shutting the radio down before sleep.
    Disconnecting,
    /// Asleep; waking restarts the process.
    DeepSleep,
}

/// What the host reports to the state machine.
#[derive(Debug, Clone, Copy, PartialEq, Eq, Structural)]
pub enum PowerEvent {
    ConnectSucceeded,
    ConnectFailed,
    /// The configuration server's own window ran out.
    ServerWindowElapsed,
    /// The active window ran out.
    ActiveWindowElapsed,
    /// The radio finished shutting down.
    WifiStopped,
}

/// What the host must do after a transition.
#[derive(Debug, Clone, Copy, PartialEq, Eq, Structural)]
pub enum PowerAction {
    /// Raise the access point and keep serving configuration.
    StartAccessPoint,
    /// Start the active-window and server-window timers.
    StartTimers,
    /// Tear the configuration server down.
    StopConfigServer,
    /// Shut the radio down.
    DisconnectWifi,
    /// Enter deep sleep for this many seconds.
    EnterDeepSleep(u32),
    /// Nothing.
    Idle,
}

/// The transition relation of the power cycle.
pub open spec fn spec_power_step(s: PowerState, e: PowerEvent) -> (PowerState, PowerAction) {
    match (s, e) {
        (PowerState::Connecting, PowerEvent::ConnectSucceeded) => (
            PowerState::Connected { server_up: true },
            PowerAction::StartTimers,
        ),
        (PowerState::Connecting, PowerEvent::ConnectFailed) => (
            PowerState::SetupMode,
            PowerAction::StartAccessPoint,
        ),
        (PowerState::Connected { server_up }, PowerEvent::ServerWindowElapsed) => (
            PowerState::Connected { server_up: false },
            if server_up {
                PowerAction::StopConfigServer
            } else {
                PowerAction::Idle
            },
        ),
        (PowerState::Connected { .. }, PowerEvent::ActiveWindowElapsed) => (
            PowerState::Disconnecting,
            PowerAction::DisconnectWifi,
        ),
        (PowerState::Disconnecting, PowerEvent::WifiStopped) => (
            PowerState::DeepSleep,
            PowerAction::EnterDeepSleep(DEEP_SLEEP_SECS),
        ),
        _ => (s, PowerAction::Idle),
    }
}

/// One step of the power cycle: exactly the transition relation.
pub fn power_step(s: PowerState, e: PowerEvent) -> (r: (PowerState, PowerAction))
    ensures
        r == spec_power_step(s, e),
{
    match (s, e) {
        (PowerState::Connecting, PowerEvent::ConnectSucceeded) => (
            PowerState::Connected { server_up: true },
            PowerAction::StartTimers,
        ),
        (PowerState::Connecting, PowerEvent::ConnectFailed) => (
            PowerState::SetupMode,
            PowerAction::StartAccessPoint,
        ),
        (PowerState::Connected { server_up }, PowerEvent::ServerWindowElapsed) => (
            PowerState::Connected { server_up: false },
            if server_up {
                PowerAction::StopConfigServer
            } else {
                PowerAction::Idle
            },
        ),
        (PowerState::Connected { server_up: _ }, PowerEvent::ActiveWindowElapsed) => (
            PowerState::Disconnecting,
            PowerAction::DisconnectWifi,
        ),
        (PowerState::Disconnecting, PowerEvent::WifiStopped) => (
            PowerState::DeepSleep,
            PowerAction::EnterDeepSleep(DEEP_SLEEP_SECS),
        ),
        _ => (s, PowerAction::Idle),
    }
}

/// Law: setup mode is terminal for the session — no event leaves it, and
/// it never asks for deep sleep.
pub proof fn lemma_setup_mode_terminal(e: PowerEvent)
    ensures
        spec_power_step(PowerState::SetupMode, e).0 == PowerState::SetupMode,
        !(spec_power_step(PowerState::SetupMode, e).1 is EnterDeepSleep),
{
}

/// Law: deep sleep is terminal — the next thing that happens is a fresh
/// process start, not a transition.
pub proof fn lemma_deep_sleep_terminal(e: PowerEvent)
    ensures
        spec_power_step(PowerState::DeepSleep, e).0 == PowerState::DeepSleep,
        spec_power_step(PowerState::DeepSleep, e).1 == PowerAction::Idle,
{
}

/// Law: the machine sleeps only after the radio was shut down: deep sleep
/// is asked for only on the step out of `Disconnecting`.
pub proof fn lemma_sleep_only_after_disconnect(s: PowerState, e: PowerEvent)
    ensures
        spec_power_step(s, e).1 is EnterDeepSleep ==> s is Disconnecting && spec_power_step(
            s,
            e,
        ).0 is DeepSleep,
{
}

} // verus!
