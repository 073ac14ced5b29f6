use esp_feed::power::{power_step, PowerAction, PowerEvent, PowerState, ACTIVE_WINDOW_SECS,
    DEEP_SLEEP_SECS, SERVER_WINDOW_SECS};

#[test]
fn a_successful_connection_opens_the_active_window() {
    let (s, a) = power_step(PowerState::Connecting, PowerEvent::ConnectSucceeded);
    assert_eq!(s, PowerState::Connected { server_up: true });
    assert_eq!(a, PowerAction::StartTimers);
}

#[test]
fn a_failed_connection_falls_back_to_setup_mode() {
    let (s, a) = power_step(PowerState::Connecting, PowerEvent::ConnectFailed);
    assert_eq!(s, PowerState::SetupMode);
    assert_eq!(a, PowerAction::StartAccessPoint);
}

#[test]
fn the_server_window_tears_the_server_down_once() {
    let (s, a) = power_step(
        PowerState::Connected { server_up: true },
        PowerEvent::ServerWindowElapsed,
    );
    assert_eq!(s, PowerState::Connected { server_up: false });
    assert_eq!(a, PowerAction::StopConfigServer);
    let (s2, a2) = power_step(s, PowerEvent::ServerWindowElapsed);
    assert_eq!(s2, PowerState::Connected { server_up: false });
    assert_eq!(a2, PowerAction::Idle);
}

#[test]
fn the_active_window_ends_in_disconnect_then_sleep() {
    let (s, a) = power_step(
        PowerState::Connected { server_up: false },
        PowerEvent::ActiveWindowElapsed,
    );
    assert_eq!(s, PowerState::Disconnecting);
    assert_eq!(a, PowerAction::DisconnectWifi);
    let (s2, a2) = power_step(s, PowerEvent::WifiStopped);
    assert_eq!(s2, PowerState::DeepSleep);
    assert_eq!(a2, PowerAction::EnterDeepSleep(DEEP_SLEEP_SECS));
}

#[test]
fn the_whole_normal_cycle_runs_through() {
    let mut s = PowerState::Connecting;
    let mut actions = Vec::new();
    for e in [
        PowerEvent::ConnectSucceeded,
        PowerEvent::ServerWindowElapsed,
        PowerEvent::ActiveWindowElapsed,
        PowerEvent::WifiStopped,
    ] {
        let (next, a) = power_step(s, e);
        s = next;
        actions.push(a);
    }
    assert_eq!(s, PowerState::DeepSleep);
    assert_eq!(actions, vec![
        PowerAction::StartTimers,
        PowerAction::StopConfigServer,
        PowerAction::DisconnectWifi,
        PowerAction::EnterDeepSleep(DEEP_SLEEP_SECS),
    ]);
}

#[test]
fn setup_mode_is_terminal_and_never_sleeps() {
    for e in [
        PowerEvent::ConnectSucceeded,
        PowerEvent::ConnectFailed,
        PowerEvent::ServerWindowElapsed,
        PowerEvent::ActiveWindowElapsed,
        PowerEvent::WifiStopped,
    ] {
        let (s, a) = power_step(PowerState::SetupMode, e);
        assert_eq!(s, PowerState::SetupMode);
        assert_eq!(a, PowerAction::Idle);
    }
}

#[test]
fn deep_sleep_is_terminal() {
    for e in [PowerEvent::ConnectSucceeded, PowerEvent::WifiStopped] {
        let (s, a) = power_step(PowerState::DeepSleep, e);
        assert_eq!(s, PowerState::DeepSleep);
        assert_eq!(a, PowerAction::Idle);
    }
}

#[test]
fn the_server_window_outlives_the_active_window_by_design() {
    // The configuration server's own teardown is a defense for setup-like
    // sessions; in a normal session the active window ends first.
    assert!(ACTIVE_WINDOW_SECS < SERVER_WINDOW_SECS);
    assert_eq!(ACTIVE_WINDOW_SECS, 90);
    assert_eq!(SERVER_WINDOW_SECS, 600);
    assert_eq!(DEEP_SLEEP_SECS, 1800);
}
