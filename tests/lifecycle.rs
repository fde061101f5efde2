use echokit::lifecycle::{
    boot_mode, screen_for, Command, ConnectFailure, Controller, DeviceMode, LifecycleEvent,
    LifecycleState,
};
use echokit::settings::Settings;

fn settings(ssid: &str, pass: &str, url: &str) -> Settings {
    Settings::new(ssid.to_string(), pass.to_string(), url.to_string())
}

fn booted(s: &Settings, held: bool) -> (Controller, Command) {
    let mut c = Controller::new();
    let cmd = c.cold_boot(s, held);
    (c, cmd)
}

#[test]
fn missing_field_goes_to_provisioning() {
    let cases = [
        settings("", "pw", "wss://a/"),
        settings("net", "", "wss://a/"),
        settings("net", "pw", ""),
        settings("", "", ""),
    ];
    for s in cases.iter() {
        for held in [false, true] {
            let (c, cmd) = booted(s, held);
            assert_eq!(c.state, LifecycleState::Provisioning);
            assert_eq!(cmd, Command::StartProvisioning);
            assert_eq!(boot_mode(s, held), DeviceMode::Provisioning);
        }
    }
}

#[test]
fn complete_settings_go_to_connecting() {
    let s = settings("net", "pw", "wss://a/");
    let (c, cmd) = booted(&s, false);
    assert_eq!(c.state, LifecycleState::Connecting { wifi_associated: false });
    assert_eq!(cmd, Command::AssociateWifi);
    assert_eq!(boot_mode(&s, false), DeviceMode::Operating);
}

#[test]
fn held_button_forces_provisioning() {
    let s = settings("net", "pw", "wss://a/");
    let (c, cmd) = booted(&s, true);
    assert_eq!(c.state, LifecycleState::Provisioning);
    assert_eq!(cmd, Command::StartProvisioning);
}

#[test]
fn provisioning_always_restarts() {
    let s = settings("", "", "");
    let (mut c, _) = booted(&s, false);
    assert_eq!(c.step(LifecycleEvent::WifiAssociated { ok: true }), Command::Nothing);
    assert_eq!(c.state, LifecycleState::Provisioning);
    assert_eq!(c.step(LifecycleEvent::ProvisioningFinished), Command::Restart);
    assert_eq!(c.state, LifecycleState::Restarting);
}

#[test]
fn connection_success_reaches_operating() {
    let s = settings("net", "pw", "wss://a/");
    let (mut c, _) = booted(&s, false);
    assert_eq!(c.step(LifecycleEvent::WifiAssociated { ok: true }), Command::EstablishSession);
    assert_eq!(c.state, LifecycleState::Connecting { wifi_associated: true });
    assert_eq!(c.step(LifecycleEvent::SessionEstablished { ok: true }), Command::SpawnTasks);
    assert_eq!(c.state, LifecycleState::Operating);
}

#[test]
fn wifi_failure_reports_and_restarts() {
    let s = settings("net", "pw", "wss://a/");
    let (mut c, _) = booted(&s, false);
    assert_eq!(
        c.step(LifecycleEvent::WifiAssociated { ok: false }),
        Command::ReportFailureAndRestart(ConnectFailure::Wifi)
    );
    assert_eq!(c.state, LifecycleState::Restarting);
}

#[test]
fn session_failure_reports_and_restarts() {
    let s = settings("net", "pw", "wss://a/");
    let (mut c, _) = booted(&s, false);
    c.step(LifecycleEvent::WifiAssociated { ok: true });
    // the session result before WiFi would not apply; here it does
    assert_eq!(
        c.step(LifecycleEvent::SessionEstablished { ok: false }),
        Command::ReportFailureAndRestart(ConnectFailure::Session)
    );
    assert_eq!(c.state, LifecycleState::Restarting);
}

#[test]
fn work_task_end_always_restarts() {
    for ok in [true, false] {
        let s = settings("net", "pw", "wss://a/");
        let (mut c, _) = booted(&s, false);
        c.step(LifecycleEvent::WifiAssociated { ok: true });
        c.step(LifecycleEvent::SessionEstablished { ok: true });
        assert_eq!(c.step(LifecycleEvent::WorkTaskEnded { ok }), Command::Restart);
        assert_eq!(c.state, LifecycleState::Restarting);
        let later = [
            LifecycleEvent::SettingsLoaded { settings_complete: true, button_held: false },
            LifecycleEvent::ProvisioningFinished,
            LifecycleEvent::WifiAssociated { ok: true },
            LifecycleEvent::SessionEstablished { ok: true },
            LifecycleEvent::WorkTaskEnded { ok: true },
        ];
        for e in later {
            assert_eq!(c.step(e), Command::Restart);
            assert_eq!(c.state, LifecycleState::Restarting);
        }
    }
}

#[test]
fn session_result_before_wifi_is_ignored() {
    let s = settings("net", "pw", "wss://a/");
    let (mut c, _) = booted(&s, false);
    assert_eq!(c.step(LifecycleEvent::SessionEstablished { ok: true }), Command::Nothing);
    assert_eq!(c.state, LifecycleState::Connecting { wifi_associated: false });
}

#[test]
fn screens_for_commands() {
    let wifi = screen_for(Command::AssociateWifi, "x").unwrap();
    assert_eq!(wifi.state, "Connecting to wifi...");
    assert_eq!(wifi.text, "");
    let fail = screen_for(Command::ReportFailureAndRestart(ConnectFailure::Wifi), "x").unwrap();
    assert_eq!(fail.state, "Failed to connect to wifi");
    assert_eq!(fail.text, "Press K0 to restart");
    let sess = screen_for(
        Command::ReportFailureAndRestart(ConnectFailure::Session),
        "wss://echo.example/ws/aabbccddeeff",
    )
    .unwrap();
    assert_eq!(sess.state, "Failed to connect to server");
    assert_eq!(sess.text, "Please check your server URL: wss://echo.example/ws/aabbccddeeff");
    let prov = screen_for(Command::StartProvisioning, "").unwrap();
    assert_eq!(prov.state, "Please setup device by bt");
    assert!(prov.text.contains(echokit::lifecycle::SETUP_URL));
    assert!(screen_for(Command::Restart, "").is_none());
    assert!(screen_for(Command::SpawnTasks, "").is_none());
}
