//! The device lifecycle controller as a pure state machine.

use vstd::prelude::*;
use crate::settings::Settings;

verus! {

/// The mode a boot settles in; it never changes without a restart.
#[derive(Clone, Copy, Debug, PartialEq, Eq, Structural)]
pub enum DeviceMode {
    Provisioning,
    Operating,
}

/// The mode of this boot: provisioning when any of the three settings is
/// missing or the button is held down at boot, operating otherwise.
pub open spec fn spec_boot_mode(settings_complete: bool, button_held: bool) -> DeviceMode {
    if settings_complete && !button_held {
        DeviceMode::Operating
    } else {
        DeviceMode::Provisioning
    }
}

pub fn boot_mode(settings: &Settings, button_held: bool) -> (r: DeviceMode)
    ensures
        r == spec_boot_mode(settings.spec_is_complete(), button_held),
{
    if settings.is_complete() && !button_held {
        DeviceMode::Operating
    } else {
        DeviceMode::Provisioning
    }
}


/// States of the lifecycle controller. `Connecting` carries whether the WiFi
/// phase is already done, so the session phase follows it.
#[derive(Clone, Copy, Debug, PartialEq, Eq, Structural)]
pub enum LifecycleState {
    ColdBoot,
    Provisioning,
    Connecting { wifi_associated: bool },
    Operating,
    Restarting,
}

/// What the surrounding runtime reports back to the controller.
#[derive(Clone, Copy, Debug, PartialEq, Eq, Structural)]
pub enum LifecycleEvent {
    /// Settings were loaded at boot; `button_held` is the button's resting level.
    SettingsLoaded { settings_complete: bool, button_held: bool },
    /// The user pressed the button to end provisioning.
    ProvisioningFinished,
    /// The WiFi association attempt ended.
    WifiAssociated { ok: bool },
    /// The protocol session attempt ended.
    SessionEstablished { ok: bool },
    /// The protocol/work task ended, successfully or not.
    WorkTaskEnded { ok: bool },
}

/// Which step of the connection failed.
#[derive(Clone, Copy, Debug, PartialEq, Eq, Structural)]
pub enum ConnectFailure {
    Wifi,
    Session,
}

/// What the runtime has to do after a transition.
#[derive(Clone, Copy, Debug, PartialEq, Eq, Structural)]
pub enum Command {
    /// Nothing: the event did not apply to the current state.
    Nothing,
    /// Start the provisioning transport and wait for the button.
    StartProvisioning,
    /// Associate with the WiFi network from the settings.
    AssociateWifi,
    /// Open the protocol session on the device's endpoint.
    EstablishSession,
    /// Spawn the button, audio and protocol/work tasks and wait for the work task.
    SpawnTasks,
    /// Show the failure, wait for one button press, then restart.
    ReportFailureAndRestart(ConnectFailure),
    /// Restart the device.
    Restart,
}

/// The transition function of the lifecycle controller.
pub open spec fn spec_step(s: LifecycleState, e: LifecycleEvent) -> (LifecycleState, Command) {
    match (s, e) {
        (LifecycleState::Restarting, _) => (LifecycleState::Restarting, Command::Restart),
        (LifecycleState::ColdBoot, LifecycleEvent::SettingsLoaded { settings_complete, button_held }) =>
            if spec_boot_mode(settings_complete, button_held) == DeviceMode::Operating {
                (LifecycleState::Connecting { wifi_associated: false }, Command::AssociateWifi)
            } else {
                (LifecycleState::Provisioning, Command::StartProvisioning)
            },
        (LifecycleState::Provisioning, LifecycleEvent::ProvisioningFinished) =>
            (LifecycleState::Restarting, Command::Restart),
        (LifecycleState::Connecting { wifi_associated: false }, LifecycleEvent::WifiAssociated { ok }) =>
            if ok {
                (LifecycleState::Connecting { wifi_associated: true }, Command::EstablishSession)
            } else {
                (LifecycleState::Restarting, Command::ReportFailureAndRestart(ConnectFailure::Wifi))
            },
        (LifecycleState::Connecting { wifi_associated: true }, LifecycleEvent::SessionEstablished { ok }) =>
            if ok {
                (LifecycleState::Operating, Command::SpawnTasks)
            } else {
                (LifecycleState::Restarting, Command::ReportFailureAndRestart(ConnectFailure::Session))
            },
        (LifecycleState::Operating, LifecycleEvent::WorkTaskEnded { ok: _ }) =>
            (LifecycleState::Restarting, Command::Restart),
        _ => (s, Command::Nothing),
    }
}

/// The state reached from `s` after the events `es`, in order.
pub open spec fn spec_run(s: LifecycleState, es: Seq<LifecycleEvent>) -> LifecycleState
    decreases es.len(),
{
    if es.len() == 0 {
        s
    } else {
        spec_run(spec_step(s, es[0]).0, es.drop_first())
    }
}

/// The lifecycle controller: one state, advanced by the events the runtime reports.
pub struct Controller {
    pub state: LifecycleState,
}

impl Controller {
    /// A controller at cold boot.
    pub fn new() -> (r: Controller)
        ensures
            r.state == LifecycleState::ColdBoot,
    {
        Controller { state: LifecycleState::ColdBoot }
    }

    /// Takes one event, moves to the next state and returns what to do there.
    pub fn step(&mut self, e: LifecycleEvent) -> (r: Command)
        ensures
            (final(self).state, r) == spec_step(old(self).state, e),
    {
        let (next, cmd) = match (self.state, e) {
            (LifecycleState::Restarting, _) => (LifecycleState::Restarting, Command::Restart),
            (LifecycleState::ColdBoot, LifecycleEvent::SettingsLoaded { settings_complete, button_held }) => {
                if settings_complete && !button_held {
                    (LifecycleState::Connecting { wifi_associated: false }, Command::AssociateWifi)
                } else {
                    (LifecycleState::Provisioning, Command::StartProvisioning)
                }
            },
            (LifecycleState::Provisioning, LifecycleEvent::ProvisioningFinished) => {
                (LifecycleState::Restarting, Command::Restart)
            },
            (LifecycleState::Connecting { wifi_associated: false }, LifecycleEvent::WifiAssociated { ok }) => {
                if ok {
                    (LifecycleState::Connecting { wifi_associated: true }, Command::EstablishSession)
                } else {
                    (LifecycleState::Restarting, Command::ReportFailureAndRestart(ConnectFailure::Wifi))
                }
            },
            (LifecycleState::Connecting { wifi_associated: true }, LifecycleEvent::SessionEstablished { ok }) => {
                if ok {
                    (LifecycleState::Operating, Command::SpawnTasks)
                } else {
                    (LifecycleState::Restarting, Command::ReportFailureAndRestart(ConnectFailure::Session))
                }
            },
            (LifecycleState::Operating, LifecycleEvent::WorkTaskEnded { ok: _ }) => {
                (LifecycleState::Restarting, Command::Restart)
            },
            _ => (self.state, Command::Nothing),
        };
        self.state = next;
        cmd
    }

    /// Feeds the cold-boot event built from the loaded settings and the
    /// button's level, and returns what to do next.
    pub fn cold_boot(&mut self, settings: &Settings, button_held: bool) -> (r: Command)
        requires
            old(self).state == LifecycleState::ColdBoot,
        ensures
            (final(self).state, r) == spec_step(
                LifecycleState::ColdBoot,
                (LifecycleEvent::SettingsLoaded { settings_complete: settings.spec_is_complete(), button_held }),
            ),
            !settings.spec_is_complete() ==> final(self).state == LifecycleState::Provisioning,
            settings.spec_is_complete() && !button_held ==> final(self).state
                == (LifecycleState::Connecting { wifi_associated: false }),
    {
        let complete = settings.is_complete();
        self.step(LifecycleEvent::SettingsLoaded { settings_complete: complete, button_held })
    }
}

/// Settings missing any of the WiFi name, the passphrase or the server address
/// always send a cold boot to provisioning, whatever the button's level.
pub proof fn lemma_incomplete_settings_provision(settings: &Settings, button_held: bool)
    requires
        settings.ssid@.len() == 0 || settings.pass@.len() == 0 || settings.server_url@.len() == 0,
    ensures
        spec_step(
            LifecycleState::ColdBoot,
            (LifecycleEvent::SettingsLoaded { settings_complete: settings.spec_is_complete(), button_held }),
        ).0 == LifecycleState::Provisioning,
{
}

/// Complete settings with the button released send a cold boot to connecting.
pub proof fn lemma_complete_settings_connect(settings: &Settings)
    requires
        settings.spec_is_complete(),
    ensures
        spec_step(
            LifecycleState::ColdBoot,
            (LifecycleEvent::SettingsLoaded {
                settings_complete: settings.spec_is_complete(),
                button_held: false,
            }),
        ).0 == (LifecycleState::Connecting { wifi_associated: false }),
{
}

/// Once the work task ends, in success or in error, the controller is
/// restarting, and no later event leads it anywhere else.
pub proof fn lemma_restart_on_exit(ok: bool, later: Seq<LifecycleEvent>)
    ensures
        spec_step(LifecycleState::Operating, (LifecycleEvent::WorkTaskEnded { ok })).0
            == LifecycleState::Restarting,
        spec_run(LifecycleState::Restarting, later) == LifecycleState::Restarting,
    decreases later.len(),
{
    if later.len() > 0 {
        lemma_restart_on_exit(ok, later.drop_first());
    }
}


/// The address of the setup page shown during provisioning.
pub const SETUP_URL: &'static str = "https://echokit.dev/setup/";

/// The two lines of the status screen: a short state line and instructions.
pub struct Screen {
    pub state: String,
    pub text: String,
}

/// The status screen shown when the runtime carries out `cmd`; `endpoint` is
/// the session target, named when the session fails.
pub open spec fn screen_model(cmd: Command, endpoint: Seq<char>) -> Option<(Seq<char>, Seq<char>)> {
    match cmd {
        Command::StartProvisioning => Some(
            (
                "Please setup device by bt"@,
                "Goto https://echokit.dev/setup/ to set up the device.\nPress K0 to continue"@,
            ),
        ),
        Command::AssociateWifi => Some(("Connecting to wifi..."@, Seq::empty())),
        Command::EstablishSession => Some(("Connecting to server..."@, Seq::empty())),
        Command::ReportFailureAndRestart(ConnectFailure::Wifi) => Some(
            ("Failed to connect to wifi"@, "Press K0 to restart"@),
        ),
        Command::ReportFailureAndRestart(ConnectFailure::Session) => Some(
            ("Failed to connect to server"@, "Please check your server URL: "@ + endpoint),
        ),
        _ => None,
    }
}

fn screen(state: &str, text: String) -> (r: Screen)
    ensures
        r.state@ == state@,
        r.text@ == text@,
{
    Screen { state: String::from_str(state), text }
}

/// The status screen for `cmd`, if it has one.
pub fn screen_for(cmd: Command, endpoint: &str) -> (r: Option<Screen>)
    ensures
        match (r, screen_model(cmd, endpoint@)) {
            (Some(sc), Some(m)) => sc.state@ == m.0 && sc.text@ == m.1,
            (None, None) => true,
            _ => false,
        },
{
    match cmd {
        Command::StartProvisioning => Some(
            screen(
                "Please setup device by bt",
                String::from_str(
                    "Goto https://echokit.dev/setup/ to set up the device.\nPress K0 to continue",
                ),
            ),
        ),
        Command::AssociateWifi => Some(screen("Connecting to wifi...", String::new())),
        Command::EstablishSession => Some(screen("Connecting to server...", String::new())),
        Command::ReportFailureAndRestart(ConnectFailure::Wifi) => Some(
            screen("Failed to connect to wifi", String::from_str("Press K0 to restart")),
        ),
        Command::ReportFailureAndRestart(ConnectFailure::Session) => {
            let mut text = String::from_str("Please check your server URL: ");
            text.append(endpoint);
            Some(screen("Failed to connect to server", text))
        },
        _ => None,
    }
}

} // verus!
