//! The start-up sequence of the firmware as a state machine: each event that
//! the surrounding task observes (buttons read, settings loaded, join and
//! access point progress, the address obtained) moves the controller to its
//! next phase and yields the commands that the task carries out, in order.

use vstd::prelude::*;

use crate::input::ButtonState;
use crate::main_logic::{
    ap_password, detect_after_reset_actions, factory_reset_result_message,
    factory_reset_started_message, invitation_message, on_ap_status, on_join_status,
    password_from_random, reboot_message, use_ap_mode, AfterResetActions, ApStatus, JoinReaction,
    JoiningStatus,
};
use crate::screens::{ipv4_text, ScMessageData, ScWifiApData, ScWifiStatsData, ScvState};

verus! {

/// Seconds shown on the screen before the device restarts.
pub const REBOOT_DELAY_S: u64 = 2;

/// Seconds the outcome of a factory reset stays on the screen.
pub const FACTORY_RESET_DELAY_S: u64 = 3;

/// Seconds waited after joining a network.
pub const JOINED_DELAY_S: u64 = 5;

/// Seconds waited after the access point was served.
pub const ACCESS_POINT_DELAY_S: u64 = 3;

/// A screen that the start-up sequence shows.
#[derive(Debug, Clone, PartialEq)]
pub enum ScreenRequest {
    WifiStats(ScWifiStatsData),
    WifiAp(ScWifiApData),
    Message(ScMessageData),
}

/// A command that the start-up task carries out.
#[derive(Debug, Clone, PartialEq)]
pub enum StartupCommand {
    /// Switch the display to the screen.
    Show(ScreenRequest),
    /// Wait so many seconds.
    WaitSeconds(u64),
    /// Restore the factory settings and report the outcome.
    RunFactoryReset,
    /// Drop the button events queued so far.
    FlushButtons,
    /// Join the configured network and report its progress.
    JoinNetwork,
    /// Store whether the access point is opened after the next restart, and
    /// save the settings.
    StoreFallbackAp(bool),
    /// Restart the device.
    Reboot,
    /// Open the access point with these credentials and report its progress.
    StartAccessPoint { ssid: String, password: String },
    /// Start the configuration web server.
    StartConfigServer,
}

/// The settings that the start-up sequence reads.
#[derive(Debug, Clone, PartialEq)]
pub struct StartupSettings {
    pub wifi_ssid: String,
    pub fallback_ap: bool,
    pub ap_ssid: String,
    pub ap_password: Option<String>,
}

/// What the start-up task observed.
#[derive(Debug, Clone, PartialEq)]
pub enum StartupEvent {
    /// The states of the yellow and blue buttons held during reset.
    ButtonsRead { yellow: ButtonState, blue: ButtonState },
    /// The factory reset finished.
    FactoryResetFinished { succeeded: bool },
    /// The settings were read; the random words select a password in case
    /// the access point has none configured.
    SettingsLoaded { settings: StartupSettings, random_words: [u32; 8] },
    /// A step of joining the network.
    Join(JoiningStatus),
    /// Joining the network returned.
    JoinFinished,
    /// A step of the access point.
    AccessPoint(ApStatus),
    /// The access point returned.
    AccessPointFinished,
    /// The IPv4 address of the device, if it has one.
    Address(Option<u32>),
}

/// The phase of the start-up sequence: which event it waits for.
#[derive(Debug, Clone, Copy, PartialEq, Eq, Structural)]
pub enum StartupPhase {
    CheckingButtons,
    FactoryResetting,
    LoadingSettings,
    JoiningNetwork,
    RunningAccessPoint,
    AwaitingAddress,
    Serving,
    Rebooting,
}

/// The state of the start-up sequence.
#[derive(Debug, Clone, PartialEq)]
pub struct StartupController {
    pub phase: StartupPhase,
    /// The yellow button asked for the access point.
    pub force_ap_mode: bool,
    /// The settings asked for the access point after a failed join.
    pub fallback_ap: bool,
    /// The network was joined.
    pub network_ready: bool,
    /// The network to join.
    pub wifi_ssid: String,
    /// The access point to open.
    pub ap_ssid: String,
    /// The password of the access point once chosen.
    pub ap_password: String,
}

/// The commands that show the message and restart the device.
pub open spec fn is_reboot_sequence(cmds: Seq<StartupCommand>) -> bool {
    &&& cmds.len() == 3
    &&& cmds[0] matches StartupCommand::Show(ScreenRequest::Message(m)) && m.title@
        == "Rebooting"@ && m.message@ == "The device is rebooting..."@
    &&& cmds[1] == StartupCommand::WaitSeconds(REBOOT_DELAY_S)
    &&& cmds[2] == StartupCommand::Reboot
}

/// The commands that open the access point named `ssid` with `password`,
/// clearing the remembered fallback first if it was set.
pub open spec fn is_ap_start(
    cmds: Seq<StartupCommand>,
    fallback_ap: bool,
    ssid: Seq<char>,
    password: Seq<char>,
) -> bool {
    let start = if fallback_ap { 1int } else { 0int };
    &&& cmds.len() == start + 1
    &&& fallback_ap ==> cmds[0] == StartupCommand::StoreFallbackAp(false)
    &&& cmds[start] matches StartupCommand::StartAccessPoint { ssid: s, password: p } && s@ == ssid
        && p@ == password
}

/// The password of the access point: the configured one, else the one that
/// the random words select.
pub open spec fn chosen_password(configured: Option<String>, random_words: [u32; 8]) -> Seq<char> {
    match configured {
        Some(p) => p@,
        None => Seq::new(8, |i: int| crate::main_logic::password_char_of(random_words@[i])),
    }
}

/// The action that the buttons held during reset ask for.
pub open spec fn after_reset_action(yellow: ButtonState, blue: ButtonState) -> AfterResetActions {
    if yellow == ButtonState::Pressed && blue == ButtonState::Pressed {
        AfterResetActions::FactoryReset
    } else if yellow == ButtonState::Pressed {
        AfterResetActions::ApMode
    } else {
        AfterResetActions::Nothing
    }
}

/// The access point is opened when no network is configured, when the
/// settings remember a failed join, or when the buttons asked for it.
pub open spec fn wants_access_point(settings: StartupSettings, force_ap_mode: bool) -> bool {
    settings.wifi_ssid@.len() == 0 || settings.fallback_ap || force_ap_mode
}

/// The controller in phase `phase`, otherwise as `c`.
pub open spec fn in_phase(c: StartupController, phase: StartupPhase) -> StartupController {
    StartupController { phase, ..c }
}

/// What a step of the start-up sequence does: `old` and `event` lead to
/// `new` and the commands `cmds`. An event that the phase does not wait for
/// changes nothing and asks for nothing.
pub open spec fn step_post(
    old: StartupController,
    event: StartupEvent,
    new: StartupController,
    cmds: Seq<StartupCommand>,
) -> bool {
    match event {
        StartupEvent::ButtonsRead { yellow, blue } => if old.phase == StartupPhase::CheckingButtons {
            match after_reset_action(yellow, blue) {
                AfterResetActions::FactoryReset => {
                    &&& new == in_phase(old, StartupPhase::FactoryResetting)
                    &&& cmds.len() == 2
                    &&& cmds[0] matches StartupCommand::Show(ScreenRequest::Message(m)) && m.title@
                        == "Factory Reset"@ && m.message@ == "Performing factory reset..."@
                    &&& cmds[1] == StartupCommand::RunFactoryReset
                },
                AfterResetActions::ApMode => {
                    &&& new == StartupController {
                        phase: StartupPhase::LoadingSettings,
                        force_ap_mode: true,
                        ..old
                    }
                    &&& cmds.len() == 0
                },
                AfterResetActions::Nothing => {
                    &&& new == in_phase(old, StartupPhase::LoadingSettings)
                    &&& cmds.len() == 0
                },
            }
        } else {
            new == old && cmds.len() == 0
        },
        StartupEvent::FactoryResetFinished { succeeded } => if old.phase
            == StartupPhase::FactoryResetting {
            &&& new == in_phase(old, StartupPhase::LoadingSettings)
            &&& cmds.len() == 2
            &&& cmds[0] matches StartupCommand::Show(ScreenRequest::Message(m)) && (if succeeded {
                m.title@ == "INFO"@ && m.message@ == "Factory reset completed successfully."@
            } else {
                m.title@ == "ERROR"@ && m.message@ == "Factory reset failed."@
            })
            &&& cmds[1] == StartupCommand::WaitSeconds(FACTORY_RESET_DELAY_S)
        } else {
            new == old && cmds.len() == 0
        },
        StartupEvent::SettingsLoaded { settings, random_words } => if old.phase
            == StartupPhase::LoadingSettings {
            &&& new.force_ap_mode == old.force_ap_mode
            &&& !new.fallback_ap
            &&& new.network_ready == old.network_ready
            &&& new.wifi_ssid@ == settings.wifi_ssid@
            &&& new.ap_ssid@ == settings.ap_ssid@
            &&& new.ap_password@ == chosen_password(settings.ap_password, random_words)
            &&& cmds.len() >= 1
            &&& cmds[0] == StartupCommand::FlushButtons
            &&& if wants_access_point(settings, old.force_ap_mode) {
                &&& new.phase == StartupPhase::RunningAccessPoint
                &&& is_ap_start(cmds.skip(1), settings.fallback_ap, new.ap_ssid@, new.ap_password@)
            } else {
                &&& new.phase == StartupPhase::JoiningNetwork
                &&& cmds.len() == 2
                &&& cmds[1] == StartupCommand::JoinNetwork
            }
        } else {
            new == old && cmds.len() == 0
        },
        StartupEvent::Join(status) => if old.phase == StartupPhase::JoiningNetwork {
            match status {
                JoiningStatus::Failed => {
                    &&& new == StartupController {
                        phase: StartupPhase::Rebooting,
                        fallback_ap: true,
                        ..old
                    }
                    &&& cmds.len() == 6
                    &&& cmds[0] matches StartupCommand::Show(ScreenRequest::Message(m)) && m.title@
                        == "ERROR"@ && m.message@ == "Failed to join WiFi network. Starting AP..."@
                    &&& cmds[1] == StartupCommand::WaitSeconds(REBOOT_DELAY_S)
                    &&& cmds[2] == StartupCommand::StoreFallbackAp(true)
                    &&& is_reboot_sequence(cmds.skip(3))
                },
                _ => {
                    &&& new == StartupController {
                        network_ready: old.network_ready || status == JoiningStatus::Ready,
                        ..old
                    }
                    &&& cmds.len() == 1
                    &&& cmds[0] matches StartupCommand::Show(ScreenRequest::WifiStats(d)) && d.state()
                        == (match status {
                        JoiningStatus::JoiningAP => ScvState::Connecting,
                        JoiningStatus::ObtainingIP => ScvState::Dhcp,
                        _ => ScvState::Connected,
                    }) && (d.network_name() matches Some(n) && n@ == old.wifi_ssid@)
                },
            }
        } else {
            new == old && cmds.len() == 0
        },
        StartupEvent::JoinFinished => if old.phase == StartupPhase::JoiningNetwork {
            &&& cmds.len() >= 1
            &&& cmds[0] == StartupCommand::WaitSeconds(JOINED_DELAY_S)
            &&& if old.network_ready {
                new == in_phase(old, StartupPhase::AwaitingAddress) && cmds.len() == 1
            } else {
                &&& new == StartupController {
                    phase: StartupPhase::RunningAccessPoint,
                    fallback_ap: false,
                    ..old
                }
                &&& is_ap_start(cmds.skip(1), old.fallback_ap, old.ap_ssid@, old.ap_password@)
            }
        } else {
            new == old && cmds.len() == 0
        },
        StartupEvent::AccessPoint(status) => if old.phase == StartupPhase::RunningAccessPoint {
            &&& new == old
            &&& cmds.len() == 1
            &&& cmds[0] matches StartupCommand::Show(ScreenRequest::WifiAp(d)) && match status {
                ApStatus::StartingAP => d == ScWifiApData::NotReady,
                ApStatus::WaitingForClient => d matches ScWifiApData::WaitingForClient(c) && c.ssid@
                    == old.ap_ssid@ && c.password@ == old.ap_password@,
                ApStatus::Ready(ip, mac) => d == ScWifiApData::Connected(
                    crate::screens::ScvClientInfo { ip, mac: Some(mac) },
                ),
            }
        } else {
            new == old && cmds.len() == 0
        },
        StartupEvent::AccessPointFinished => if old.phase == StartupPhase::RunningAccessPoint {
            &&& new == in_phase(old, StartupPhase::AwaitingAddress)
            &&& cmds == seq![StartupCommand::WaitSeconds(ACCESS_POINT_DELAY_S)]
        } else {
            new == old && cmds.len() == 0
        },
        StartupEvent::Address(address) => if old.phase == StartupPhase::AwaitingAddress {
            &&& new == in_phase(old, StartupPhase::Serving)
            &&& match address {
                Some(ip) => {
                    &&& cmds.len() == 2
                    &&& cmds[0] matches StartupCommand::Show(ScreenRequest::Message(m)) && m.title@
                        == "Visit http://"@ && m.message@ == ipv4_text(ip) + " on your device."@
                    &&& cmds[1] == StartupCommand::StartConfigServer
                },
                None => cmds.len() == 0,
            }
        } else {
            new == old && cmds.len() == 0
        },
    }
}

/// Appends the commands that show the restart message and restart.
fn push_reboot(cmds: &mut Vec<StartupCommand>)
    ensures
        final(cmds)@.len() == old(cmds)@.len() + 3,
        forall|i: int| 0 <= i < old(cmds)@.len() ==> final(cmds)@[i] == old(cmds)@[i],
        is_reboot_sequence(final(cmds)@.skip(old(cmds)@.len() as int)),
{
    cmds.push(StartupCommand::Show(ScreenRequest::Message(reboot_message())));
    cmds.push(StartupCommand::WaitSeconds(REBOOT_DELAY_S));
    cmds.push(StartupCommand::Reboot);
}

/// Appends the commands that open the access point, clearing the remembered
/// fallback first if it was set.
fn push_ap_start(cmds: &mut Vec<StartupCommand>, fallback_ap: bool, ssid: &String, password: &String)
    ensures
        final(cmds)@.len() > old(cmds)@.len(),
        forall|i: int| 0 <= i < old(cmds)@.len() ==> final(cmds)@[i] == old(cmds)@[i],
        is_ap_start(final(cmds)@.skip(old(cmds)@.len() as int), fallback_ap, ssid@, password@),
{
    if fallback_ap {
        cmds.push(StartupCommand::StoreFallbackAp(false));
    }
    cmds.push(StartupCommand::StartAccessPoint { ssid: ssid.clone(), password: password.clone() });
}

impl StartupController {
    /// The controller at power-on: it waits for the buttons.
    pub fn new() -> (r: Self)
        ensures
            r.phase == StartupPhase::CheckingButtons,
            !r.force_ap_mode,
            !r.fallback_ap,
            !r.network_ready,
            r.wifi_ssid@.len() == 0,
            r.ap_ssid@.len() == 0,
            r.ap_password@.len() == 0,
    {
        StartupController {
            phase: StartupPhase::CheckingButtons,
            force_ap_mode: false,
            fallback_ap: false,
            network_ready: false,
            wifi_ssid: String::new(),
            ap_ssid: String::new(),
            ap_password: String::new(),
        }
    }

    fn on_buttons(&mut self, yellow: ButtonState, blue: ButtonState) -> (cmds: Vec<StartupCommand>)
        requires
            old(self).phase == StartupPhase::CheckingButtons,
        ensures
            step_post(*old(self), StartupEvent::ButtonsRead { yellow, blue }, *final(self), cmds@),
    {
        let mut cmds = Vec::new();
        match detect_after_reset_actions(yellow, blue) {
            AfterResetActions::FactoryReset => {
                self.phase = StartupPhase::FactoryResetting;
                cmds.push(StartupCommand::Show(ScreenRequest::Message(factory_reset_started_message())));
                cmds.push(StartupCommand::RunFactoryReset);
            },
            AfterResetActions::ApMode => {
                self.phase = StartupPhase::LoadingSettings;
                self.force_ap_mode = true;
            },
            AfterResetActions::Nothing => {
                self.phase = StartupPhase::LoadingSettings;
            },
        }
        cmds
    }

    fn on_factory_reset_finished(&mut self, succeeded: bool) -> (cmds: Vec<StartupCommand>)
        requires
            old(self).phase == StartupPhase::FactoryResetting,
        ensures
            step_post(*old(self), StartupEvent::FactoryResetFinished { succeeded }, *final(self), cmds@),
    {
        self.phase = StartupPhase::LoadingSettings;
        let mut cmds = Vec::new();
        cmds.push(StartupCommand::Show(ScreenRequest::Message(factory_reset_result_message(succeeded))));
        cmds.push(StartupCommand::WaitSeconds(FACTORY_RESET_DELAY_S));
        cmds
    }

    fn on_settings_loaded(&mut self, settings: StartupSettings, random_words: [u32; 8]) -> (cmds: Vec<
        StartupCommand,
    >)
        requires
            old(self).phase == StartupPhase::LoadingSettings,
        ensures
            step_post(
                *old(self),
                StartupEvent::SettingsLoaded { settings, random_words },
                *final(self),
                cmds@,
            ),
    {
        let use_ap = use_ap_mode(&settings.wifi_ssid, settings.fallback_ap, self.force_ap_mode);
        let generated = password_from_random(&random_words);
        let password = ap_password(&settings.ap_password, generated);
        assert(password@ =~= chosen_password(settings.ap_password, random_words));
        let ghost fallback = settings.fallback_ap;
        self.fallback_ap = false;
        self.wifi_ssid = settings.wifi_ssid;
        self.ap_ssid = settings.ap_ssid;
        self.ap_password = password;
        let mut cmds = Vec::new();
        cmds.push(StartupCommand::FlushButtons);
        if use_ap {
            self.phase = StartupPhase::RunningAccessPoint;
            push_ap_start(&mut cmds, settings.fallback_ap, &self.ap_ssid, &self.ap_password);
        } else {
            self.phase = StartupPhase::JoiningNetwork;
            cmds.push(StartupCommand::JoinNetwork);
        }
        cmds
    }

    fn on_join(&mut self, status: JoiningStatus) -> (cmds: Vec<StartupCommand>)
        requires
            old(self).phase == StartupPhase::JoiningNetwork,
        ensures
            step_post(*old(self), StartupEvent::Join(status), *final(self), cmds@),
    {
        let mut cmds = Vec::new();
        match on_join_status(status, &self.wifi_ssid) {
            JoinReaction::Show(d) => {
                cmds.push(StartupCommand::Show(ScreenRequest::WifiStats(d)));
            },
            JoinReaction::Ready(d) => {
                self.network_ready = true;
                cmds.push(StartupCommand::Show(ScreenRequest::WifiStats(d)));
            },
            JoinReaction::FallBackToAp(m) => {
                self.phase = StartupPhase::Rebooting;
                self.fallback_ap = true;
                cmds.push(StartupCommand::Show(ScreenRequest::Message(m)));
                cmds.push(StartupCommand::WaitSeconds(REBOOT_DELAY_S));
                cmds.push(StartupCommand::StoreFallbackAp(true));
                push_reboot(&mut cmds);
            },
        }
        cmds
    }

    fn on_join_finished(&mut self) -> (cmds: Vec<StartupCommand>)
        requires
            old(self).phase == StartupPhase::JoiningNetwork,
        ensures
            step_post(*old(self), StartupEvent::JoinFinished, *final(self), cmds@),
    {
        let mut cmds = Vec::new();
        cmds.push(StartupCommand::WaitSeconds(JOINED_DELAY_S));
        if self.network_ready {
            self.phase = StartupPhase::AwaitingAddress;
        } else {
            let fallback = self.fallback_ap;
            self.phase = StartupPhase::RunningAccessPoint;
            self.fallback_ap = false;
            push_ap_start(&mut cmds, fallback, &self.ap_ssid, &self.ap_password);
        }
        cmds
    }

    fn on_access_point(&mut self, status: ApStatus) -> (cmds: Vec<StartupCommand>)
        requires
            old(self).phase == StartupPhase::RunningAccessPoint,
        ensures
            step_post(*old(self), StartupEvent::AccessPoint(status), *final(self), cmds@),
    {
        let password = Some(self.ap_password.clone());
        let d = on_ap_status(status, &self.ap_ssid, &password);
        let mut cmds = Vec::new();
        cmds.push(StartupCommand::Show(ScreenRequest::WifiAp(d)));
        cmds
    }

    fn on_address(&mut self, address: Option<u32>) -> (cmds: Vec<StartupCommand>)
        requires
            old(self).phase == StartupPhase::AwaitingAddress,
        ensures
            step_post(*old(self), StartupEvent::Address(address), *final(self), cmds@),
    {
        self.phase = StartupPhase::Serving;
        let mut cmds = Vec::new();
        if let Some(ip) = address {
            cmds.push(StartupCommand::Show(ScreenRequest::Message(invitation_message(ip))));
            cmds.push(StartupCommand::StartConfigServer);
        }
        cmds
    }

    /// Takes one event of the start-up sequence: moves to the next phase and
    /// returns the commands to carry out, in order.
    pub fn step(&mut self, event: StartupEvent) -> (cmds: Vec<StartupCommand>)
        ensures
            step_post(*old(self), event, *final(self), cmds@),
    {
        match event {
            StartupEvent::ButtonsRead { yellow, blue } => {
                if self.phase == StartupPhase::CheckingButtons {
                    return self.on_buttons(yellow, blue);
                }
            },
            StartupEvent::FactoryResetFinished { succeeded } => {
                if self.phase == StartupPhase::FactoryResetting {
                    return self.on_factory_reset_finished(succeeded);
                }
            },
            StartupEvent::SettingsLoaded { settings, random_words } => {
                if self.phase == StartupPhase::LoadingSettings {
                    return self.on_settings_loaded(settings, random_words);
                }
            },
            StartupEvent::Join(status) => {
                if self.phase == StartupPhase::JoiningNetwork {
                    return self.on_join(status);
                }
            },
            StartupEvent::JoinFinished => {
                if self.phase == StartupPhase::JoiningNetwork {
                    return self.on_join_finished();
                }
            },
            StartupEvent::AccessPoint(status) => {
                if self.phase == StartupPhase::RunningAccessPoint {
                    return self.on_access_point(status);
                }
            },
            StartupEvent::AccessPointFinished => {
                if self.phase == StartupPhase::RunningAccessPoint {
                    self.phase = StartupPhase::AwaitingAddress;
                    let mut cmds = Vec::new();
                    cmds.push(StartupCommand::WaitSeconds(ACCESS_POINT_DELAY_S));
                    return cmds;
                }
            },
            StartupEvent::Address(address) => {
                if self.phase == StartupPhase::AwaitingAddress {
                    return self.on_address(address);
                }
            },
        }
        Vec::new()
    }
}

/// A failed join stores the fallback and restarts; on the next start,
/// settings that remember the fallback open the access point, whatever
/// network is configured, and clear the fallback first.
pub proof fn lemma_failed_join_falls_back_to_access_point(
    joining: StartupController,
    rebooting: StartupController,
    failed_cmds: Seq<StartupCommand>,
    loading: StartupController,
    settings: StartupSettings,
    random_words: [u32; 8],
    next: StartupController,
    start_cmds: Seq<StartupCommand>,
)
    requires
        joining.phase == StartupPhase::JoiningNetwork,
        step_post(joining, StartupEvent::Join(JoiningStatus::Failed), rebooting, failed_cmds),
        loading.phase == StartupPhase::LoadingSettings,
        settings.fallback_ap == rebooting.fallback_ap,
        step_post(loading, StartupEvent::SettingsLoaded { settings, random_words }, next, start_cmds),
    ensures
        rebooting.phase == StartupPhase::Rebooting,
        failed_cmds.contains(StartupCommand::StoreFallbackAp(true)),
        failed_cmds.last() == StartupCommand::Reboot,
        next.phase == StartupPhase::RunningAccessPoint,
        start_cmds[1] == StartupCommand::StoreFallbackAp(false),
        start_cmds[2] matches StartupCommand::StartAccessPoint { ssid, .. } && ssid@ == settings.ap_ssid@,
        !next.fallback_ap,
{
    assert(failed_cmds[2] == StartupCommand::StoreFallbackAp(true));
    assert(failed_cmds.skip(3)[2] == failed_cmds[5]);
    assert(start_cmds.skip(1)[0] == start_cmds[1]);
    assert(start_cmds.skip(1)[1] == start_cmds[2]);
}

/// A generated access point password has eight characters, each a digit
/// from 1 to 9 or a capital letter.
pub proof fn lemma_generated_password_alphabet(random_words: [u32; 8])
    ensures
        chosen_password(None, random_words).len() == 8,
        forall|i: int|
            0 <= i < 8 ==> crate::main_logic::is_password_char(
                #[trigger] chosen_password(None, random_words)[i],
            ),
{
}

} // verus!
