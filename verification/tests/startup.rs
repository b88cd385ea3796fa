use lead_barry::input::ButtonState;
use lead_barry::main_logic::{ApStatus, JoiningStatus};
use lead_barry::screens::{ScWifiApData, ScvClientInfo, ScvState};
use lead_barry::startup::{
    ScreenRequest, StartupCommand, StartupController, StartupEvent, StartupPhase, StartupSettings,
};

fn settings(ssid: &str, fallback_ap: bool, ap_password: Option<&str>) -> StartupSettings {
    StartupSettings {
        wifi_ssid: ssid.to_string(),
        fallback_ap,
        ap_ssid: "LeadBarry".to_string(),
        ap_password: ap_password.map(|p| p.to_string()),
    }
}

fn message_of(cmd: &StartupCommand) -> (String, String) {
    match cmd {
        StartupCommand::Show(ScreenRequest::Message(m)) => (m.title.clone(), m.message.clone()),
        other => panic!("not a message: {:?}", other),
    }
}

#[test]
fn joining_a_configured_network() {
    let mut c = StartupController::new();
    let cmds = c.step(StartupEvent::ButtonsRead {
        yellow: ButtonState::Released,
        blue: ButtonState::Released,
    });
    assert!(cmds.is_empty());
    assert_eq!(c.phase, StartupPhase::LoadingSettings);

    let cmds = c.step(StartupEvent::SettingsLoaded {
        settings: settings("home", false, None),
        random_words: [0; 8],
    });
    assert_eq!(cmds, vec![StartupCommand::FlushButtons, StartupCommand::JoinNetwork]);
    assert_eq!(c.phase, StartupPhase::JoiningNetwork);

    let cmds = c.step(StartupEvent::Join(JoiningStatus::JoiningAP));
    match &cmds[..] {
        [StartupCommand::Show(ScreenRequest::WifiStats(d))] => {
            assert_eq!(d.status(), "Connecting to:");
            assert_eq!(d.detail(), Some("home".to_string()));
        }
        other => panic!("{:?}", other),
    }
    let cmds = c.step(StartupEvent::Join(JoiningStatus::Ready));
    match &cmds[..] {
        [StartupCommand::Show(ScreenRequest::WifiStats(d))] => {
            assert_eq!(d.status(), "Connected to:")
        }
        other => panic!("{:?}", other),
    }
    assert!(c.network_ready);
    let cmds = c.step(StartupEvent::JoinFinished);
    assert_eq!(cmds, vec![StartupCommand::WaitSeconds(5)]);
    assert_eq!(c.phase, StartupPhase::AwaitingAddress);

    let cmds = c.step(StartupEvent::Address(Some(0xC0A8_0A02)));
    assert_eq!(cmds.len(), 2);
    assert_eq!(
        message_of(&cmds[0]),
        ("Visit http://".to_string(), "192.168.10.2 on your device.".to_string())
    );
    assert_eq!(cmds[1], StartupCommand::StartConfigServer);
    assert_eq!(c.phase, StartupPhase::Serving);
}

#[test]
fn failed_join_remembers_fallback_and_reboots() {
    let mut c = StartupController::new();
    c.step(StartupEvent::ButtonsRead { yellow: ButtonState::Released, blue: ButtonState::Released });
    c.step(StartupEvent::SettingsLoaded { settings: settings("home", false, None), random_words: [0; 8] });
    let cmds = c.step(StartupEvent::Join(JoiningStatus::Failed));
    assert_eq!(cmds.len(), 6);
    assert_eq!(
        message_of(&cmds[0]),
        ("ERROR".to_string(), "Failed to join WiFi network. Starting AP...".to_string())
    );
    assert_eq!(cmds[1], StartupCommand::WaitSeconds(2));
    assert_eq!(cmds[2], StartupCommand::StoreFallbackAp(true));
    assert_eq!(message_of(&cmds[3]), ("Rebooting".to_string(), "The device is rebooting...".to_string()));
    assert_eq!(cmds[4], StartupCommand::WaitSeconds(2));
    assert_eq!(cmds[5], StartupCommand::Reboot);
    assert_eq!(c.phase, StartupPhase::Rebooting);
    // nothing is waited for any more
    assert!(c.step(StartupEvent::JoinFinished).is_empty());
}

#[test]
fn fallback_opens_access_point_and_clears_it() {
    let mut c = StartupController::new();
    c.step(StartupEvent::ButtonsRead { yellow: ButtonState::Released, blue: ButtonState::Released });
    let cmds = c.step(StartupEvent::SettingsLoaded {
        settings: settings("home", true, Some("secret12")),
        random_words: [0; 8],
    });
    assert_eq!(
        cmds,
        vec![
            StartupCommand::FlushButtons,
            StartupCommand::StoreFallbackAp(false),
            StartupCommand::StartAccessPoint {
                ssid: "LeadBarry".to_string(),
                password: "secret12".to_string()
            },
        ]
    );
    assert_eq!(c.phase, StartupPhase::RunningAccessPoint);

    let cmds = c.step(StartupEvent::AccessPoint(ApStatus::WaitingForClient));
    match &cmds[..] {
        [StartupCommand::Show(ScreenRequest::WifiAp(d))] => {
            assert_eq!(d.status(), "SSID: LeadBarry");
            assert_eq!(d.detail(), Some("Psw: secret12".to_string()));
        }
        other => panic!("{:?}", other),
    }
    let cmds = c.step(StartupEvent::AccessPoint(ApStatus::Ready(0xC0A8_0102, [1, 2, 3, 4, 5, 0xAB])));
    assert_eq!(
        cmds,
        vec![StartupCommand::Show(ScreenRequest::WifiAp(ScWifiApData::Connected(ScvClientInfo {
            ip: 0xC0A8_0102,
            mac: Some([1, 2, 3, 4, 5, 0xAB]),
        })))]
    );
    let cmds = c.step(StartupEvent::AccessPointFinished);
    assert_eq!(cmds, vec![StartupCommand::WaitSeconds(3)]);
    assert!(c.step(StartupEvent::Address(None)).is_empty());
    assert_eq!(c.phase, StartupPhase::Serving);
}

#[test]
fn yellow_button_forces_access_point_with_generated_password() {
    let mut c = StartupController::new();
    assert!(c
        .step(StartupEvent::ButtonsRead { yellow: ButtonState::Pressed, blue: ButtonState::Released })
        .is_empty());
    assert!(c.force_ap_mode);
    let cmds = c.step(StartupEvent::SettingsLoaded {
        settings: settings("home", false, None),
        random_words: [0, 8, 9, 34, 35, 44, 1, 70],
    });
    assert_eq!(
        cmds,
        vec![
            StartupCommand::FlushButtons,
            StartupCommand::StartAccessPoint {
                ssid: "LeadBarry".to_string(),
                password: "19AZ1A21".to_string()
            },
        ]
    );
}

#[test]
fn both_buttons_run_a_factory_reset() {
    let mut c = StartupController::new();
    let cmds = c.step(StartupEvent::ButtonsRead { yellow: ButtonState::Pressed, blue: ButtonState::Pressed });
    assert_eq!(cmds.len(), 2);
    assert_eq!(
        message_of(&cmds[0]),
        ("Factory Reset".to_string(), "Performing factory reset...".to_string())
    );
    assert_eq!(cmds[1], StartupCommand::RunFactoryReset);
    let cmds = c.step(StartupEvent::FactoryResetFinished { succeeded: false });
    assert_eq!(message_of(&cmds[0]), ("ERROR".to_string(), "Factory reset failed.".to_string()));
    assert_eq!(cmds[1], StartupCommand::WaitSeconds(3));
    assert_eq!(c.phase, StartupPhase::LoadingSettings);
    assert!(!c.force_ap_mode);
}

#[test]
fn unexpected_events_change_nothing() {
    let mut c = StartupController::new();
    let before = c.clone();
    assert!(c.step(StartupEvent::JoinFinished).is_empty());
    assert!(c.step(StartupEvent::Address(Some(1))).is_empty());
    assert!(c.step(StartupEvent::AccessPoint(ApStatus::StartingAP)).is_empty());
    assert_eq!(c, before);
}

#[test]
fn empty_network_name_opens_access_point() {
    let mut c = StartupController::new();
    c.step(StartupEvent::ButtonsRead { yellow: ButtonState::Released, blue: ButtonState::Released });
    let cmds = c.step(StartupEvent::SettingsLoaded { settings: settings("", false, None), random_words: [1; 8] });
    assert_eq!(
        cmds[1],
        StartupCommand::StartAccessPoint { ssid: "LeadBarry".to_string(), password: "22222222".to_string() }
    );
    let cmds = c.step(StartupEvent::AccessPoint(ApStatus::StartingAP));
    assert_eq!(cmds, vec![StartupCommand::Show(ScreenRequest::WifiAp(ScWifiApData::NotReady))]);
    let _ = ScvState::Connected;
}
