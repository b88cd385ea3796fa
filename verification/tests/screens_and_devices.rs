use lead_barry::input::{ButtonState, Buttons};
use lead_barry::input::ButtonState::{Pressed, Released};
use lead_barry::led_controller::{
    plan_animation, Animator, DriverCommand, LedAction, LedAnimation, LedRunner, Repetitions,
};
use lead_barry::main_logic::{
    ap_password, detect_after_reset_actions, invitation_message, must_clear_fallback,
    on_ap_status, on_join_status, password_char, password_from_random, use_ap_mode,
    AfterResetActions, ApStatus, JoinReaction, JoiningStatus,
};
use lead_barry::screens::{
    format_ipv4, format_mac, ip_status_second_line, unit, BaseUnits, IpState, IpStatusScreen, ScMessageData, ScWifiApData,
    ScWifiStatsData, ScvClientInfo, ScvCredentials, ScvState,
};
use lead_barry::vcp_sensors::{
    channels_to_read, cycle_events, error_event_text, handle_command, CommandOutcome, VcpCommand,
    VcpError, VcpSensorsEvents,
};

#[test]
fn buttons_after_reset() {
    assert_eq!(detect_after_reset_actions(Pressed, Pressed), AfterResetActions::FactoryReset);
    assert_eq!(detect_after_reset_actions(Pressed, Released), AfterResetActions::ApMode);
    assert_eq!(detect_after_reset_actions(Released, Pressed), AfterResetActions::Nothing);
    assert_eq!(detect_after_reset_actions(Released, Released), AfterResetActions::Nothing);
    assert_ne!(Buttons::Yellow, Buttons::Blue);
}

#[test]
fn access_point_decision() {
    assert!(use_ap_mode(&String::new(), false, false));
    assert!(!use_ap_mode(&"home".to_string(), false, false));
    assert!(use_ap_mode(&"home".to_string(), true, false));
    assert!(use_ap_mode(&"home".to_string(), false, true));
    assert!(must_clear_fallback(false, true));
    assert!(!must_clear_fallback(true, true));
    assert!(!must_clear_fallback(false, false));
}

#[test]
fn generated_passwords() {
    assert_eq!(password_char(0), '1');
    assert_eq!(password_char(8), '9');
    assert_eq!(password_char(9), 'A');
    assert_eq!(password_char(34), 'Z');
    assert_eq!(password_char(35), '1');
    let p = password_from_random(&[u32::MAX, 7, 100, 200, 300, 400, 500, 600]);
    assert_eq!(p.len(), 8);
    assert!(p.chars().all(|c| ('1'..='9').contains(&c) || c.is_ascii_uppercase()));
    assert_eq!(ap_password(&Some("mine".to_string()), p.clone()), "mine");
    assert_eq!(ap_password(&None, p.clone()), p);
}

#[test]
fn join_status_screens() {
    let ssid = "home".to_string();
    match on_join_status(JoiningStatus::ObtainingIP, &ssid) {
        JoinReaction::Show(d) => {
            assert_eq!(d.status(), "Getting IP...");
            assert_eq!(d.title(), "WiFi Status");
            assert_eq!(d.detail(), Some("home".to_string()));
        }
        other => panic!("{:?}", other),
    }
    match on_join_status(JoiningStatus::Failed, &ssid) {
        JoinReaction::FallBackToAp(m) => assert_eq!(m.title, "ERROR"),
        other => panic!("{:?}", other),
    }
}

#[test]
fn access_point_screens() {
    let d = on_ap_status(ApStatus::WaitingForClient, &"LeadBarry".to_string(), &None);
    assert_eq!(
        d,
        ScWifiApData::WaitingForClient(ScvCredentials { ssid: "LeadBarry".to_string(), password: String::new() })
    );
    assert_eq!(d.title(), "WiFi AP Ready");
    assert_eq!(d.detail(), Some("Psw: ".to_string()));
    let c = ScWifiApData::Connected(ScvClientInfo { ip: 0xC0A8_0102, mac: Some([0, 0x1b, 0xFF, 10, 2, 3]) });
    assert_eq!(c.title(), "New Client");
    assert_eq!(c.status(), "IP: 192.168.1.2");
    assert_eq!(c.detail(), Some("00:1b:ff:0a:02:03".to_string()));
    let no_mac = ScWifiApData::Connected(ScvClientInfo { ip: 1, mac: None });
    assert_eq!(no_mac.detail(), None);
    assert_eq!(ScWifiApData::NotReady.status(), "Initializing...");
    assert_eq!(ScWifiApData::LinkUp.title(), "WiFi AP Init");
    assert_eq!(ScWifiApData::ConfigUp.status(), "AP Config Up...");
}

#[test]
fn text_screens() {
    let s = ScWifiStatsData::new(ScvState::Disconnected, None);
    assert_eq!(s.status(), "Disconnected");
    assert_eq!(s.detail(), None);
    let m = invitation_message(0x0A00_0001);
    assert_eq!(m.title(), "Visit http://");
    assert_eq!(m.message(), "10.0.0.1 on your device.");
    let msg = ScMessageData { title: "T".to_string(), message: "M".to_string() };
    assert_eq!(msg.title(), "T");
    assert_eq!(format_ipv4(0xFFFF_FFFF), "255.255.255.255");
    assert_eq!(format_ipv4(0), "0.0.0.0");
    assert_eq!(format_mac([0xAB; 6]), "ab:ab:ab:ab:ab:ab");
    assert_eq!(IpState::GettingIp.str(), "Getting IP...");
    assert_eq!(unit(&BaseUnits::Volts), "V");
}

#[test]
fn led_animation_plans() {
    assert_eq!(plan_animation(LedAnimation::On, 100), LedAction::On);
    assert_eq!(plan_animation(LedAnimation::Off, 100), LedAction::Off);
    assert_eq!(
        plan_animation(LedAnimation::Sine(2_000, Repetitions::Infinite), 100),
        LedAction::StartSine { samples: 200, infinite: true }
    );
    assert_eq!(
        plan_animation(LedAnimation::Sine(1_500, Repetitions::Finite(3)), 100),
        LedAction::StartSine { samples: 450, infinite: false }
    );
    assert_eq!(plan_animation(LedAnimation::Decay(1_000), 100), LedAction::StartDecay { samples: 101 });
    assert_eq!(plan_animation(LedAnimation::Alert, 100), LedAction::Stop);
    assert_eq!(plan_animation(LedAnimation::Blinks(10, Repetitions::Infinite), 100), LedAction::Stop);
}

#[test]
fn led_runner() {
    let mut r = LedRunner::new();
    assert_eq!(r.on_message(1, LedAnimation::Decay(500), 100), DriverCommand::Keep);
    assert_eq!(r.animators[1], Animator::Decay { samples: 51 });
    assert_eq!(r.on_sample(1, Some(7)), DriverCommand::Intensity(7));
    assert_eq!(r.on_sample(1, None), DriverCommand::Off);
    assert_eq!(r.animators[1], Animator::Idle);
    r.on_message(2, LedAnimation::Sine(100, Repetitions::Finite(2)), 1000);
    assert_eq!(r.animators[2], Animator::Sine { samples: 200, infinite: false });
    assert_eq!(r.on_message(2, LedAnimation::Alert, 1000), DriverCommand::Off);
    assert_eq!(r.animators[2], Animator::Idle);
}

#[test]
fn led_on_stays_on_until_next_request() {
    let mut r = LedRunner::new();
    r.on_message(0, LedAnimation::Sine(1_000, Repetitions::Infinite), 100);
    assert_eq!(r.tick([Some(10), None, None]), [DriverCommand::Intensity(10), DriverCommand::Keep, DriverCommand::Keep]);
    assert_eq!(r.on_message(0, LedAnimation::On, 100), DriverCommand::On);
    assert_eq!(r.animators[0], Animator::Idle);
    for _ in 0..3 {
        assert_eq!(r.tick([Some(5), Some(5), None]), [DriverCommand::Keep; 3]);
    }
}

#[test]
fn led_off_stops_animation() {
    let mut r = LedRunner::new();
    r.on_message(1, LedAnimation::Sine(1_000, Repetitions::Infinite), 100);
    assert_eq!(r.on_message(1, LedAnimation::Off, 100), DriverCommand::Off);
    assert_eq!(r.tick([None, Some(99), None]), [DriverCommand::Keep; 3]);
}

#[test]
fn led_tick_ends_finished_animation() {
    let mut r = LedRunner::new();
    r.on_message(0, LedAnimation::Decay(100), 100);
    r.on_message(2, LedAnimation::Decay(100), 100);
    assert_eq!(r.tick([Some(3), None, None]), [DriverCommand::Intensity(3), DriverCommand::Keep, DriverCommand::Off]);
    assert_eq!(r.animators, [Animator::Decay { samples: 11 }, Animator::Idle, Animator::Idle]);
}

#[test]
fn sensor_commands() {
    let mut enabled = [true, true, true];
    assert_eq!(handle_command(&mut enabled, VcpCommand::DisableChannel(1)), CommandOutcome::Disabled(1));
    assert_eq!(enabled, [true, false, true]);
    assert_eq!(channels_to_read(&enabled), vec![0, 2]);
    assert_eq!(handle_command(&mut enabled, VcpCommand::EnableChannel(3)), CommandOutcome::InvalidChannel(3));
    assert_eq!(enabled, [true, false, true]);
    assert_eq!(handle_command(&mut enabled, VcpCommand::EnableChannel(1)), CommandOutcome::Enabled(1));
    assert_eq!(channels_to_read(&enabled), vec![0, 1, 2]);
    assert_eq!(channels_to_read(&[false, false, false]), Vec::<u8>::new());
}

#[test]
fn sensor_errors() {
    assert_eq!(VcpError::InvalidChannel.error_description(), Some("Invalid channel number"));
    assert_eq!(VcpError::SensorReadError.error_description(), Some("Sensor read error"));
    assert_eq!(VcpError::I2cError("bus").error_description(), Some("bus"));
    assert_eq!(error_event_text(&VcpError::I2cError("nack")), "nack");
}

#[test]
fn sensor_cycle_sends_one_event_per_enabled_channel() {
    let enabled = [true, false, true];
    let results: Vec<Result<u32, VcpError>> = vec![Ok(120), Err(VcpError::SensorReadError)];
    let events = cycle_events(&enabled, results);
    assert_eq!(
        events,
        vec![(0, VcpSensorsEvents::Reading(120)), (2, VcpSensorsEvents::Error("Sensor read error"))]
    );
    let none: Vec<Result<u32, VcpError>> = vec![];
    assert!(cycle_events(&[false; 3], none).is_empty());
    let all = vec![Err(VcpError::I2cError("nack")), Ok(1), Err(VcpError::InvalidChannel)];
    assert_eq!(
        cycle_events(&[true; 3], all),
        vec![
            (0, VcpSensorsEvents::Error("nack")),
            (1, VcpSensorsEvents::Reading(1)),
            (2, VcpSensorsEvents::Error("Invalid channel number")),
        ]
    );
}

#[test]
fn ip_status_lines() {
    assert_eq!(ip_status_second_line(IpState::IpAssigned, 0xC0A8_0005, 3), Some("192.168.0.5".to_string()));
    assert_eq!(ip_status_second_line(IpState::GettingIp, 0, 0), None);
    assert_eq!(ip_status_second_line(IpState::GettingIp, 0, 12), Some("(12)".to_string()));
    let mut screen = IpStatusScreen::new(0x0A00_0001, IpState::GettingIp, 255);
    assert_eq!(screen.first_line(), "Getting IP...");
    assert_eq!(screen.redraw_second_line(), Some("(255)".to_string()));
    assert_eq!(screen.redraw_second_line(), Some("(255)(255)".to_string()));
    assert_eq!(screen.animation_iteration, 0);
    let mut screen = IpStatusScreen::new(0, IpState::GettingIp, 0);
    assert_eq!(screen.redraw_second_line(), None);
    assert_eq!(screen.buffer, "");
}

#[test]
fn ip_status_buffer_keeps_growing_until_full() {
    let mut screen = IpStatusScreen::new(0xC0A8_010A, IpState::IpAssigned, 0);
    assert_eq!(screen.first_line(), "My IP:");
    assert_eq!(screen.redraw_second_line(), Some("192.168.1.10".to_string()));
    assert_eq!(screen.redraw_second_line(), Some("192.168.1.10192.168.1.10".to_string()));
    assert_eq!(screen.redraw_second_line(), Some("192.168.1.10192.168.1.10192.168.".to_string()));
    assert_eq!(screen.redraw_second_line(), Some("192.168.1.10192.168.1.10192.168.".to_string()));
    assert_eq!(screen.buffer.len(), 32);
}

#[test]
fn animator_next_sample() {
    assert_eq!(Animator::Idle.next_sample(Some(7)), None);
    assert_eq!(Animator::Sine { samples: 10, infinite: true }.next_sample(Some(7)), Some(7));
    assert_eq!(Animator::Decay { samples: 3 }.next_sample(None), None);
    assert_eq!(Animator::Decay { samples: 3 }.next_sample(Some(0)), Some(0));
}
