use lead_barry::config_server::{u32_from_be_bytes, u32_to_be_bytes, HttpStaticIpConfig};
use lead_barry::configuration::settings::{debug_static_ip_config, StaticIpConfig};
use lead_barry::fixed_point::{Fixed16, Matrix2x2Fixed, SCALE};
use lead_barry::optimization_demo::{
    complex_units, generic_frequency, optimized_frequency_setup, raw_constants, units_version,
    verify_optimizations,
};
use lead_barry::sync_examples::{
    count_and_report, next_data_counter, state_after_event, SystemEvent, SystemState,
};
use lead_barry::timing::{
    analyze_timing_budget, control_step, fast_control_step, fast_critical_work, jitter,
    next_deadline, overrun_step, track_max_jitter, utilization, variable_work_delay,
    OverrunAction, MAX_OVERRUNS,
};
use lead_barry::ui_runner::{ui_frame, UiStep, WelcomeScreen};
use lead_barry::units::{hz, khz, mhz, ms, s, us};

#[test]
fn unit_helpers() {
    assert_eq!(hz(50), 50);
    assert_eq!(khz(400), 400_000);
    assert_eq!(mhz(8), 8_000_000);
    assert_eq!(us(7), 7);
    assert_eq!(ms(40), 40_000);
    assert_eq!(s(2), 2_000_000);
}

#[test]
fn frequency_demonstrations() {
    assert_eq!(optimized_frequency_setup(), 408_000);
    assert_eq!(raw_constants(), 400_000);
    assert_eq!(units_version(), 400_000);
    assert_eq!(complex_units(), 400_000);
    assert_eq!(generic_frequency::<100>(), 100_000);
    verify_optimizations();
}

#[test]
fn timing_helpers() {
    assert_eq!(jitter(1_050, 1_000), 50);
    assert_eq!(jitter(980, 1_000), 20);
    assert_eq!(track_max_jitter(10, 20), (20, true));
    assert_eq!(track_max_jitter(30, 20), (30, false));
    assert_eq!(next_deadline(1_000, 500, 1_200), (1_500, false));
    assert_eq!(next_deadline(1_000, 500, 1_600), (2_100, true));
    assert_eq!(variable_work_delay(0), 1_000);
    assert_eq!(variable_work_delay(19), 10_000);
    assert_eq!(utilization(50, 100), 50);
    assert_eq!(utilization(10, 33), 30);
    assert_eq!(analyze_timing_budget(), (50, 50, 30));
    fast_critical_work();
    control_step();
    fast_control_step();
}

#[test]
fn safe_mode_after_repeated_overruns() {
    let mut count = 0;
    for _ in 0..MAX_OVERRUNS {
        let (next, action) = overrun_step(count, true);
        assert_eq!(action, OverrunAction::Warn);
        count = next;
    }
    assert_eq!(count, MAX_OVERRUNS);
    assert_eq!(overrun_step(count, true), (0, OverrunAction::EnterSafeMode));
    assert_eq!(overrun_step(3, false), (0, OverrunAction::Continue));
}

#[test]
fn fixed_point_arithmetic() {
    let one = Fixed16::from_raw(SCALE);
    let half = Fixed16::from_raw(SCALE / 2);
    let three = Fixed16::from_raw(3 * SCALE);
    assert_eq!(three.mul(half).raw(), 3 * SCALE / 2);
    assert_eq!(three.mul(one).raw(), 3 * SCALE);
    assert_eq!(half.add(half).raw(), SCALE);
    // rounds towards minus infinity
    assert_eq!(Fixed16::from_raw(-1).mul(half).raw(), -1);
    assert_eq!(Fixed16::from_raw(1).mul(half).raw(), 0);
    let m = Matrix2x2Fixed::from_fixed(one, half, Fixed16::from_raw(0), three);
    let (x, y) = m.multiply_fixed(Fixed16::from_raw(2 * SCALE), Fixed16::from_raw(4 * SCALE));
    assert_eq!(x.raw(), 4 * SCALE);
    assert_eq!(y.raw(), 12 * SCALE);
}

#[test]
fn system_events_and_counters() {
    assert_eq!(state_after_event(SystemEvent::ButtonPressed), SystemState::Running);
    assert_eq!(state_after_event(SystemEvent::SensorError), SystemState::Error);
    assert_eq!(state_after_event(SystemEvent::NetworkConnected), SystemState::Running);
    assert_eq!(state_after_event(SystemEvent::LowBattery), SystemState::Sleeping);
    assert_eq!(count_and_report(8), (9, false));
    assert_eq!(count_and_report(9), (10, true));
    assert_eq!(next_data_counter(254), 255);
    assert_eq!(next_data_counter(255), 0);
}

#[test]
fn display_frames() {
    let mut active: Option<u8> = None;
    assert_eq!(ui_frame(&mut active, None), UiStep::Idle);
    assert_eq!(ui_frame(&mut active, Some(1)), UiStep::Switch { had_screen: false });
    assert_eq!(active, Some(1));
    assert_eq!(ui_frame(&mut active, None), UiStep::Redraw);
    assert_eq!(ui_frame(&mut active, Some(2)), UiStep::Switch { had_screen: true });
    assert_eq!(active, Some(2));
    let mut w = WelcomeScreen::new();
    assert_eq!(w.counter, 0);
    w.increment();
    assert_eq!(w.counter, 1);
    w.counter = u32::MAX;
    w.increment();
    assert_eq!(w.counter, 0);
}

#[test]
fn big_endian_octets() {
    assert_eq!(u32_from_be_bytes([192, 168, 1, 1]), 0xC0A8_0101);
    assert_eq!(u32_to_be_bytes(0xC0A8_0101), [192, 168, 1, 1]);
    assert_eq!(u32_from_be_bytes([192, 168, 1, 1]), u32::from_be_bytes([192, 168, 1, 1]));
}

#[test]
fn static_ip_config_round_trip() {
    let octets = HttpStaticIpConfig {
        ip: [10, 0, 0, 7],
        gateway: Some([10, 0, 0, 1]),
        prefix_len: 24,
        dns: vec![[8, 8, 8, 8], [1, 1, 1, 1]],
    };
    let bits = octets.to_static_ip_config();
    assert_eq!(
        bits,
        StaticIpConfig {
            ip: 0x0A00_0007,
            gateway: Some(0x0A00_0001),
            prefix_len: 24,
            dns_servers: vec![0x0808_0808, 0x0101_0101],
        }
    );
    assert_eq!(HttpStaticIpConfig::from_static_ip_config(&bits), octets);
    let empty = HttpStaticIpConfig::new();
    assert_eq!(empty.to_static_ip_config().dns_servers, Vec::<u32>::new());
    assert_eq!(debug_static_ip_config(), None);
}
