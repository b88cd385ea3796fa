use lead_barry::configuration::settings::{static_ip_config_from_texts, try_static_ip_config_from_texts};
use lead_barry::fixed_point::{Fixed16, Matrix2x2Fixed, SCALE};
use lead_barry::message_layout::{fill_with_words, split_message_into_lines, MessageLine, MESSAGE_LINE_LENGTH};
use lead_barry::status_layout::{within_limits, TextBox};
use lead_barry::ui_runner::WelcomeScreen;
use lead_barry::vcp_sensors::{handle_command, VcpCommand};
use lead_barry::web_server::content_length_text;

#[test]
fn static_ip_from_build_texts() {
    let c = static_ip_config_from_texts("192.168.1.50", "192.168.1.1", "16", ["8.8.8.8", "bad", "1.1.1.1"]);
    assert_eq!(c.ip, 0xC0A8_0132);
    assert_eq!(c.gateway, Some(0xC0A8_0101));
    assert_eq!(c.prefix_len, 16);
    assert_eq!(c.dns_servers, vec![0x0808_0808, 0x0101_0101]);
    let c = static_ip_config_from_texts("10.0.0.2", "10.0.0.1", "x", ["", "", ""]);
    assert_eq!(c.prefix_len, 24);
    assert!(c.dns_servers.is_empty());
}

#[test]
fn prefix_length_texts() {
    let prefix = |text: &str| static_ip_config_from_texts("10.0.0.2", "10.0.0.1", text, ["", "", ""]).prefix_len;
    assert_eq!(prefix("+16"), 16);
    assert_eq!(prefix("0008"), 8);
    assert_eq!(prefix("255"), 255);
    assert_eq!(prefix("256"), 24);
    assert_eq!(prefix(""), 24);
    assert_eq!(prefix("+"), 24);
    assert_eq!(prefix("-0"), 24);
    assert_eq!(prefix(" 16"), 24);
    assert_eq!(prefix("1_6"), 24);
}

#[test]
fn static_ip_from_unreadable_texts() {
    assert_eq!(try_static_ip_config_from_texts("10.0.0.256", "10.0.0.1", "24", ["", "", ""]), None);
    assert_eq!(try_static_ip_config_from_texts("10.0.0.2", "gateway", "24", ["", "", ""]), None);
    let c = try_static_ip_config_from_texts("10.0.0.2", "10.0.0.1", "300", ["9.9.9.9", "", ""]).unwrap();
    assert_eq!(c.prefix_len, 24);
    assert_eq!(c.dns_servers, vec![0x0909_0909]);
}

#[test]
fn laid_out_lines_fit_the_screen() {
    let lines = split_message_into_lines(
        "Failed to join WiFi network. Starting AP... please connect to LeadBarry",
    );
    assert!(lines.len() <= 3);
    for line in &lines {
        assert!(line.chars().count() <= MESSAGE_LINE_LENGTH);
    }
    let long = split_message_into_lines("Supercalifragilisticexpialidocious");
    assert_eq!(long[0].as_str(), "Supercalifragil...");
    assert_eq!(long[0].chars().count(), MESSAGE_LINE_LENGTH);
}

#[test]
fn long_words_are_cut_after_fifteen_characters() {
    let lines = split_message_into_lines("aaaaaaaaaaaaaaéeeeeeeeeeeee");
    assert_eq!(lines[0].as_str(), "aaaaaaaaaaaaaaé...");
    let word = "é".repeat(20);
    let mut line = MessageLine::new();
    let (len, rest) = fill_with_words(&mut line, &word);
    assert_eq!(line.as_str(), format!("{}...", "é".repeat(15)));
    assert_eq!((len, rest), (18, ""));
}

#[test]
fn filling_continues_a_line_that_holds_words() {
    let mut line = MessageLine::try_from("Failed to join").unwrap();
    assert_eq!(fill_with_words(&mut line, "WiFi network."), (14, "WiFi network."));
    assert_eq!(line.as_str(), "Failed to join");
    let mut line = MessageLine::try_from("Failed").unwrap();
    assert_eq!(fill_with_words(&mut line, "to join WiFi network."), (14, "WiFi network."));
    assert_eq!(line.as_str(), "Failed to join");
    let mut line = MessageLine::try_from("this line is far too long").unwrap();
    assert_eq!(fill_with_words(&mut line, "more"), (25, "more"));
}

#[test]
fn filling_is_greedy_and_keeps_the_words() {
    let mut line = MessageLine::try_from("Failed to").unwrap();
    let (len, rest) = fill_with_words(&mut line, "join WiFi network now");
    assert_eq!((len, rest), (14, "WiFi network now"));
    assert_eq!(line.as_str(), "Failed to join");
    assert!(len + 1 + "WiFi".len() > MESSAGE_LINE_LENGTH);
    let mut words: Vec<&str> = line.as_str().split_whitespace().collect();
    words.extend(rest.split_whitespace());
    assert_eq!(words, ["Failed", "to", "join", "WiFi", "network", "now"]);
}

#[test]
fn enabling_then_disabling_a_channel_disables_it() {
    let mut channels = [true, false, true];
    handle_command(&mut channels, VcpCommand::EnableChannel(1));
    handle_command(&mut channels, VcpCommand::DisableChannel(1));
    assert_eq!(channels, [true, false, true]);
    let mut channels = [true, true, true];
    handle_command(&mut channels, VcpCommand::EnableChannel(2));
    handle_command(&mut channels, VcpCommand::DisableChannel(2));
    assert_eq!(channels, [true, true, false]);
}

#[test]
fn fixed_point_laws_on_values() {
    let one = Fixed16::from_raw(SCALE);
    for raw in [-5 * SCALE, -1, 0, 7, 123_456, i32::MAX, i32::MIN] {
        assert_eq!(Fixed16::from_raw(raw).mul(one).raw(), raw);
    }
    let a = Fixed16::from_raw(3 * SCALE + 5);
    let b = Fixed16::from_raw(-2 * SCALE + 11);
    assert_eq!(a.mul(b).raw(), b.mul(a).raw());
    let m = Matrix2x2Fixed::from_fixed(Fixed16::from_raw(i32::MAX), Fixed16::from_raw(i32::MAX), one, one);
    assert!(!m.product_fits(one, one));
    assert!(m.product_fits(Fixed16::from_raw(SCALE / 4), Fixed16::from_raw(SCALE / 4)));
}

#[test]
fn layout_limits() {
    assert!(within_limits(TextBox { x: -10, y: 0, width: 5, height: 5 }));
    assert!(!within_limits(TextBox { x: 0, y: 0, width: 0x20_0000, height: 5 }));
}

#[test]
fn decimal_texts() {
    let mut w = WelcomeScreen::new();
    assert_eq!(w.count_text(), "Count: 0");
    w.counter = 4_294_967_295;
    assert_eq!(w.count_text(), "Count: 4294967295");
    assert_eq!(content_length_text(0), "0");
    assert_eq!(content_length_text(10_240), "10240");
    assert_eq!(content_length_text(u64::MAX), "18446744073709551615");
}
