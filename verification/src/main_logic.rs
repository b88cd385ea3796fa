//! Decisions of the start-up sequence: actions requested by the buttons held
//! during reset, joining a network or opening the access point, and what the
//! screen shows meanwhile.

use vstd::prelude::*;
use vstd::string::*;

use crate::input::ButtonState;
use crate::screens::{ipv4_text, push_ipv4, ScMessageData, ScWifiApData, ScWifiStatsData, ScvClientInfo, ScvCredentials, ScvState};
use crate::text::push_char;

verus! {

/// Characters of a generated access point password.
pub const PASSWORD_LENGTH: usize = 8;

/// What the buttons held during reset ask for.
#[derive(Debug, Clone, Copy, PartialEq, Eq, Structural)]
pub enum AfterResetActions {
    Nothing,
    ApMode,
    FactoryReset,
}

/// Progress of joining a WiFi network.
#[derive(Debug, Clone, Copy, PartialEq, Eq, Structural)]
pub enum JoiningStatus {
    JoiningAP,
    ObtainingIP,
    Ready,
    Failed,
}

/// Progress of the access point; a client is given by its IPv4 address and
/// its MAC address.
#[derive(Debug, Clone, Copy, PartialEq, Eq)]
pub enum ApStatus {
    StartingAP,
    WaitingForClient,
    Ready(u32, [u8; 6]),
}

/// What to do on a step of joining a network.
#[derive(Debug, Clone, PartialEq)]
pub enum JoinReaction {
    /// Show the connection state.
    Show(ScWifiStatsData),
    /// Show the connection state: the network is ready.
    Ready(ScWifiStatsData),
    /// Show the message, remember to open the access point after the
    /// restart, save the settings and restart.
    FallBackToAp(ScMessageData),
}

/// Both buttons held ask for a factory reset; the yellow one alone for the
/// access point.
pub fn detect_after_reset_actions(yellow: ButtonState, blue: ButtonState) -> (r: AfterResetActions)
    ensures
        yellow == ButtonState::Pressed && blue == ButtonState::Pressed ==> r
            == AfterResetActions::FactoryReset,
        yellow == ButtonState::Pressed && blue != ButtonState::Pressed ==> r
            == AfterResetActions::ApMode,
        yellow != ButtonState::Pressed ==> r == AfterResetActions::Nothing,
{
    if yellow == ButtonState::Pressed && blue == ButtonState::Pressed {
        AfterResetActions::FactoryReset
    } else if yellow == ButtonState::Pressed {
        AfterResetActions::ApMode
    } else {
        AfterResetActions::Nothing
    }
}

/// The access point is opened when no network is configured, when the last
/// attempt to join failed, or when the buttons asked for it.
pub fn use_ap_mode(wifi_ssid: &String, fallback_ap: bool, force_ap_mode: bool) -> (r: bool)
    ensures
        r == (wifi_ssid@.len() == 0 || fallback_ap || force_ap_mode),
{
    let is_wifi_configured = !wifi_ssid.as_str().is_empty();
    !is_wifi_configured || fallback_ap || force_ap_mode
}

/// The alphabet of generated passwords: the digits 1 to 9 and the capital
/// letters.
pub open spec fn is_password_char(c: char) -> bool {
    ('1' <= c && c <= '9') || ('A' <= c && c <= 'Z')
}

/// The password character that the random number `random` selects.
pub open spec fn password_char_of(random: u32) -> char {
    let idx = random % 35;
    if idx < 9 {
        ((49 + idx) as u32) as char
    } else {
        ((65 + idx - 9) as u32) as char
    }
}

/// The password character that `random` selects: one of 35, uniformly
/// indexed by the remainder modulo 35.
pub fn password_char(random: u32) -> (c: char)
    ensures
        c == password_char_of(random),
        is_password_char(c),
{
    let idx = (random % 35) as u8;
    if idx < 9 {
        (49u8 + idx) as char
    } else {
        (65u8 + idx - 9) as char
    }
}

/// The password that eight random numbers select, one character each.
pub fn password_from_random(randoms: &[u32; 8]) -> (r: String)
    ensures
        r@.len() == PASSWORD_LENGTH,
        forall|i: int| 0 <= i < PASSWORD_LENGTH ==> r@[i] == password_char_of(#[trigger] randoms@[i]),
{
    let mut pwd = String::new();
    let mut i: usize = 0;
    while i < PASSWORD_LENGTH
        invariant
            i <= PASSWORD_LENGTH,
            pwd@.len() == i,
            forall|j: int| 0 <= j < i ==> pwd@[j] == password_char_of(#[trigger] randoms@[j]),
        decreases PASSWORD_LENGTH - i,
    {
        push_char(&mut pwd, password_char(randoms[i]));
        i += 1;
    }
    pwd
}

/// Every generated password has eight characters, all from the alphabet.
pub proof fn lemma_password_alphabet(randoms: Seq<u32>, i: int)
    requires
        0 <= i < randoms.len(),
    ensures
        is_password_char(password_char_of(randoms[i])),
{
}

/// A string holding `s`.
fn string_of(s: &str) -> (r: String)
    ensures
        r@ == s@,
{
    String::from_str(s)
}

/// The message screen with the given title and message.
fn message(title: &str, text: &str) -> (r: ScMessageData)
    ensures
        r.title@ == title@,
        r.message@ == text@,
{
    ScMessageData { title: string_of(title), message: string_of(text) }
}

/// How the screen follows a step of joining the network named `ssid`.
pub fn on_join_status(status: JoiningStatus, ssid: &String) -> (r: JoinReaction)
    ensures
        match status {
            JoiningStatus::JoiningAP => r matches JoinReaction::Show(d) && d.state()
                == ScvState::Connecting && (d.network_name() matches Some(n) && n@ == ssid@),
            JoiningStatus::ObtainingIP => r matches JoinReaction::Show(d) && d.state()
                == ScvState::Dhcp && (d.network_name() matches Some(n) && n@ == ssid@),
            JoiningStatus::Ready => r matches JoinReaction::Ready(d) && d.state()
                == ScvState::Connected && (d.network_name() matches Some(n) && n@ == ssid@),
            JoiningStatus::Failed => r matches JoinReaction::FallBackToAp(m) && m.title@
                == "ERROR"@ && m.message@ == "Failed to join WiFi network. Starting AP..."@,
        },
{
    match status {
        JoiningStatus::JoiningAP => JoinReaction::Show(
            ScWifiStatsData::new(ScvState::Connecting, Some(string_of(ssid.as_str()))),
        ),
        JoiningStatus::ObtainingIP => JoinReaction::Show(
            ScWifiStatsData::new(ScvState::Dhcp, Some(string_of(ssid.as_str()))),
        ),
        JoiningStatus::Ready => JoinReaction::Ready(
            ScWifiStatsData::new(ScvState::Connected, Some(string_of(ssid.as_str()))),
        ),
        JoiningStatus::Failed => JoinReaction::FallBackToAp(
            message("ERROR", "Failed to join WiFi network. Starting AP..."),
        ),
    }
}

/// The access point screen for a step of opening the access point named
/// `ssid` with `password`.
pub fn on_ap_status(status: ApStatus, ssid: &String, password: &Option<String>) -> (r: ScWifiApData)
    ensures
        match status {
            ApStatus::StartingAP => r == ScWifiApData::NotReady,
            ApStatus::WaitingForClient => r matches ScWifiApData::WaitingForClient(c) && c.ssid@
                == ssid@ && c.password@ == match password {
                Some(p) => p@,
                None => Seq::<char>::empty(),
            },
            ApStatus::Ready(ip, mac) => r == ScWifiApData::Connected(
                ScvClientInfo { ip, mac: Some(mac) },
            ),
        },
{
    match status {
        ApStatus::StartingAP => ScWifiApData::NotReady,
        ApStatus::WaitingForClient => ScWifiApData::WaitingForClient(
            ScvCredentials {
                ssid: string_of(ssid.as_str()),
                password: match password {
                    Some(p) => string_of(p.as_str()),
                    None => String::new(),
                },
            },
        ),
        ApStatus::Ready(ip, mac) => ScWifiApData::Connected(ScvClientInfo { ip, mac: Some(mac) }),
    }
}

/// The access point password: the configured one, else the generated one.
pub fn ap_password(configured: &Option<String>, generated: String) -> (r: String)
    ensures
        r@ == match configured {
            Some(p) => p@,
            None => generated@,
        },
{
    match configured {
        Some(p) => string_of(p.as_str()),
        None => generated,
    }
}

/// Whether the remembered fallback must be cleared and saved: the device
/// has not joined a network and the fallback was what opened the access
/// point.
pub fn must_clear_fallback(network_ready: bool, fallback_ap: bool) -> (r: bool)
    ensures
        r == (!network_ready && fallback_ap),
{
    !network_ready && fallback_ap
}

/// The message shown while the factory reset runs.
pub fn factory_reset_started_message() -> (r: ScMessageData)
    ensures
        r.title@ == "Factory Reset"@,
        r.message@ == "Performing factory reset..."@,
{
    message("Factory Reset", "Performing factory reset...")
}

/// The message shown after the factory reset, by its outcome.
pub fn factory_reset_result_message(succeeded: bool) -> (r: ScMessageData)
    ensures
        succeeded ==> r.title@ == "INFO"@ && r.message@ == "Factory reset completed successfully."@,
        !succeeded ==> r.title@ == "ERROR"@ && r.message@ == "Factory reset failed."@,
{
    if succeeded {
        message("INFO", "Factory reset completed successfully.")
    } else {
        message("ERROR", "Factory reset failed.")
    }
}

/// The message shown before the device restarts.
pub fn reboot_message() -> (r: ScMessageData)
    ensures
        r.title@ == "Rebooting"@,
        r.message@ == "The device is rebooting..."@,
{
    message("Rebooting", "The device is rebooting...")
}

/// The message that invites to open the configuration page at `ip`.
pub fn invitation_message(ip: u32) -> (r: ScMessageData)
    ensures
        r.title@ == "Visit http://"@,
        r.message@ == ipv4_text(ip) + " on your device."@,
{
    let mut text = String::new();
    push_ipv4(&mut text, ip);
    text.append(" on your device.");
    assert(text@ =~= ipv4_text(ip) + " on your device."@);
    ScMessageData { title: string_of("Visit http://"), message: text }
}

} // verus!
