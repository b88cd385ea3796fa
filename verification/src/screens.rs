//! What the status and message screens show.
//!
//! Each screen shows a title, a status line and an optional detail line;
//! IPv4 addresses are shown in dotted decimal, MAC addresses as six pairs of
//! lowercase hexadecimal digits separated by colons.

use vstd::prelude::*;
use vstd::string::*;

use crate::config_server::to_be;
use crate::text::{decimal, hex2, push_char, push_decimal, push_hex2};

verus! {

/// State of the connection to a WiFi network.
#[derive(Debug, Clone, Copy, PartialEq, Eq, Structural)]
pub enum ScvState {
    Disconnected,
    Connecting,
    Dhcp,
    Connected,
}

/// Contents of the WiFi status screen.
#[derive(Debug, Clone, PartialEq)]
pub struct ScWifiStatsData {
    wifi_network_name: Option<String>,
    wifi_state: ScvState,
}

/// Credentials that the access point screen shows.
#[derive(Debug, Clone, PartialEq)]
pub struct ScvCredentials {
    pub ssid: String,
    pub password: String,
}

/// A client of the access point: its IPv4 address as a big-endian bit
/// pattern and, where known, its MAC address.
#[derive(Debug, Clone, PartialEq)]
pub struct ScvClientInfo {
    pub ip: u32,
    pub mac: Option<[u8; 6]>,
}

/// Stages of the access point screen.
#[derive(Debug, Clone, PartialEq)]
pub enum ScWifiApData {
    NotReady,
    LinkUp,
    ConfigUp,
    WaitingForClient(ScvCredentials),
    Connected(ScvClientInfo),
}

/// Contents of the message screen.
#[derive(Debug, Clone, PartialEq)]
pub struct ScMessageData {
    pub title: String,
    pub message: String,
}

/// State of the IP address screen.
#[derive(Debug, Clone, Copy, PartialEq, Eq, Structural)]
pub enum IpState {
    GettingIp,
    IpAssigned,
}

/// The unit of a measured value.
#[derive(Debug, Clone, Copy, PartialEq, Eq, Structural)]
pub enum BaseUnits {
    Volts,
    Amps,
    Watts,
}

/// Dotted-decimal writing of the IPv4 address with bit pattern `ip`.
pub open spec fn ipv4_text(ip: u32) -> Seq<char> {
    let o = to_be(ip);
    decimal(o[0] as nat) + seq!['.'] + decimal(o[1] as nat) + seq!['.'] + decimal(o[2] as nat)
        + seq!['.'] + decimal(o[3] as nat)
}

/// Colon-separated hexadecimal writing of a MAC address.
pub open spec fn mac_text(mac: [u8; 6]) -> Seq<char> {
    hex2(mac[0]) + seq![':'] + hex2(mac[1]) + seq![':'] + hex2(mac[2]) + seq![':'] + hex2(mac[3])
        + seq![':'] + hex2(mac[4]) + seq![':'] + hex2(mac[5])
}

/// A string holding `s`.
fn string_of(s: &str) -> (r: String)
    ensures
        r@ == s@,
{
    String::from_str(s)
}

/// Appends the dotted-decimal writing of the IPv4 address `ip`.
pub fn push_ipv4(s: &mut String, ip: u32)
    ensures
        final(s)@ == old(s)@ + ipv4_text(ip),
{
    let o = crate::config_server::u32_to_be_bytes(ip);
    push_decimal(s, o[0]);
    push_char(s, '.');
    push_decimal(s, o[1]);
    push_char(s, '.');
    push_decimal(s, o[2]);
    push_char(s, '.');
    push_decimal(s, o[3]);
    assert(s@ =~= old(s)@ + ipv4_text(ip));
}

/// Appends the colon-separated hexadecimal writing of a MAC address.
pub fn push_mac(s: &mut String, mac: [u8; 6])
    ensures
        final(s)@ == old(s)@ + mac_text(mac),
{
    push_hex2(s, mac[0]);
    push_char(s, ':');
    push_hex2(s, mac[1]);
    push_char(s, ':');
    push_hex2(s, mac[2]);
    push_char(s, ':');
    push_hex2(s, mac[3]);
    push_char(s, ':');
    push_hex2(s, mac[4]);
    push_char(s, ':');
    push_hex2(s, mac[5]);
    assert(s@ =~= old(s)@ + mac_text(mac));
}

/// The dotted-decimal writing of the IPv4 address `ip`.
pub fn format_ipv4(ip: u32) -> (r: String)
    ensures
        r@ == ipv4_text(ip),
{
    let mut s = String::new();
    push_ipv4(&mut s, ip);
    assert(s@ =~= ipv4_text(ip));
    s
}

/// The colon-separated hexadecimal writing of a MAC address.
pub fn format_mac(mac: [u8; 6]) -> (r: String)
    ensures
        r@ == mac_text(mac),
{
    let mut s = String::new();
    push_mac(&mut s, mac);
    assert(s@ =~= mac_text(mac));
    s
}

impl ScWifiStatsData {
    /// The screen for a connection state and, where known, a network name.
    pub fn new(wifi_state: ScvState, wifi_network_name: Option<String>) -> (r: Self)
        ensures
            r.state() == wifi_state,
            r.network_name() == wifi_network_name,
    {
        ScWifiStatsData { wifi_network_name, wifi_state }
    }

    /// The connection state shown.
    pub closed spec fn state(&self) -> ScvState {
        self.wifi_state
    }

    /// The network name shown.
    pub closed spec fn network_name(&self) -> Option<String> {
        self.wifi_network_name
    }

    /// The title: "WiFi Status".
    pub fn title(&self) -> (r: String)
        ensures
            r@ == "WiFi Status"@,
    {
        string_of("WiFi Status")
    }

    /// The status line: what the connection is doing.
    pub fn status(&self) -> (r: String)
        ensures
            r@ == match self.state() {
                ScvState::Disconnected => "Disconnected"@,
                ScvState::Connecting => "Connecting to:"@,
                ScvState::Dhcp => "Getting IP..."@,
                ScvState::Connected => "Connected to:"@,
            },
    {
        match self.wifi_state {
            ScvState::Disconnected => string_of("Disconnected"),
            ScvState::Connecting => string_of("Connecting to:"),
            ScvState::Dhcp => string_of("Getting IP..."),
            ScvState::Connected => string_of("Connected to:"),
        }
    }

    /// The detail line: the network name, where known.
    pub fn detail(&self) -> (r: Option<String>)
        ensures
            r is Some <==> self.network_name() is Some,
            r is Some ==> r->0@ == self.network_name()->0@,
    {
        match &self.wifi_network_name {
            Some(name) => Some(string_of(name.as_str())),
            None => None,
        }
    }
}

impl ScWifiApData {
    /// The title of each stage.
    pub fn title(&self) -> (r: String)
        ensures
            r@ == match self {
                ScWifiApData::NotReady => "WiFi AP"@,
                ScWifiApData::LinkUp => "WiFi AP Init"@,
                ScWifiApData::ConfigUp => "WiFi AP Init"@,
                ScWifiApData::WaitingForClient(_) => "WiFi AP Ready"@,
                ScWifiApData::Connected(_) => "New Client"@,
            },
    {
        match self {
            ScWifiApData::NotReady => string_of("WiFi AP"),
            ScWifiApData::LinkUp => string_of("WiFi AP Init"),
            ScWifiApData::ConfigUp => string_of("WiFi AP Init"),
            ScWifiApData::WaitingForClient(_) => string_of("WiFi AP Ready"),
            ScWifiApData::Connected(_) => string_of("New Client"),
        }
    }

    /// The status line: the progress, the network name, or the client's
    /// address.
    pub fn status(&self) -> (r: String)
        ensures
            r@ == match self {
                ScWifiApData::NotReady => "Initializing..."@,
                ScWifiApData::LinkUp => "AP Link Up..."@,
                ScWifiApData::ConfigUp => "AP Config Up..."@,
                ScWifiApData::WaitingForClient(c) => "SSID: "@ + c.ssid@,
                ScWifiApData::Connected(client) => "IP: "@ + ipv4_text(client.ip),
            },
    {
        match self {
            ScWifiApData::NotReady => string_of("Initializing..."),
            ScWifiApData::LinkUp => string_of("AP Link Up..."),
            ScWifiApData::ConfigUp => string_of("AP Config Up..."),
            ScWifiApData::WaitingForClient(credentials) => {
                let mut s = string_of("SSID: ");
                s.append(credentials.ssid.as_str());
                s
            },
            ScWifiApData::Connected(client_info) => {
                let mut s = string_of("IP: ");
                push_ipv4(&mut s, client_info.ip);
                s
            },
        }
    }

    /// The detail line: the password to join with, or the client's MAC
    /// address where known.
    pub fn detail(&self) -> (r: Option<String>)
        ensures
            match self {
                ScWifiApData::WaitingForClient(c) => r matches Some(s) && s@ == "Psw: "@
                    + c.password@,
                ScWifiApData::Connected(client) => match client.mac {
                    Some(mac) => r matches Some(s) && s@ == mac_text(mac),
                    None => r is None,
                },
                _ => r is None,
            },
    {
        match self {
            ScWifiApData::NotReady => None,
            ScWifiApData::LinkUp => None,
            ScWifiApData::ConfigUp => None,
            ScWifiApData::WaitingForClient(credentials) => {
                let mut s = string_of("Psw: ");
                s.append(credentials.password.as_str());
                Some(s)
            },
            ScWifiApData::Connected(client_info) => {
                match client_info.mac {
                    Some(mac) => Some(format_mac(mac)),
                    None => None,
                }
            },
        }
    }
}

impl ScMessageData {
    /// The title shown above the message.
    pub fn title(&self) -> (r: String)
        ensures
            r@ == self.title@,
    {
        string_of(self.title.as_str())
    }

    /// The message text.
    pub fn message(&self) -> (r: String)
        ensures
            r@ == self.message@,
    {
        string_of(self.message.as_str())
    }
}

impl IpState {
    /// The caption of the IP address screen.
    pub fn str(&self) -> (r: &'static str)
        ensures
            r@ == match self {
                IpState::GettingIp => "Getting IP..."@,
                IpState::IpAssigned => "My IP:"@,
            },
    {
        match self {
            IpState::GettingIp => "Getting IP...",
            IpState::IpAssigned => "My IP:",
        }
    }
}

/// The symbol of a unit.
pub fn unit(base_unit: &BaseUnits) -> (r: &'static str)
    ensures
        r@ == match base_unit {
            BaseUnits::Volts => "V"@,
            BaseUnits::Amps => "A"@,
            BaseUnits::Watts => "W"@,
        },
{
    match base_unit {
        BaseUnits::Volts => "V",
        BaseUnits::Amps => "A",
        BaseUnits::Watts => "W",
    }
}

/// The text of the second line of the IP address screen on its first
/// redraw, while its buffer is still empty: the address once assigned; while
/// it is awaited, the number of attempts in brackets, from the first retry
/// on.
pub fn ip_status_second_line(state: IpState, ip: u32, try_count: u8) -> (r: Option<String>)
    ensures
        match state {
            IpState::IpAssigned => r matches Some(s) && s@ == ipv4_text(ip),
            IpState::GettingIp => if try_count > 0 {
                r matches Some(s) && s@ == seq!['('] + decimal(try_count as nat) + seq![')']
            } else {
                r is None
            },
        },
{
    match state {
        IpState::IpAssigned => Some(format_ipv4(ip)),
        IpState::GettingIp => {
            if try_count > 0 {
                let mut s = String::new();
                push_char(&mut s, '(');
                push_decimal(&mut s, try_count);
                push_char(&mut s, ')');
                assert(s@ =~= seq!['('] + decimal(try_count as nat) + seq![')']);
                Some(s)
            } else {
                None
            }
        },
    }
}

/// Bytes that the text buffer of the IP address screen holds.
pub const IP_BUFFER_SIZE: usize = 32;

/// The pieces in which a redraw of the IP address screen writes its second
/// line: the four numbers of the address and the dots between them once it
/// is assigned; while it is awaited, from the first retry on, the opening
/// bracket, the number of attempts and the closing bracket.
pub open spec fn ip_line_pieces(state: IpState, ip: u32, try_count: u8) -> Seq<Seq<char>> {
    match state {
        IpState::IpAssigned => {
            let o = to_be(ip);
            seq![
                decimal(o[0] as nat),
                seq!['.'],
                decimal(o[1] as nat),
                seq!['.'],
                decimal(o[2] as nat),
                seq!['.'],
                decimal(o[3] as nat),
            ]
        },
        IpState::GettingIp => if try_count > 0 {
            seq![seq!['('], decimal(try_count as nat), seq![')']]
        } else {
            Seq::empty()
        },
    }
}

/// `buffer` with the `pieces` appended in order for as long as each still
/// fits within [`IP_BUFFER_SIZE`]; the first piece that does not fit, and
/// all after it, are dropped.
pub open spec fn append_while_fits(buffer: Seq<char>, pieces: Seq<Seq<char>>) -> Seq<char>
    decreases pieces.len(),
{
    if pieces.len() == 0 {
        buffer
    } else if buffer.len() + pieces[0].len() <= IP_BUFFER_SIZE {
        append_while_fits(buffer + pieces[0], pieces.drop_first())
    } else {
        buffer
    }
}

/// A string holding the one character `c`.
fn char_string(c: char) -> (r: String)
    ensures
        r@ == seq![c],
{
    let mut s = String::new();
    push_char(&mut s, c);
    assert(s@ =~= seq![c]);
    s
}

/// A string holding the decimal writing of `n`.
fn decimal_string(n: u8) -> (r: String)
    ensures
        r@ == decimal(n as nat),
{
    let mut s = String::new();
    push_decimal(&mut s, n);
    assert(s@ =~= decimal(n as nat));
    s
}

/// The pieces of the second line (see [`ip_line_pieces`]).
fn ip_pieces(state: IpState, ip: u32, try_count: u8) -> (r: Vec<String>)
    ensures
        r@.map_values(|p: String| p@) == ip_line_pieces(state, ip, try_count),
{
    let mut pieces: Vec<String> = Vec::new();
    match state {
        IpState::IpAssigned => {
            let o = crate::config_server::u32_to_be_bytes(ip);
            pieces.push(decimal_string(o[0]));
            pieces.push(char_string('.'));
            pieces.push(decimal_string(o[1]));
            pieces.push(char_string('.'));
            pieces.push(decimal_string(o[2]));
            pieces.push(char_string('.'));
            pieces.push(decimal_string(o[3]));
        },
        IpState::GettingIp => {
            if try_count > 0 {
                pieces.push(char_string('('));
                pieces.push(decimal_string(try_count));
                pieces.push(char_string(')'));
            }
        },
    }
    assert(pieces@.map_values(|p: String| p@) =~= ip_line_pieces(state, ip, try_count));
    pieces
}

/// Appends `piece` to `buffer` when both together fit within
/// [`IP_BUFFER_SIZE`]; tells whether it did.
fn append_if_fits(buffer: &mut String, piece: &String) -> (r: bool)
    ensures
        r == (old(buffer)@.len() + piece@.len() <= IP_BUFFER_SIZE),
        final(buffer)@ == if r {
            old(buffer)@ + piece@
        } else {
            old(buffer)@
        },
{
    let n = buffer.as_str().unicode_len();
    let m = piece.as_str().unicode_len();
    if n > IP_BUFFER_SIZE || m > IP_BUFFER_SIZE - n {
        return false;
    }
    let mut i: usize = 0;
    while i < m
        invariant
            i <= m,
            m == piece@.len(),
            buffer@ == old(buffer)@ + piece@.take(i as int),
        decreases m - i,
    {
        let c = piece.as_str().get_char(i);
        push_char(buffer, c);
        assert(piece@.take(i + 1) =~= piece@.take(i as int).push(c));
        i += 1;
    }
    assert(piece@.take(m as int) =~= piece@);
    true
}

/// The IP address screen: the state of the address and, below it, the
/// address or the number of attempts, written into a text buffer of
/// [`IP_BUFFER_SIZE`] bytes that is never cleared.
#[derive(Debug, Clone, PartialEq, Eq)]
pub struct IpStatusScreen {
    pub ip: u32,
    pub ip_state: IpState,
    pub animation_iteration: u32,
    pub try_count: u8,
    pub buffer: String,
}

impl IpStatusScreen {
    /// The screen for `ip` in `ip_state` after `try_count` attempts, with an
    /// empty buffer.
    pub fn new(ip: u32, ip_state: IpState, try_count: u8) -> (r: Self)
        ensures
            r.ip == ip,
            r.ip_state == ip_state,
            r.animation_iteration == 0,
            r.try_count == try_count,
            r.buffer@ == Seq::<char>::empty(),
    {
        IpStatusScreen { ip, ip_state, animation_iteration: 0, try_count, buffer: String::new() }
    }

    /// The first line: what the address is doing.
    pub fn first_line(&self) -> (r: &'static str)
        ensures
            r@ == match self.ip_state {
                IpState::GettingIp => "Getting IP..."@,
                IpState::IpAssigned => "My IP:"@,
            },
    {
        self.ip_state.str()
    }

    /// A redraw of the second line: the pieces of the line (see
    /// [`ip_line_pieces`]) are appended to the buffer while they fit, and
    /// the whole buffer is the line drawn; where there are no pieces, no
    /// second line is drawn. As the buffer is never cleared, the text grows
    /// with each redraw until the buffer is full.
    pub fn redraw_second_line(&mut self) -> (r: Option<String>)
        ensures
            final(self).ip == old(self).ip,
            final(self).ip_state == old(self).ip_state,
            final(self).animation_iteration == old(self).animation_iteration,
            final(self).try_count == old(self).try_count,
            final(self).buffer@ == append_while_fits(
                old(self).buffer@,
                ip_line_pieces(old(self).ip_state, old(self).ip, old(self).try_count),
            ),
            ip_line_pieces(old(self).ip_state, old(self).ip, old(self).try_count).len() > 0
                ==> (r matches Some(line) && line@ == final(self).buffer@),
            ip_line_pieces(old(self).ip_state, old(self).ip, old(self).try_count).len() == 0
                ==> r is None,
    {
        let pieces = ip_pieces(self.ip_state, self.ip, self.try_count);
        let ghost all = pieces@.map_values(|p: String| p@);
        let ghost goal = append_while_fits(self.buffer@, all);
        let mut i: usize = 0;
        let mut fitting = true;
        assert(all.skip(0) =~= all);
        while i < pieces.len() && fitting
            invariant
                i <= pieces.len(),
                all == pieces@.map_values(|p: String| p@),
                fitting ==> goal == append_while_fits(self.buffer@, all.skip(i as int)),
                !fitting ==> goal == self.buffer@,
                self.ip == old(self).ip,
                self.ip_state == old(self).ip_state,
                self.animation_iteration == old(self).animation_iteration,
                self.try_count == old(self).try_count,
            decreases pieces.len() - i,
        {
            let ghost before = self.buffer@;
            assert(all.skip(i as int).drop_first() =~= all.skip(i + 1));
            assert(all.skip(i as int)[0] == pieces@[i as int]@);
            fitting = append_if_fits(&mut self.buffer, &pieces[i]);
            i += 1;
        }
        if fitting {
            assert(all.skip(i as int).len() == 0);
        }
        if pieces.len() > 0 {
            Some(self.buffer.clone())
        } else {
            None
        }
    }
}

} // verus!
