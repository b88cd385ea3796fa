//! The settings that the device keeps across resets.
//!
//! Text fields are bounded by the capacity, in bytes, of the fixed-capacity
//! strings that hold them on the device; `wf` states those bounds.

use vstd::prelude::*;
use vstd::string::*;

use crate::text::utf8_len;

verus! {

/// Address of the access point that the device opens: 192.168.1.1.
pub const DEFAULT_AP_IP: u32 = 0xC0A8_0101;

/// Prefix length of the access point's network.
pub const DEFAULT_WIFI_AP_PREFIX_LEN: u8 = 24;

/// Radio channel of the access point.
pub const DEFAULT_AP_CHANNEL: u8 = 6;

/// Bytes that a network name may take.
pub const SSID_CAPACITY: usize = 32;

/// Bytes that a password may take.
pub const PASSWORD_CAPACITY: usize = 64;

/// DNS servers that a static configuration may name.
pub const DNS_SERVERS_CAPACITY: usize = 3;

/// The name of the access point that the device opens by default.
pub open spec fn default_ap_ssid() -> Seq<char> {
    seq!['L', 'e', 'a', 'd', 'B', 'a', 'r', 'r', 'y']
}

/// Credentials of the network that the device joins.
#[derive(Debug, Clone, PartialEq)]
pub struct WiFiSettings {
    pub ssid: String,
    pub password: String,
}

/// The access point that the device opens; no password means that one is
/// generated.
#[derive(Debug, Clone, PartialEq)]
pub struct WiFiApSettings {
    pub ssid: String,
    pub password: Option<String>,
    pub channel: u8,
    pub ip: u32,
    pub prefix_len: u8,
}

/// A static IPv4 configuration; addresses are big-endian bit patterns.
#[derive(Debug, Clone, PartialEq)]
pub struct StaticIpConfig {
    pub ip: u32,
    pub gateway: Option<u32>,
    pub prefix_len: u8,
    pub dns_servers: Vec<u32>,
}

/// Settings of both radios.
#[derive(Debug, Clone, PartialEq)]
pub struct NetworkSettings {
    pub wifi_settings: WiFiSettings,
    pub wifi_ap_settings: WiFiApSettings,
}

/// All settings of the device.
#[derive(Debug, Clone, PartialEq)]
pub struct Settings {
    pub network_settings: NetworkSettings,
    pub settings_version: u32,
}

/// A copy of a string.
fn copy_string(s: &String) -> (r: String)
    ensures
        r@ == s@,
{
    s.clone()
}

/// An empty string.
fn empty_string() -> (r: String)
    ensures
        r@ == Seq::<char>::empty(),
{
    String::new()
}

impl WiFiSettings {
    /// Both texts fit in their capacities.
    pub open spec fn wf(&self) -> bool {
        &&& utf8_len(self.ssid@) <= SSID_CAPACITY
        &&& utf8_len(self.password@) <= PASSWORD_CAPACITY
    }

    /// No network configured.
    pub fn new() -> (r: Self)
        ensures
            r.ssid@ == Seq::<char>::empty(),
            r.password@ == Seq::<char>::empty(),
            r.wf(),
    {
        WiFiSettings { ssid: empty_string(), password: empty_string() }
    }

    /// A field-by-field copy.
    pub fn copy(&self) -> (r: Self)
        ensures
            r.ssid@ == self.ssid@,
            r.password@ == self.password@,
    {
        WiFiSettings { ssid: copy_string(&self.ssid), password: copy_string(&self.password) }
    }
}

impl Default for WiFiSettings {
    /// No network configured.
    fn default() -> (r: Self)
        ensures
            r.ssid@ == Seq::<char>::empty(),
            r.password@ == Seq::<char>::empty(),
    {
        Self::new()
    }
}

impl WiFiApSettings {
    /// The texts fit in their capacities.
    pub open spec fn wf(&self) -> bool {
        &&& utf8_len(self.ssid@) <= SSID_CAPACITY
        &&& (self.password matches Some(p) ==> utf8_len(p@) <= PASSWORD_CAPACITY)
    }

    /// An access point without name whose password is generated.
    pub fn new() -> (r: Self)
        ensures
            r.ssid@ == Seq::<char>::empty(),
            r.password is None,
            r.channel == DEFAULT_AP_CHANNEL,
            r.ip == DEFAULT_AP_IP,
            r.prefix_len == DEFAULT_WIFI_AP_PREFIX_LEN,
            r.wf(),
    {
        WiFiApSettings {
            ssid: empty_string(),
            password: None,
            channel: DEFAULT_AP_CHANNEL,
            ip: DEFAULT_AP_IP,
            prefix_len: 24,
        }
    }

    /// A field-by-field copy.
    pub fn copy(&self) -> (r: Self)
        ensures
            r.ssid@ == self.ssid@,
            r.password is Some <==> self.password is Some,
            r.password is Some ==> r.password->0@ == self.password->0@,
            r.channel == self.channel,
            r.ip == self.ip,
            r.prefix_len == self.prefix_len,
    {
        WiFiApSettings {
            ssid: copy_string(&self.ssid),
            password: match &self.password {
                Some(p) => Some(copy_string(p)),
                None => None,
            },
            channel: self.channel,
            ip: self.ip,
            prefix_len: self.prefix_len,
        }
    }
}

impl Default for WiFiApSettings {
    /// The access point "LeadBarry" whose password is generated.
    fn default() -> (r: Self)
        ensures
            r.ssid@ == default_ap_ssid(),
            r.password is None,
            r.channel == DEFAULT_AP_CHANNEL,
            r.ip == DEFAULT_AP_IP,
            r.prefix_len == DEFAULT_WIFI_AP_PREFIX_LEN,
    {
        let name = "LeadBarry";
        proof {
            reveal_strlit("LeadBarry");
        }
        let ssid = String::from_str(name);
        assert(ssid@ =~= default_ap_ssid());
        WiFiApSettings {
            ssid,
            password: None,
            channel: DEFAULT_AP_CHANNEL,
            ip: DEFAULT_AP_IP,
            prefix_len: DEFAULT_WIFI_AP_PREFIX_LEN,
        }
    }
}

impl StaticIpConfig {
    /// At most three DNS servers.
    pub open spec fn wf(&self) -> bool {
        self.dns_servers@.len() <= DNS_SERVERS_CAPACITY
    }

    /// The unspecified address, no gateway, no DNS server.
    pub fn new() -> (r: Self)
        ensures
            r.ip == 0,
            r.gateway is None,
            r.prefix_len == 0,
            r.dns_servers@ == Seq::<u32>::empty(),
            r.wf(),
    {
        StaticIpConfig { ip: 0, gateway: None, prefix_len: 0, dns_servers: Vec::new() }
    }
}

impl Default for StaticIpConfig {
    /// The unspecified address, no gateway, no DNS server.
    fn default() -> (r: Self)
        ensures
            r.ip == 0,
            r.gateway is None,
            r.prefix_len == 0,
            r.dns_servers@ == Seq::<u32>::empty(),
    {
        Self::new()
    }
}

impl NetworkSettings {
    /// Both parts are well formed.
    pub open spec fn wf(&self) -> bool {
        self.wifi_settings.wf() && self.wifi_ap_settings.wf()
    }

    /// The values that [`NetworkSettings::new`] gives: no network to join,
    /// an access point without name on the default channel and address.
    pub open spec fn is_factory(&self) -> bool {
        &&& self.wifi_settings.ssid@ == Seq::<char>::empty()
        &&& self.wifi_settings.password@ == Seq::<char>::empty()
        &&& self.wifi_ap_settings.ssid@ == Seq::<char>::empty()
        &&& self.wifi_ap_settings.password is None
        &&& self.wifi_ap_settings.channel == DEFAULT_AP_CHANNEL
        &&& self.wifi_ap_settings.ip == DEFAULT_AP_IP
        &&& self.wifi_ap_settings.prefix_len == DEFAULT_WIFI_AP_PREFIX_LEN
    }

    /// The values of [`WiFiSettings::new`] and [`WiFiApSettings::new`].
    pub fn new() -> (r: Self)
        ensures
            r.is_factory(),
            r.wf(),
    {
        NetworkSettings { wifi_settings: WiFiSettings::new(), wifi_ap_settings: WiFiApSettings::new() }
    }

    /// A field-by-field copy.
    pub fn copy(&self) -> (r: Self)
        ensures
            r.same_as(self),
    {
        NetworkSettings {
            wifi_settings: self.wifi_settings.copy(),
            wifi_ap_settings: self.wifi_ap_settings.copy(),
        }
    }

    /// Equal texts and numbers in every field.
    pub open spec fn same_as(&self, other: &Self) -> bool {
        &&& self.wifi_settings.ssid@ == other.wifi_settings.ssid@
        &&& self.wifi_settings.password@ == other.wifi_settings.password@
        &&& self.wifi_ap_settings.ssid@ == other.wifi_ap_settings.ssid@
        &&& (self.wifi_ap_settings.password is Some <==> other.wifi_ap_settings.password is Some)
        &&& (self.wifi_ap_settings.password is Some ==> self.wifi_ap_settings.password->0@
            == other.wifi_ap_settings.password->0@)
        &&& self.wifi_ap_settings.channel == other.wifi_ap_settings.channel
        &&& self.wifi_ap_settings.ip == other.wifi_ap_settings.ip
        &&& self.wifi_ap_settings.prefix_len == other.wifi_ap_settings.prefix_len
    }
}

impl Default for NetworkSettings {
    /// The values of [`WiFiSettings::default`] and [`WiFiApSettings::default`].
    fn default() -> (r: Self)
        ensures
            r.wifi_settings.ssid@ == Seq::<char>::empty(),
            r.wifi_settings.password@ == Seq::<char>::empty(),
            r.wifi_ap_settings.ssid@ == default_ap_ssid(),
            r.wifi_ap_settings.password is None,
            r.wifi_ap_settings.channel == DEFAULT_AP_CHANNEL,
            r.wifi_ap_settings.ip == DEFAULT_AP_IP,
            r.wifi_ap_settings.prefix_len == DEFAULT_WIFI_AP_PREFIX_LEN,
    {
        NetworkSettings {
            wifi_settings: WiFiSettings::default(),
            wifi_ap_settings: WiFiApSettings::default(),
        }
    }
}

impl Settings {
    /// The network part is well formed.
    pub open spec fn wf(&self) -> bool {
        self.network_settings.wf()
    }

    /// Equal texts and numbers in every field.
    pub open spec fn same_as(&self, other: &Self) -> bool {
        &&& self.network_settings.same_as(&other.network_settings)
        &&& self.settings_version == other.settings_version
    }

    /// The factory settings: [`NetworkSettings::new`], version 1.
    pub fn new() -> (r: Self)
        ensures
            r.network_settings.is_factory(),
            r.settings_version == 1,
            r.wf(),
    {
        Settings { network_settings: NetworkSettings::new(), settings_version: 1 }
    }

    /// A field-by-field copy.
    pub fn copy(&self) -> (r: Self)
        ensures
            r.same_as(self),
    {
        Settings { network_settings: self.network_settings.copy(), settings_version: self.settings_version }
    }
}

impl Default for Settings {
    /// The factory settings, as [`Settings::new`] gives them.
    fn default() -> (r: Self)
        ensures
            r.network_settings.is_factory(),
            r.settings_version == 1,
    {
        Self::new()
    }
}

/// Settings given by the build configuration; this build names none beyond
/// the factory settings.
pub fn debug_settings() -> (r: Option<Settings>)
    ensures
        r matches Some(s) && s.network_settings.is_factory()
            && s.settings_version == 1,
{
    Some(Settings::new())
}

/// Static IP configuration given by the build configuration; this build
/// names none.
pub fn debug_static_ip_config() -> (r: Option<StaticIpConfig>)
    ensures
        r is None,
{
    None
}

/// The address, as its big-endian bit pattern, that
/// `core::net::Ipv4Addr::from_str` reads from `text`; `None` where it
/// refuses the text.
pub uninterp spec fn parsed_ipv4(text: Seq<char>) -> Option<u32>;

/// Every character of `s` is a decimal digit.
pub open spec fn all_decimal_digits(s: Seq<char>) -> bool {
    forall|i: int| 0 <= i < s.len() ==> '0' <= #[trigger] s[i] <= '9'
}

/// The value of the decimal digits `s`.
pub open spec fn digits_value(s: Seq<char>) -> nat
    decreases s.len(),
{
    if s.len() == 0 {
        0
    } else {
        digits_value(s.drop_last()) * 10 + ((s.last() as u32) - 48) as nat
    }
}

/// The number that `u8::from_str` reads from `text`: an optional `+`
/// followed by one or more decimal digits whose value is at most 255;
/// `None` for any other text.
pub open spec fn parsed_u8(text: Seq<char>) -> Option<u8> {
    let digits = if text.len() > 0 && text[0] == '+' {
        text.drop_first()
    } else {
        text
    };
    if digits.len() > 0 && all_decimal_digits(digits) && digits_value(digits) <= 255 {
        Some(digits_value(digits) as u8)
    } else {
        None
    }
}

/// Reads a dotted-decimal IPv4 address with `core::net::Ipv4Addr::from_str`.
/// The contract names the result: it depends on the text alone.
#[verifier::external_body]
fn parse_ipv4(text: &str) -> (r: Option<u32>)
    ensures
        r == parsed_ipv4(text@),
{
    text.parse::<core::net::Ipv4Addr>().ok().map(u32::from)
}

/// Reads a decimal number with `u8::from_str`, which takes an optional `+`
/// followed by one or more digits of a value up to 255 and refuses any
/// other text (empty, with a sign alone, other characters, white space, or
/// a larger value).
#[verifier::external_body]
fn parse_u8(text: &str) -> (r: Option<u8>)
    ensures
        r == parsed_u8(text@),
{
    text.parse::<u8>().ok()
}

/// The DNS servers that the texts name, in order, leaving out the
/// unreadable ones.
pub open spec fn readable_addresses(texts: Seq<Seq<char>>) -> Seq<u32>
    decreases texts.len(),
{
    if texts.len() == 0 {
        Seq::empty()
    } else {
        let head = readable_addresses(texts.drop_last());
        match parsed_ipv4(texts.last()) {
            Some(a) => head.push(a),
            None => head,
        }
    }
}

/// The static IP configuration that a build names by the texts of its
/// variables: the address, the gateway, the prefix length (24 where
/// unreadable) and up to three DNS servers (the unreadable ones left out).
pub fn static_ip_config_from_texts(ip: &str, gateway: &str, prefix_len: &str, dns: [&str; 3]) -> (r:
    StaticIpConfig)
    requires
        parsed_ipv4(ip@) is Some,
        parsed_ipv4(gateway@) is Some,
    ensures
        r.ip == parsed_ipv4(ip@)->0,
        r.gateway == Some(parsed_ipv4(gateway@)->0),
        r.prefix_len == match parsed_u8(prefix_len@) {
            Some(p) => p,
            None => 24u8,
        },
        r.dns_servers@ == readable_addresses(seq![dns[0]@, dns[1]@, dns[2]@]),
        r.wf(),
{
    let ip_bits = match parse_ipv4(ip) {
        Some(a) => a,
        None => 0,
    };
    let gateway_bits = match parse_ipv4(gateway) {
        Some(a) => a,
        None => 0,
    };
    let prefix = match parse_u8(prefix_len) {
        Some(p) => p,
        None => 24,
    };
    let mut dns_servers: Vec<u32> = Vec::new();
    let mut i: usize = 0;
    let ghost texts = seq![dns[0]@, dns[1]@, dns[2]@];
    assert(texts.take(0) =~= Seq::<Seq<char>>::empty());
    while i < 3
        invariant
            i <= 3,
            texts == seq![dns[0]@, dns[1]@, dns[2]@],
            dns_servers@ == readable_addresses(texts.take(i as int)),
            dns_servers@.len() <= i,
        decreases 3 - i,
    {
        assert(texts.take(i + 1).drop_last() =~= texts.take(i as int));
        assert(texts.take(i + 1).last() == dns[i as int]@);
        match parse_ipv4(dns[i]) {
            Some(a) => dns_servers.push(a),
            None => {},
        }
        i += 1;
    }
    assert(texts.take(3) =~= texts);
    StaticIpConfig { ip: ip_bits, gateway: Some(gateway_bits), prefix_len: prefix, dns_servers }
}

/// The static IP configuration that a build names by the texts of its
/// variables, or `None` where the address or the gateway cannot be read.
pub fn try_static_ip_config_from_texts(ip: &str, gateway: &str, prefix_len: &str, dns: [&str; 3]) -> (r:
    Option<StaticIpConfig>)
    ensures
        parsed_ipv4(ip@) is Some && parsed_ipv4(gateway@) is Some ==> (r matches Some(c) && c.ip
            == parsed_ipv4(ip@)->0 && c.gateway == Some(parsed_ipv4(gateway@)->0) && c.prefix_len
            == match parsed_u8(prefix_len@) {
            Some(p) => p,
            None => 24u8,
        } && c.dns_servers@ == readable_addresses(seq![dns[0]@, dns[1]@, dns[2]@])),
        !(parsed_ipv4(ip@) is Some && parsed_ipv4(gateway@) is Some) ==> r is None,
{
    if parse_ipv4(ip).is_none() || parse_ipv4(gateway).is_none() {
        return None;
    }
    Some(static_ip_config_from_texts(ip, gateway, prefix_len, dns))
}

} // verus!
