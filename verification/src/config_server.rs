//! The static IP configuration as the configuration web page exchanges it:
//! addresses as four octets, most significant first.

use vstd::prelude::*;

use crate::configuration::settings::StaticIpConfig;

verus! {

/// A static IP configuration with addresses written as octets.
#[derive(Debug, Clone, PartialEq, Default)]
pub struct HttpStaticIpConfig {
    pub ip: [u8; 4],
    pub gateway: Option<[u8; 4]>,
    pub prefix_len: u8,
    pub dns: Vec<[u8; 4]>,
}

/// The address whose octets, most significant first, are `b`.
pub open spec fn from_be(b: [u8; 4]) -> u32 {
    (b[0] * 0x100_0000 + b[1] * 0x1_0000 + b[2] * 0x100 + b[3]) as u32
}

/// The octets of `v`, most significant first.
pub open spec fn to_be(v: u32) -> [u8; 4] {
    [
        ((v / 0x100_0000) % 0x100) as u8,
        ((v / 0x1_0000) % 0x100) as u8,
        ((v / 0x100) % 0x100) as u8,
        (v % 0x100) as u8,
    ]
}

/// `u32::from_be_bytes`.
pub fn u32_from_be_bytes(b: [u8; 4]) -> (r: u32)
    ensures
        r == from_be(b),
{
    b[0] as u32 * 0x100_0000 + b[1] as u32 * 0x1_0000 + b[2] as u32 * 0x100 + b[3] as u32
}

/// `u32::to_be_bytes`.
pub fn u32_to_be_bytes(v: u32) -> (r: [u8; 4])
    ensures
        r == to_be(v),
{
    [
        ((v / 0x100_0000) % 0x100) as u8,
        ((v / 0x1_0000) % 0x100) as u8,
        ((v / 0x100) % 0x100) as u8,
        (v % 0x100) as u8,
    ]
}

pub proof fn lemma_be_roundtrip(v: u32)
    ensures
        from_be(to_be(v)) == v,
{
    let b0 = (v / 0x100_0000) % 0x100;
    let b1 = (v / 0x1_0000) % 0x100;
    let b2 = (v / 0x100) % 0x100;
    let b3 = v % 0x100;
    assert(b0 * 0x100_0000 + b1 * 0x1_0000 + b2 * 0x100 + b3 == v) by (nonlinear_arith)
        requires
            b0 == (v / 0x100_0000) % 0x100,
            b1 == (v / 0x1_0000) % 0x100,
            b2 == (v / 0x100) % 0x100,
            b3 == v % 0x100,
            v <= 0xFFFF_FFFF,
    ;
}

pub proof fn lemma_be_roundtrip_octets(b: [u8; 4])
    ensures
        to_be(from_be(b)) == b,
{
    let v = b[0] * 0x100_0000 + b[1] * 0x1_0000 + b[2] * 0x100 + b[3];
    let (x0, x1, x2, x3) = (b[0] as int, b[1] as int, b[2] as int, b[3] as int);
    assert(((v / 0x100_0000) % 0x100 == x0) && ((v / 0x1_0000) % 0x100 == x1) && ((v / 0x100)
        % 0x100 == x2) && (v % 0x100 == x3)) by (nonlinear_arith)
        requires
            v == x0 * 0x100_0000 + x1 * 0x1_0000 + x2 * 0x100 + x3,
            0 <= x0 < 0x100,
            0 <= x1 < 0x100,
            0 <= x2 < 0x100,
            0 <= x3 < 0x100,
    ;
    assert(to_be(from_be(b))@ =~= b@);
}

/// `octets` holds the addresses of `config` written as octets.
pub open spec fn octets_of(octets: HttpStaticIpConfig, config: StaticIpConfig) -> bool {
    &&& octets.ip == to_be(config.ip)
    &&& octets.gateway == match config.gateway {
        Some(g) => Some(to_be(g)),
        None => None::<[u8; 4]>,
    }
    &&& octets.prefix_len == config.prefix_len
    &&& octets.dns@ == config.dns_servers@.map_values(|d: u32| to_be(d))
}

/// `config` holds the addresses of `octets` as bit patterns.
pub open spec fn bits_of(config: StaticIpConfig, octets: HttpStaticIpConfig) -> bool {
    &&& config.ip == from_be(octets.ip)
    &&& config.gateway == match octets.gateway {
        Some(g) => Some(from_be(g)),
        None => None::<u32>,
    }
    &&& config.prefix_len == octets.prefix_len
    &&& config.dns_servers@ == octets.dns@.map_values(|d: [u8; 4]| from_be(d))
}

impl HttpStaticIpConfig {
    /// Address 0.0.0.0, no gateway, no DNS server.
    pub fn new() -> (r: Self)
        ensures
            r.ip == [0u8, 0, 0, 0],
            r.gateway is None,
            r.prefix_len == 0,
            r.dns@ == Seq::<[u8; 4]>::empty(),
    {
        HttpStaticIpConfig { ip: [0, 0, 0, 0], gateway: None, prefix_len: 0, dns: Vec::new() }
    }

    /// The configuration with its addresses as bit patterns.
    pub fn to_static_ip_config(&self) -> (r: StaticIpConfig)
        ensures
            bits_of(r, *self),
    {
        let mut dns_servers: Vec<u32> = Vec::new();
        let mut i: usize = 0;
        while i < self.dns.len()
            invariant
                i <= self.dns@.len(),
                dns_servers@ == self.dns@.take(i as int).map_values(|d: [u8; 4]| from_be(d)),
            decreases self.dns@.len() - i,
        {
            dns_servers.push(u32_from_be_bytes(self.dns[i]));
            assert(self.dns@.take(i + 1).map_values(|d: [u8; 4]| from_be(d)) =~= self.dns@.take(
                i as int,
            ).map_values(|d: [u8; 4]| from_be(d)).push(from_be(self.dns@[i as int])));
            i += 1;
        }
        assert(self.dns@.take(i as int) =~= self.dns@);
        StaticIpConfig {
            ip: u32_from_be_bytes(self.ip),
            gateway: match self.gateway {
                Some(g) => Some(u32_from_be_bytes(g)),
                None => None,
            },
            prefix_len: self.prefix_len,
            dns_servers,
        }
    }

    /// The configuration with its addresses as octets.
    pub fn from_static_ip_config(config: &StaticIpConfig) -> (r: Self)
        ensures
            octets_of(r, *config),
    {
        let mut dns: Vec<[u8; 4]> = Vec::new();
        let mut i: usize = 0;
        while i < config.dns_servers.len()
            invariant
                i <= config.dns_servers@.len(),
                dns@ == config.dns_servers@.take(i as int).map_values(|d: u32| to_be(d)),
            decreases config.dns_servers@.len() - i,
        {
            dns.push(u32_to_be_bytes(config.dns_servers[i]));
            assert(config.dns_servers@.take(i + 1).map_values(|d: u32| to_be(d))
                =~= config.dns_servers@.take(i as int).map_values(|d: u32| to_be(d)).push(
                to_be(config.dns_servers@[i as int]),
            ));
            i += 1;
        }
        assert(config.dns_servers@.take(i as int) =~= config.dns_servers@);
        HttpStaticIpConfig {
            ip: u32_to_be_bytes(config.ip),
            gateway: match config.gateway {
                Some(g) => Some(u32_to_be_bytes(g)),
                None => None,
            },
            prefix_len: config.prefix_len,
            dns,
        }
    }
}

/// Converting a configuration to octets and back gives it back.
pub proof fn lemma_static_ip_roundtrip(
    config: StaticIpConfig,
    octets: HttpStaticIpConfig,
    back: StaticIpConfig,
)
    requires
        octets_of(octets, config),
        bits_of(back, octets),
    ensures
        back.ip == config.ip,
        back.gateway == config.gateway,
        back.prefix_len == config.prefix_len,
        back.dns_servers@ == config.dns_servers@,
{
    lemma_be_roundtrip(config.ip);
    if let Some(g) = config.gateway {
        lemma_be_roundtrip(g);
    }
    assert forall|i: int| 0 <= i < config.dns_servers@.len() implies back.dns_servers@[i]
        == config.dns_servers@[i] by {
        lemma_be_roundtrip(config.dns_servers@[i]);
    }
    assert(back.dns_servers@ =~= config.dns_servers@);
}


/// Converting octets to a configuration and back gives them back.
pub proof fn lemma_octets_roundtrip(
    octets: HttpStaticIpConfig,
    config: StaticIpConfig,
    back: HttpStaticIpConfig,
)
    requires
        bits_of(config, octets),
        octets_of(back, config),
    ensures
        back.ip == octets.ip,
        back.gateway == octets.gateway,
        back.prefix_len == octets.prefix_len,
        back.dns@ == octets.dns@,
{
    lemma_be_roundtrip_octets(octets.ip);
    if let Some(g) = octets.gateway {
        lemma_be_roundtrip_octets(g);
    }
    assert forall|i: int| 0 <= i < octets.dns@.len() implies back.dns@[i] == octets.dns@[i] by {
        lemma_be_roundtrip_octets(octets.dns@[i]);
    }
    assert(back.dns@ =~= octets.dns@);
}

} // verus!
