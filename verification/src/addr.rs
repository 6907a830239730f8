//! Socket addresses as plain values.

use vstd::prelude::*;

verus! {

/// Port on which a device listens for control messages.
pub const CONTROL_PORT: u16 = 3000;

/// An IPv4 or IPv6 socket address.
#[derive(Clone, Copy, Debug, PartialEq, Eq)]
#[allow(inconsistent_fields)]
pub enum SockAddr {
    V4 { ip: [u8; 4], port: u16 },
    V6 { ip: [u8; 16], port: u16, flowinfo: u32, scope_id: u32 },
}

/// The 32-bit number of an IPv4 address, first octet most significant.
pub open spec fn ipv4_number(ip: [u8; 4]) -> u32 {
    (ip[0] * 0x100_0000 + ip[1] * 0x1_0000 + ip[2] * 0x100 + ip[3]) as u32
}

/// The IPv4 address with the given number.
pub open spec fn ipv4_octets(n: u32) -> [u8; 4] {
    [(n / 0x100_0000) as u8, (n / 0x1_0000 % 256) as u8, (n / 0x100 % 256) as u8, (n % 256) as u8]
}

/// The 32-bit number of an IPv4 address, first octet most significant.
pub fn ipv4_to_u32(ip: [u8; 4]) -> (n: u32)
    ensures
        n == ipv4_number(ip),
{
    let a: u32 = ip[0] as u32;
    let b: u32 = ip[1] as u32;
    let c: u32 = ip[2] as u32;
    let d: u32 = ip[3] as u32;
    a * 0x100_0000 + b * 0x1_0000 + c * 0x100 + d
}

/// The IPv4 address with the given number.
pub fn ipv4_from_u32(n: u32) -> (ip: [u8; 4])
    ensures
        ip == ipv4_octets(n),
{
    let ip: [u8; 4] = [
        (n / 0x100_0000) as u8,
        (n / 0x1_0000 % 256) as u8,
        (n / 0x100 % 256) as u8,
        (n % 256) as u8,
    ];
    assert(ip =~= ipv4_octets(n));
    ip
}

/// Numbering an address and taking the octets of the number gives the address.
pub proof fn lemma_ipv4_number(ip: [u8; 4])
    ensures
        ipv4_octets(ipv4_number(ip)) == ip,
{
    assert(ipv4_octets(ipv4_number(ip)) =~= ip);
}

impl SockAddr {
    /// The control endpoint of the device with the given IPv4 number.
    pub fn control_of(ip: u32) -> (a: SockAddr)
        ensures
            a == (SockAddr::V4 { ip: ipv4_octets(ip), port: CONTROL_PORT }),
    {
        SockAddr::V4 { ip: ipv4_from_u32(ip), port: CONTROL_PORT }
    }

    /// The IPv4 number of the address; `None` for an IPv6 address.
    pub fn ipv4(&self) -> (n: Option<u32>)
        ensures
            match *self {
                SockAddr::V4 { ip, .. } => n == Some(ipv4_number(ip)),
                SockAddr::V6 { .. } => n is None,
            },
    {
        match self {
            SockAddr::V4 { ip, .. } => Some(ipv4_to_u32(*ip)),
            SockAddr::V6 { .. } => None,
        }
    }
}

} // verus!
