//! Plain value types for addresses, networks and endpoints.
//!
//! The packet-filter rule model and the tunnel configuration speak of IP
//! addresses, CIDR networks and transport endpoints. They are held here as
//! plain integers so that contracts can state exactly which address or
//! network a rule matches.

use vstd::prelude::*;

verus! {

/// An IPv4 address held as its 32-bit big-endian numeric value.
#[derive(Clone, Copy, Debug, PartialEq, Eq, Structural, Hash)]
pub struct Ipv4Address {
    pub bits: u32,
}

impl Ipv4Address {
    /// The numeric value of the dotted-quad address `a.b.c.d`.
    pub open spec fn spec_from_octets(a: u8, b: u8, c: u8, d: u8) -> Ipv4Address {
        Ipv4Address {
            bits: ((a as int) * 0x1000000 + (b as int) * 0x10000 + (c as int) * 0x100 + (
            d as int)) as u32,
        }
    }

    /// Builds the address `a.b.c.d`.
    pub fn new(a: u8, b: u8, c: u8, d: u8) -> (r: Ipv4Address)
        ensures
            r == Ipv4Address::spec_from_octets(a, b, c, d),
    {
        Ipv4Address {
            bits: (a as u32) * 0x1000000 + (b as u32) * 0x10000 + (c as u32) * 0x100 + (d as u32),
        }
    }

    /// The limited broadcast address `255.255.255.255`.
    pub fn broadcast() -> (r: Ipv4Address)
        ensures
            r.bits == 0xffff_ffff_u32,
    {
        Ipv4Address { bits: 0xffff_ffff }
    }
}

/// An IPv6 address held as its 128-bit numeric value.
#[derive(Clone, Copy, Debug, PartialEq, Eq, Structural, Hash)]
pub struct Ipv6Address {
    pub bits: u128,
}

impl Ipv6Address {
    /// The numeric value of the address built from eight 16-bit segments.
    pub open spec fn spec_from_segments(s: Seq<u16>) -> Ipv6Address
        recommends
            s.len() == 8,
    {
        Ipv6Address {
            bits: (s[0] as u128) << 112 | (s[1] as u128) << 96 | (s[2] as u128) << 80 | (
            s[3] as u128) << 64 | (s[4] as u128) << 48 | (s[5] as u128) << 32 | (s[6] as u128)
                << 16 | (s[7] as u128),
        }
    }

    /// Builds the address from eight 16-bit segments, highest first.
    pub fn new(s0: u16, s1: u16, s2: u16, s3: u16, s4: u16, s5: u16, s6: u16, s7: u16) -> (r:
        Ipv6Address)
        ensures
            r == Ipv6Address::spec_from_segments(seq![s0, s1, s2, s3, s4, s5, s6, s7]),
    {
        let r = Ipv6Address {
            bits: (s0 as u128) << 112 | (s1 as u128) << 96 | (s2 as u128) << 80 | (s3 as u128)
                << 64 | (s4 as u128) << 48 | (s5 as u128) << 32 | (s6 as u128) << 16 | (
            s7 as u128),
        };
        proof {
            let s = seq![s0, s1, s2, s3, s4, s5, s6, s7];
            assert(s[0] == s0 && s[1] == s1 && s[2] == s2 && s[3] == s3 && s[4] == s4 && s[5] == s5
                && s[6] == s6 && s[7] == s7);
        }
        r
    }
}

/// An IP address of either family.
#[derive(Clone, Copy, Debug, PartialEq, Eq, Structural, Hash)]
pub enum IpAddress {
    V4(Ipv4Address),
    V6(Ipv6Address),
}

/// The network-layer protocol family of an address or rule expression.
#[derive(Clone, Copy, Debug, PartialEq, Eq, Structural, Hash)]
pub enum AddressFamily {
    Ipv4,
    Ipv6,
}

impl IpAddress {
    /// The protocol family the address belongs to.
    pub open spec fn spec_family(self) -> AddressFamily {
        match self {
            IpAddress::V4(_) => AddressFamily::Ipv4,
            IpAddress::V6(_) => AddressFamily::Ipv6,
        }
    }

    /// Returns the protocol family the address belongs to.
    pub fn family(&self) -> (r: AddressFamily)
        ensures
            r == self.spec_family(),
    {
        match self {
            IpAddress::V4(_) => AddressFamily::Ipv4,
            IpAddress::V6(_) => AddressFamily::Ipv6,
        }
    }
}

/// An IPv4 network in CIDR form.
#[derive(Clone, Copy, Debug, PartialEq, Eq, Structural, Hash)]
pub struct Ipv4Network {
    pub addr: Ipv4Address,
    pub prefix: u8,
}

/// An IPv6 network in CIDR form.
#[derive(Clone, Copy, Debug, PartialEq, Eq, Structural, Hash)]
pub struct Ipv6Network {
    pub addr: Ipv6Address,
    pub prefix: u8,
}

/// A CIDR network of either family.
#[derive(Clone, Copy, Debug, PartialEq, Eq, Structural, Hash)]
pub enum IpNetwork {
    V4(Ipv4Network),
    V6(Ipv6Network),
}

impl IpNetwork {
    /// The protocol family of the network.
    pub open spec fn spec_family(self) -> AddressFamily {
        match self {
            IpNetwork::V4(_) => AddressFamily::Ipv4,
            IpNetwork::V6(_) => AddressFamily::Ipv6,
        }
    }

    /// Returns the protocol family of the network.
    pub fn family(&self) -> (r: AddressFamily)
        ensures
            r == self.spec_family(),
    {
        match self {
            IpNetwork::V4(_) => AddressFamily::Ipv4,
            IpNetwork::V6(_) => AddressFamily::Ipv6,
        }
    }
}

/// A transport-layer protocol carried in endpoints and port matches.
#[derive(Clone, Copy, Debug, PartialEq, Eq, Structural, Hash)]
pub enum TransportProtocol {
    Udp,
    Tcp,
}

/// A remote peer: one address, one port, one transport protocol.
#[derive(Clone, Copy, Debug, PartialEq, Eq, Structural, Hash)]
pub struct Endpoint {
    pub address: IpAddress,
    pub port: u16,
    pub protocol: TransportProtocol,
}

impl Endpoint {
    /// Builds an endpoint from its three parts.
    pub fn new(address: IpAddress, port: u16, protocol: TransportProtocol) -> (r: Endpoint)
        ensures
            r == (Endpoint { address, port, protocol }),
    {
        Endpoint { address, port, protocol }
    }
}

} // verus!

verus! {

/// The dotted-quad rendering of an IPv4 address.
pub open spec fn spec_ipv4_text(a: Ipv4Address) -> Seq<char> {
    crate::text::spec_decimal(a.bits as int / 0x1000000) + seq!['.'] + crate::text::spec_decimal(
        a.bits as int / 0x10000 % 256,
    ) + seq!['.'] + crate::text::spec_decimal(a.bits as int / 256 % 256) + seq!['.']
        + crate::text::spec_decimal(a.bits as int % 256)
}

/// Renders an IPv4 address as a dotted quad.
pub fn ipv4_text(a: &Ipv4Address) -> (r: String)
    ensures
        r@ == spec_ipv4_text(*a),
{
    let mut s = crate::text::decimal_string(a.bits / 0x1000000);
    crate::text::push_char(&mut s, '.');
    let o1 = crate::text::decimal_string(a.bits / 0x10000 % 256);
    s.append(o1.as_str());
    crate::text::push_char(&mut s, '.');
    let o2 = crate::text::decimal_string(a.bits / 256 % 256);
    s.append(o2.as_str());
    crate::text::push_char(&mut s, '.');
    let o3 = crate::text::decimal_string(a.bits % 256);
    s.append(o3.as_str());
    proof {
        assert(s@ =~= spec_ipv4_text(*a));
    }
    s
}

/// One 16-bit segment of an IPv6 address, highest first.
pub open spec fn spec_ipv6_segment(a: Ipv6Address, i: int) -> int
    recommends
        0 <= i < 8,
{
    let shifted: int = if i == 0 {
        a.bits as int / 0x1_0000_0000_0000_0000_0000_0000_0000
    } else if i == 1 {
        a.bits as int / 0x1_0000_0000_0000_0000_0000_0000
    } else if i == 2 {
        a.bits as int / 0x1_0000_0000_0000_0000_0000
    } else if i == 3 {
        a.bits as int / 0x1_0000_0000_0000_0000
    } else if i == 4 {
        a.bits as int / 0x1_0000_0000_0000
    } else if i == 5 {
        a.bits as int / 0x1_0000_0000
    } else if i == 6 {
        a.bits as int / 0x1_0000
    } else {
        a.bits as int
    };
    shifted % 0x10000
}

/// The full-form rendering of an IPv6 address: eight hexadecimal groups
/// joined by colons, without elision.
pub open spec fn spec_ipv6_text(a: Ipv6Address) -> Seq<char> {
    crate::text::spec_hexadecimal(spec_ipv6_segment(a, 0)) + seq![':']
        + crate::text::spec_hexadecimal(spec_ipv6_segment(a, 1)) + seq![':']
        + crate::text::spec_hexadecimal(spec_ipv6_segment(a, 2)) + seq![':']
        + crate::text::spec_hexadecimal(spec_ipv6_segment(a, 3)) + seq![':']
        + crate::text::spec_hexadecimal(spec_ipv6_segment(a, 4)) + seq![':']
        + crate::text::spec_hexadecimal(spec_ipv6_segment(a, 5)) + seq![':']
        + crate::text::spec_hexadecimal(spec_ipv6_segment(a, 6)) + seq![':']
        + crate::text::spec_hexadecimal(spec_ipv6_segment(a, 7))
}

/// Renders an IPv6 address in full form.
pub fn ipv6_text(a: &Ipv6Address) -> (r: String)
    ensures
        r@ == spec_ipv6_text(*a),
{
    let mut out = String::new();
    let g0 = crate::text::hexadecimal_string(
        ((a.bits / 0x1_0000_0000_0000_0000_0000_0000_0000) % 0x10000) as u32,
    );
    out.append(g0.as_str());
    crate::text::push_char(&mut out, ':');
    let g1 = crate::text::hexadecimal_string(
        ((a.bits / 0x1_0000_0000_0000_0000_0000_0000) % 0x10000) as u32,
    );
    out.append(g1.as_str());
    crate::text::push_char(&mut out, ':');
    let g2 = crate::text::hexadecimal_string(
        ((a.bits / 0x1_0000_0000_0000_0000_0000) % 0x10000) as u32,
    );
    out.append(g2.as_str());
    crate::text::push_char(&mut out, ':');
    let g3 = crate::text::hexadecimal_string(
        ((a.bits / 0x1_0000_0000_0000_0000) % 0x10000) as u32,
    );
    out.append(g3.as_str());
    crate::text::push_char(&mut out, ':');
    let g4 = crate::text::hexadecimal_string(((a.bits / 0x1_0000_0000_0000) % 0x10000) as u32);
    out.append(g4.as_str());
    crate::text::push_char(&mut out, ':');
    let g5 = crate::text::hexadecimal_string(((a.bits / 0x1_0000_0000) % 0x10000) as u32);
    out.append(g5.as_str());
    crate::text::push_char(&mut out, ':');
    let g6 = crate::text::hexadecimal_string(((a.bits / 0x1_0000) % 0x10000) as u32);
    out.append(g6.as_str());
    crate::text::push_char(&mut out, ':');
    let g7 = crate::text::hexadecimal_string((a.bits % 0x10000) as u32);
    out.append(g7.as_str());
    proof {
        assert(out@ =~= spec_ipv6_text(*a));
    }
    out
}

/// The rendering of an address of either family.
pub open spec fn spec_ip_text(ip: IpAddress) -> Seq<char> {
    match ip {
        IpAddress::V4(a) => spec_ipv4_text(a),
        IpAddress::V6(a) => spec_ipv6_text(a),
    }
}

/// Renders an address of either family.
pub fn ip_text(ip: &IpAddress) -> (r: String)
    ensures
        r@ == spec_ip_text(*ip),
{
    match ip {
        IpAddress::V4(a) => ipv4_text(a),
        IpAddress::V6(a) => ipv6_text(a),
    }
}

/// The rendering of an endpoint: address, port and protocol.
pub open spec fn spec_endpoint_text(e: Endpoint) -> Seq<char> {
    spec_ip_text(e.address) + seq![':'] + crate::text::spec_decimal(e.port as int) + seq![
        '/',
    ] + match e.protocol {
        TransportProtocol::Udp => "UDP"@,
        TransportProtocol::Tcp => "TCP"@,
    }
}

/// Renders an endpoint as address, port and protocol.
pub fn endpoint_text(e: &Endpoint) -> (r: String)
    ensures
        r@ == spec_endpoint_text(*e),
{
    let mut out = ip_text(&e.address);
    crate::text::push_char(&mut out, ':');
    let port = crate::text::decimal_string(e.port as u32);
    out.append(port.as_str());
    crate::text::push_char(&mut out, '/');
    match e.protocol {
        TransportProtocol::Udp => out.append("UDP"),
        TransportProtocol::Tcp => out.append("TCP"),
    }
    proof {
        assert(out@ =~= spec_endpoint_text(*e));
    }
    out
}

} // verus!
