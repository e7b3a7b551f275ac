//! The firewall policy compiler.
//!
//! Given a [`FirewallPolicy`] the compiler produces the complete ordered
//! rule set that must be active: a mandatory baseline (loopback, DHCP,
//! neighbor discovery, and, when allowed, LAN traffic) followed by the
//! policy-specific rules, on two chains whose default policy drops
//! everything not explicitly accepted.
//!
//! The contracts here pin the exact rule sequence down; the lemmas at the
//! end state the two facts every compiled set obeys: every rule reads
//! payload fields only after the corresponding protocol assertion and ends
//! in a verdict above a default-drop chain, and with LAN traffic
//! disallowed no rule accepts a reserved LAN range.

use vstd::prelude::*;

use crate::net::AddressFamily;
use crate::net::Endpoint;
use crate::net::IpAddress;
use crate::net::IpNetwork;
use crate::net::Ipv4Address;
use crate::net::Ipv4Network;
use crate::net::Ipv6Address;
use crate::net::Ipv6Network;
use crate::net::TransportProtocol;
use crate::policy::FirewallPolicy;
use crate::policy::FirewallPolicyV;
use crate::rules::l4_of;
use crate::rules::Chain;
use crate::rules::ChainV;
use crate::rules::Direction;
use crate::rules::End;
use crate::rules::L4Protocol;
use crate::rules::Rule;
use crate::rules::RuleExpr;
use crate::rules::RuleExprV;
use crate::rules::RuleV;
use crate::rules::Verdict;
use crate::tunnel::TunnelMetadata;
use crate::tunnel::TunnelMetadataV;

verus! {

/// Destination port of DHCPv4 requests.
pub const DHCPV4_SERVER_PORT: u16 = 67;

/// Source port of DHCPv4 requests.
pub const DHCPV4_CLIENT_PORT: u16 = 68;

/// Destination port of DHCPv6 requests.
pub const DHCPV6_SERVER_PORT: u16 = 547;

/// Source port of DHCPv6 requests.
pub const DHCPV6_CLIENT_PORT: u16 = 546;

/// ICMPv6 message type of a router solicitation.
pub const ROUTER_SOLICITATION_TYPE: u8 = 133;

/// ICMPv6 message type of a router advertisement.
pub const ROUTER_ADVERTISEMENT_TYPE: u8 = 134;

/// ICMPv6 message type of a redirect.
pub const REDIRECT_TYPE: u8 = 137;

/// The IPv6 link-local network `fe80::/10`.
pub open spec fn spec_ipv6_link_local() -> IpNetwork {
    IpNetwork::V6(
        Ipv6Network {
            addr: Ipv6Address { bits: 0xfe80_0000_0000_0000_0000_0000_0000_0000u128 },
            prefix: 10,
        },
    )
}

/// Returns the IPv6 link-local network `fe80::/10`.
pub fn ipv6_link_local() -> (r: IpNetwork)
    ensures
        r == spec_ipv6_link_local(),
{
    IpNetwork::V6(
        Ipv6Network {
            addr: Ipv6Address { bits: 0xfe80_0000_0000_0000_0000_0000_0000_0000u128 },
            prefix: 10,
        },
    )
}

/// The two well-known multicast addresses DHCPv6 requests may target.
pub open spec fn spec_dhcpv6_server_addrs() -> Seq<Ipv6Address> {
    seq![
        Ipv6Address { bits: 0xff02_0000_0000_0000_0000_0000_0001_0002u128 },
        Ipv6Address { bits: 0xff05_0000_0000_0000_0000_0000_0001_0003u128 },
    ]
}

/// Returns the two well-known multicast addresses DHCPv6 requests may
/// target.
pub fn dhcpv6_server_addrs() -> (r: Vec<Ipv6Address>)
    ensures
        r@ =~= spec_dhcpv6_server_addrs(),
{
    let mut v: Vec<Ipv6Address> = Vec::new();
    v.push(Ipv6Address { bits: 0xff02_0000_0000_0000_0000_0000_0001_0002u128 });
    v.push(Ipv6Address { bits: 0xff05_0000_0000_0000_0000_0000_0001_0003u128 });
    v
}

/// The all-routers multicast address `ff02::2`, target of outgoing router
/// solicitations.
pub open spec fn spec_all_routers_addr() -> Ipv6Address {
    Ipv6Address { bits: 0xff02_0000_0000_0000_0000_0000_0000_0002u128 }
}

/// Returns the all-routers multicast address `ff02::2`.
pub fn all_routers_addr() -> (r: Ipv6Address)
    ensures
        r == spec_all_routers_addr(),
{
    Ipv6Address { bits: 0xff02_0000_0000_0000_0000_0000_0000_0002u128 }
}

/// The reserved networks that the allow-LAN setting opens up:
/// the RFC1918 ranges, the IPv4 link-local range, and the IPv6 link-local
/// range.
pub open spec fn spec_allowed_lan_nets() -> Seq<IpNetwork> {
    seq![
        IpNetwork::V4(Ipv4Network { addr: Ipv4Address { bits: 0x0a00_0000u32 }, prefix: 8 }),
        IpNetwork::V4(Ipv4Network { addr: Ipv4Address { bits: 0xac10_0000u32 }, prefix: 12 }),
        IpNetwork::V4(Ipv4Network { addr: Ipv4Address { bits: 0xc0a8_0000u32 }, prefix: 16 }),
        IpNetwork::V4(Ipv4Network { addr: Ipv4Address { bits: 0xa9fe_0000u32 }, prefix: 16 }),
        spec_ipv6_link_local(),
    ]
}

/// Returns the reserved networks the allow-LAN setting opens up.
pub fn allowed_lan_nets() -> (r: Vec<IpNetwork>)
    ensures
        r@ =~= spec_allowed_lan_nets(),
{
    let mut v: Vec<IpNetwork> = Vec::new();
    v.push(IpNetwork::V4(Ipv4Network { addr: Ipv4Address { bits: 0x0a00_0000u32 }, prefix: 8 }));
    v.push(IpNetwork::V4(Ipv4Network { addr: Ipv4Address { bits: 0xac10_0000u32 }, prefix: 12 }));
    v.push(IpNetwork::V4(Ipv4Network { addr: Ipv4Address { bits: 0xc0a8_0000u32 }, prefix: 16 }));
    v.push(IpNetwork::V4(Ipv4Network { addr: Ipv4Address { bits: 0xa9fe_0000u32 }, prefix: 16 }));
    v.push(ipv6_link_local());
    v
}

/// The multicast ranges that the allow-LAN setting opens for outbound
/// traffic only.
pub open spec fn spec_allowed_lan_multicast_nets() -> Seq<IpNetwork> {
    seq![
        IpNetwork::V4(Ipv4Network { addr: Ipv4Address { bits: 0xe000_0000u32 }, prefix: 24 }),
        IpNetwork::V6(
            Ipv6Network {
                addr: Ipv6Address { bits: 0xfe02_0000_0000_0000_0000_0000_0000_0000u128 },
                prefix: 16,
            },
        ),
    ]
}

/// Returns the multicast ranges the allow-LAN setting opens for outbound
/// traffic.
pub fn allowed_lan_multicast_nets() -> (r: Vec<IpNetwork>)
    ensures
        r@ =~= spec_allowed_lan_multicast_nets(),
{
    let mut v: Vec<IpNetwork> = Vec::new();
    v.push(IpNetwork::V4(Ipv4Network { addr: Ipv4Address { bits: 0xe000_0000u32 }, prefix: 24 }));
    v.push(
        IpNetwork::V6(
            Ipv6Network {
                addr: Ipv6Address { bits: 0xfe02_0000_0000_0000_0000_0000_0000_0000u128 },
                prefix: 16,
            },
        ),
    );
    v
}

// Short constructors for expression models, so that rule shapes below read
// like the expression streams they stand for.
/// An interface match expression.
pub open spec fn e_iface(direction: Direction, name: Seq<char>) -> RuleExprV {
    RuleExprV::MatchInterface { direction, name }
}

/// A network-layer family assertion.
pub open spec fn e_l3(family: AddressFamily) -> RuleExprV {
    RuleExprV::MatchL3Proto { family }
}

/// A transport-layer protocol assertion.
pub open spec fn e_l4(protocol: L4Protocol) -> RuleExprV {
    RuleExprV::MatchL4Proto { protocol }
}

/// An address-field match.
pub open spec fn e_addr(end: End, ip: IpAddress) -> RuleExprV {
    RuleExprV::MatchAddr { end, ip }
}

/// A network-field match.
pub open spec fn e_net(end: End, net: IpNetwork) -> RuleExprV {
    RuleExprV::MatchNet { end, net }
}

/// A port-field match.
pub open spec fn e_port(end: End, protocol: TransportProtocol, port: u16) -> RuleExprV {
    RuleExprV::MatchPort { end, protocol, port }
}

/// A final verdict.
pub open spec fn e_verdict(verdict: Verdict) -> RuleExprV {
    RuleExprV::Verdict { verdict }
}

/// The expressions appended by asserting a family and matching an address.
pub open spec fn ip_match(end: End, ip: IpAddress) -> Seq<RuleExprV> {
    seq![e_l3(ip.spec_family()), e_addr(end, ip)]
}

/// The expressions appended by asserting a family and matching a network.
pub open spec fn net_match(end: End, net: IpNetwork) -> Seq<RuleExprV> {
    seq![e_l3(net.spec_family()), e_net(end, net)]
}

/// The expressions appended by asserting a transport protocol and matching
/// a port.
pub open spec fn port_match(end: End, protocol: TransportProtocol, port: u16) -> Seq<RuleExprV> {
    seq![e_l4(l4_of(protocol)), e_port(end, protocol, port)]
}

/// The expressions appended by matching both address and port of an
/// endpoint.
pub open spec fn endpoint_match(end: End, endpoint: Endpoint) -> Seq<RuleExprV> {
    ip_match(end, endpoint.address) + port_match(end, endpoint.protocol, endpoint.port)
}

/// Appends an interface match to the rule.
pub fn check_iface(rule: &mut Rule, direction: Direction, iface: &str)
    ensures
        final(rule)@.exprs =~= old(rule)@.exprs.push(e_iface(direction, iface@)),
{
    rule.add_expr(RuleExpr::MatchInterface { direction, name: iface.to_owned() });
}

/// Appends a network-layer family assertion for the given address family.
pub fn check_l3proto(rule: &mut Rule, family: AddressFamily)
    ensures
        final(rule)@.exprs =~= old(rule)@.exprs.push(e_l3(family)),
{
    rule.add_expr(RuleExpr::MatchL3Proto { family });
}

/// Appends a transport-layer protocol assertion.
pub fn check_l4proto(rule: &mut Rule, protocol: L4Protocol)
    ensures
        final(rule)@.exprs =~= old(rule)@.exprs.push(e_l4(protocol)),
{
    rule.add_expr(RuleExpr::MatchL4Proto { protocol });
}

/// Appends an address match; the family is asserted first, because the
/// address payload field cannot be read before it.
pub fn check_ip(rule: &mut Rule, end: End, ip: IpAddress)
    ensures
        final(rule)@.exprs =~= old(rule)@.exprs + ip_match(end, ip),
{
    check_l3proto(rule, ip.family());
    rule.add_expr(RuleExpr::MatchAddr { end, ip });
}

/// Appends a network match; the family is asserted first.
pub fn check_net(rule: &mut Rule, end: End, net: IpNetwork)
    ensures
        final(rule)@.exprs =~= old(rule)@.exprs + net_match(end, net),
{
    check_l3proto(rule, net.family());
    rule.add_expr(RuleExpr::MatchNet { end, net });
}

/// Appends a port match; the transport protocol is asserted first, because
/// the port payload field cannot be read before it.
pub fn check_port(rule: &mut Rule, protocol: TransportProtocol, end: End, port: u16)
    ensures
        final(rule)@.exprs =~= old(rule)@.exprs + port_match(end, protocol, port),
{
    let l4 = match protocol {
        TransportProtocol::Udp => L4Protocol::Udp,
        TransportProtocol::Tcp => L4Protocol::Tcp,
    };
    check_l4proto(rule, l4);
    rule.add_expr(RuleExpr::MatchPort { end, protocol, port });
}

/// Appends address and port matches for one endpoint.
pub fn check_endpoint(rule: &mut Rule, end: End, endpoint: &Endpoint)
    ensures
        final(rule)@.exprs =~= old(rule)@.exprs + endpoint_match(end, *endpoint),
{
    check_ip(rule, end, endpoint.address);
    check_port(rule, endpoint.protocol, end, endpoint.port);
}

/// Appends the final verdict of a rule.
pub fn add_verdict(rule: &mut Rule, verdict: Verdict)
    ensures
        final(rule)@.exprs =~= old(rule)@.exprs.push(e_verdict(verdict)),
{
    rule.add_expr(RuleExpr::Verdict { verdict });
}

} // verus!

verus! {

/// An ICMPv6 type-field match.
pub open spec fn e_icmp6_type(icmp_type: u8) -> RuleExprV {
    RuleExprV::MatchIcmpv6Type { icmp_type }
}

/// An ICMPv6 code-field match.
pub open spec fn e_icmp6_code(code: u8) -> RuleExprV {
    RuleExprV::MatchIcmpv6Code { code }
}

/// A connection-tracking state match.
pub open spec fn e_ct() -> RuleExprV {
    RuleExprV::MatchCtStateEstablished
}

/// The ICMP flavor that pings an address of the given family.
pub open spec fn icmp_l4_of(ip: IpAddress) -> L4Protocol {
    match ip {
        IpAddress::V4(_) => L4Protocol::Icmp,
        IpAddress::V6(_) => L4Protocol::Icmpv6,
    }
}

/// Accept everything on one interface, in one direction.
pub open spec fn iface_rule(direction: Direction, name: Seq<char>) -> RuleV {
    RuleV { exprs: seq![e_iface(direction, name), e_verdict(Verdict::Accept)] }
}

/// Accept outgoing DHCPv4 requests: client port to the broadcast
/// address and server port.
pub open spec fn dhcpv4_out_rule() -> RuleV {
    RuleV {
        exprs: port_match(End::Src, TransportProtocol::Udp, DHCPV4_CLIENT_PORT) + ip_match(
            End::Dst,
            IpAddress::V4(Ipv4Address { bits: 0xffff_ffffu32 }),
        ) + port_match(End::Dst, TransportProtocol::Udp, DHCPV4_SERVER_PORT) + seq![
            e_verdict(Verdict::Accept),
        ],
    }
}

/// Accept incoming DHCPv4 responses: server port to client port.
pub open spec fn dhcpv4_in_rule() -> RuleV {
    RuleV {
        exprs: port_match(End::Src, TransportProtocol::Udp, DHCPV4_SERVER_PORT) + port_match(
            End::Dst,
            TransportProtocol::Udp,
            DHCPV4_CLIENT_PORT,
        ) + seq![e_verdict(Verdict::Accept)],
    }
}

/// Accept outgoing DHCPv6 requests: link-local source to one well-known
/// server address.
pub open spec fn dhcpv6_out_rule(server: Ipv6Address) -> RuleV {
    RuleV {
        exprs: net_match(End::Src, spec_ipv6_link_local()) + port_match(
            End::Src,
            TransportProtocol::Udp,
            DHCPV6_CLIENT_PORT,
        ) + ip_match(End::Dst, IpAddress::V6(server)) + port_match(
            End::Dst,
            TransportProtocol::Udp,
            DHCPV6_SERVER_PORT,
        ) + seq![e_verdict(Verdict::Accept)],
    }
}

/// Accept incoming DHCPv6 responses between link-local addresses.
pub open spec fn dhcpv6_in_rule() -> RuleV {
    RuleV {
        exprs: net_match(End::Src, spec_ipv6_link_local()) + port_match(
            End::Src,
            TransportProtocol::Udp,
            DHCPV6_SERVER_PORT,
        ) + net_match(End::Dst, spec_ipv6_link_local()) + port_match(
            End::Dst,
            TransportProtocol::Udp,
            DHCPV6_CLIENT_PORT,
        ) + seq![e_verdict(Verdict::Accept)],
    }
}

/// Accept outgoing router solicitations to the all-routers address.
pub open spec fn router_solicitation_rule() -> RuleV {
    RuleV {
        exprs: ip_match(End::Dst, IpAddress::V6(spec_all_routers_addr())) + seq![
            e_l4(L4Protocol::Icmpv6),
            e_icmp6_type(ROUTER_SOLICITATION_TYPE),
            e_icmp6_code(0u8),
            e_verdict(Verdict::Accept),
        ],
    }
}

/// Accept an incoming neighbor-discovery message of the given type from a
/// link-local source.
pub open spec fn ndp_in_rule(icmp_type: u8) -> RuleV {
    RuleV {
        exprs: net_match(End::Src, spec_ipv6_link_local()) + seq![
            e_l4(L4Protocol::Icmpv6),
            e_icmp6_type(icmp_type),
            e_icmp6_code(0u8),
            e_verdict(Verdict::Accept),
        ],
    }
}

/// Accept incoming traffic from the peer endpoint, restricted to
/// established connection-tracking state.
pub open spec fn endpoint_in_rule(endpoint: Endpoint) -> RuleV {
    RuleV { exprs: endpoint_match(End::Src, endpoint) + seq![e_ct(), e_verdict(Verdict::Accept)] }
}

/// Accept outgoing traffic to the peer endpoint.
pub open spec fn endpoint_out_rule(endpoint: Endpoint) -> RuleV {
    RuleV { exprs: endpoint_match(End::Dst, endpoint) + seq![e_verdict(Verdict::Accept)] }
}

/// Accept outgoing pings to one pingable host.
pub open spec fn icmp_host_out_rule(ip: IpAddress) -> RuleV {
    RuleV {
        exprs: ip_match(End::Dst, ip) + seq![e_l4(icmp_l4_of(ip)), e_verdict(Verdict::Accept)],
    }
}

/// Accept incoming ping replies from one pingable host.
pub open spec fn icmp_host_in_rule(ip: IpAddress) -> RuleV {
    RuleV {
        exprs: ip_match(End::Src, ip) + seq![e_l4(icmp_l4_of(ip)), e_verdict(Verdict::Accept)],
    }
}

/// Accept outgoing DNS traffic over the tunnel interface to one gateway
/// address.
pub open spec fn allow_dns_rule(
    interface: Seq<char>,
    protocol: TransportProtocol,
    host: IpAddress,
) -> RuleV {
    RuleV {
        exprs: seq![e_iface(Direction::Out, interface)] + port_match(End::Dst, protocol, 53u16)
            + ip_match(End::Dst, host) + seq![e_verdict(Verdict::Accept)],
    }
}

/// Drop all other outgoing DNS traffic; placed after the accept rules so
/// the specific exception is evaluated first.
pub open spec fn block_dns_rule(protocol: TransportProtocol) -> RuleV {
    RuleV { exprs: port_match(End::Dst, protocol, 53u16) + seq![e_verdict(Verdict::Drop)] }
}

/// Accept all traffic to or from one reserved network.
pub open spec fn net_accept_rule(end: End, net: IpNetwork) -> RuleV {
    RuleV { exprs: net_match(end, net) + seq![e_verdict(Verdict::Accept)] }
}

/// Builds the rule accepting everything on one interface.
pub fn allow_interface_rule(direction: Direction, iface: &str) -> (r: Rule)
    ensures
        r@ =~= iface_rule(direction, iface@),
{
    let mut rule = Rule::new();
    check_iface(&mut rule, direction, iface);
    add_verdict(&mut rule, Verdict::Accept);
    proof {
        assert(rule@.exprs =~= iface_rule(direction, iface@).exprs);
        assert(rule@ =~= iface_rule(direction, iface@)) by {
            assert(rule@.exprs == iface_rule(direction, iface@).exprs);
        }
    }
    rule
}

} // verus!

verus! {

/// The baseline rules of the out chain, present in every policy.
pub open spec fn baseline_out_rules() -> Seq<RuleV> {
    seq![
        iface_rule(Direction::Out, "lo"@),
        dhcpv4_out_rule(),
        dhcpv6_out_rule(spec_dhcpv6_server_addrs()[0]),
        dhcpv6_out_rule(spec_dhcpv6_server_addrs()[1]),
        router_solicitation_rule(),
    ]
}

/// The baseline rules of the in chain, present in every policy.
pub open spec fn baseline_in_rules() -> Seq<RuleV> {
    seq![
        iface_rule(Direction::In, "lo"@),
        dhcpv4_in_rule(),
        dhcpv6_in_rule(),
        ndp_in_rule(ROUTER_ADVERTISEMENT_TYPE),
        ndp_in_rule(REDIRECT_TYPE),
    ]
}

/// The outgoing ping rules for the pingable hosts, one per host in order.
pub open spec fn icmp_out_rules(hosts: Seq<IpAddress>) -> Seq<RuleV> {
    hosts.map_values(|ip: IpAddress| icmp_host_out_rule(ip))
}

/// The incoming ping rules for the pingable hosts, one per host in order.
pub open spec fn icmp_in_rules(hosts: Seq<IpAddress>) -> Seq<RuleV> {
    hosts.map_values(|ip: IpAddress| icmp_host_in_rule(ip))
}

/// The DNS rules of the out chain for one transport protocol: accept DNS
/// to each tunnel gateway over the tunnel interface, then drop all other
/// DNS.
pub open spec fn dns_out_rules(tunnel: TunnelMetadataV, protocol: TransportProtocol) -> Seq<
    RuleV,
> {
    match tunnel.ipv6_gateway {
        Some(gateway6) => seq![
            allow_dns_rule(tunnel.interface, protocol, IpAddress::V4(tunnel.ipv4_gateway)),
            allow_dns_rule(tunnel.interface, protocol, IpAddress::V6(gateway6)),
            block_dns_rule(protocol),
        ],
        None => seq![
            allow_dns_rule(tunnel.interface, protocol, IpAddress::V4(tunnel.ipv4_gateway)),
            block_dns_rule(protocol),
        ],
    }
}

/// The variant-specific rules of the out chain.
pub open spec fn policy_out_rules(p: FirewallPolicyV) -> Seq<RuleV> {
    match p {
        FirewallPolicyV::Connecting { peer_endpoint, pingable_hosts, .. } => icmp_out_rules(
            pingable_hosts,
        ) + seq![endpoint_out_rule(peer_endpoint)],
        FirewallPolicyV::Connected { peer_endpoint, tunnel, .. } => seq![
            endpoint_out_rule(peer_endpoint),
        ] + dns_out_rules(tunnel, TransportProtocol::Udp) + dns_out_rules(
            tunnel,
            TransportProtocol::Tcp,
        ) + seq![iface_rule(Direction::Out, tunnel.interface)],
        FirewallPolicyV::Blocked { .. } => Seq::empty(),
    }
}

/// The variant-specific rules of the in chain.
pub open spec fn policy_in_rules(p: FirewallPolicyV) -> Seq<RuleV> {
    match p {
        FirewallPolicyV::Connecting { peer_endpoint, pingable_hosts, .. } => icmp_in_rules(
            pingable_hosts,
        ) + seq![endpoint_in_rule(peer_endpoint)],
        FirewallPolicyV::Connected { peer_endpoint, tunnel, .. } => seq![
            endpoint_in_rule(peer_endpoint),
            iface_rule(Direction::In, tunnel.interface),
        ],
        FirewallPolicyV::Blocked { .. } => Seq::empty(),
    }
}

/// The LAN rules of the out chain: present exactly when LAN traffic is
/// allowed.
pub open spec fn lan_out_rules(allow_lan: bool) -> Seq<RuleV> {
    if allow_lan {
        spec_allowed_lan_nets().map_values(|n: IpNetwork| net_accept_rule(End::Dst, n))
            + spec_allowed_lan_multicast_nets().map_values(
            |n: IpNetwork| net_accept_rule(End::Dst, n),
        )
    } else {
        Seq::empty()
    }
}

/// The LAN rules of the in chain: present exactly when LAN traffic is
/// allowed.
pub open spec fn lan_in_rules(allow_lan: bool) -> Seq<RuleV> {
    if allow_lan {
        spec_allowed_lan_nets().map_values(|n: IpNetwork| net_accept_rule(End::Src, n))
    } else {
        Seq::empty()
    }
}

/// The complete rule sequence of the out chain for one policy.
pub open spec fn out_chain_rules(p: FirewallPolicyV) -> Seq<RuleV> {
    baseline_out_rules() + policy_out_rules(p) + lan_out_rules(p.spec_allow_lan())
}

/// The complete rule sequence of the in chain for one policy.
pub open spec fn in_chain_rules(p: FirewallPolicyV) -> Seq<RuleV> {
    baseline_in_rules() + policy_in_rules(p) + lan_in_rules(p.spec_allow_lan())
}

/// The complete compiled rule set for one policy: two chains, both with a
/// default-drop policy.
pub open spec fn spec_compile(p: FirewallPolicyV) -> FinalizedBatchV {
    FinalizedBatchV {
        out_chain: ChainV {
            hook: Direction::Out,
            default_policy: Verdict::Drop,
            rules: out_chain_rules(p),
        },
        in_chain: ChainV {
            hook: Direction::In,
            default_policy: Verdict::Drop,
            rules: in_chain_rules(p),
        },
    }
}

/// A rule batch under construction: the two chains the compiled rules are
/// appended to.
pub struct PolicyBatch {
    pub out_chain: Chain,
    pub in_chain: Chain,
}

/// The mathematical model of a batch under construction.
#[verifier::ext_equal]
pub struct PolicyBatchV {
    pub out_chain: ChainV,
    pub in_chain: ChainV,
}

impl View for PolicyBatch {
    type V = PolicyBatchV;

    open spec fn view(&self) -> PolicyBatchV {
        PolicyBatchV { out_chain: self.out_chain@, in_chain: self.in_chain@ }
    }
}

/// A finished rule set, ready to be handed to the packet-filter backend as
/// one atomic replace.
#[derive(Clone, Debug, PartialEq, Eq, Hash)]
pub struct FinalizedBatch {
    pub out_chain: Chain,
    pub in_chain: Chain,
}

/// The mathematical model of a finished rule set.
#[verifier::ext_equal]
pub struct FinalizedBatchV {
    pub out_chain: ChainV,
    pub in_chain: ChainV,
}

impl View for FinalizedBatch {
    type V = FinalizedBatchV;

    open spec fn view(&self) -> FinalizedBatchV {
        FinalizedBatchV { out_chain: self.out_chain@, in_chain: self.in_chain@ }
    }
}

/// How one compilation step extends a batch: the hooks and default
/// policies stand, and each chain grows by the given rules at the end.
pub open spec fn batch_extends(
    pre: PolicyBatchV,
    post: PolicyBatchV,
    out_add: Seq<RuleV>,
    in_add: Seq<RuleV>,
) -> bool {
    &&& post.out_chain.hook == pre.out_chain.hook
    &&& post.out_chain.default_policy == pre.out_chain.default_policy
    &&& post.out_chain.rules =~= pre.out_chain.rules + out_add
    &&& post.in_chain.hook == pre.in_chain.hook
    &&& post.in_chain.default_policy == pre.in_chain.default_policy
    &&& post.in_chain.rules =~= pre.in_chain.rules + in_add
}

/// Mapping a one-longer prefix appends the image of the next element.
pub proof fn lemma_map_values_take_succ<A, B>(s: Seq<A>, f: spec_fn(A) -> B, i: int)
    requires
        0 <= i < s.len(),
    ensures
        s.take(i + 1).map_values(f) =~= s.take(i).map_values(f).push(f(s[i])),
{
}

} // verus!

verus! {

impl PolicyBatch {
    /// Bootstraps a new batch: two empty chains hooked into each
    /// direction, both with a default-drop policy.
    pub fn new() -> (r: PolicyBatch)
        ensures
            r@.out_chain.hook == Direction::Out,
            r@.out_chain.default_policy == Verdict::Drop,
            r@.out_chain.rules =~= Seq::<RuleV>::empty(),
            r@.in_chain.hook == Direction::In,
            r@.in_chain.default_policy == Verdict::Drop,
            r@.in_chain.rules =~= Seq::<RuleV>::empty(),
    {
        PolicyBatch {
            out_chain: Chain::new(Direction::Out, Verdict::Drop),
            in_chain: Chain::new(Direction::In, Verdict::Drop),
        }
    }

    /// Adds the rules that accept all traffic on the loopback interface.
    pub fn add_loopback_rules(&mut self)
        ensures
            batch_extends(
                old(self)@,
                final(self)@,
                seq![iface_rule(Direction::Out, "lo"@)],
                seq![iface_rule(Direction::In, "lo"@)],
            ),
    {
        let out_rule = allow_interface_rule(Direction::Out, "lo");
        self.out_chain.add_rule(out_rule);
        let in_rule = allow_interface_rule(Direction::In, "lo");
        self.in_chain.add_rule(in_rule);
    }

    /// Adds the DHCPv4, DHCPv6 and neighbor-discovery baseline rules.
    pub fn add_dhcp_rules(&mut self)
        ensures
            batch_extends(
                old(self)@,
                final(self)@,
                seq![
                    dhcpv4_out_rule(),
                    dhcpv6_out_rule(spec_dhcpv6_server_addrs()[0]),
                    dhcpv6_out_rule(spec_dhcpv6_server_addrs()[1]),
                    router_solicitation_rule(),
                ],
                seq![
                    dhcpv4_in_rule(),
                    dhcpv6_in_rule(),
                    ndp_in_rule(ROUTER_ADVERTISEMENT_TYPE),
                    ndp_in_rule(REDIRECT_TYPE),
                ],
            ),
    {
        let mut out_v4 = Rule::new();
        check_port(&mut out_v4, TransportProtocol::Udp, End::Src, DHCPV4_CLIENT_PORT);
        check_ip(&mut out_v4, End::Dst, IpAddress::V4(Ipv4Address::broadcast()));
        check_port(&mut out_v4, TransportProtocol::Udp, End::Dst, DHCPV4_SERVER_PORT);
        add_verdict(&mut out_v4, Verdict::Accept);
        proof {
            assert(out_v4@ =~= dhcpv4_out_rule());
        }
        self.out_chain.add_rule(out_v4);

        let mut in_v4 = Rule::new();
        check_port(&mut in_v4, TransportProtocol::Udp, End::Src, DHCPV4_SERVER_PORT);
        check_port(&mut in_v4, TransportProtocol::Udp, End::Dst, DHCPV4_CLIENT_PORT);
        add_verdict(&mut in_v4, Verdict::Accept);
        proof {
            assert(in_v4@ =~= dhcpv4_in_rule());
        }
        self.in_chain.add_rule(in_v4);

        let dhcpv6_servers = dhcpv6_server_addrs();
        let mut i: usize = 0;
        while i < dhcpv6_servers.len()
            invariant
                dhcpv6_servers@ =~= spec_dhcpv6_server_addrs(),
                i <= dhcpv6_servers.len(),
                batch_extends(
                    old(self)@,
                    self@,
                    seq![dhcpv4_out_rule()] + spec_dhcpv6_server_addrs().take(i as int).map_values(
                        |s: Ipv6Address| dhcpv6_out_rule(s),
                    ),
                    seq![dhcpv4_in_rule()],
                ),
            decreases dhcpv6_servers.len() - i,
        {
            let server = dhcpv6_servers[i];
            let mut out_v6 = Rule::new();
            check_net(&mut out_v6, End::Src, ipv6_link_local());
            check_port(&mut out_v6, TransportProtocol::Udp, End::Src, DHCPV6_CLIENT_PORT);
            check_ip(&mut out_v6, End::Dst, IpAddress::V6(server));
            check_port(&mut out_v6, TransportProtocol::Udp, End::Dst, DHCPV6_SERVER_PORT);
            add_verdict(&mut out_v6, Verdict::Accept);
            proof {
                assert(out_v6@ =~= dhcpv6_out_rule(server));
                lemma_map_values_take_succ(
                    spec_dhcpv6_server_addrs(),
                    |s: Ipv6Address| dhcpv6_out_rule(s),
                    i as int,
                );
            }
            self.out_chain.add_rule(out_v6);
            i = i + 1;
        }
        proof {
            assert(spec_dhcpv6_server_addrs().take(2) =~= spec_dhcpv6_server_addrs());
            assert(spec_dhcpv6_server_addrs().map_values(|s: Ipv6Address| dhcpv6_out_rule(s))
                =~= seq![
                dhcpv6_out_rule(spec_dhcpv6_server_addrs()[0]),
                dhcpv6_out_rule(spec_dhcpv6_server_addrs()[1]),
            ]);
        }

        let mut in_v6 = Rule::new();
        check_net(&mut in_v6, End::Src, ipv6_link_local());
        check_port(&mut in_v6, TransportProtocol::Udp, End::Src, DHCPV6_SERVER_PORT);
        check_net(&mut in_v6, End::Dst, ipv6_link_local());
        check_port(&mut in_v6, TransportProtocol::Udp, End::Dst, DHCPV6_CLIENT_PORT);
        add_verdict(&mut in_v6, Verdict::Accept);
        proof {
            assert(in_v6@ =~= dhcpv6_in_rule());
        }
        self.in_chain.add_rule(in_v6);

        // Outgoing router solicitation (part of neighbor discovery).
        let mut rs_rule = Rule::new();
        check_ip(&mut rs_rule, End::Dst, IpAddress::V6(all_routers_addr()));
        check_l4proto(&mut rs_rule, L4Protocol::Icmpv6);
        rs_rule.add_expr(RuleExpr::MatchIcmpv6Type { icmp_type: ROUTER_SOLICITATION_TYPE });
        rs_rule.add_expr(RuleExpr::MatchIcmpv6Code { code: 0u8 });
        add_verdict(&mut rs_rule, Verdict::Accept);
        proof {
            assert(rs_rule@ =~= router_solicitation_rule());
        }
        self.out_chain.add_rule(rs_rule);

        // Incoming router advertisement and redirect (part of neighbor
        // discovery).
        let advert_rule = self.ndp_in_exec(ROUTER_ADVERTISEMENT_TYPE);
        self.in_chain.add_rule(advert_rule);
        let redirect_rule = self.ndp_in_exec(REDIRECT_TYPE);
        self.in_chain.add_rule(redirect_rule);
    }

    /// Builds the rule accepting an incoming neighbor-discovery message of
    /// the given type from a link-local source.
    fn ndp_in_exec(&self, icmp_type: u8) -> (r: Rule)
        ensures
            r@ =~= ndp_in_rule(icmp_type),
    {
        let mut rule = Rule::new();
        check_net(&mut rule, End::Src, ipv6_link_local());
        check_l4proto(&mut rule, L4Protocol::Icmpv6);
        rule.add_expr(RuleExpr::MatchIcmpv6Type { icmp_type });
        rule.add_expr(RuleExpr::MatchIcmpv6Code { code: 0u8 });
        add_verdict(&mut rule, Verdict::Accept);
        rule
    }
}

} // verus!

verus! {

impl PolicyBatch {
    /// Adds the rules that allow traffic to and from the peer endpoint;
    /// inbound traffic is additionally restricted to established
    /// connection-tracking state.
    pub fn add_allow_endpoint_rules(&mut self, endpoint: &Endpoint)
        ensures
            batch_extends(
                old(self)@,
                final(self)@,
                seq![endpoint_out_rule(*endpoint)],
                seq![endpoint_in_rule(*endpoint)],
            ),
    {
        let mut in_rule = Rule::new();
        check_endpoint(&mut in_rule, End::Src, endpoint);
        in_rule.add_expr(RuleExpr::MatchCtStateEstablished);
        add_verdict(&mut in_rule, Verdict::Accept);
        proof {
            assert(in_rule@ =~= endpoint_in_rule(*endpoint));
        }
        self.in_chain.add_rule(in_rule);

        let mut out_rule = Rule::new();
        check_endpoint(&mut out_rule, End::Dst, endpoint);
        add_verdict(&mut out_rule, Verdict::Accept);
        proof {
            assert(out_rule@ =~= endpoint_out_rule(*endpoint));
        }
        self.out_chain.add_rule(out_rule);
    }

    /// Adds the rules that allow pings to and from each pingable host,
    /// one pair of rules per host in order.
    pub fn add_allow_icmp_pingable_hosts(&mut self, pingable_hosts: &Vec<IpAddress>)
        ensures
            batch_extends(
                old(self)@,
                final(self)@,
                icmp_out_rules(pingable_hosts@),
                icmp_in_rules(pingable_hosts@),
            ),
    {
        let ghost pre = self@;
        let mut i: usize = 0;
        while i < pingable_hosts.len()
            invariant
                i <= pingable_hosts.len(),
                batch_extends(
                    pre,
                    self@,
                    icmp_out_rules(pingable_hosts@.take(i as int)),
                    icmp_in_rules(pingable_hosts@.take(i as int)),
                ),
            decreases pingable_hosts.len() - i,
        {
            let host = pingable_hosts[i];
            let icmp_proto = match host {
                IpAddress::V4(_) => L4Protocol::Icmp,
                IpAddress::V6(_) => L4Protocol::Icmpv6,
            };

            let mut out_rule = Rule::new();
            check_ip(&mut out_rule, End::Dst, host);
            check_l4proto(&mut out_rule, icmp_proto);
            add_verdict(&mut out_rule, Verdict::Accept);
            proof {
                assert(out_rule@ =~= icmp_host_out_rule(host));
                lemma_map_values_take_succ(
                    pingable_hosts@,
                    |ip: IpAddress| icmp_host_out_rule(ip),
                    i as int,
                );
            }
            self.out_chain.add_rule(out_rule);

            let mut in_rule = Rule::new();
            check_ip(&mut in_rule, End::Src, host);
            check_l4proto(&mut in_rule, icmp_proto);
            add_verdict(&mut in_rule, Verdict::Accept);
            proof {
                assert(in_rule@ =~= icmp_host_in_rule(host));
                lemma_map_values_take_succ(
                    pingable_hosts@,
                    |ip: IpAddress| icmp_host_in_rule(ip),
                    i as int,
                );
            }
            self.in_chain.add_rule(in_rule);
            i = i + 1;
        }
        proof {
            assert(pingable_hosts@.take(pingable_hosts@.len() as int) =~= pingable_hosts@);
        }
    }

    /// Adds the DNS rules for one transport protocol: allow DNS to the
    /// tunnel gateways over the tunnel interface, then drop all other DNS;
    /// the allow rules stand first so the exception is evaluated first.
    pub fn add_dns_rule(&mut self, tunnel: &TunnelMetadata, protocol: TransportProtocol)
        ensures
            batch_extends(
                old(self)@,
                final(self)@,
                dns_out_rules(tunnel@, protocol),
                Seq::<RuleV>::empty(),
            ),
    {
        self.add_allow_dns_rule(
            &tunnel.interface,
            protocol,
            IpAddress::V4(tunnel.ipv4_gateway),
        );
        if let Some(ipv6_gateway) = tunnel.ipv6_gateway {
            self.add_allow_dns_rule(&tunnel.interface, protocol, IpAddress::V6(ipv6_gateway));
        }
        let mut block_rule = Rule::new();
        check_port(&mut block_rule, protocol, End::Dst, 53);
        add_verdict(&mut block_rule, Verdict::Drop);
        proof {
            assert(block_rule@ =~= block_dns_rule(protocol));
        }
        self.out_chain.add_rule(block_rule);
    }

    /// Adds one rule accepting outgoing DNS traffic over the given
    /// interface to the given host.
    pub fn add_allow_dns_rule(&mut self, interface: &str, protocol: TransportProtocol, host: IpAddress)
        ensures
            batch_extends(
                old(self)@,
                final(self)@,
                seq![allow_dns_rule(interface@, protocol, host)],
                Seq::<RuleV>::empty(),
            ),
    {
        let mut allow_rule = Rule::new();
        check_iface(&mut allow_rule, Direction::Out, interface);
        check_port(&mut allow_rule, protocol, End::Dst, 53);
        check_ip(&mut allow_rule, End::Dst, host);
        add_verdict(&mut allow_rule, Verdict::Accept);
        proof {
            assert(allow_rule@ =~= allow_dns_rule(interface@, protocol, host));
        }
        self.out_chain.add_rule(allow_rule);
    }

    /// Adds the rules accepting all traffic on the tunnel interface, in
    /// both directions.
    pub fn add_allow_tunnel_rules(&mut self, tunnel: &TunnelMetadata)
        ensures
            batch_extends(
                old(self)@,
                final(self)@,
                seq![iface_rule(Direction::Out, tunnel@.interface)],
                seq![iface_rule(Direction::In, tunnel@.interface)],
            ),
    {
        let out_rule = allow_interface_rule(Direction::Out, &tunnel.interface);
        self.out_chain.add_rule(out_rule);
        let in_rule = allow_interface_rule(Direction::In, &tunnel.interface);
        self.in_chain.add_rule(in_rule);
    }

    /// Adds the rules that open the reserved LAN networks in both
    /// directions, and the LAN multicast ranges outbound only.
    pub fn add_allow_lan_rules(&mut self)
        ensures
            batch_extends(old(self)@, final(self)@, lan_out_rules(true), lan_in_rules(true)),
    {
        let ghost pre = self@;
        let lan_nets = allowed_lan_nets();
        let mut i: usize = 0;
        while i < lan_nets.len()
            invariant
                lan_nets@ =~= spec_allowed_lan_nets(),
                i <= lan_nets.len(),
                batch_extends(
                    pre,
                    self@,
                    spec_allowed_lan_nets().take(i as int).map_values(
                        |n: IpNetwork| net_accept_rule(End::Dst, n),
                    ),
                    spec_allowed_lan_nets().take(i as int).map_values(
                        |n: IpNetwork| net_accept_rule(End::Src, n),
                    ),
                ),
            decreases lan_nets.len() - i,
        {
            let net = lan_nets[i];
            let mut out_rule = Rule::new();
            check_net(&mut out_rule, End::Dst, net);
            add_verdict(&mut out_rule, Verdict::Accept);
            proof {
                assert(out_rule@ =~= net_accept_rule(End::Dst, net));
                lemma_map_values_take_succ(
                    spec_allowed_lan_nets(),
                    |n: IpNetwork| net_accept_rule(End::Dst, n),
                    i as int,
                );
            }
            self.out_chain.add_rule(out_rule);

            let mut in_rule = Rule::new();
            check_net(&mut in_rule, End::Src, net);
            add_verdict(&mut in_rule, Verdict::Accept);
            proof {
                assert(in_rule@ =~= net_accept_rule(End::Src, net));
                lemma_map_values_take_succ(
                    spec_allowed_lan_nets(),
                    |n: IpNetwork| net_accept_rule(End::Src, n),
                    i as int,
                );
            }
            self.in_chain.add_rule(in_rule);
            i = i + 1;
        }
        proof {
            assert(spec_allowed_lan_nets().take(spec_allowed_lan_nets().len() as int)
                =~= spec_allowed_lan_nets());
        }

        let ghost mid = self@;
        let multicast_nets = allowed_lan_multicast_nets();
        let mut j: usize = 0;
        while j < multicast_nets.len()
            invariant
                multicast_nets@ =~= spec_allowed_lan_multicast_nets(),
                j <= multicast_nets.len(),
                batch_extends(
                    mid,
                    self@,
                    spec_allowed_lan_multicast_nets().take(j as int).map_values(
                        |n: IpNetwork| net_accept_rule(End::Dst, n),
                    ),
                    Seq::<RuleV>::empty(),
                ),
            decreases multicast_nets.len() - j,
        {
            let net = multicast_nets[j];
            let mut rule = Rule::new();
            check_net(&mut rule, End::Dst, net);
            add_verdict(&mut rule, Verdict::Accept);
            proof {
                assert(rule@ =~= net_accept_rule(End::Dst, net));
                lemma_map_values_take_succ(
                    spec_allowed_lan_multicast_nets(),
                    |n: IpNetwork| net_accept_rule(End::Dst, n),
                    j as int,
                );
            }
            self.out_chain.add_rule(rule);
            j = j + 1;
        }
        proof {
            assert(spec_allowed_lan_multicast_nets().take(
                spec_allowed_lan_multicast_nets().len() as int,
            ) =~= spec_allowed_lan_multicast_nets());
        }
    }

    /// Adds the variant-specific rules of the policy, then the LAN rules
    /// when the policy allows LAN traffic.
    pub fn add_policy_specific_rules(&mut self, policy: &FirewallPolicy)
        ensures
            batch_extends(
                old(self)@,
                final(self)@,
                policy_out_rules(policy@) + lan_out_rules(policy@.spec_allow_lan()),
                policy_in_rules(policy@) + lan_in_rules(policy@.spec_allow_lan()),
            ),
    {
        let allow_lan = match policy {
            FirewallPolicy::Connecting { peer_endpoint, pingable_hosts, allow_lan } => {
                self.add_allow_icmp_pingable_hosts(pingable_hosts);
                self.add_allow_endpoint_rules(peer_endpoint);
                *allow_lan
            },
            FirewallPolicy::Connected { peer_endpoint, tunnel, allow_lan } => {
                self.add_allow_endpoint_rules(peer_endpoint);
                self.add_dns_rule(tunnel, TransportProtocol::Udp);
                self.add_dns_rule(tunnel, TransportProtocol::Tcp);
                self.add_allow_tunnel_rules(tunnel);
                *allow_lan
            },
            FirewallPolicy::Blocked { allow_lan } => *allow_lan,
        };

        if allow_lan {
            self.add_allow_lan_rules();
        }
    }

    /// Finalizes the batch by adding every rule the given policy calls
    /// for: baseline first, then the variant-specific rules.
    pub fn finalize(self, policy: &FirewallPolicy) -> (r: FinalizedBatch)
        ensures
            r@.out_chain.hook == self@.out_chain.hook,
            r@.out_chain.default_policy == self@.out_chain.default_policy,
            r@.out_chain.rules =~= self@.out_chain.rules + out_chain_rules(policy@),
            r@.in_chain.hook == self@.in_chain.hook,
            r@.in_chain.default_policy == self@.in_chain.default_policy,
            r@.in_chain.rules =~= self@.in_chain.rules + in_chain_rules(policy@),
    {
        let mut batch = self;
        batch.add_loopback_rules();
        batch.add_dhcp_rules();
        batch.add_policy_specific_rules(policy);
        FinalizedBatch { out_chain: batch.out_chain, in_chain: batch.in_chain }
    }
}

/// Compiles the complete rule set for one policy.
pub fn compile(policy: &FirewallPolicy) -> (r: FinalizedBatch)
    ensures
        r@ =~= spec_compile(policy@),
{
    PolicyBatch::new().finalize(policy)
}

} // verus!

verus! {

/// Every rule of the sequence is well formed.
pub open spec fn rules_all_wf(s: Seq<RuleV>) -> bool {
    forall|i: int| 0 <= i < s.len() ==> crate::rules::rule_wf(#[trigger] s[i])
}

/// An unrestricted accept of a reserved LAN or LAN multicast range: the
/// shape the allow-LAN setting adds, and nothing else.
pub open spec fn is_lan_allow_rule(r: RuleV) -> bool {
    exists|end: End, n: IpNetwork|
        (spec_allowed_lan_nets().contains(n) || spec_allowed_lan_multicast_nets().contains(n))
            && r == #[trigger] net_accept_rule(end, n)
}

/// Every network an expression of the rule matches is the IPv6 link-local
/// range (the only network the mandatory baseline speaks of).
pub open spec fn rule_nets_linklocal_only(r: RuleV) -> bool {
    forall|j: int|
        0 <= j < r.exprs.len() ==> (#[trigger] r.exprs[j] matches RuleExprV::MatchNet {
            net,
            ..
        } ==> net == spec_ipv6_link_local())
}

/// A rule that neither is a LAN allow rule nor matches any network other
/// than the link-local baseline exceptions.
pub open spec fn benign_rule(r: RuleV) -> bool {
    !is_lan_allow_rule(r) && rule_nets_linklocal_only(r)
}

/// A rule whose shape differs from the LAN allow shape is no LAN allow
/// rule.
proof fn lemma_not_lan_allow(r: RuleV)
    requires
        r.exprs.len() != 3 || r.exprs[0] is MatchL4Proto,
    ensures
        !is_lan_allow_rule(r),
{
    assert forall|end: End, n: IpNetwork| r != #[trigger] net_accept_rule(end, n) by {
        if r == net_accept_rule(end, n) {
            assert(net_accept_rule(end, n).exprs.len() == 3);
            assert(net_accept_rule(end, n).exprs[0] == e_l3(n.spec_family()));
        }
    }
}

proof fn lemma_iface_rule_benign_wf(direction: Direction, name: Seq<char>)
    ensures
        crate::rules::rule_wf(iface_rule(direction, name)),
        benign_rule(iface_rule(direction, name)),
{
    reveal_with_fuel(crate::rules::scan_ok, 4);
    lemma_not_lan_allow(iface_rule(direction, name));
}

proof fn lemma_dhcpv4_out_benign_wf()
    ensures
        crate::rules::rule_wf(dhcpv4_out_rule()),
        benign_rule(dhcpv4_out_rule()),
{
    reveal_with_fuel(crate::rules::scan_ok, 9);
    lemma_not_lan_allow(dhcpv4_out_rule());
}

proof fn lemma_dhcpv4_in_benign_wf()
    ensures
        crate::rules::rule_wf(dhcpv4_in_rule()),
        benign_rule(dhcpv4_in_rule()),
{
    reveal_with_fuel(crate::rules::scan_ok, 7);
    lemma_not_lan_allow(dhcpv4_in_rule());
}

proof fn lemma_dhcpv6_out_benign_wf(server: Ipv6Address)
    ensures
        crate::rules::rule_wf(dhcpv6_out_rule(server)),
        benign_rule(dhcpv6_out_rule(server)),
{
    reveal_with_fuel(crate::rules::scan_ok, 11);
    lemma_not_lan_allow(dhcpv6_out_rule(server));
}

proof fn lemma_dhcpv6_in_benign_wf()
    ensures
        crate::rules::rule_wf(dhcpv6_in_rule()),
        benign_rule(dhcpv6_in_rule()),
{
    reveal_with_fuel(crate::rules::scan_ok, 11);
    lemma_not_lan_allow(dhcpv6_in_rule());
}

proof fn lemma_router_solicitation_benign_wf()
    ensures
        crate::rules::rule_wf(router_solicitation_rule()),
        benign_rule(router_solicitation_rule()),
{
    reveal_with_fuel(crate::rules::scan_ok, 8);
    lemma_not_lan_allow(router_solicitation_rule());
}

proof fn lemma_ndp_in_benign_wf(icmp_type: u8)
    ensures
        crate::rules::rule_wf(ndp_in_rule(icmp_type)),
        benign_rule(ndp_in_rule(icmp_type)),
{
    reveal_with_fuel(crate::rules::scan_ok, 8);
    lemma_not_lan_allow(ndp_in_rule(icmp_type));
}

proof fn lemma_endpoint_out_benign_wf(endpoint: Endpoint)
    ensures
        crate::rules::rule_wf(endpoint_out_rule(endpoint)),
        benign_rule(endpoint_out_rule(endpoint)),
{
    reveal_with_fuel(crate::rules::scan_ok, 7);
    lemma_not_lan_allow(endpoint_out_rule(endpoint));
}

proof fn lemma_endpoint_in_benign_wf(endpoint: Endpoint)
    ensures
        crate::rules::rule_wf(endpoint_in_rule(endpoint)),
        benign_rule(endpoint_in_rule(endpoint)),
{
    reveal_with_fuel(crate::rules::scan_ok, 8);
    lemma_not_lan_allow(endpoint_in_rule(endpoint));
}

proof fn lemma_icmp_host_out_benign_wf(ip: IpAddress)
    ensures
        crate::rules::rule_wf(icmp_host_out_rule(ip)),
        benign_rule(icmp_host_out_rule(ip)),
{
    reveal_with_fuel(crate::rules::scan_ok, 6);
    lemma_not_lan_allow(icmp_host_out_rule(ip));
}

proof fn lemma_icmp_host_in_benign_wf(ip: IpAddress)
    ensures
        crate::rules::rule_wf(icmp_host_in_rule(ip)),
        benign_rule(icmp_host_in_rule(ip)),
{
    reveal_with_fuel(crate::rules::scan_ok, 6);
    lemma_not_lan_allow(icmp_host_in_rule(ip));
}

proof fn lemma_allow_dns_benign_wf(interface: Seq<char>, protocol: TransportProtocol, host: IpAddress)
    ensures
        crate::rules::rule_wf(allow_dns_rule(interface, protocol, host)),
        benign_rule(allow_dns_rule(interface, protocol, host)),
{
    reveal_with_fuel(crate::rules::scan_ok, 8);
    lemma_not_lan_allow(allow_dns_rule(interface, protocol, host));
}

proof fn lemma_block_dns_benign_wf(protocol: TransportProtocol)
    ensures
        crate::rules::rule_wf(block_dns_rule(protocol)),
        benign_rule(block_dns_rule(protocol)),
{
    reveal_with_fuel(crate::rules::scan_ok, 5);
    assert(block_dns_rule(protocol).exprs[0] == e_l4(l4_of(protocol)));
    lemma_not_lan_allow(block_dns_rule(protocol));
}

proof fn lemma_net_accept_wf(end: End, net: IpNetwork)
    ensures
        crate::rules::rule_wf(net_accept_rule(end, net)),
{
    reveal_with_fuel(crate::rules::scan_ok, 5);
}

/// Every rule the compiler can emit for this policy is well formed, and
/// both chains keep their default-drop policy: the compiled rule set ends
/// with an implicit default drop, and never reads a payload field before
/// the corresponding protocol or family match.
pub proof fn lemma_compile_well_formed(p: FirewallPolicyV)
    ensures
        spec_compile(p).out_chain.default_policy == Verdict::Drop,
        spec_compile(p).in_chain.default_policy == Verdict::Drop,
        rules_all_wf(spec_compile(p).out_chain.rules),
        rules_all_wf(spec_compile(p).in_chain.rules),
{
    lemma_out_rules_benign_wf(p);
    lemma_in_rules_benign_wf(p);
}

/// Every rule of the out chain is well formed and, unless the policy
/// allows LAN traffic, benign.
proof fn lemma_out_rules_benign_wf(p: FirewallPolicyV)
    ensures
        rules_all_wf(out_chain_rules(p)),
        !p.spec_allow_lan() ==> forall|i: int|
            0 <= i < out_chain_rules(p).len() ==> benign_rule(#[trigger] out_chain_rules(p)[i]),
{
    let rules = out_chain_rules(p);
    assert forall|i: int| 0 <= i < rules.len() implies crate::rules::rule_wf(#[trigger] rules[i])
        && (!p.spec_allow_lan() ==> benign_rule(rules[i])) by {
        let base = baseline_out_rules();
        let pol = policy_out_rules(p);
        let lan = lan_out_rules(p.spec_allow_lan());
        if i < base.len() {
            assert(rules[i] == base[i]);
            lemma_iface_rule_benign_wf(Direction::Out, "lo"@);
            lemma_dhcpv4_out_benign_wf();
            lemma_dhcpv6_out_benign_wf(spec_dhcpv6_server_addrs()[0]);
            lemma_dhcpv6_out_benign_wf(spec_dhcpv6_server_addrs()[1]);
            lemma_router_solicitation_benign_wf();
        } else if i < base.len() + pol.len() {
            let k = i - base.len();
            assert(rules[i] == pol[k]);
            match p {
                FirewallPolicyV::Connecting { peer_endpoint, pingable_hosts, .. } => {
                    if k < pingable_hosts.len() {
                        assert(pol[k] == icmp_host_out_rule(pingable_hosts[k]));
                        lemma_icmp_host_out_benign_wf(pingable_hosts[k]);
                    } else {
                        assert(pol[k] == endpoint_out_rule(peer_endpoint));
                        lemma_endpoint_out_benign_wf(peer_endpoint);
                    }
                },
                FirewallPolicyV::Connected { peer_endpoint, tunnel, .. } => {
                    lemma_endpoint_out_benign_wf(peer_endpoint);
                    lemma_allow_dns_benign_wf(
                        tunnel.interface,
                        TransportProtocol::Udp,
                        IpAddress::V4(tunnel.ipv4_gateway),
                    );
                    lemma_allow_dns_benign_wf(
                        tunnel.interface,
                        TransportProtocol::Tcp,
                        IpAddress::V4(tunnel.ipv4_gateway),
                    );
                    if let Some(gateway6) = tunnel.ipv6_gateway {
                        lemma_allow_dns_benign_wf(
                            tunnel.interface,
                            TransportProtocol::Udp,
                            IpAddress::V6(gateway6),
                        );
                        lemma_allow_dns_benign_wf(
                            tunnel.interface,
                            TransportProtocol::Tcp,
                            IpAddress::V6(gateway6),
                        );
                    }
                    lemma_block_dns_benign_wf(TransportProtocol::Udp);
                    lemma_block_dns_benign_wf(TransportProtocol::Tcp);
                    lemma_iface_rule_benign_wf(Direction::Out, tunnel.interface);
                },
                FirewallPolicyV::Blocked { .. } => {},
            }
        } else {
            let k = i - base.len() - pol.len();
            assert(rules[i] == lan[k]);
            assert(p.spec_allow_lan());
            let nets = spec_allowed_lan_nets();
            let mcast = spec_allowed_lan_multicast_nets();
            if k < nets.len() {
                assert(lan[k] == net_accept_rule(End::Dst, nets[k]));
                lemma_net_accept_wf(End::Dst, nets[k]);
            } else {
                assert(lan[k] == net_accept_rule(End::Dst, mcast[k - nets.len()]));
                lemma_net_accept_wf(End::Dst, mcast[k - nets.len()]);
            }
        }
    }
}

/// Every rule of the in chain is well formed and, unless the policy
/// allows LAN traffic, benign.
proof fn lemma_in_rules_benign_wf(p: FirewallPolicyV)
    ensures
        rules_all_wf(in_chain_rules(p)),
        !p.spec_allow_lan() ==> forall|i: int|
            0 <= i < in_chain_rules(p).len() ==> benign_rule(#[trigger] in_chain_rules(p)[i]),
{
    let rules = in_chain_rules(p);
    assert forall|i: int| 0 <= i < rules.len() implies crate::rules::rule_wf(#[trigger] rules[i])
        && (!p.spec_allow_lan() ==> benign_rule(rules[i])) by {
        let base = baseline_in_rules();
        let pol = policy_in_rules(p);
        let lan = lan_in_rules(p.spec_allow_lan());
        if i < base.len() {
            assert(rules[i] == base[i]);
            lemma_iface_rule_benign_wf(Direction::In, "lo"@);
            lemma_dhcpv4_in_benign_wf();
            lemma_dhcpv6_in_benign_wf();
            lemma_ndp_in_benign_wf(ROUTER_ADVERTISEMENT_TYPE);
            lemma_ndp_in_benign_wf(REDIRECT_TYPE);
        } else if i < base.len() + pol.len() {
            let k = i - base.len();
            assert(rules[i] == pol[k]);
            match p {
                FirewallPolicyV::Connecting { peer_endpoint, pingable_hosts, .. } => {
                    if k < pingable_hosts.len() {
                        assert(pol[k] == icmp_host_in_rule(pingable_hosts[k]));
                        lemma_icmp_host_in_benign_wf(pingable_hosts[k]);
                    } else {
                        assert(pol[k] == endpoint_in_rule(peer_endpoint));
                        lemma_endpoint_in_benign_wf(peer_endpoint);
                    }
                },
                FirewallPolicyV::Connected { peer_endpoint, tunnel, .. } => {
                    lemma_endpoint_in_benign_wf(peer_endpoint);
                    lemma_iface_rule_benign_wf(Direction::In, tunnel.interface);
                },
                FirewallPolicyV::Blocked { .. } => {},
            }
        } else {
            let k = i - base.len() - pol.len();
            assert(rules[i] == lan[k]);
            assert(p.spec_allow_lan());
            let nets = spec_allowed_lan_nets();
            assert(lan[k] == net_accept_rule(End::Src, nets[k]));
            lemma_net_accept_wf(End::Src, nets[k]);
        }
    }
}

/// When the policy does not allow LAN traffic, the compiled rule set
/// holds no LAN allow rule, and no rule at all matches a reserved range
/// other than the link-local network the port-restricted DHCPv6 and
/// neighbor-discovery baseline exceptions speak of.
pub proof fn lemma_no_lan_rules_when_disallowed(p: FirewallPolicyV)
    requires
        !p.spec_allow_lan(),
    ensures
        forall|i: int|
            0 <= i < spec_compile(p).out_chain.rules.len() ==> !is_lan_allow_rule(
                #[trigger] spec_compile(p).out_chain.rules[i],
            ),
        forall|i: int|
            0 <= i < spec_compile(p).in_chain.rules.len() ==> !is_lan_allow_rule(
                #[trigger] spec_compile(p).in_chain.rules[i],
            ),
        forall|i: int, n: IpNetwork|
            0 <= i < spec_compile(p).out_chain.rules.len() && (spec_allowed_lan_nets().contains(n)
                || spec_allowed_lan_multicast_nets().contains(n)) && n != spec_ipv6_link_local()
                ==> !#[trigger] crate::rules::rule_matches_net(spec_compile(p).out_chain.rules[i], n),
        forall|i: int, n: IpNetwork|
            0 <= i < spec_compile(p).in_chain.rules.len() && (spec_allowed_lan_nets().contains(n)
                || spec_allowed_lan_multicast_nets().contains(n)) && n != spec_ipv6_link_local()
                ==> !#[trigger] crate::rules::rule_matches_net(spec_compile(p).in_chain.rules[i], n),
{
    lemma_out_rules_benign_wf(p);
    lemma_in_rules_benign_wf(p);
    assert forall|i: int, n: IpNetwork|
        0 <= i < spec_compile(p).out_chain.rules.len() && (spec_allowed_lan_nets().contains(n)
            || spec_allowed_lan_multicast_nets().contains(n)) && n != spec_ipv6_link_local()
        implies !#[trigger] crate::rules::rule_matches_net(
        spec_compile(p).out_chain.rules[i],
        n,
    ) by {
        let r = spec_compile(p).out_chain.rules[i];
        assert(benign_rule(r));
        if crate::rules::rule_matches_net(r, n) {
            let j = choose|j: int|
                0 <= j < r.exprs.len() && (#[trigger] r.exprs[j] matches RuleExprV::MatchNet {
                    net: nn,
                    ..
                } && nn == n);
            assert(r.exprs[j] matches RuleExprV::MatchNet { net, .. } ==> net
                == spec_ipv6_link_local());
        }
    }
    assert forall|i: int, n: IpNetwork|
        0 <= i < spec_compile(p).in_chain.rules.len() && (spec_allowed_lan_nets().contains(n)
            || spec_allowed_lan_multicast_nets().contains(n)) && n != spec_ipv6_link_local()
        implies !#[trigger] crate::rules::rule_matches_net(
        spec_compile(p).in_chain.rules[i],
        n,
    ) by {
        let r = spec_compile(p).in_chain.rules[i];
        assert(benign_rule(r));
        if crate::rules::rule_matches_net(r, n) {
            let j = choose|j: int|
                0 <= j < r.exprs.len() && (#[trigger] r.exprs[j] matches RuleExprV::MatchNet {
                    net: nn,
                    ..
                } && nn == n);
            assert(r.exprs[j] matches RuleExprV::MatchNet { net, .. } ==> net
                == spec_ipv6_link_local());
        }
    }
}

} // verus!
