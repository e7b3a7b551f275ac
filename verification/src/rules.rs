//! Packet-filter rule primitives.
//!
//! A rule is an ordered sequence of match expressions ending in a verdict,
//! attached to a chain with a default-drop policy. The expression order
//! matters: the packet-matching model cannot read a payload field before the
//! corresponding protocol or family has been asserted, so well-formedness of
//! that order is stated here as a spec predicate and proved of everything
//! the policy compiler emits.

use vstd::prelude::*;

use crate::net::AddressFamily;
use crate::net::IpAddress;
use crate::net::IpNetwork;
use crate::net::TransportProtocol;

verus! {

/// The traffic direction a chain hooks into.
#[derive(Clone, Copy, Debug, PartialEq, Eq, Structural, Hash)]
pub enum Direction {
    In,
    Out,
}

/// Which end of a connection an address or port match inspects.
#[derive(Clone, Copy, Debug, PartialEq, Eq, Structural, Hash)]
pub enum End {
    Src,
    Dst,
}

/// What happens to a packet that matches every expression of a rule.
#[derive(Clone, Copy, Debug, PartialEq, Eq, Structural, Hash)]
pub enum Verdict {
    Accept,
    Drop,
}

/// The transport-layer protocol asserted before a transport payload field
/// may be read.
#[derive(Clone, Copy, Debug, PartialEq, Eq, Structural, Hash)]
pub enum L4Protocol {
    Udp,
    Tcp,
    Icmp,
    Icmpv6,
}

/// The transport-layer protocol that carries a given port match.
pub open spec fn l4_of(protocol: TransportProtocol) -> L4Protocol {
    match protocol {
        TransportProtocol::Udp => L4Protocol::Udp,
        TransportProtocol::Tcp => L4Protocol::Tcp,
    }
}

/// One match or action expression of a packet-filter rule.
#[derive(Clone, Debug, PartialEq, Eq, Hash)]
pub enum RuleExpr {
    /// Match the input or output interface by name.
    MatchInterface { direction: Direction, name: String },
    /// Assert the network-layer protocol family of the packet.
    MatchL3Proto { family: AddressFamily },
    /// Assert the transport-layer protocol of the packet.
    MatchL4Proto { protocol: L4Protocol },
    /// Match a network-layer source or destination address field.
    MatchAddr { end: End, ip: IpAddress },
    /// Match a network-layer address field against a CIDR network.
    MatchNet { end: End, net: IpNetwork },
    /// Match a transport-layer source or destination port field.
    MatchPort { end: End, protocol: TransportProtocol, port: u16 },
    /// Match the ICMPv6 message type field.
    MatchIcmpv6Type { icmp_type: u8 },
    /// Match the ICMPv6 message code field.
    MatchIcmpv6Code { code: u8 },
    /// Match packets of established connection-tracking state.
    MatchCtStateEstablished,
    /// End the rule with a verdict.
    Verdict { verdict: Verdict },
}

/// The mathematical model of one rule expression; interface names are
/// character sequences.
pub enum RuleExprV {
    MatchInterface { direction: Direction, name: Seq<char> },
    MatchL3Proto { family: AddressFamily },
    MatchL4Proto { protocol: L4Protocol },
    MatchAddr { end: End, ip: IpAddress },
    MatchNet { end: End, net: IpNetwork },
    MatchPort { end: End, protocol: TransportProtocol, port: u16 },
    MatchIcmpv6Type { icmp_type: u8 },
    MatchIcmpv6Code { code: u8 },
    MatchCtStateEstablished,
    Verdict { verdict: Verdict },
}

impl View for RuleExpr {
    type V = RuleExprV;

    open spec fn view(&self) -> RuleExprV {
        match self {
            RuleExpr::MatchInterface { direction, name } => RuleExprV::MatchInterface {
                direction: *direction,
                name: name@,
            },
            RuleExpr::MatchL3Proto { family } => RuleExprV::MatchL3Proto { family: *family },
            RuleExpr::MatchL4Proto { protocol } => RuleExprV::MatchL4Proto { protocol: *protocol },
            RuleExpr::MatchAddr { end, ip } => RuleExprV::MatchAddr { end: *end, ip: *ip },
            RuleExpr::MatchNet { end, net } => RuleExprV::MatchNet { end: *end, net: *net },
            RuleExpr::MatchPort { end, protocol, port } => RuleExprV::MatchPort {
                end: *end,
                protocol: *protocol,
                port: *port,
            },
            RuleExpr::MatchIcmpv6Type { icmp_type } => RuleExprV::MatchIcmpv6Type {
                icmp_type: *icmp_type,
            },
            RuleExpr::MatchIcmpv6Code { code } => RuleExprV::MatchIcmpv6Code { code: *code },
            RuleExpr::MatchCtStateEstablished => RuleExprV::MatchCtStateEstablished,
            RuleExpr::Verdict { verdict } => RuleExprV::Verdict { verdict: *verdict },
        }
    }
}

/// The model of a sequence of rule expressions.
pub open spec fn exprs_view(s: Seq<RuleExpr>) -> Seq<RuleExprV> {
    s.map_values(|e: RuleExpr| e@)
}

/// Appending one expression appends its model.
pub broadcast proof fn lemma_exprs_view_push(s: Seq<RuleExpr>, e: RuleExpr)
    ensures
        #[trigger] exprs_view(s.push(e)) =~= exprs_view(s).push(e@),
{
}

/// One packet-filter rule: match expressions ending in a verdict.
#[derive(Clone, Debug, PartialEq, Eq, Hash)]
pub struct Rule {
    pub exprs: Vec<RuleExpr>,
}

/// The mathematical model of one rule.
#[verifier::ext_equal]
pub struct RuleV {
    pub exprs: Seq<RuleExprV>,
}

impl View for Rule {
    type V = RuleV;

    open spec fn view(&self) -> RuleV {
        RuleV { exprs: exprs_view(self.exprs@) }
    }
}

impl Rule {
    /// Starts an empty rule.
    pub fn new() -> (r: Rule)
        ensures
            r@.exprs =~= Seq::<RuleExprV>::empty(),
    {
        Rule { exprs: Vec::new() }
    }

    /// Appends one expression to the rule.
    pub fn add_expr(&mut self, e: RuleExpr)
        ensures
            final(self)@.exprs =~= old(self)@.exprs.push(e@),
    {
        proof {
            lemma_exprs_view_push(self.exprs@, e);
        }
        self.exprs.push(e);
    }
}

/// The model of a sequence of rules.
pub open spec fn rules_view(s: Seq<Rule>) -> Seq<RuleV> {
    s.map_values(|r: Rule| r@)
}

/// Appending one rule appends its model.
pub broadcast proof fn lemma_rules_view_push(s: Seq<Rule>, r: Rule)
    ensures
        #[trigger] rules_view(s.push(r)) =~= rules_view(s).push(r@),
{
}

/// One chain of rules with its hook direction and its default policy.
///
/// The default policy applies to every packet no rule of the chain
/// accepted or dropped: it is the implicit last word of the chain.
#[derive(Clone, Debug, PartialEq, Eq, Hash)]
pub struct Chain {
    pub hook: Direction,
    pub default_policy: Verdict,
    pub rules: Vec<Rule>,
}

/// The mathematical model of one chain.
#[verifier::ext_equal]
pub struct ChainV {
    pub hook: Direction,
    pub default_policy: Verdict,
    pub rules: Seq<RuleV>,
}

impl View for Chain {
    type V = ChainV;

    open spec fn view(&self) -> ChainV {
        ChainV { hook: self.hook, default_policy: self.default_policy, rules: rules_view(self.rules@) }
    }
}

impl Chain {
    /// Starts an empty chain with the given hook and default policy.
    pub fn new(hook: Direction, default_policy: Verdict) -> (r: Chain)
        ensures
            r@.hook == hook,
            r@.default_policy == default_policy,
            r@.rules =~= Seq::<RuleV>::empty(),
    {
        Chain { hook, default_policy, rules: Vec::new() }
    }

    /// Appends one rule to the chain.
    pub fn add_rule(&mut self, r: Rule)
        ensures
            final(self)@.hook == old(self)@.hook,
            final(self)@.default_policy == old(self)@.default_policy,
            final(self)@.rules =~= old(self)@.rules.push(r@),
    {
        proof {
            lemma_rules_view_push(self.rules@, r);
        }
        self.rules.push(r);
    }
}

/// Which protocol and family assertions have been made so far while
/// scanning a rule's expressions from the left.
pub struct MatchContext {
    pub v4: bool,
    pub v6: bool,
    pub udp: bool,
    pub tcp: bool,
    pub icmp: bool,
    pub icmpv6: bool,
}

/// The context at the start of a rule: nothing asserted yet.
pub open spec fn empty_context() -> MatchContext {
    MatchContext { v4: false, v6: false, udp: false, tcp: false, icmp: false, icmpv6: false }
}

/// The context after a network-layer family assertion.
pub open spec fn context_add_l3(ctx: MatchContext, family: AddressFamily) -> MatchContext {
    match family {
        AddressFamily::Ipv4 => MatchContext { v4: true, ..ctx },
        AddressFamily::Ipv6 => MatchContext { v6: true, ..ctx },
    }
}

/// The context after a transport-layer protocol assertion.
pub open spec fn context_add_l4(ctx: MatchContext, protocol: L4Protocol) -> MatchContext {
    match protocol {
        L4Protocol::Udp => MatchContext { udp: true, ..ctx },
        L4Protocol::Tcp => MatchContext { tcp: true, ..ctx },
        L4Protocol::Icmp => MatchContext { icmp: true, ..ctx },
        L4Protocol::Icmpv6 => MatchContext { icmpv6: true, ..ctx },
    }
}

/// Whether the family of a network-layer payload field has been asserted.
pub open spec fn context_has_l3(ctx: MatchContext, family: AddressFamily) -> bool {
    match family {
        AddressFamily::Ipv4 => ctx.v4,
        AddressFamily::Ipv6 => ctx.v6,
    }
}

/// Whether the protocol of a transport-layer port field has been asserted.
pub open spec fn context_has_port_proto(ctx: MatchContext, protocol: TransportProtocol) -> bool {
    match protocol {
        TransportProtocol::Udp => ctx.udp,
        TransportProtocol::Tcp => ctx.tcp,
    }
}

/// Scans the expressions from position `i` under the assertions collected
/// so far and checks that no payload field is read before its protocol or
/// family is asserted, and that a verdict only stands last.
pub open spec fn scan_ok(exprs: Seq<RuleExprV>, i: int, ctx: MatchContext) -> bool
    decreases exprs.len() - i,
{
    if i < 0 || i >= exprs.len() {
        true
    } else {
        match exprs[i] {
            RuleExprV::MatchInterface { .. } => scan_ok(exprs, i + 1, ctx),
            RuleExprV::MatchL3Proto { family } => scan_ok(exprs, i + 1, context_add_l3(ctx, family)),
            RuleExprV::MatchL4Proto { protocol } => scan_ok(
                exprs,
                i + 1,
                context_add_l4(ctx, protocol),
            ),
            RuleExprV::MatchAddr { end, ip } => context_has_l3(ctx, ip.spec_family()) && scan_ok(
                exprs,
                i + 1,
                ctx,
            ),
            RuleExprV::MatchNet { end, net } => context_has_l3(ctx, net.spec_family()) && scan_ok(
                exprs,
                i + 1,
                ctx,
            ),
            RuleExprV::MatchPort { end, protocol, port } => context_has_port_proto(ctx, protocol)
                && scan_ok(exprs, i + 1, ctx),
            RuleExprV::MatchIcmpv6Type { .. } => ctx.icmpv6 && scan_ok(exprs, i + 1, ctx),
            RuleExprV::MatchIcmpv6Code { .. } => ctx.icmpv6 && scan_ok(exprs, i + 1, ctx),
            RuleExprV::MatchCtStateEstablished => scan_ok(exprs, i + 1, ctx),
            RuleExprV::Verdict { .. } => i == exprs.len() - 1,
        }
    }
}

/// A rule is well formed when it ends in exactly one verdict and every
/// payload-field match is preceded by the matching protocol or family
/// assertion.
pub open spec fn rule_wf(r: RuleV) -> bool {
    &&& r.exprs.len() > 0
    &&& r.exprs.last() is Verdict
    &&& scan_ok(r.exprs, 0, empty_context())
}

/// The verdict a well-formed rule ends in.
pub open spec fn rule_verdict(r: RuleV) -> Verdict
    recommends
        rule_wf(r),
{
    match r.exprs.last() {
        RuleExprV::Verdict { verdict } => verdict,
        _ => Verdict::Drop,
    }
}

/// Whether a rule accepts the traffic it matches.
pub open spec fn rule_accepts(r: RuleV) -> bool {
    rule_verdict(r) == Verdict::Accept
}

/// Whether some expression of the rule matches an address field against
/// the given network.
pub open spec fn rule_matches_net(r: RuleV, net: IpNetwork) -> bool {
    exists|i: int|
        0 <= i < r.exprs.len() && (#[trigger] r.exprs[i] matches RuleExprV::MatchNet {
            net: n,
            ..
        } && n == net)
}

} // verus!
