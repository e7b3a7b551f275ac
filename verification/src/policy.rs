//! Firewall policies.
//!
//! A policy names the complete intent for the packet filter in one
//! connection state. It is a value: computed fresh from the current tunnel
//! state and the user's settings whenever the firewall must be
//! re-applied, never mutated, only replaced.

use vstd::prelude::*;

use crate::net::Endpoint;
use crate::net::IpAddress;
use crate::tunnel::TunnelMetadata;
use crate::tunnel::TunnelMetadataV;

verus! {

/// The complete intent for the packet filter in one connection state.
///
/// Beyond what a policy explicitly allows, all traffic is blocked.
#[derive(Clone, Debug, PartialEq, Eq, Hash)]
pub enum FirewallPolicy {
    /// Allow traffic only to the tunnel peer, and pings to the hosts that
    /// prove the tunnel is usable.
    Connecting {
        /// The peer endpoint that should be allowed.
        peer_endpoint: Endpoint,
        /// Hosts that should be pingable whilst connecting.
        pingable_hosts: Vec<IpAddress>,
        /// Whether communication with LAN networks stays possible.
        allow_lan: bool,
    },
    /// Allow traffic only to the tunnel peer and over the tunnel interface.
    Connected {
        /// The peer endpoint that should be allowed.
        peer_endpoint: Endpoint,
        /// Metadata about the tunnel and tunnel interface.
        tunnel: TunnelMetadata,
        /// Whether communication with LAN networks stays possible.
        allow_lan: bool,
    },
    /// Block all network traffic in and out from the computer.
    Blocked {
        /// Whether communication with LAN networks stays possible.
        allow_lan: bool,
    },
}

/// The mathematical model of a firewall policy.
#[verifier::ext_equal]
pub enum FirewallPolicyV {
    Connecting { peer_endpoint: Endpoint, pingable_hosts: Seq<IpAddress>, allow_lan: bool },
    Connected { peer_endpoint: Endpoint, tunnel: TunnelMetadataV, allow_lan: bool },
    Blocked { allow_lan: bool },
}

impl View for FirewallPolicy {
    type V = FirewallPolicyV;

    open spec fn view(&self) -> FirewallPolicyV {
        match self {
            FirewallPolicy::Connecting { peer_endpoint, pingable_hosts, allow_lan } => {
                FirewallPolicyV::Connecting {
                    peer_endpoint: *peer_endpoint,
                    pingable_hosts: pingable_hosts@,
                    allow_lan: *allow_lan,
                }
            },
            FirewallPolicy::Connected { peer_endpoint, tunnel, allow_lan } => {
                FirewallPolicyV::Connected {
                    peer_endpoint: *peer_endpoint,
                    tunnel: tunnel@,
                    allow_lan: *allow_lan,
                }
            },
            FirewallPolicy::Blocked { allow_lan } => {
                FirewallPolicyV::Blocked { allow_lan: *allow_lan }
            },
        }
    }
}

impl FirewallPolicyV {
    /// Whether the policy keeps LAN traffic possible.
    pub open spec fn spec_allow_lan(self) -> bool {
        match self {
            FirewallPolicyV::Connecting { allow_lan, .. } => allow_lan,
            FirewallPolicyV::Connected { allow_lan, .. } => allow_lan,
            FirewallPolicyV::Blocked { allow_lan } => allow_lan,
        }
    }
}

impl FirewallPolicy {
    /// Returns whether the policy keeps LAN traffic possible.
    pub fn allow_lan(&self) -> (r: bool)
        ensures
            r == self@.spec_allow_lan(),
    {
        match self {
            FirewallPolicy::Connecting { allow_lan, .. } => *allow_lan,
            FirewallPolicy::Connected { allow_lan, .. } => *allow_lan,
            FirewallPolicy::Blocked { allow_lan } => *allow_lan,
        }
    }
}

} // verus!

verus! {

/// The wording of the allow-LAN flag in a policy description.
pub open spec fn spec_lan_text(allow_lan: bool) -> Seq<char> {
    if allow_lan {
        "Allowing LAN"@
    } else {
        "Blocking LAN"@
    }
}

/// The one-line description of a policy, for transition logs: the
/// variant, the peer, the tunnel interface when one exists, and the LAN
/// stance.
pub open spec fn spec_describe(p: FirewallPolicyV) -> Seq<char> {
    match p {
        FirewallPolicyV::Connecting { peer_endpoint, pingable_hosts, allow_lan } => {
            "Connecting to "@ + crate::net::spec_endpoint_text(peer_endpoint) + ", "@
                + spec_lan_text(allow_lan)
        },
        FirewallPolicyV::Connected { peer_endpoint, tunnel, allow_lan } => {
            "Connected to "@ + crate::net::spec_endpoint_text(peer_endpoint) + " over "@
                + tunnel.interface + ", "@ + spec_lan_text(allow_lan)
        },
        FirewallPolicyV::Blocked { allow_lan } => "Blocked, "@ + spec_lan_text(allow_lan),
    }
}

impl FirewallPolicy {
    /// Renders the one-line description of the policy.
    pub fn describe(&self) -> (r: String)
        ensures
            r@ == spec_describe(self@),
    {
        let mut out = String::new();
        match self {
            FirewallPolicy::Connecting { peer_endpoint, allow_lan, .. } => {
                out.append("Connecting to ");
                let endpoint = crate::net::endpoint_text(peer_endpoint);
                out.append(endpoint.as_str());
                out.append(", ");
                if *allow_lan {
                    out.append("Allowing LAN");
                } else {
                    out.append("Blocking LAN");
                }
            },
            FirewallPolicy::Connected { peer_endpoint, tunnel, allow_lan } => {
                out.append("Connected to ");
                let endpoint = crate::net::endpoint_text(peer_endpoint);
                out.append(endpoint.as_str());
                out.append(" over ");
                out.append(tunnel.interface.as_str());
                out.append(", ");
                if *allow_lan {
                    out.append("Allowing LAN");
                } else {
                    out.append("Blocking LAN");
                }
            },
            FirewallPolicy::Blocked { allow_lan } => {
                out.append("Blocked, ");
                if *allow_lan {
                    out.append("Allowing LAN");
                } else {
                    out.append("Blocking LAN");
                }
            },
        }
        proof {
            assert(out@ =~= spec_describe(self@));
        }
        out
    }
}

} // verus!
