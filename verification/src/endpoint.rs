//! Server endpoint data for the supported tunnel types.

use vstd::prelude::*;

use crate::net::Endpoint;
use crate::net::IpAddress;
use crate::net::Ipv4Address;
use crate::net::Ipv6Address;
use crate::net::TransportProtocol;

verus! {

/// Extra parameters of an OpenVPN endpoint.
#[derive(Clone, Copy, Debug, PartialEq, Eq, Structural, Hash)]
pub struct OpenVpnEndpointData {
    pub port: u16,
    pub protocol: TransportProtocol,
}

/// Extra parameters of a tinc endpoint.
#[derive(Clone, Copy, Debug, PartialEq, Eq, Structural, Hash)]
pub struct TincEndpointData {
    pub port: u16,
    pub protocol: TransportProtocol,
}

/// Extra parameters of a WireGuard endpoint.
#[derive(Clone, Copy, Debug, PartialEq, Eq, Structural, Hash)]
pub struct WireguardEndpointData {
    pub port: u16,
}

/// The data required to connect to a given tunnel endpoint; each tunnel
/// type requires its own.
#[derive(Clone, Copy, Debug, PartialEq, Eq, Structural, Hash)]
pub enum TunnelEndpointData {
    OpenVpn(OpenVpnEndpointData),
    Tinc(TincEndpointData),
    Wireguard(WireguardEndpointData),
}

/// The peer of one WireGuard tunnel.
#[derive(Clone, Copy, Debug, PartialEq, Eq, Structural, Hash)]
pub struct PeerConfig {
    pub endpoint: Endpoint,
}

/// Server data needed to connect to a single relay endpoint.
#[derive(Clone, Copy, Debug, PartialEq, Eq, Structural, Hash)]
pub enum MullvadEndpoint {
    OpenVpn(Endpoint),
    Tinc(Endpoint),
    Wireguard { peer: PeerConfig, ipv4_gateway: Ipv4Address, ipv6_gateway: Ipv6Address },
}

impl MullvadEndpoint {
    /// The plain endpoint this relay endpoint connects to; WireGuard
    /// always speaks UDP to its peer.
    pub open spec fn spec_to_endpoint(self) -> Endpoint {
        match self {
            MullvadEndpoint::OpenVpn(endpoint) => endpoint,
            MullvadEndpoint::Tinc(endpoint) => endpoint,
            MullvadEndpoint::Wireguard { peer, .. } => Endpoint {
                address: peer.endpoint.address,
                port: peer.endpoint.port,
                protocol: TransportProtocol::Udp,
            },
        }
    }

    /// Returns this relay endpoint as a plain endpoint.
    pub fn to_endpoint(&self) -> (r: Endpoint)
        ensures
            r == self.spec_to_endpoint(),
    {
        match self {
            MullvadEndpoint::OpenVpn(endpoint) => *endpoint,
            MullvadEndpoint::Tinc(endpoint) => *endpoint,
            MullvadEndpoint::Wireguard { peer, .. } => Endpoint {
                address: peer.endpoint.address,
                port: peer.endpoint.port,
                protocol: TransportProtocol::Udp,
            },
        }
    }
}

} // verus!
