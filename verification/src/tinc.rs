//! Connection configuration of the tinc tunnel backend.
//!
//! These are plain values handed to the tunnel monitor for one connection
//! attempt: the peer endpoint, the virtual IP and the public key the
//! backend runs with. They are created by the settings and relay-selection
//! collaborators, consumed once per attempt and never mutated.

use vstd::prelude::*;

use crate::net::Endpoint;
use crate::net::IpAddress;
use crate::net::Ipv4Address;
use crate::tunnel::GenericTunnelOptions;
use crate::tunnel::TunnelEndpoint;
use crate::tunnel::TunnelType;

verus! {

/// The tinc runtime parameters: the virtual IP of this node and its
/// public key.
#[derive(Clone, Debug, PartialEq, Eq, Hash)]
pub struct TincInfo {
    pub vip: IpAddress,
    pub pub_key: String,
}

impl TincInfo {
    /// An empty tinc configuration: unspecified address, no key yet.
    pub fn new() -> (r: TincInfo)
        ensures
            r.vip == IpAddress::V4(Ipv4Address { bits: 0u32 }),
            r.pub_key@ =~= Seq::<char>::empty(),
    {
        TincInfo { vip: IpAddress::V4(Ipv4Address { bits: 0u32 }), pub_key: String::new() }
    }
}

/// Everything needed to reach one tinc peer.
#[derive(Clone, Debug, PartialEq, Eq, Hash)]
pub struct ConnectionConfig {
    pub endpoint: Endpoint,
    pub tinc_info: TincInfo,
}

impl ConnectionConfig {
    /// Builds a connection configuration from its parts.
    pub fn new(endpoint: Endpoint, tinc_info: TincInfo) -> (r: ConnectionConfig)
        ensures
            r.endpoint == endpoint,
            r.tinc_info == tinc_info,
    {
        ConnectionConfig { endpoint, tinc_info }
    }

    /// Returns the generic tunnel endpoint this configuration connects
    /// to, tagged with the tinc tunnel type.
    pub fn get_tunnel_endpoint(&self) -> (r: TunnelEndpoint)
        ensures
            r.tunnel_type == TunnelType::Tinc,
            r.endpoint == self.endpoint,
    {
        TunnelEndpoint { tunnel_type: TunnelType::Tinc, endpoint: self.endpoint }
    }
}

/// Options applying to tinc tunnels regardless of relay; none exist yet,
/// the type reserves the place where they will live.
#[derive(Clone, Copy, Debug, PartialEq, Eq, Structural, Hash, Default)]
pub struct TunnelOptions {}

/// The complete parameters of one tinc connection attempt.
#[derive(Clone, Debug, PartialEq, Eq, Hash)]
pub struct TunnelParameters {
    pub config: ConnectionConfig,
    pub options: TunnelOptions,
    pub generic_options: GenericTunnelOptions,
}

/// Relies on `uuid::Uuid::new_v4` and its hyphenated `Display` form: a
/// fresh random version-4 identifier rendered as 36 characters. The value
/// is random, so nothing more than its length is promised.
#[verifier::external_body]
fn new_random_uid() -> (r: String)
    ensures
        r@.len() == 36,
{
    uuid::Uuid::new_v4().to_string()
}

/// What this node reports about itself to the proxy directory.
#[derive(Clone, Debug, PartialEq, Eq, Hash)]
pub struct ProxyInfo {
    pub uid: String,
    pub proxy_pub_key: String,
    pub isregister: bool,
    pub cookie: String,
    pub auth_type: String,
    pub os: String,
    pub server_type: String,
    pub proxy_ip: String,
    pub ssh_port: String,
}

impl ProxyInfo {
    /// An empty record: every field blank, the address unspecified.
    pub fn new() -> (r: ProxyInfo)
        ensures
            r.uid@ =~= Seq::<char>::empty(),
            r.proxy_pub_key@ =~= Seq::<char>::empty(),
            !r.isregister,
            r.cookie@ =~= Seq::<char>::empty(),
            r.auth_type@ =~= Seq::<char>::empty(),
            r.os@ =~= Seq::<char>::empty(),
            r.server_type@ =~= Seq::<char>::empty(),
            r.proxy_ip@ =~= "0.0.0.0"@,
            r.ssh_port@ =~= Seq::<char>::empty(),
    {
        ProxyInfo {
            uid: String::new(),
            proxy_pub_key: String::new(),
            isregister: false,
            cookie: String::new(),
            auth_type: String::new(),
            os: String::new(),
            server_type: String::new(),
            proxy_ip: "0.0.0.0".to_owned(),
            ssh_port: String::new(),
        }
    }

    /// Gives the record a fresh random identifier.
    pub fn create_uid(&mut self) -> (r: bool)
        ensures
            final(self).uid@.len() == 36,
            final(self).proxy_pub_key == old(self).proxy_pub_key,
            final(self).isregister == old(self).isregister,
            final(self).cookie == old(self).cookie,
            final(self).auth_type == old(self).auth_type,
            final(self).os == old(self).os,
            final(self).server_type == old(self).server_type,
            final(self).proxy_ip == old(self).proxy_ip,
            final(self).ssh_port == old(self).ssh_port,
            r,
    {
        self.uid = new_random_uid();
        true
    }

    /// Fills the record with this host's fixed properties and, when one
    /// was found, its local address. Returns whether an address was
    /// available; the record's other fields are set either way.
    pub fn load_local(&mut self, local_ip: Option<String>) -> (r: bool)
        ensures
            final(self).auth_type@ =~= "0"@,
            final(self).server_type@ =~= "vppn1"@,
            final(self).os@ =~= "ubuntu"@,
            r == (local_ip is Some),
            local_ip matches Some(ip) ==> final(self).proxy_ip == ip,
            local_ip is None ==> final(self).proxy_ip == old(self).proxy_ip,
            final(self).uid == old(self).uid,
            final(self).proxy_pub_key == old(self).proxy_pub_key,
            final(self).isregister == old(self).isregister,
            final(self).cookie == old(self).cookie,
            final(self).ssh_port == old(self).ssh_port,
    {
        self.auth_type = "0".to_owned();
        self.server_type = "vppn1".to_owned();
        self.os = "ubuntu".to_owned();
        match local_ip {
            Some(ip) => {
                self.proxy_ip = ip;
                true
            },
            None => false,
        }
    }
}

} // verus!

verus! {

/// The mathematical model of the tinc runtime parameters.
#[verifier::ext_equal]
pub struct TincInfoV {
    pub vip: IpAddress,
    pub pub_key: Seq<char>,
}

impl View for TincInfo {
    type V = TincInfoV;

    open spec fn view(&self) -> TincInfoV {
        TincInfoV { vip: self.vip, pub_key: self.pub_key@ }
    }
}

impl TincInfo {
    /// Returns a value equal to this one.
    pub fn duplicate(&self) -> (r: TincInfo)
        ensures
            r@ =~= self@,
    {
        TincInfo { vip: self.vip, pub_key: self.pub_key.clone() }
    }
}

/// The mathematical model of a tinc connection configuration.
#[verifier::ext_equal]
pub struct ConnectionConfigV {
    pub endpoint: Endpoint,
    pub tinc_info: TincInfoV,
}

impl View for ConnectionConfig {
    type V = ConnectionConfigV;

    open spec fn view(&self) -> ConnectionConfigV {
        ConnectionConfigV { endpoint: self.endpoint, tinc_info: self.tinc_info@ }
    }
}

impl ConnectionConfig {
    /// Returns a value equal to this one.
    pub fn duplicate(&self) -> (r: ConnectionConfig)
        ensures
            r@ =~= self@,
    {
        ConnectionConfig { endpoint: self.endpoint, tinc_info: self.tinc_info.duplicate() }
    }
}

/// The mathematical model of the tinc connection parameters.
#[verifier::ext_equal]
pub struct TunnelParametersV {
    pub config: ConnectionConfigV,
    pub options: TunnelOptions,
    pub generic_options: GenericTunnelOptions,
}

impl View for TunnelParameters {
    type V = TunnelParametersV;

    open spec fn view(&self) -> TunnelParametersV {
        TunnelParametersV {
            config: self.config@,
            options: self.options,
            generic_options: self.generic_options,
        }
    }
}

impl TunnelParameters {
    /// Returns a value equal to this one.
    pub fn duplicate(&self) -> (r: TunnelParameters)
        ensures
            r@ =~= self@,
    {
        TunnelParameters {
            config: self.config.duplicate(),
            options: self.options,
            generic_options: self.generic_options,
        }
    }
}

} // verus!
