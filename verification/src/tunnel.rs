//! Tunnel metadata, tunnel events, and the monitor abstraction.
//!
//! Every tunnel backend reports its lifecycle through the same three
//! events: the tunnel came up with its interface metadata, it went down, or
//! authentication failed. The monitor and close-handle types model the
//! supervision of one running backend; the process itself is spawned and
//! killed outside this crate, steered by the decisions made here.

use vstd::prelude::*;

use crate::net::Endpoint;
use crate::net::IpAddress;
use crate::net::Ipv4Address;
use crate::net::Ipv6Address;

verus! {

/// Information about an established VPN tunnel.
#[derive(Clone, Debug, PartialEq, Eq, Hash)]
pub struct TunnelMetadata {
    /// The name of the device which the tunnel is running on.
    pub interface: String,
    /// The local IPs on the tunnel interface.
    pub ips: Vec<IpAddress>,
    /// The IP of the default gateway on the tunnel interface.
    pub ipv4_gateway: Ipv4Address,
    /// The IP of the IPv6 default gateway on the tunnel interface.
    pub ipv6_gateway: Option<Ipv6Address>,
}

/// The mathematical model of tunnel metadata.
#[verifier::ext_equal]
pub struct TunnelMetadataV {
    pub interface: Seq<char>,
    pub ips: Seq<IpAddress>,
    pub ipv4_gateway: Ipv4Address,
    pub ipv6_gateway: Option<Ipv6Address>,
}

impl View for TunnelMetadata {
    type V = TunnelMetadataV;

    open spec fn view(&self) -> TunnelMetadataV {
        TunnelMetadataV {
            interface: self.interface@,
            ips: self.ips@,
            ipv4_gateway: self.ipv4_gateway,
            ipv6_gateway: self.ipv6_gateway,
        }
    }
}

/// Possible events from the VPN tunnel and the backend managing it.
#[derive(Clone, Debug, PartialEq, Eq, Hash)]
pub enum TunnelEvent {
    /// The tunnel failed to connect due to an authentication error.
    AuthFailed(Option<String>),
    /// The tunnel came up and is ready for traffic.
    Up(TunnelMetadata),
    /// The tunnel went down.
    Down,
}

/// The mathematical model of a tunnel event.
#[verifier::ext_equal]
pub enum TunnelEventV {
    AuthFailed(Option<Seq<char>>),
    Up(TunnelMetadataV),
    Down,
}

impl View for TunnelEvent {
    type V = TunnelEventV;

    open spec fn view(&self) -> TunnelEventV {
        match self {
            TunnelEvent::AuthFailed(reason) => TunnelEventV::AuthFailed(
                match reason {
                    Some(r) => Some(r@),
                    None => None,
                },
            ),
            TunnelEvent::Up(metadata) => TunnelEventV::Up(metadata@),
            TunnelEvent::Down => TunnelEventV::Down,
        }
    }
}

} // verus!

verus! {

/// Tunnel options that may apply to more than a single tunnel type.
#[derive(Clone, Copy, Debug, PartialEq, Eq, Structural, Hash)]
pub struct GenericTunnelOptions {
    /// Whether the tunnel should carry IPv6 traffic.
    pub enable_ipv6: bool,
}

/// The supported tunnel backends, one closed set matched exhaustively
/// wherever behavior differs.
#[derive(Clone, Copy, Debug, PartialEq, Eq, Structural, Hash)]
pub enum TunnelType {
    OpenVpn,
    Tinc,
    Wireguard,
}

/// A peer endpoint tagged with the backend that connects to it.
#[derive(Clone, Copy, Debug, PartialEq, Eq, Structural, Hash)]
pub struct TunnelEndpoint {
    pub tunnel_type: TunnelType,
    pub endpoint: Endpoint,
}

/// The parameters of one OpenVPN connection attempt.
#[derive(Clone, Copy, Debug, PartialEq, Eq, Structural, Hash)]
pub struct OpenVpnParameters {
    pub endpoint: Endpoint,
    pub generic_options: GenericTunnelOptions,
}

/// The parameters of one WireGuard connection attempt.
#[derive(Clone, Copy, Debug, PartialEq, Eq, Structural, Hash)]
pub struct WireguardParameters {
    pub endpoint: Endpoint,
    pub generic_options: GenericTunnelOptions,
}

/// Protocol-tagged connection configuration, consumed once per attempt.
#[derive(Clone, Debug, PartialEq, Eq, Hash)]
pub enum TunnelParameters {
    OpenVpn(OpenVpnParameters),
    Tinc(crate::tinc::TunnelParameters),
    Wireguard(WireguardParameters),
}

impl TunnelParameters {
    /// The options shared by all tunnel types.
    pub open spec fn spec_generic_options(&self) -> GenericTunnelOptions {
        match self {
            TunnelParameters::OpenVpn(params) => params.generic_options,
            TunnelParameters::Tinc(params) => params.generic_options,
            TunnelParameters::Wireguard(params) => params.generic_options,
        }
    }

    /// Returns the options shared by all tunnel types.
    pub fn get_generic_options(&self) -> (r: GenericTunnelOptions)
        ensures
            r == self.spec_generic_options(),
    {
        match self {
            TunnelParameters::OpenVpn(params) => params.generic_options,
            TunnelParameters::Tinc(params) => params.generic_options,
            TunnelParameters::Wireguard(params) => params.generic_options,
        }
    }

    /// The backend these parameters are for.
    pub open spec fn spec_tunnel_type(&self) -> TunnelType {
        match self {
            TunnelParameters::OpenVpn(_) => TunnelType::OpenVpn,
            TunnelParameters::Tinc(_) => TunnelType::Tinc,
            TunnelParameters::Wireguard(_) => TunnelType::Wireguard,
        }
    }

    /// The peer endpoint of the attempt.
    pub open spec fn spec_endpoint(&self) -> Endpoint {
        match self {
            TunnelParameters::OpenVpn(params) => params.endpoint,
            TunnelParameters::Tinc(params) => params.config.endpoint,
            TunnelParameters::Wireguard(params) => params.endpoint,
        }
    }

    /// Returns the peer endpoint of the attempt.
    pub fn get_endpoint(&self) -> (r: Endpoint)
        ensures
            r == self.spec_endpoint(),
    {
        match self {
            TunnelParameters::OpenVpn(params) => params.endpoint,
            TunnelParameters::Tinc(params) => params.config.endpoint,
            TunnelParameters::Wireguard(params) => params.endpoint,
        }
    }
}

/// Errors that can occur while supervising a tunnel.
#[derive(Clone, Copy, Debug, PartialEq, Eq, Structural, Hash)]
pub enum Error {
    /// The tunnel cannot have IPv6 enabled because the operating system
    /// has disabled IPv6 support.
    EnableIpv6Error,
    /// The tunnel backend exited with a failure nobody requested.
    ChildProcessDied,
}

/// How the supervised backend process ended.
#[derive(Clone, Copy, Debug, PartialEq, Eq, Structural, Hash)]
pub enum ProcessExit {
    /// The backend ended cleanly.
    Clean,
    /// The backend ended with a failure status.
    Failed,
}

/// The close capability of one running OpenVPN backend.
#[derive(Clone, Copy, Debug, PartialEq, Eq, Structural, Hash)]
pub struct OpenVpnCloseHandle {
    /// Whether a close has already been requested on this handle's
    /// shared stop flag.
    pub closed: bool,
}

/// The close capability of one running tinc backend.
#[derive(Clone, Copy, Debug, PartialEq, Eq, Structural, Hash)]
pub struct TincCloseHandle {
    /// Whether a close has already been requested on this handle's
    /// shared stop flag.
    pub closed: bool,
}

/// The close capability of one running WireGuard backend.
#[derive(Clone, Copy, Debug, PartialEq, Eq, Structural, Hash)]
pub struct WireguardCloseHandle {
    /// Whether a close has already been requested on this handle's
    /// shared stop flag.
    pub closed: bool,
}

impl OpenVpnCloseHandle {
    /// Claims the stop flag. Returns whether this call is the one that
    /// must deliver the kill signal: true exactly when nobody claimed the
    /// flag before.
    pub fn close(&mut self) -> (kill: bool)
        ensures
            final(self).closed,
            kill == !old(self).closed,
    {
        let kill = !self.closed;
        self.closed = true;
        kill
    }
}

impl TincCloseHandle {
    /// Claims the stop flag. Returns whether this call is the one that
    /// must deliver the kill signal: true exactly when nobody claimed the
    /// flag before.
    pub fn close(&mut self) -> (kill: bool)
        ensures
            final(self).closed,
            kill == !old(self).closed,
    {
        let kill = !self.closed;
        self.closed = true;
        kill
    }
}

impl WireguardCloseHandle {
    /// Claims the stop flag. Returns whether this call is the one that
    /// must deliver the kill signal: true exactly when nobody claimed the
    /// flag before.
    pub fn close(&mut self) -> (kill: bool)
        ensures
            final(self).closed,
            kill == !old(self).closed,
    {
        let kill = !self.closed;
        self.closed = true;
        kill
    }
}

/// A handle to a running tunnel monitor: the cloneable capability to
/// request termination of the backend while another thread waits on it.
#[derive(Clone, Copy, Debug, PartialEq, Eq, Structural, Hash)]
pub enum CloseHandle {
    /// OpenVPN close handle.
    OpenVpn(OpenVpnCloseHandle),
    /// Tinc close handle.
    Tinc(TincCloseHandle),
    /// WireGuard close handle.
    Wireguard(WireguardCloseHandle),
}

impl CloseHandle {
    /// Whether a close has already been requested through this handle's
    /// stop flag.
    pub open spec fn spec_closed(self) -> bool {
        match self {
            CloseHandle::OpenVpn(handle) => handle.closed,
            CloseHandle::Tinc(handle) => handle.closed,
            CloseHandle::Wireguard(handle) => handle.closed,
        }
    }

    /// The same handle with its stop flag claimed.
    pub open spec fn spec_after_close(self) -> CloseHandle {
        match self {
            CloseHandle::OpenVpn(handle) => CloseHandle::OpenVpn(
                OpenVpnCloseHandle { closed: true },
            ),
            CloseHandle::Tinc(handle) => CloseHandle::Tinc(TincCloseHandle { closed: true }),
            CloseHandle::Wireguard(handle) => CloseHandle::Wireguard(
                WireguardCloseHandle { closed: true },
            ),
        }
    }

    /// Closes the underlying tunnel, making the monitor's wait return.
    /// Returns whether this call is the one that must deliver the kill
    /// signal: true exactly when no earlier close claimed the stop flag,
    /// so that closing more than once sends exactly one signal.
    pub fn close(&mut self) -> (kill: bool)
        ensures
            *final(self) == old(self).spec_after_close(),
            kill == !old(self).spec_closed(),
    {
        match self {
            CloseHandle::OpenVpn(handle) => handle.close(),
            CloseHandle::Tinc(handle) => handle.close(),
            CloseHandle::Wireguard(handle) => handle.close(),
        }
    }
}

/// How many kill signals a run of close calls delivers, starting from a
/// stop flag in the given state.
pub open spec fn spec_kill_count(closed: bool, calls: nat) -> nat
    decreases calls,
{
    if calls == 0 {
        0
    } else {
        (if closed {
            0nat
        } else {
            1nat
        }) + spec_kill_count(true, (calls - 1) as nat)
    }
}

/// Any number of close calls on a fresh handle, one after another,
/// delivers exactly one kill signal: the first call claims the flag and
/// every later call finds it claimed.
pub proof fn lemma_close_sends_exactly_one_kill(calls: nat)
    requires
        calls >= 1,
    ensures
        spec_kill_count(false, calls) == 1,
{
    lemma_no_kill_after_close(( calls - 1 ) as nat);
}

/// A claimed stop flag never produces another kill signal.
proof fn lemma_no_kill_after_close(calls: nat)
    ensures
        spec_kill_count(true, calls) == 0,
    decreases calls,
{
    if calls > 0 {
        lemma_no_kill_after_close((calls - 1) as nat);
    }
}

} // verus!

verus! {

/// The monitor of one running OpenVPN backend.
#[derive(Clone, Copy, Debug, PartialEq, Eq, Structural, Hash)]
pub struct OpenVpnMonitor {
    /// Whether a close has been requested on the backend's stop flag.
    pub close_requested: bool,
}

/// The monitor of one running tinc backend.
#[derive(Clone, Copy, Debug, PartialEq, Eq, Structural, Hash)]
pub struct TincMonitor {
    /// Whether a close has been requested on the backend's stop flag.
    pub close_requested: bool,
}

/// The monitor of one running WireGuard backend.
#[derive(Clone, Copy, Debug, PartialEq, Eq, Structural, Hash)]
pub struct WireguardMonitor {
    /// Whether a close has been requested on the backend's stop flag.
    pub close_requested: bool,
}

/// The backend-specific monitor a tunnel monitor dispatches to.
#[derive(Clone, Copy, Debug, PartialEq, Eq, Structural, Hash)]
pub enum InternalTunnelMonitor {
    OpenVpn(OpenVpnMonitor),
    Tinc(TincMonitor),
    Wireguard(WireguardMonitor),
}

impl InternalTunnelMonitor {
    /// Whether a close has been requested on the backend's stop flag.
    pub open spec fn spec_close_requested(self) -> bool {
        match self {
            InternalTunnelMonitor::OpenVpn(monitor) => monitor.close_requested,
            InternalTunnelMonitor::Tinc(monitor) => monitor.close_requested,
            InternalTunnelMonitor::Wireguard(monitor) => monitor.close_requested,
        }
    }

    /// The backend this monitor supervises.
    pub open spec fn spec_tunnel_type(self) -> TunnelType {
        match self {
            InternalTunnelMonitor::OpenVpn(_) => TunnelType::OpenVpn,
            InternalTunnelMonitor::Tinc(_) => TunnelType::Tinc,
            InternalTunnelMonitor::Wireguard(_) => TunnelType::Wireguard,
        }
    }

    /// Hands out the close handle for this backend.
    pub fn close_handle(&self) -> (r: CloseHandle)
        ensures
            r.spec_closed() == self.spec_close_requested(),
            match *self {
                InternalTunnelMonitor::OpenVpn(_) => r is OpenVpn,
                InternalTunnelMonitor::Tinc(_) => r is Tinc,
                InternalTunnelMonitor::Wireguard(_) => r is Wireguard,
            },
    {
        match self {
            InternalTunnelMonitor::OpenVpn(monitor) => CloseHandle::OpenVpn(
                OpenVpnCloseHandle { closed: monitor.close_requested },
            ),
            InternalTunnelMonitor::Tinc(monitor) => CloseHandle::Tinc(
                TincCloseHandle { closed: monitor.close_requested },
            ),
            InternalTunnelMonitor::Wireguard(monitor) => CloseHandle::Wireguard(
                WireguardCloseHandle { closed: monitor.close_requested },
            ),
        }
    }

    /// Settles the result of waiting for the backend to exit.
    pub fn wait(self, exit: ProcessExit) -> (r: Result<(), Error>)
        ensures
            r is Ok <==> (exit == ProcessExit::Clean || self.spec_close_requested()),
            r is Err ==> r == Result::<(), Error>::Err(Error::ChildProcessDied),
    {
        match exit {
            ProcessExit::Clean => Ok(()),
            ProcessExit::Failed => {
                if self.close_requested_exec() {
                    Ok(())
                } else {
                    Err(Error::ChildProcessDied)
                }
            },
        }
    }

    /// Returns whether a close has been requested.
    fn close_requested_exec(&self) -> (r: bool)
        ensures
            r == self.spec_close_requested(),
    {
        match self {
            InternalTunnelMonitor::OpenVpn(monitor) => monitor.close_requested,
            InternalTunnelMonitor::Tinc(monitor) => monitor.close_requested,
            InternalTunnelMonitor::Wireguard(monitor) => monitor.close_requested,
        }
    }
}

/// Abstraction for monitoring a generic VPN tunnel: one contract for
/// every backend, so the state machine never special-cases a protocol.
#[derive(Clone, Copy, Debug, PartialEq, Eq, Structural, Hash)]
pub struct TunnelMonitor {
    pub monitor: InternalTunnelMonitor,
}

impl TunnelMonitor {
    /// The fresh monitor value supervising a newly started backend of the
    /// given type.
    pub open spec fn spec_for_type(tunnel_type: TunnelType) -> TunnelMonitor {
        TunnelMonitor {
            monitor: match tunnel_type {
                TunnelType::OpenVpn => InternalTunnelMonitor::OpenVpn(
                    OpenVpnMonitor { close_requested: false },
                ),
                TunnelType::Tinc => InternalTunnelMonitor::Tinc(
                    TincMonitor { close_requested: false },
                ),
                TunnelType::Wireguard => InternalTunnelMonitor::Wireguard(
                    WireguardMonitor { close_requested: false },
                ),
            },
        }
    }

    /// Checks that the parameters do not ask for IPv6 on a machine whose
    /// operating system has IPv6 disabled; the OS probe's result is
    /// handed in by the caller.
    pub fn ensure_ipv6_can_be_used_if_enabled(
        tunnel_options: &GenericTunnelOptions,
        ipv6_enabled_in_os: bool,
    ) -> (r: Result<(), Error>)
        ensures
            r is Ok <==> (!tunnel_options.enable_ipv6 || ipv6_enabled_in_os),
            r is Err ==> r == Result::<(), Error>::Err(Error::EnableIpv6Error),
    {
        if tunnel_options.enable_ipv6 && !ipv6_enabled_in_os {
            Err(Error::EnableIpv6Error)
        } else {
            Ok(())
        }
    }

    /// The log file name of each backend's tunnel log.
    pub fn log_filename(parameters: &TunnelParameters) -> (r: &'static str)
        ensures
            parameters.spec_tunnel_type() == TunnelType::OpenVpn ==> r@ == "openvpn.log"@,
            parameters.spec_tunnel_type() == TunnelType::Tinc ==> r@ == "tinc.log"@,
            parameters.spec_tunnel_type() == TunnelType::Wireguard ==> r@ == "wireguard.log"@,
    {
        match parameters {
            TunnelParameters::OpenVpn(_) => "openvpn.log",
            TunnelParameters::Tinc(_) => "tinc.log",
            TunnelParameters::Wireguard(_) => "wireguard.log",
        }
    }

    /// Admits a new monitor for the backend the parameters name, after
    /// checking that IPv6 may be used if the parameters enable it. The
    /// spawning of the backend process itself happens outside this crate;
    /// a failure to spawn is reported back as a tunnel-down event.
    pub fn start(tunnel_parameters: &TunnelParameters, ipv6_enabled_in_os: bool) -> (r: Result<
        TunnelMonitor,
        Error,
    >)
        ensures
            r is Ok <==> (!tunnel_parameters.spec_generic_options().enable_ipv6
                || ipv6_enabled_in_os),
            r matches Ok(monitor) ==> monitor == TunnelMonitor::spec_for_type(
                tunnel_parameters.spec_tunnel_type(),
            ),
            r is Err ==> r == Result::<TunnelMonitor, Error>::Err(Error::EnableIpv6Error),
    {
        Self::ensure_ipv6_can_be_used_if_enabled(
            &tunnel_parameters.get_generic_options(),
            ipv6_enabled_in_os,
        )?;
        let monitor = match tunnel_parameters {
            TunnelParameters::OpenVpn(_) => InternalTunnelMonitor::OpenVpn(
                OpenVpnMonitor { close_requested: false },
            ),
            TunnelParameters::Tinc(_) => InternalTunnelMonitor::Tinc(
                TincMonitor { close_requested: false },
            ),
            TunnelParameters::Wireguard(_) => InternalTunnelMonitor::Wireguard(
                WireguardMonitor { close_requested: false },
            ),
        };
        Ok(TunnelMonitor { monitor })
    }

    /// Creates a handle to this monitor, allowing the tunnel to be closed
    /// while some other thread is blocked in `wait`.
    pub fn close_handle(&self) -> (r: CloseHandle)
        ensures
            r.spec_closed() == self.monitor.spec_close_requested(),
    {
        self.monitor.close_handle()
    }

    /// Records that a close was requested through a handle, so that a
    /// later failure exit is not misread as an unexpected death.
    pub fn register_close_request(&mut self)
        ensures
            final(self).monitor.spec_close_requested(),
            final(self).monitor.spec_tunnel_type() == old(self).monitor.spec_tunnel_type(),
    {
        self.monitor = match self.monitor {
            InternalTunnelMonitor::OpenVpn(_) => InternalTunnelMonitor::OpenVpn(
                OpenVpnMonitor { close_requested: true },
            ),
            InternalTunnelMonitor::Tinc(_) => InternalTunnelMonitor::Tinc(
                TincMonitor { close_requested: true },
            ),
            InternalTunnelMonitor::Wireguard(_) => InternalTunnelMonitor::Wireguard(
                WireguardMonitor { close_requested: true },
            ),
        };
    }

    /// Consumes the monitor and settles the result of the wait for the
    /// backend to have fully exited, from the exit the supervising thread
    /// observed: a failure exit that nobody requested is an error, never a
    /// clean down, because retry accounting depends on the distinction.
    pub fn wait(self, exit: ProcessExit) -> (r: Result<(), Error>)
        ensures
            r is Ok <==> (exit == ProcessExit::Clean || self.monitor.spec_close_requested()),
            r is Err ==> r == Result::<(), Error>::Err(Error::ChildProcessDied),
    {
        self.monitor.wait(exit)
    }
}

} // verus!

verus! {

/// The mathematical model of tunnel parameters.
#[verifier::ext_equal]
pub enum TunnelParametersV {
    OpenVpn(OpenVpnParameters),
    Tinc(crate::tinc::TunnelParametersV),
    Wireguard(WireguardParameters),
}

impl View for TunnelParameters {
    type V = TunnelParametersV;

    open spec fn view(&self) -> TunnelParametersV {
        match self {
            TunnelParameters::OpenVpn(params) => TunnelParametersV::OpenVpn(*params),
            TunnelParameters::Tinc(params) => TunnelParametersV::Tinc(params@),
            TunnelParameters::Wireguard(params) => TunnelParametersV::Wireguard(*params),
        }
    }
}

impl TunnelParameters {
    /// Returns a value equal to this one.
    pub fn duplicate(&self) -> (r: TunnelParameters)
        ensures
            r@ =~= self@,
    {
        match self {
            TunnelParameters::OpenVpn(params) => TunnelParameters::OpenVpn(*params),
            TunnelParameters::Tinc(params) => TunnelParameters::Tinc(params.duplicate()),
            TunnelParameters::Wireguard(params) => TunnelParameters::Wireguard(*params),
        }
    }
}

impl TunnelMetadata {
    /// Returns a value equal to this one.
    pub fn duplicate(&self) -> (r: TunnelMetadata)
        ensures
            r@ =~= self@,
    {
        let mut ips: Vec<IpAddress> = Vec::new();
        let mut i: usize = 0;
        while i < self.ips.len()
            invariant
                i <= self.ips.len(),
                ips@ =~= self.ips@.take(i as int),
            decreases self.ips.len() - i,
        {
            ips.push(self.ips[i]);
            i = i + 1;
        }
        proof {
            assert(self.ips@.take(self.ips@.len() as int) =~= self.ips@);
        }
        TunnelMetadata {
            interface: self.interface.clone(),
            ips,
            ipv4_gateway: self.ipv4_gateway,
            ipv6_gateway: self.ipv6_gateway,
        }
    }
}

} // verus!

verus! {

impl TunnelEvent {
    /// Returns a value equal to this one.
    pub fn duplicate(&self) -> (r: TunnelEvent)
        ensures
            r@ =~~= self@,
    {
        match self {
            TunnelEvent::AuthFailed(reason) => TunnelEvent::AuthFailed(
                match reason {
                    Some(text) => Some(text.clone()),
                    None => None,
                },
            ),
            TunnelEvent::Up(metadata) => TunnelEvent::Up(metadata.duplicate()),
            TunnelEvent::Down => TunnelEvent::Down,
        }
    }
}

} // verus!

verus! {

/// The lifecycle notifications of the OpenVPN plugin interface that this
/// crate reads; everything else it reports is ignored.
#[derive(Clone, Copy, Debug, PartialEq, Eq, Structural, Hash)]
pub enum OpenVpnPluginEvent {
    /// The backend reported an authentication failure.
    AuthFailed,
    /// The tunnel routes are up.
    RouteUp,
    /// The tunnel routes are about to go down.
    RoutePredown,
    /// Any other notification of the plugin interface.
    Other,
}

/// The lifecycle notifications of the tinc plugin interface that this
/// crate reads.
#[derive(Clone, Copy, Debug, PartialEq, Eq, Structural, Hash)]
pub enum TincPluginEvent {
    /// The tunnel is up.
    Up,
    /// The tunnel went down.
    Down,
    /// Any other notification of the plugin interface.
    Other,
}

/// The first value stored under a key in an environment list.
pub open spec fn spec_env_get(env: Seq<(Seq<char>, Seq<char>)>, key: Seq<char>) -> Option<
    Seq<char>,
>
    decreases env.len(),
{
    if env.len() == 0 {
        None
    } else if env[0].0 == key {
        Some(env[0].1)
    } else {
        spec_env_get(env.skip(1), key)
    }
}

/// Looks a key up in an environment list.
fn env_get(env: &Vec<(String, String)>, key: &str) -> (r: Option<String>)
    ensures
        match r {
            Some(value) => spec_env_get(crate::report::pairs_view(env@), key@) == Some(value@),
            None => spec_env_get(crate::report::pairs_view(env@), key@) is None,
        },
{
    let ghost env_v = crate::report::pairs_view(env@);
    let key_string = key.to_owned();
    let mut i: usize = 0;
    proof {
        assert(env_v.skip(0) =~= env_v);
    }
    while i < env.len()
        invariant
            env_v == crate::report::pairs_view(env@),
            key_string@ == key@,
            i <= env_v.len(),
            spec_env_get(env_v, key@) == spec_env_get(env_v.skip(i as int), key@),
        decreases env.len() - i,
    {
        proof {
            assert(env_v.skip(i as int)[0] == env_v[i as int]);
            assert(env_v.skip(i as int).skip(1) =~= env_v.skip(i as int + 1));
            assert(env_v[i as int] == (env@[i as int].0@, env@[i as int].1@));
        }
        if env[i].0.eq(&key_string) {
            return Some(env[i].1.clone());
        }
        i = i + 1;
    }
    proof {
        assert(env_v.skip(env_v.len() as int) =~= Seq::<(Seq<char>, Seq<char>)>::empty());
    }
    None
}

/// The tunnel metadata a tunnel-up environment describes, when it
/// describes one completely: the interface name, one local address, the
/// IPv4 gateway, and optionally an IPv6 gateway.
pub open spec fn spec_metadata_from_env(env: Seq<(Seq<char>, Seq<char>)>) -> Option<
    TunnelMetadataV,
> {
    match (
        spec_env_get(env, "dev"@),
        spec_env_get(env, "ifconfig_local"@),
        spec_env_get(env, "route_vpn_gateway"@),
    ) {
        (Some(dev), Some(local), Some(gateway)) => {
            match (crate::parse::spec_parse_ip(local), crate::parse::spec_parse_ipv4(gateway)) {
                (Some(ip), Some(ipv4_gateway)) => {
                    match spec_env_get(env, "route_ipv6_gateway_1"@) {
                        None => Some(
                            TunnelMetadataV {
                                interface: dev,
                                ips: seq![ip],
                                ipv4_gateway,
                                ipv6_gateway: None,
                            },
                        ),
                        Some(gateway6_text) => match crate::parse::spec_parse_ipv6(
                            gateway6_text,
                        ) {
                            Some(gateway6) => Some(
                                TunnelMetadataV {
                                    interface: dev,
                                    ips: seq![ip],
                                    ipv4_gateway,
                                    ipv6_gateway: Some(gateway6),
                                },
                            ),
                            None => None,
                        },
                    }
                },
                _ => None,
            }
        },
        _ => None,
    }
}

/// Builds the tunnel metadata a tunnel-up environment describes.
fn metadata_from_env(env: &Vec<(String, String)>) -> (r: Option<TunnelMetadata>)
    ensures
        match r {
            Some(metadata) => spec_metadata_from_env(crate::report::pairs_view(env@)) == Some(
                metadata@,
            ),
            None => spec_metadata_from_env(crate::report::pairs_view(env@)) is None,
        },
{
    let dev = env_get(env, "dev");
    let local = env_get(env, "ifconfig_local");
    let gateway = env_get(env, "route_vpn_gateway");
    match (dev, local, gateway) {
        (Some(dev), Some(local), Some(gateway)) => {
            let ip = crate::parse::parse_ip(local.as_str());
            let ipv4_gateway = crate::parse::parse_ipv4(gateway.as_str());
            match (ip, ipv4_gateway) {
                (Some(ip), Some(ipv4_gateway)) => {
                    let mut ips: Vec<IpAddress> = Vec::new();
                    ips.push(ip);
                    proof {
                        assert(ips@ =~= seq![ip]);
                    }
                    match env_get(env, "route_ipv6_gateway_1") {
                        None => Some(
                            TunnelMetadata { interface: dev, ips, ipv4_gateway, ipv6_gateway: None },
                        ),
                        Some(gateway6_text) => {
                            match crate::parse::parse_ipv6(gateway6_text.as_str()) {
                                Some(gateway6) => Some(
                                    TunnelMetadata {
                                        interface: dev,
                                        ips,
                                        ipv4_gateway,
                                        ipv6_gateway: Some(gateway6),
                                    },
                                ),
                                None => None,
                            }
                        },
                    }
                },
                _ => None,
            }
        },
        _ => None,
    }
}

/// What an OpenVPN plugin notification means for the tunnel lifecycle.
pub open spec fn spec_from_openvpn_event(
    event: OpenVpnPluginEvent,
    env: Seq<(Seq<char>, Seq<char>)>,
) -> Option<TunnelEventV> {
    match event {
        OpenVpnPluginEvent::AuthFailed => Some(
            TunnelEventV::AuthFailed(spec_env_get(env, "auth_failed_reason"@)),
        ),
        OpenVpnPluginEvent::RouteUp => match spec_metadata_from_env(env) {
            Some(metadata) => Some(TunnelEventV::Up(metadata)),
            None => None,
        },
        OpenVpnPluginEvent::RoutePredown => Some(TunnelEventV::Down),
        OpenVpnPluginEvent::Other => None,
    }
}

/// What a tinc plugin notification means for the tunnel lifecycle.
pub open spec fn spec_from_tinc_event(
    event: TincPluginEvent,
    env: Seq<(Seq<char>, Seq<char>)>,
) -> Option<TunnelEventV> {
    match event {
        TincPluginEvent::Up => match spec_metadata_from_env(env) {
            Some(metadata) => Some(TunnelEventV::Up(metadata)),
            None => None,
        },
        TincPluginEvent::Down => Some(TunnelEventV::Down),
        TincPluginEvent::Other => None,
    }
}

impl TunnelEvent {
    /// Converts an OpenVPN plugin notification and its environment to a
    /// tunnel event. Returns nothing when the notification carries no
    /// lifecycle meaning or its environment does not describe a tunnel.
    pub fn from_openvpn_event(event: OpenVpnPluginEvent, env: &Vec<(String, String)>) -> (r:
        Option<TunnelEvent>)
        ensures
            match r {
                Some(tunnel_event) => spec_from_openvpn_event(
                    event,
                    crate::report::pairs_view(env@),
                ) matches Some(expected) && tunnel_event@ =~~= expected,
                None => spec_from_openvpn_event(event, crate::report::pairs_view(env@)) is None,
            },
    {
        match event {
            OpenVpnPluginEvent::AuthFailed => {
                let reason = env_get(env, "auth_failed_reason");
                Some(TunnelEvent::AuthFailed(reason))
            },
            OpenVpnPluginEvent::RouteUp => {
                match metadata_from_env(env) {
                    Some(metadata) => Some(TunnelEvent::Up(metadata)),
                    None => None,
                }
            },
            OpenVpnPluginEvent::RoutePredown => Some(TunnelEvent::Down),
            OpenVpnPluginEvent::Other => None,
        }
    }

    /// Converts a tinc plugin notification and its environment to a
    /// tunnel event.
    pub fn from_tinc_event(event: TincPluginEvent, env: &Vec<(String, String)>) -> (r: Option<
        TunnelEvent,
    >)
        ensures
            match r {
                Some(tunnel_event) => spec_from_tinc_event(
                    event,
                    crate::report::pairs_view(env@),
                ) matches Some(expected) && tunnel_event@ =~~= expected,
                None => spec_from_tinc_event(event, crate::report::pairs_view(env@)) is None,
            },
    {
        match event {
            TincPluginEvent::Up => {
                match metadata_from_env(env) {
                    Some(metadata) => Some(TunnelEvent::Up(metadata)),
                    None => None,
                }
            },
            TincPluginEvent::Down => Some(TunnelEvent::Down),
            TincPluginEvent::Other => None,
        }
    }
}

} // verus!

verus! {

impl TincMonitor {
    /// The metadata a tinc tunnel reports when it comes up: the virtual
    /// IP serves as the local address and as the gateway, on the fixed
    /// tinc interface.
    pub fn tunnel_up_metadata(vip: Ipv4Address) -> (r: TunnelMetadata)
        ensures
            r@.interface == "tun0"@,
            r@.ips =~= seq![IpAddress::V4(vip)],
            r@.ipv4_gateway == vip,
            r@.ipv6_gateway is None,
    {
        let mut ips: Vec<IpAddress> = Vec::new();
        ips.push(IpAddress::V4(vip));
        proof {
            assert(ips@ =~= seq![IpAddress::V4(vip)]);
        }
        TunnelMetadata {
            interface: "tun0".to_owned(),
            ips,
            ipv4_gateway: vip,
            ipv6_gateway: None,
        }
    }
}

/// The arguments of the ping run that checks a tunnel peer is reachable:
/// numeric output, one-second interval, a deadline, the interface to
/// ping over, optionally exit on the first reply, and the target.
pub open spec fn spec_ping_arguments(
    ip: IpAddress,
    timeout_secs: u16,
    interface: Seq<char>,
    exit_on_first_reply: bool,
) -> Seq<Seq<char>> {
    seq!["-n"@, "-i"@, "1"@, "-w"@, crate::text::spec_decimal(timeout_secs as int), "-I"@, interface]
        + (if exit_on_first_reply {
        seq!["-c"@, "1"@]
    } else {
        Seq::empty()
    }) + seq![crate::net::spec_ip_text(ip)]
}

/// Builds the argument list of the ping run that checks a tunnel peer is
/// reachable; the embedding runs the ping binary with it.
pub fn ping_arguments(
    ip: &IpAddress,
    timeout_secs: u16,
    interface: &str,
    exit_on_first_reply: bool,
) -> (r: Vec<String>)
    ensures
        crate::report::strings_view(r@) =~= spec_ping_arguments(
            *ip,
            timeout_secs,
            interface@,
            exit_on_first_reply,
        ),
{
    let mut args: Vec<String> = Vec::new();
    args.push("-n".to_owned());
    args.push("-i".to_owned());
    args.push("1".to_owned());
    args.push("-w".to_owned());
    args.push(crate::text::decimal_string(timeout_secs as u32));
    args.push("-I".to_owned());
    args.push(interface.to_owned());
    if exit_on_first_reply {
        args.push("-c".to_owned());
        args.push("1".to_owned());
    }
    args.push(crate::net::ip_text(ip));
    args
}

} // verus!
