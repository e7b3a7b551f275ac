//! The tunnel lifecycle state machine.
//!
//! One reactor owns the tunnel state, the firewall and the currently
//! active tunnel monitor. It consumes a merged stream of commands and
//! tunnel events, applies the transition rules, and as a side effect
//! installs the firewall policy of the state it enters and asks the
//! embedding to start or close the tunnel backend. The step relation is a
//! function of the current state and the incoming event alone, so a given
//! event sequence always produces the same transition sequence.

use vstd::prelude::*;

use crate::firewall::spec_install;
use crate::firewall::Firewall;
use crate::net::Endpoint;
use crate::net::IpAddress;
use crate::policy::FirewallPolicy;
use crate::policy::FirewallPolicyV;
use crate::tunnel::TunnelEvent;
use crate::tunnel::TunnelEventV;
use crate::tunnel::TunnelMetadata;
use crate::tunnel::TunnelMetadataV;
use crate::tunnel::TunnelMonitor;
use crate::tunnel::TunnelParameters;
use crate::tunnel::TunnelParametersV;

verus! {

/// How often a failed connection attempt is retried before the machine
/// gives up and blocks.
pub const MAX_CONNECT_RETRIES: u32 = 4;

/// Why the machine entered the blocked state.
#[derive(Clone, Debug, PartialEq, Eq, Hash)]
pub enum BlockReason {
    /// The tunnel backend reported an authentication failure; retrying
    /// cannot help until the credentials change.
    AuthFailed(Option<String>),
    /// The parameters ask for IPv6 but the operating system has IPv6
    /// disabled.
    Ipv6Unavailable,
    /// The tunnel could not be started and the retry budget is spent.
    StartTunnelError,
    /// The host is offline; a tunnel cannot reach the peer.
    IsOffline,
    /// The user asked for the block.
    UserRequested,
}

/// The mathematical model of a block reason.
#[verifier::ext_equal]
pub enum BlockReasonV {
    AuthFailed(Option<Seq<char>>),
    Ipv6Unavailable,
    StartTunnelError,
    IsOffline,
    UserRequested,
}

impl View for BlockReason {
    type V = BlockReasonV;

    open spec fn view(&self) -> BlockReasonV {
        match self {
            BlockReason::AuthFailed(reason) => BlockReasonV::AuthFailed(
                match reason {
                    Some(text) => Some(text@),
                    None => None,
                },
            ),
            BlockReason::Ipv6Unavailable => BlockReasonV::Ipv6Unavailable,
            BlockReason::StartTunnelError => BlockReasonV::StartTunnelError,
            BlockReason::IsOffline => BlockReasonV::IsOffline,
            BlockReason::UserRequested => BlockReasonV::UserRequested,
        }
    }
}

impl BlockReason {
    /// Returns a value equal to this one.
    pub fn duplicate(&self) -> (r: BlockReason)
        ensures
            r@ =~~= self@,
    {
        match self {
            BlockReason::AuthFailed(reason) => BlockReason::AuthFailed(
                match reason {
                    Some(text) => Some(text.clone()),
                    None => None,
                },
            ),
            BlockReason::Ipv6Unavailable => BlockReason::Ipv6Unavailable,
            BlockReason::StartTunnelError => BlockReason::StartTunnelError,
            BlockReason::IsOffline => BlockReason::IsOffline,
            BlockReason::UserRequested => BlockReason::UserRequested,
        }
    }
}

/// A command posted to the machine by the daemon's callers, delivered in
/// FIFO order.
#[derive(Clone, Debug, PartialEq, Eq, Hash)]
pub enum TunnelCommand {
    /// Open the tunnel.
    Connect,
    /// Close the tunnel and return to the disconnected state.
    Disconnect,
    /// Block all traffic for the given reason.
    Block(BlockReason),
    /// Change whether LAN traffic stays possible.
    AllowLan(bool),
    /// Change whether the disconnected state keeps the default-deny
    /// firewall active.
    BlockWhenDisconnected(bool),
    /// Record whether the host is offline.
    IsOffline(bool),
}

/// The mathematical model of a command.
#[verifier::ext_equal]
pub enum TunnelCommandV {
    Connect,
    Disconnect,
    Block(BlockReasonV),
    AllowLan(bool),
    BlockWhenDisconnected(bool),
    IsOffline(bool),
}

impl View for TunnelCommand {
    type V = TunnelCommandV;

    open spec fn view(&self) -> TunnelCommandV {
        match self {
            TunnelCommand::Connect => TunnelCommandV::Connect,
            TunnelCommand::Disconnect => TunnelCommandV::Disconnect,
            TunnelCommand::Block(reason) => TunnelCommandV::Block(reason@),
            TunnelCommand::AllowLan(allow) => TunnelCommandV::AllowLan(*allow),
            TunnelCommand::BlockWhenDisconnected(block) => TunnelCommandV::BlockWhenDisconnected(
                *block,
            ),
            TunnelCommand::IsOffline(offline) => TunnelCommandV::IsOffline(*offline),
        }
    }
}

/// What the machine does once the tunnel it is disconnecting from has
/// gone down.
#[derive(Clone, Debug, PartialEq, Eq, Hash)]
pub enum AfterDisconnect {
    /// Settle in the disconnected state.
    Nothing,
    /// Block for the given reason.
    Block(BlockReason),
    /// Reconnect, with the given retry attempt.
    Reconnect(u32),
}

/// The mathematical model of the action after a disconnect.
#[verifier::ext_equal]
pub enum AfterDisconnectV {
    Nothing,
    Block(BlockReasonV),
    Reconnect(u32),
}

impl View for AfterDisconnect {
    type V = AfterDisconnectV;

    open spec fn view(&self) -> AfterDisconnectV {
        match self {
            AfterDisconnect::Nothing => AfterDisconnectV::Nothing,
            AfterDisconnect::Block(reason) => AfterDisconnectV::Block(reason@),
            AfterDisconnect::Reconnect(retry) => AfterDisconnectV::Reconnect(*retry),
        }
    }
}

/// The cause of a disconnecting state, as shown to external listeners.
#[derive(Clone, Copy, Debug, PartialEq, Eq, Structural, Hash)]
pub enum ActionAfterDisconnect {
    Nothing,
    Block,
    Reconnect,
}

impl AfterDisconnectV {
    /// The cause shown to listeners for this pending action.
    pub open spec fn spec_action(self) -> ActionAfterDisconnect {
        match self {
            AfterDisconnectV::Nothing => ActionAfterDisconnect::Nothing,
            AfterDisconnectV::Block(_) => ActionAfterDisconnect::Block,
            AfterDisconnectV::Reconnect(_) => ActionAfterDisconnect::Reconnect,
        }
    }
}

/// One state-transition notification, emitted to external listeners each
/// time the machine enters a state: the state minus its owned resources.
#[derive(Clone, Debug, PartialEq, Eq, Hash)]
pub enum TunnelStateTransition {
    Disconnected,
    Connecting(u32),
    Connected(TunnelMetadata),
    Disconnecting(ActionAfterDisconnect),
    Blocked(BlockReason),
}

/// The mathematical model of a transition notification.
#[verifier::ext_equal]
pub enum TunnelStateTransitionV {
    Disconnected,
    Connecting(u32),
    Connected(TunnelMetadataV),
    Disconnecting(ActionAfterDisconnect),
    Blocked(BlockReasonV),
}

impl View for TunnelStateTransition {
    type V = TunnelStateTransitionV;

    open spec fn view(&self) -> TunnelStateTransitionV {
        match self {
            TunnelStateTransition::Disconnected => TunnelStateTransitionV::Disconnected,
            TunnelStateTransition::Connecting(retry) => TunnelStateTransitionV::Connecting(*retry),
            TunnelStateTransition::Connected(metadata) => TunnelStateTransitionV::Connected(
                metadata@,
            ),
            TunnelStateTransition::Disconnecting(action) => TunnelStateTransitionV::Disconnecting(
                *action,
            ),
            TunnelStateTransition::Blocked(reason) => TunnelStateTransitionV::Blocked(reason@),
        }
    }
}

/// What the embedding must do for the machine: spawn the backend process
/// of a new connection attempt, or deliver the kill signal to the current
/// one. The machine only decides; the processes live outside this crate.
#[derive(Clone, Debug, PartialEq, Eq, Hash)]
pub enum MonitorAction {
    /// Start the tunnel backend with these parameters.
    Start(TunnelParameters),
    /// Close the running tunnel backend.
    Close,
}

/// The mathematical model of a monitor action.
#[verifier::ext_equal]
pub enum MonitorActionV {
    Start(TunnelParametersV),
    Close,
}

impl View for MonitorAction {
    type V = MonitorActionV;

    open spec fn view(&self) -> MonitorActionV {
        match self {
            MonitorAction::Start(params) => MonitorActionV::Start(params@),
            MonitorAction::Close => MonitorActionV::Close,
        }
    }
}

/// The model of a sequence of monitor actions.
pub open spec fn actions_view(s: Seq<MonitorAction>) -> Seq<MonitorActionV> {
    s.map_values(|a: MonitorAction| a@)
}

/// One item of the merged stream the reactor consumes: a command from a
/// caller, or an event from the active tunnel monitor.
#[derive(Clone, Debug, PartialEq, Eq, Hash)]
pub enum InputEvent {
    Command(TunnelCommand),
    Tunnel(TunnelEvent),
}

/// The mathematical model of one stream item.
#[verifier::ext_equal]
pub enum InputEventV {
    Command(TunnelCommandV),
    Tunnel(TunnelEventV),
}

impl View for InputEvent {
    type V = InputEventV;

    open spec fn view(&self) -> InputEventV {
        match self {
            InputEvent::Command(command) => InputEventV::Command(command@),
            InputEvent::Tunnel(event) => InputEventV::Tunnel(event@),
        }
    }
}

/// No tunnel is running.
pub struct DisconnectedState;

/// The machine is attempting to open a tunnel; it owns the active
/// monitor.
pub struct ConnectingState {
    pub tunnel_monitor: TunnelMonitor,
    pub retry_attempt: u32,
}

/// The tunnel is up; the machine owns the active monitor and the tunnel
/// metadata.
pub struct ConnectedState {
    pub tunnel_monitor: TunnelMonitor,
    pub metadata: TunnelMetadata,
}

/// The machine asked the tunnel to close and waits for it to go down.
pub struct DisconnectingState {
    pub after_disconnect: AfterDisconnect,
}

/// All traffic is blocked.
pub struct BlockedState {
    pub reason: BlockReason,
}

/// The current state of the machine; exactly one tunnel monitor exists at
/// any time and it is owned by the current state value.
pub enum TunnelStateWrapper {
    Disconnected(DisconnectedState),
    Connecting(ConnectingState),
    Connected(ConnectedState),
    Disconnecting(DisconnectingState),
    Blocked(BlockedState),
}

/// The mathematical model of the machine's state.
#[verifier::ext_equal]
pub enum TunnelStateV {
    Disconnected,
    Connecting { monitor: TunnelMonitor, retry_attempt: u32 },
    Connected { monitor: TunnelMonitor, metadata: TunnelMetadataV },
    Disconnecting { after_disconnect: AfterDisconnectV },
    Blocked { reason: BlockReasonV },
}

impl View for TunnelStateWrapper {
    type V = TunnelStateV;

    open spec fn view(&self) -> TunnelStateV {
        match self {
            TunnelStateWrapper::Disconnected(_) => TunnelStateV::Disconnected,
            TunnelStateWrapper::Connecting(state) => TunnelStateV::Connecting {
                monitor: state.tunnel_monitor,
                retry_attempt: state.retry_attempt,
            },
            TunnelStateWrapper::Connected(state) => TunnelStateV::Connected {
                monitor: state.tunnel_monitor,
                metadata: state.metadata@,
            },
            TunnelStateWrapper::Disconnecting(state) => TunnelStateV::Disconnecting {
                after_disconnect: state.after_disconnect@,
            },
            TunnelStateWrapper::Blocked(state) => TunnelStateV::Blocked { reason: state.reason@ },
        }
    }
}

/// The values every state shares: the firewall, the user's two flags, the
/// recorded connectivity, the OS's IPv6 capability, and the parameters
/// the next connection attempt will use.
pub struct SharedTunnelStateValues {
    pub firewall: Firewall,
    pub allow_lan: bool,
    pub block_when_disconnected: bool,
    pub is_offline: bool,
    pub ipv6_enabled_in_os: bool,
    pub tunnel_parameters: TunnelParameters,
}

/// The mathematical model of the shared values.
#[verifier::ext_equal]
pub struct SharedValuesV {
    pub firewall: Option<crate::compiler::FinalizedBatchV>,
    pub allow_lan: bool,
    pub block_when_disconnected: bool,
    pub is_offline: bool,
    pub ipv6_enabled_in_os: bool,
    pub tunnel_parameters: TunnelParametersV,
}

impl View for SharedTunnelStateValues {
    type V = SharedValuesV;

    open spec fn view(&self) -> SharedValuesV {
        SharedValuesV {
            firewall: self.firewall@,
            allow_lan: self.allow_lan,
            block_when_disconnected: self.block_when_disconnected,
            is_offline: self.is_offline,
            ipv6_enabled_in_os: self.ipv6_enabled_in_os,
            tunnel_parameters: self.tunnel_parameters@,
        }
    }
}

/// The peer endpoint of the parameters' connection attempt.
pub open spec fn spec_params_endpoint(params: TunnelParametersV) -> Endpoint {
    match params {
        TunnelParametersV::OpenVpn(p) => p.endpoint,
        TunnelParametersV::Tinc(p) => p.config.endpoint,
        TunnelParametersV::Wireguard(p) => p.endpoint,
    }
}

/// The hosts that must stay pingable while connecting: the virtual IP of
/// a tinc attempt, nothing for the other backends.
pub open spec fn spec_pingable_hosts(params: TunnelParametersV) -> Seq<IpAddress> {
    match params {
        TunnelParametersV::Tinc(p) => seq![p.config.tinc_info.vip],
        _ => Seq::empty(),
    }
}

/// Whether the parameters enable IPv6.
pub open spec fn spec_params_enable_ipv6(params: TunnelParametersV) -> bool {
    match params {
        TunnelParametersV::OpenVpn(p) => p.generic_options.enable_ipv6,
        TunnelParametersV::Tinc(p) => p.generic_options.enable_ipv6,
        TunnelParametersV::Wireguard(p) => p.generic_options.enable_ipv6,
    }
}

/// The firewall policy of the connecting state.
pub open spec fn spec_connecting_policy(shared: SharedValuesV) -> FirewallPolicyV {
    FirewallPolicyV::Connecting {
        peer_endpoint: spec_params_endpoint(shared.tunnel_parameters),
        pingable_hosts: spec_pingable_hosts(shared.tunnel_parameters),
        allow_lan: shared.allow_lan,
    }
}

/// The firewall policy of the connected state.
pub open spec fn spec_connected_policy(
    shared: SharedValuesV,
    metadata: TunnelMetadataV,
) -> FirewallPolicyV {
    FirewallPolicyV::Connected {
        peer_endpoint: spec_params_endpoint(shared.tunnel_parameters),
        tunnel: metadata,
        allow_lan: shared.allow_lan,
    }
}

/// The firewall policy of the blocked state.
pub open spec fn spec_blocked_policy(shared: SharedValuesV) -> FirewallPolicyV {
    FirewallPolicyV::Blocked { allow_lan: shared.allow_lan }
}

/// Builds the firewall policy of the connecting state.
pub fn connecting_policy(shared: &SharedTunnelStateValues) -> (r: FirewallPolicy)
    ensures
        r@ =~~= spec_connecting_policy(shared@),
{
    let peer_endpoint = shared.tunnel_parameters.get_endpoint();
    let mut pingable_hosts: Vec<IpAddress> = Vec::new();
    match &shared.tunnel_parameters {
        TunnelParameters::Tinc(params) => {
            pingable_hosts.push(params.config.tinc_info.vip);
        },
        _ => {},
    }
    FirewallPolicy::Connecting { peer_endpoint, pingable_hosts, allow_lan: shared.allow_lan }
}

} // verus!

verus! {

/// Builds the firewall policy of the connected state.
pub fn connected_policy(shared: &SharedTunnelStateValues, metadata: &TunnelMetadata) -> (r:
    FirewallPolicy)
    ensures
        r@ =~~= spec_connected_policy(shared@, metadata@),
{
    FirewallPolicy::Connected {
        peer_endpoint: shared.tunnel_parameters.get_endpoint(),
        tunnel: metadata.duplicate(),
        allow_lan: shared.allow_lan,
    }
}

/// Builds the firewall policy of the blocked state.
pub fn blocked_policy(shared: &SharedTunnelStateValues) -> (r: FirewallPolicy)
    ensures
        r@ =~~= spec_blocked_policy(shared@),
{
    FirewallPolicy::Blocked { allow_lan: shared.allow_lan }
}

/// The result of one reactor step over the model: the shared values and
/// state afterwards, the transition notification emitted if a state was
/// entered, and what the embedding must do.
#[verifier::ext_equal]
pub struct StepResultV {
    pub shared: SharedValuesV,
    pub state: TunnelStateV,
    pub transition: Option<TunnelStateTransitionV>,
    pub actions: Seq<MonitorActionV>,
}

/// A step that stays in the same state and emits nothing.
pub open spec fn spec_same(shared: SharedValuesV, state: TunnelStateV) -> StepResultV {
    StepResultV { shared, state, transition: None, actions: Seq::empty() }
}

/// The same step with a close request for the running backend put first
/// among its actions.
pub open spec fn spec_with_close(r: StepResultV) -> StepResultV {
    StepResultV { actions: seq![MonitorActionV::Close] + r.actions, ..r }
}

/// The firewall state of the disconnected state: the blocking rule set
/// when the user keeps the kill switch on, otherwise no table at all.
pub open spec fn spec_disconnected_firewall(shared: SharedValuesV) -> Option<
    crate::compiler::FinalizedBatchV,
> {
    if shared.block_when_disconnected {
        spec_install(shared.firewall, spec_blocked_policy(shared))
    } else {
        None
    }
}

/// Entering the disconnected state: reset the firewall, or keep blocking
/// when the user asked for that, and notify listeners.
pub open spec fn spec_enter_disconnected(shared: SharedValuesV) -> StepResultV {
    StepResultV {
        shared: SharedValuesV { firewall: spec_disconnected_firewall(shared), ..shared },
        state: TunnelStateV::Disconnected,
        transition: Some(TunnelStateTransitionV::Disconnected),
        actions: Seq::empty(),
    }
}

/// Entering the blocked state: install the blocking rule set and notify
/// listeners of the reason.
pub open spec fn spec_enter_blocked(shared: SharedValuesV, reason: BlockReasonV) -> StepResultV {
    StepResultV {
        shared: SharedValuesV {
            firewall: spec_install(shared.firewall, spec_blocked_policy(shared)),
            ..shared
        },
        state: TunnelStateV::Blocked { reason },
        transition: Some(TunnelStateTransitionV::Blocked(reason)),
        actions: Seq::empty(),
    }
}

/// Entering the connecting state: install the connecting rule set, then
/// start a tunnel monitor. When the parameters ask for IPv6 on a machine
/// without it, the attempt fails at once into the blocked state and is
/// not retried.
pub open spec fn spec_enter_connecting(shared: SharedValuesV, retry_attempt: u32) -> StepResultV {
    let fw_shared = SharedValuesV {
        firewall: spec_install(shared.firewall, spec_connecting_policy(shared)),
        ..shared
    };
    if spec_params_enable_ipv6(shared.tunnel_parameters) && !shared.ipv6_enabled_in_os {
        spec_enter_blocked(fw_shared, BlockReasonV::Ipv6Unavailable)
    } else {
        StepResultV {
            shared: fw_shared,
            state: TunnelStateV::Connecting {
                monitor: TunnelMonitor::spec_for_type(
                    spec_params_tunnel_type(shared.tunnel_parameters),
                ),
                retry_attempt,
            },
            transition: Some(TunnelStateTransitionV::Connecting(retry_attempt)),
            actions: seq![MonitorActionV::Start(shared.tunnel_parameters)],
        }
    }
}

/// The backend named by the parameters.
pub open spec fn spec_params_tunnel_type(params: TunnelParametersV) -> crate::tunnel::TunnelType {
    match params {
        TunnelParametersV::OpenVpn(_) => crate::tunnel::TunnelType::OpenVpn,
        TunnelParametersV::Tinc(_) => crate::tunnel::TunnelType::Tinc,
        TunnelParametersV::Wireguard(_) => crate::tunnel::TunnelType::Wireguard,
    }
}

/// Entering the connected state: install the connected rule set and
/// notify listeners with the tunnel metadata.
pub open spec fn spec_enter_connected(
    shared: SharedValuesV,
    monitor: TunnelMonitor,
    metadata: TunnelMetadataV,
) -> StepResultV {
    StepResultV {
        shared: SharedValuesV {
            firewall: spec_install(shared.firewall, spec_connected_policy(shared, metadata)),
            ..shared
        },
        state: TunnelStateV::Connected { monitor, metadata },
        transition: Some(TunnelStateTransitionV::Connected(metadata)),
        actions: Seq::empty(),
    }
}

/// The step relation of the disconnected state.
pub open spec fn spec_step_disconnected(shared: SharedValuesV, event: InputEventV) -> StepResultV {
    match event {
        InputEventV::Command(TunnelCommandV::AllowLan(allow_lan)) => {
            if allow_lan != shared.allow_lan {
                let updated = SharedValuesV { allow_lan, ..shared };
                spec_same(
                    SharedValuesV { firewall: spec_disconnected_firewall(updated), ..updated },
                    TunnelStateV::Disconnected,
                )
            } else {
                spec_same(shared, TunnelStateV::Disconnected)
            }
        },
        InputEventV::Command(TunnelCommandV::BlockWhenDisconnected(block_when_disconnected)) => {
            if block_when_disconnected != shared.block_when_disconnected {
                let updated = SharedValuesV { block_when_disconnected, ..shared };
                spec_same(
                    SharedValuesV { firewall: spec_disconnected_firewall(updated), ..updated },
                    TunnelStateV::Disconnected,
                )
            } else {
                spec_same(shared, TunnelStateV::Disconnected)
            }
        },
        InputEventV::Command(TunnelCommandV::IsOffline(is_offline)) => spec_same(
            SharedValuesV { is_offline, ..shared },
            TunnelStateV::Disconnected,
        ),
        InputEventV::Command(TunnelCommandV::Connect) => {
            if shared.is_offline {
                spec_enter_blocked(shared, BlockReasonV::IsOffline)
            } else {
                spec_enter_connecting(shared, 0u32)
            }
        },
        InputEventV::Command(TunnelCommandV::Disconnect) => spec_same(
            shared,
            TunnelStateV::Disconnected,
        ),
        InputEventV::Command(TunnelCommandV::Block(reason)) => spec_enter_blocked(shared, reason),
        InputEventV::Tunnel(_) => spec_same(shared, TunnelStateV::Disconnected),
    }
}

/// The step relation of the connecting state.
pub open spec fn spec_step_connecting(
    shared: SharedValuesV,
    monitor: TunnelMonitor,
    retry_attempt: u32,
    event: InputEventV,
) -> StepResultV {
    let state = TunnelStateV::Connecting { monitor, retry_attempt };
    match event {
        InputEventV::Command(TunnelCommandV::AllowLan(allow_lan)) => {
            if allow_lan != shared.allow_lan {
                let updated = SharedValuesV { allow_lan, ..shared };
                spec_same(
                    SharedValuesV {
                        firewall: spec_install(updated.firewall, spec_connecting_policy(updated)),
                        ..updated
                    },
                    state,
                )
            } else {
                spec_same(shared, state)
            }
        },
        InputEventV::Command(TunnelCommandV::BlockWhenDisconnected(block_when_disconnected)) => {
            spec_same(SharedValuesV { block_when_disconnected, ..shared }, state)
        },
        InputEventV::Command(TunnelCommandV::IsOffline(is_offline)) => spec_same(
            SharedValuesV { is_offline, ..shared },
            state,
        ),
        InputEventV::Command(TunnelCommandV::Connect) => spec_same(shared, state),
        InputEventV::Command(TunnelCommandV::Disconnect) => StepResultV {
            shared,
            state: TunnelStateV::Disconnecting { after_disconnect: AfterDisconnectV::Nothing },
            transition: Some(
                TunnelStateTransitionV::Disconnecting(ActionAfterDisconnect::Nothing),
            ),
            actions: seq![MonitorActionV::Close],
        },
        InputEventV::Command(TunnelCommandV::Block(reason)) => spec_with_close(
            spec_enter_blocked(shared, reason),
        ),
        InputEventV::Tunnel(TunnelEventV::Up(metadata)) => spec_enter_connected(
            shared,
            monitor,
            metadata,
        ),
        InputEventV::Tunnel(TunnelEventV::Down) => {
            if retry_attempt >= MAX_CONNECT_RETRIES {
                spec_enter_blocked(shared, BlockReasonV::StartTunnelError)
            } else {
                spec_enter_connecting(shared, (retry_attempt + 1) as u32)
            }
        },
        InputEventV::Tunnel(TunnelEventV::AuthFailed(reason)) => spec_with_close(
            spec_enter_blocked(shared, BlockReasonV::AuthFailed(reason)),
        ),
    }
}

/// The step relation of the connected state.
pub open spec fn spec_step_connected(
    shared: SharedValuesV,
    monitor: TunnelMonitor,
    metadata: TunnelMetadataV,
    event: InputEventV,
) -> StepResultV {
    let state = TunnelStateV::Connected { monitor, metadata };
    match event {
        InputEventV::Command(TunnelCommandV::AllowLan(allow_lan)) => {
            if allow_lan != shared.allow_lan {
                let updated = SharedValuesV { allow_lan, ..shared };
                spec_same(
                    SharedValuesV {
                        firewall: spec_install(
                            updated.firewall,
                            spec_connected_policy(updated, metadata),
                        ),
                        ..updated
                    },
                    state,
                )
            } else {
                spec_same(shared, state)
            }
        },
        InputEventV::Command(TunnelCommandV::BlockWhenDisconnected(block_when_disconnected)) => {
            spec_same(SharedValuesV { block_when_disconnected, ..shared }, state)
        },
        InputEventV::Command(TunnelCommandV::IsOffline(is_offline)) => spec_same(
            SharedValuesV { is_offline, ..shared },
            state,
        ),
        InputEventV::Command(TunnelCommandV::Connect) => spec_same(shared, state),
        InputEventV::Command(TunnelCommandV::Disconnect) => StepResultV {
            shared,
            state: TunnelStateV::Disconnecting { after_disconnect: AfterDisconnectV::Nothing },
            transition: Some(
                TunnelStateTransitionV::Disconnecting(ActionAfterDisconnect::Nothing),
            ),
            actions: seq![MonitorActionV::Close],
        },
        InputEventV::Command(TunnelCommandV::Block(reason)) => spec_with_close(
            spec_enter_blocked(shared, reason),
        ),
        InputEventV::Tunnel(TunnelEventV::Up(_)) => spec_same(shared, state),
        InputEventV::Tunnel(TunnelEventV::Down) => spec_enter_connecting(shared, 0u32),
        InputEventV::Tunnel(TunnelEventV::AuthFailed(reason)) => spec_with_close(
            spec_enter_blocked(shared, BlockReasonV::AuthFailed(reason)),
        ),
    }
}

/// The step relation of the disconnecting state.
pub open spec fn spec_step_disconnecting(
    shared: SharedValuesV,
    after_disconnect: AfterDisconnectV,
    event: InputEventV,
) -> StepResultV {
    let state = TunnelStateV::Disconnecting { after_disconnect };
    match event {
        InputEventV::Command(TunnelCommandV::AllowLan(allow_lan)) => spec_same(
            SharedValuesV { allow_lan, ..shared },
            state,
        ),
        InputEventV::Command(TunnelCommandV::BlockWhenDisconnected(block_when_disconnected)) => {
            spec_same(SharedValuesV { block_when_disconnected, ..shared }, state)
        },
        InputEventV::Command(TunnelCommandV::IsOffline(is_offline)) => spec_same(
            SharedValuesV { is_offline, ..shared },
            state,
        ),
        InputEventV::Command(TunnelCommandV::Connect) => {
            if after_disconnect is Block {
                spec_same(shared, state)
            } else {
                spec_same(
                    shared,
                    TunnelStateV::Disconnecting {
                        after_disconnect: AfterDisconnectV::Reconnect(0u32),
                    },
                )
            }
        },
        InputEventV::Command(TunnelCommandV::Disconnect) => spec_same(shared, state),
        InputEventV::Command(TunnelCommandV::Block(reason)) => spec_same(
            shared,
            TunnelStateV::Disconnecting { after_disconnect: AfterDisconnectV::Block(reason) },
        ),
        InputEventV::Tunnel(TunnelEventV::Down) => match after_disconnect {
            AfterDisconnectV::Nothing => spec_enter_disconnected(shared),
            AfterDisconnectV::Block(reason) => spec_enter_blocked(shared, reason),
            AfterDisconnectV::Reconnect(retry_attempt) => spec_enter_connecting(
                shared,
                retry_attempt,
            ),
        },
        InputEventV::Tunnel(TunnelEventV::AuthFailed(reason)) => {
            if after_disconnect is Block {
                spec_same(shared, state)
            } else {
                spec_same(
                    shared,
                    TunnelStateV::Disconnecting {
                        after_disconnect: AfterDisconnectV::Block(
                            BlockReasonV::AuthFailed(reason),
                        ),
                    },
                )
            }
        },
        InputEventV::Tunnel(TunnelEventV::Up(_)) => spec_same(shared, state),
    }
}

/// The step relation of the blocked state.
pub open spec fn spec_step_blocked(
    shared: SharedValuesV,
    reason: BlockReasonV,
    event: InputEventV,
) -> StepResultV {
    let state = TunnelStateV::Blocked { reason };
    match event {
        InputEventV::Command(TunnelCommandV::AllowLan(allow_lan)) => {
            if allow_lan != shared.allow_lan {
                let updated = SharedValuesV { allow_lan, ..shared };
                spec_same(
                    SharedValuesV {
                        firewall: spec_install(updated.firewall, spec_blocked_policy(updated)),
                        ..updated
                    },
                    state,
                )
            } else {
                spec_same(shared, state)
            }
        },
        InputEventV::Command(TunnelCommandV::BlockWhenDisconnected(block_when_disconnected)) => {
            spec_same(SharedValuesV { block_when_disconnected, ..shared }, state)
        },
        InputEventV::Command(TunnelCommandV::IsOffline(is_offline)) => {
            let updated = SharedValuesV { is_offline, ..shared };
            if !is_offline && reason is IsOffline {
                spec_enter_connecting(updated, 0u32)
            } else {
                spec_same(updated, state)
            }
        },
        InputEventV::Command(TunnelCommandV::Connect) => {
            if shared.is_offline {
                spec_enter_blocked(shared, BlockReasonV::IsOffline)
            } else {
                spec_enter_connecting(shared, 0u32)
            }
        },
        InputEventV::Command(TunnelCommandV::Disconnect) => spec_enter_disconnected(shared),
        InputEventV::Command(TunnelCommandV::Block(new_reason)) => spec_enter_blocked(
            shared,
            new_reason,
        ),
        InputEventV::Tunnel(_) => spec_same(shared, state),
    }
}

/// The complete step relation: one function of the current state and the
/// incoming event alone.
pub open spec fn spec_step(
    shared: SharedValuesV,
    state: TunnelStateV,
    event: InputEventV,
) -> StepResultV {
    match state {
        TunnelStateV::Disconnected => spec_step_disconnected(shared, event),
        TunnelStateV::Connecting { monitor, retry_attempt } => spec_step_connecting(
            shared,
            monitor,
            retry_attempt,
            event,
        ),
        TunnelStateV::Connected { monitor, metadata } => spec_step_connected(
            shared,
            monitor,
            metadata,
            event,
        ),
        TunnelStateV::Disconnecting { after_disconnect } => spec_step_disconnecting(
            shared,
            after_disconnect,
            event,
        ),
        TunnelStateV::Blocked { reason } => spec_step_blocked(shared, reason, event),
    }
}

} // verus!

verus! {

/// What one reactor step tells the embedding: the transition to publish,
/// if a state was entered, and the monitor actions to perform.
pub struct StepOutcome {
    pub transition: Option<TunnelStateTransition>,
    pub actions: Vec<MonitorAction>,
}

/// Whether an outcome is the one the step relation calls for.
pub open spec fn outcome_matches(outcome: StepOutcome, res: StepResultV) -> bool {
    &&& match (outcome.transition, res.transition) {
        (Some(t), Some(tv)) => t@ =~~= tv,
        (None, None) => true,
        _ => false,
    }
    &&& actions_view(outcome.actions@) =~~= res.actions
}

impl DisconnectedState {
    /// Applies the firewall stance of the disconnected state: keep
    /// blocking when the kill switch is on, otherwise reset the table.
    pub fn set_firewall_policy(shared_values: &mut SharedTunnelStateValues)
        ensures
            final(shared_values)@ =~~= (SharedValuesV {
                firewall: spec_disconnected_firewall(old(shared_values)@),
                ..old(shared_values)@
            }),
    {
        if shared_values.block_when_disconnected {
            let policy = blocked_policy(shared_values);
            shared_values.firewall.apply_policy(policy);
        } else {
            shared_values.firewall.reset_policy();
        }
    }

    /// Enters the disconnected state.
    pub fn enter(shared_values: &mut SharedTunnelStateValues) -> (r: (
        TunnelStateWrapper,
        TunnelStateTransition,
    ))
        ensures
            ({
                let res = spec_enter_disconnected(old(shared_values)@);
                &&& final(shared_values)@ =~~= res.shared
                &&& r.0@ =~~= res.state
                &&& res.transition matches Some(t) && r.1@ =~~= t
            }),
    {
        Self::set_firewall_policy(shared_values);
        (TunnelStateWrapper::Disconnected(DisconnectedState), TunnelStateTransition::Disconnected)
    }
}

impl BlockedState {
    /// Enters the blocked state: installs the blocking rule set and
    /// notifies listeners of the reason.
    pub fn enter(shared_values: &mut SharedTunnelStateValues, reason: BlockReason) -> (r: (
        TunnelStateWrapper,
        TunnelStateTransition,
    ))
        ensures
            ({
                let res = spec_enter_blocked(old(shared_values)@, reason@);
                &&& final(shared_values)@ =~~= res.shared
                &&& r.0@ =~~= res.state
                &&& res.transition matches Some(t) && r.1@ =~~= t
            }),
    {
        let policy = blocked_policy(shared_values);
        shared_values.firewall.apply_policy(policy);
        let transition_reason = reason.duplicate();
        (
            TunnelStateWrapper::Blocked(BlockedState { reason }),
            TunnelStateTransition::Blocked(transition_reason),
        )
    }
}

impl ConnectingState {
    /// Enters the connecting state: installs the connecting rule set and
    /// asks the embedding to start the backend. A request for IPv6 on a
    /// machine without it blocks at once instead.
    pub fn enter(shared_values: &mut SharedTunnelStateValues, retry_attempt: u32) -> (r: (
        TunnelStateWrapper,
        TunnelStateTransition,
        Vec<MonitorAction>,
    ))
        ensures
            ({
                let res = spec_enter_connecting(old(shared_values)@, retry_attempt);
                &&& final(shared_values)@ =~~= res.shared
                &&& r.0@ =~~= res.state
                &&& res.transition matches Some(t) && r.1@ =~~= t
                &&& actions_view(r.2@) =~~= res.actions
            }),
    {
        let policy = connecting_policy(shared_values);
        shared_values.firewall.apply_policy(policy);
        match TunnelMonitor::start(
            &shared_values.tunnel_parameters,
            shared_values.ipv6_enabled_in_os,
        ) {
            Ok(tunnel_monitor) => {
                let mut actions: Vec<MonitorAction> = Vec::new();
                actions.push(MonitorAction::Start(shared_values.tunnel_parameters.duplicate()));
                (
                    TunnelStateWrapper::Connecting(
                        ConnectingState { tunnel_monitor, retry_attempt },
                    ),
                    TunnelStateTransition::Connecting(retry_attempt),
                    actions,
                )
            },
            Err(_) => {
                let (wrapper, transition) = BlockedState::enter(
                    shared_values,
                    BlockReason::Ipv6Unavailable,
                );
                (wrapper, transition, Vec::new())
            },
        }
    }
}

impl ConnectedState {
    /// Enters the connected state: installs the connected rule set and
    /// notifies listeners with the tunnel metadata.
    pub fn enter(
        shared_values: &mut SharedTunnelStateValues,
        tunnel_monitor: TunnelMonitor,
        metadata: TunnelMetadata,
    ) -> (r: (TunnelStateWrapper, TunnelStateTransition))
        ensures
            ({
                let res = spec_enter_connected(old(shared_values)@, tunnel_monitor, metadata@);
                &&& final(shared_values)@ =~~= res.shared
                &&& r.0@ =~~= res.state
                &&& res.transition matches Some(t) && r.1@ =~~= t
            }),
    {
        let policy = connected_policy(shared_values, &metadata);
        shared_values.firewall.apply_policy(policy);
        let transition_metadata = metadata.duplicate();
        (
            TunnelStateWrapper::Connected(ConnectedState { tunnel_monitor, metadata }),
            TunnelStateTransition::Connected(transition_metadata),
        )
    }
}

} // verus!

verus! {

/// An outcome with no transition and no actions.
fn quiet_outcome() -> (r: StepOutcome)
    ensures
        r.transition is None,
        actions_view(r.actions@) =~= Seq::<MonitorActionV>::empty(),
{
    StepOutcome { transition: None, actions: Vec::new() }
}

/// An outcome announcing one entered state, with no actions.
fn transition_outcome(transition: TunnelStateTransition) -> (r: StepOutcome)
    ensures
        r.transition matches Some(t) && t == transition,
        actions_view(r.actions@) =~= Seq::<MonitorActionV>::empty(),
{
    StepOutcome { transition: Some(transition), actions: Vec::new() }
}

/// Handles one event in the disconnected state.
fn step_disconnected(shared_values: &mut SharedTunnelStateValues, event: InputEvent) -> (r: (
    TunnelStateWrapper,
    StepOutcome,
))
    ensures
        ({
            let res = spec_step_disconnected(old(shared_values)@, event@);
            &&& final(shared_values)@ =~~= res.shared
            &&& r.0@ =~~= res.state
            &&& outcome_matches(r.1, res)
        }),
{
    match event {
        InputEvent::Command(TunnelCommand::AllowLan(allow_lan)) => {
            if allow_lan != shared_values.allow_lan {
                shared_values.allow_lan = allow_lan;
                DisconnectedState::set_firewall_policy(shared_values);
            }
            (TunnelStateWrapper::Disconnected(DisconnectedState), quiet_outcome())
        },
        InputEvent::Command(TunnelCommand::BlockWhenDisconnected(block_when_disconnected)) => {
            if block_when_disconnected != shared_values.block_when_disconnected {
                shared_values.block_when_disconnected = block_when_disconnected;
                DisconnectedState::set_firewall_policy(shared_values);
            }
            (TunnelStateWrapper::Disconnected(DisconnectedState), quiet_outcome())
        },
        InputEvent::Command(TunnelCommand::IsOffline(is_offline)) => {
            shared_values.is_offline = is_offline;
            (TunnelStateWrapper::Disconnected(DisconnectedState), quiet_outcome())
        },
        InputEvent::Command(TunnelCommand::Connect) => {
            if shared_values.is_offline {
                let (wrapper, transition) = BlockedState::enter(
                    shared_values,
                    BlockReason::IsOffline,
                );
                (wrapper, transition_outcome(transition))
            } else {
                let (wrapper, transition, actions) = ConnectingState::enter(shared_values, 0);
                (wrapper, StepOutcome { transition: Some(transition), actions })
            }
        },
        InputEvent::Command(TunnelCommand::Disconnect) => {
            (TunnelStateWrapper::Disconnected(DisconnectedState), quiet_outcome())
        },
        InputEvent::Command(TunnelCommand::Block(reason)) => {
            let (wrapper, transition) = BlockedState::enter(shared_values, reason);
            (wrapper, transition_outcome(transition))
        },
        InputEvent::Tunnel(_) => {
            (TunnelStateWrapper::Disconnected(DisconnectedState), quiet_outcome())
        },
    }
}

/// Handles one event in the connecting state.
fn step_connecting(
    shared_values: &mut SharedTunnelStateValues,
    state: ConnectingState,
    event: InputEvent,
) -> (r: (TunnelStateWrapper, StepOutcome))
    ensures
        ({
            let res = spec_step_connecting(
                old(shared_values)@,
                state.tunnel_monitor,
                state.retry_attempt,
                event@,
            );
            &&& final(shared_values)@ =~~= res.shared
            &&& r.0@ =~~= res.state
            &&& outcome_matches(r.1, res)
        }),
{
    let ConnectingState { tunnel_monitor, retry_attempt } = state;
    match event {
        InputEvent::Command(TunnelCommand::AllowLan(allow_lan)) => {
            if allow_lan != shared_values.allow_lan {
                shared_values.allow_lan = allow_lan;
                let policy = connecting_policy(shared_values);
                shared_values.firewall.apply_policy(policy);
            }
            (
                TunnelStateWrapper::Connecting(ConnectingState { tunnel_monitor, retry_attempt }),
                quiet_outcome(),
            )
        },
        InputEvent::Command(TunnelCommand::BlockWhenDisconnected(block_when_disconnected)) => {
            shared_values.block_when_disconnected = block_when_disconnected;
            (
                TunnelStateWrapper::Connecting(ConnectingState { tunnel_monitor, retry_attempt }),
                quiet_outcome(),
            )
        },
        InputEvent::Command(TunnelCommand::IsOffline(is_offline)) => {
            shared_values.is_offline = is_offline;
            (
                TunnelStateWrapper::Connecting(ConnectingState { tunnel_monitor, retry_attempt }),
                quiet_outcome(),
            )
        },
        InputEvent::Command(TunnelCommand::Connect) => {
            (
                TunnelStateWrapper::Connecting(ConnectingState { tunnel_monitor, retry_attempt }),
                quiet_outcome(),
            )
        },
        InputEvent::Command(TunnelCommand::Disconnect) => {
            let mut actions: Vec<MonitorAction> = Vec::new();
            actions.push(MonitorAction::Close);
            (
                TunnelStateWrapper::Disconnecting(
                    DisconnectingState { after_disconnect: AfterDisconnect::Nothing },
                ),
                StepOutcome {
                    transition: Some(
                        TunnelStateTransition::Disconnecting(ActionAfterDisconnect::Nothing),
                    ),
                    actions,
                },
            )
        },
        InputEvent::Command(TunnelCommand::Block(reason)) => {
            let (wrapper, transition) = BlockedState::enter(shared_values, reason);
            let mut actions: Vec<MonitorAction> = Vec::new();
            actions.push(MonitorAction::Close);
            (wrapper, StepOutcome { transition: Some(transition), actions })
        },
        InputEvent::Tunnel(TunnelEvent::Up(metadata)) => {
            let (wrapper, transition) = ConnectedState::enter(
                shared_values,
                tunnel_monitor,
                metadata,
            );
            (wrapper, transition_outcome(transition))
        },
        InputEvent::Tunnel(TunnelEvent::Down) => {
            if retry_attempt >= MAX_CONNECT_RETRIES {
                let (wrapper, transition) = BlockedState::enter(
                    shared_values,
                    BlockReason::StartTunnelError,
                );
                (wrapper, transition_outcome(transition))
            } else {
                let (wrapper, transition, actions) = ConnectingState::enter(
                    shared_values,
                    retry_attempt + 1,
                );
                (wrapper, StepOutcome { transition: Some(transition), actions })
            }
        },
        InputEvent::Tunnel(TunnelEvent::AuthFailed(reason)) => {
            let (wrapper, transition) = BlockedState::enter(
                shared_values,
                BlockReason::AuthFailed(reason),
            );
            let mut actions: Vec<MonitorAction> = Vec::new();
            actions.push(MonitorAction::Close);
            (wrapper, StepOutcome { transition: Some(transition), actions })
        },
    }
}

/// Handles one event in the connected state.
fn step_connected(
    shared_values: &mut SharedTunnelStateValues,
    state: ConnectedState,
    event: InputEvent,
) -> (r: (TunnelStateWrapper, StepOutcome))
    ensures
        ({
            let res = spec_step_connected(
                old(shared_values)@,
                state.tunnel_monitor,
                state.metadata@,
                event@,
            );
            &&& final(shared_values)@ =~~= res.shared
            &&& r.0@ =~~= res.state
            &&& outcome_matches(r.1, res)
        }),
{
    let ConnectedState { tunnel_monitor, metadata } = state;
    match event {
        InputEvent::Command(TunnelCommand::AllowLan(allow_lan)) => {
            if allow_lan != shared_values.allow_lan {
                shared_values.allow_lan = allow_lan;
                let policy = connected_policy(shared_values, &metadata);
                shared_values.firewall.apply_policy(policy);
            }
            (
                TunnelStateWrapper::Connected(ConnectedState { tunnel_monitor, metadata }),
                quiet_outcome(),
            )
        },
        InputEvent::Command(TunnelCommand::BlockWhenDisconnected(block_when_disconnected)) => {
            shared_values.block_when_disconnected = block_when_disconnected;
            (
                TunnelStateWrapper::Connected(ConnectedState { tunnel_monitor, metadata }),
                quiet_outcome(),
            )
        },
        InputEvent::Command(TunnelCommand::IsOffline(is_offline)) => {
            shared_values.is_offline = is_offline;
            (
                TunnelStateWrapper::Connected(ConnectedState { tunnel_monitor, metadata }),
                quiet_outcome(),
            )
        },
        InputEvent::Command(TunnelCommand::Connect) => {
            (
                TunnelStateWrapper::Connected(ConnectedState { tunnel_monitor, metadata }),
                quiet_outcome(),
            )
        },
        InputEvent::Command(TunnelCommand::Disconnect) => {
            let mut actions: Vec<MonitorAction> = Vec::new();
            actions.push(MonitorAction::Close);
            (
                TunnelStateWrapper::Disconnecting(
                    DisconnectingState { after_disconnect: AfterDisconnect::Nothing },
                ),
                StepOutcome {
                    transition: Some(
                        TunnelStateTransition::Disconnecting(ActionAfterDisconnect::Nothing),
                    ),
                    actions,
                },
            )
        },
        InputEvent::Command(TunnelCommand::Block(reason)) => {
            let (wrapper, transition) = BlockedState::enter(shared_values, reason);
            let mut actions: Vec<MonitorAction> = Vec::new();
            actions.push(MonitorAction::Close);
            (wrapper, StepOutcome { transition: Some(transition), actions })
        },
        InputEvent::Tunnel(TunnelEvent::Up(_)) => {
            (
                TunnelStateWrapper::Connected(ConnectedState { tunnel_monitor, metadata }),
                quiet_outcome(),
            )
        },
        InputEvent::Tunnel(TunnelEvent::Down) => {
            let (wrapper, transition, actions) = ConnectingState::enter(shared_values, 0);
            (wrapper, StepOutcome { transition: Some(transition), actions })
        },
        InputEvent::Tunnel(TunnelEvent::AuthFailed(reason)) => {
            let (wrapper, transition) = BlockedState::enter(
                shared_values,
                BlockReason::AuthFailed(reason),
            );
            let mut actions: Vec<MonitorAction> = Vec::new();
            actions.push(MonitorAction::Close);
            (wrapper, StepOutcome { transition: Some(transition), actions })
        },
    }
}

/// Handles one event in the disconnecting state.
fn step_disconnecting(
    shared_values: &mut SharedTunnelStateValues,
    state: DisconnectingState,
    event: InputEvent,
) -> (r: (TunnelStateWrapper, StepOutcome))
    ensures
        ({
            let res = spec_step_disconnecting(
                old(shared_values)@,
                state.after_disconnect@,
                event@,
            );
            &&& final(shared_values)@ =~~= res.shared
            &&& r.0@ =~~= res.state
            &&& outcome_matches(r.1, res)
        }),
{
    let DisconnectingState { after_disconnect } = state;
    match event {
        InputEvent::Command(TunnelCommand::AllowLan(allow_lan)) => {
            shared_values.allow_lan = allow_lan;
            (
                TunnelStateWrapper::Disconnecting(DisconnectingState { after_disconnect }),
                quiet_outcome(),
            )
        },
        InputEvent::Command(TunnelCommand::BlockWhenDisconnected(block_when_disconnected)) => {
            shared_values.block_when_disconnected = block_when_disconnected;
            (
                TunnelStateWrapper::Disconnecting(DisconnectingState { after_disconnect }),
                quiet_outcome(),
            )
        },
        InputEvent::Command(TunnelCommand::IsOffline(is_offline)) => {
            shared_values.is_offline = is_offline;
            (
                TunnelStateWrapper::Disconnecting(DisconnectingState { after_disconnect }),
                quiet_outcome(),
            )
        },
        InputEvent::Command(TunnelCommand::Connect) => {
            match after_disconnect {
                AfterDisconnect::Block(reason) => {
                    (
                        TunnelStateWrapper::Disconnecting(
                            DisconnectingState { after_disconnect: AfterDisconnect::Block(reason) },
                        ),
                        quiet_outcome(),
                    )
                },
                _ => {
                    (
                        TunnelStateWrapper::Disconnecting(
                            DisconnectingState {
                                after_disconnect: AfterDisconnect::Reconnect(0),
                            },
                        ),
                        quiet_outcome(),
                    )
                },
            }
        },
        InputEvent::Command(TunnelCommand::Disconnect) => {
            (
                TunnelStateWrapper::Disconnecting(DisconnectingState { after_disconnect }),
                quiet_outcome(),
            )
        },
        InputEvent::Command(TunnelCommand::Block(reason)) => {
            (
                TunnelStateWrapper::Disconnecting(
                    DisconnectingState { after_disconnect: AfterDisconnect::Block(reason) },
                ),
                quiet_outcome(),
            )
        },
        InputEvent::Tunnel(TunnelEvent::Down) => {
            match after_disconnect {
                AfterDisconnect::Nothing => {
                    let (wrapper, transition) = DisconnectedState::enter(shared_values);
                    (wrapper, transition_outcome(transition))
                },
                AfterDisconnect::Block(reason) => {
                    let (wrapper, transition) = BlockedState::enter(shared_values, reason);
                    (wrapper, transition_outcome(transition))
                },
                AfterDisconnect::Reconnect(retry_attempt) => {
                    let (wrapper, transition, actions) = ConnectingState::enter(
                        shared_values,
                        retry_attempt,
                    );
                    (wrapper, StepOutcome { transition: Some(transition), actions })
                },
            }
        },
        InputEvent::Tunnel(TunnelEvent::AuthFailed(reason)) => {
            match after_disconnect {
                AfterDisconnect::Block(previous_reason) => {
                    (
                        TunnelStateWrapper::Disconnecting(
                            DisconnectingState {
                                after_disconnect: AfterDisconnect::Block(previous_reason),
                            },
                        ),
                        quiet_outcome(),
                    )
                },
                _ => {
                    (
                        TunnelStateWrapper::Disconnecting(
                            DisconnectingState {
                                after_disconnect: AfterDisconnect::Block(
                                    BlockReason::AuthFailed(reason),
                                ),
                            },
                        ),
                        quiet_outcome(),
                    )
                },
            }
        },
        InputEvent::Tunnel(TunnelEvent::Up(_)) => {
            (
                TunnelStateWrapper::Disconnecting(DisconnectingState { after_disconnect }),
                quiet_outcome(),
            )
        },
    }
}

/// Handles one event in the blocked state.
fn step_blocked(
    shared_values: &mut SharedTunnelStateValues,
    state: BlockedState,
    event: InputEvent,
) -> (r: (TunnelStateWrapper, StepOutcome))
    ensures
        ({
            let res = spec_step_blocked(old(shared_values)@, state.reason@, event@);
            &&& final(shared_values)@ =~~= res.shared
            &&& r.0@ =~~= res.state
            &&& outcome_matches(r.1, res)
        }),
{
    let BlockedState { reason } = state;
    match event {
        InputEvent::Command(TunnelCommand::AllowLan(allow_lan)) => {
            if allow_lan != shared_values.allow_lan {
                shared_values.allow_lan = allow_lan;
                let policy = blocked_policy(shared_values);
                shared_values.firewall.apply_policy(policy);
            }
            (TunnelStateWrapper::Blocked(BlockedState { reason }), quiet_outcome())
        },
        InputEvent::Command(TunnelCommand::BlockWhenDisconnected(block_when_disconnected)) => {
            shared_values.block_when_disconnected = block_when_disconnected;
            (TunnelStateWrapper::Blocked(BlockedState { reason }), quiet_outcome())
        },
        InputEvent::Command(TunnelCommand::IsOffline(is_offline)) => {
            shared_values.is_offline = is_offline;
            let auto_reconnect = !is_offline && match &reason {
                BlockReason::IsOffline => true,
                _ => false,
            };
            if auto_reconnect {
                let (wrapper, transition, actions) = ConnectingState::enter(shared_values, 0);
                (wrapper, StepOutcome { transition: Some(transition), actions })
            } else {
                (TunnelStateWrapper::Blocked(BlockedState { reason }), quiet_outcome())
            }
        },
        InputEvent::Command(TunnelCommand::Connect) => {
            if shared_values.is_offline {
                let (wrapper, transition) = BlockedState::enter(
                    shared_values,
                    BlockReason::IsOffline,
                );
                (wrapper, transition_outcome(transition))
            } else {
                let (wrapper, transition, actions) = ConnectingState::enter(shared_values, 0);
                (wrapper, StepOutcome { transition: Some(transition), actions })
            }
        },
        InputEvent::Command(TunnelCommand::Disconnect) => {
            let (wrapper, transition) = DisconnectedState::enter(shared_values);
            (wrapper, transition_outcome(transition))
        },
        InputEvent::Command(TunnelCommand::Block(new_reason)) => {
            let (wrapper, transition) = BlockedState::enter(shared_values, new_reason);
            (wrapper, transition_outcome(transition))
        },
        InputEvent::Tunnel(_) => {
            (TunnelStateWrapper::Blocked(BlockedState { reason }), quiet_outcome())
        },
    }
}

} // verus!

verus! {

/// The tunnel lifecycle state machine: the single source of truth for
/// what the network should be doing right now.
pub struct TunnelStateMachine {
    pub state: TunnelStateWrapper,
    pub shared_values: SharedTunnelStateValues,
}

/// The mathematical model of the machine.
#[verifier::ext_equal]
pub struct MachineV {
    pub shared: SharedValuesV,
    pub state: TunnelStateV,
}

impl View for TunnelStateMachine {
    type V = MachineV;

    open spec fn view(&self) -> MachineV {
        MachineV { shared: self.shared_values@, state: self.state@ }
    }
}

impl TunnelStateMachine {
    /// Builds a machine in the disconnected state over the given shared
    /// values; no firewall policy is touched until the first event.
    pub fn new(shared_values: SharedTunnelStateValues) -> (r: TunnelStateMachine)
        ensures
            r@.shared =~~= shared_values@,
            r@.state == TunnelStateV::Disconnected,
    {
        TunnelStateMachine {
            state: TunnelStateWrapper::Disconnected(DisconnectedState),
            shared_values,
        }
    }

    /// Consumes one event of the merged stream and performs the step the
    /// transition table calls for: the machine afterwards, the transition
    /// to publish, and the monitor actions the embedding must perform.
    pub fn handle_event(self, event: InputEvent) -> (r: (TunnelStateMachine, StepOutcome))
        ensures
            ({
                let res = spec_step(self@.shared, self@.state, event@);
                &&& r.0@.shared =~~= res.shared
                &&& r.0@.state =~~= res.state
                &&& outcome_matches(r.1, res)
            }),
    {
        let TunnelStateMachine { state, mut shared_values } = self;
        let (state, outcome) = match state {
            TunnelStateWrapper::Disconnected(_) => step_disconnected(&mut shared_values, event),
            TunnelStateWrapper::Connecting(connecting) => step_connecting(
                &mut shared_values,
                connecting,
                event,
            ),
            TunnelStateWrapper::Connected(connected) => step_connected(
                &mut shared_values,
                connected,
                event,
            ),
            TunnelStateWrapper::Disconnecting(disconnecting) => step_disconnecting(
                &mut shared_values,
                disconnecting,
                event,
            ),
            TunnelStateWrapper::Blocked(blocked) => step_blocked(
                &mut shared_values,
                blocked,
                event,
            ),
        };
        (TunnelStateMachine { state, shared_values }, outcome)
    }
}

/// The model of a sequence of transition notifications.
pub open spec fn transitions_view(s: Seq<TunnelStateTransition>) -> Seq<TunnelStateTransitionV> {
    s.map_values(|t: TunnelStateTransition| t@)
}

/// The transitions a machine visits while consuming an event sequence: a
/// function of the machine and the events alone.
pub open spec fn spec_run(machine: MachineV, events: Seq<InputEventV>) -> Seq<
    TunnelStateTransitionV,
>
    decreases events.len(),
{
    if events.len() == 0 {
        Seq::empty()
    } else {
        let res = spec_step(machine.shared, machine.state, events[0]);
        let rest = spec_run(MachineV { shared: res.shared, state: res.state }, events.skip(1));
        match res.transition {
            Some(t) => seq![t] + rest,
            None => rest,
        }
    }
}

impl TunnelStateMachine {
    /// Consumes a whole event sequence in order and collects the
    /// transition notifications the machine emits.
    pub fn process_events(self, events: Vec<InputEvent>) -> (r: (
        TunnelStateMachine,
        Vec<TunnelStateTransition>,
    ))
        ensures
            transitions_view(r.1@) =~~= spec_run(self@, events@.map_values(|e: InputEvent| e@)),
    {
        let ghost initial = self@;
        let ghost events_v = events@.map_values(|e: InputEvent| e@);
        let mut machine = self;
        let mut transitions: Vec<TunnelStateTransition> = Vec::new();
        let mut i: usize = 0;
        proof {
            assert(events_v.skip(0) =~= events_v);
        }
        while i < events.len()
            invariant
                i <= events.len(),
                events_v == events@.map_values(|e: InputEvent| e@),
                spec_run(initial, events_v) =~~= transitions_view(transitions@) + spec_run(
                    machine@,
                    events_v.skip(i as int),
                ),
            decreases events.len() - i,
        {
            let event = events[i].duplicate();
            let ghost pre_machine = machine@;
            let ghost pre_transitions = transitions@;
            let (next_machine, outcome) = machine.handle_event(event);
            machine = next_machine;
            match outcome.transition {
                Some(transition) => {
                    transitions.push(transition);
                },
                None => {},
            }
            proof {
                let res = spec_step(pre_machine.shared, pre_machine.state, events_v[i as int]);
                assert(events_v.skip(i as int)[0] == events_v[i as int]);
                assert(events_v.skip(i as int).skip(1) =~= events_v.skip(i as int + 1));
                assert(spec_run(pre_machine, events_v.skip(i as int)) == (match res.transition {
                    Some(t) => seq![t] + spec_run(machine@, events_v.skip(i as int + 1)),
                    None => spec_run(machine@, events_v.skip(i as int + 1)),
                })) by {
                    assert(MachineV { shared: res.shared, state: res.state } =~~= machine@);
                }
                assert(transitions_view(transitions@) =~~= (match res.transition {
                    Some(t) => transitions_view(pre_transitions) + seq![t],
                    None => transitions_view(pre_transitions),
                }));
            }
            i = i + 1;
        }
        proof {
            assert(events_v.skip(events@.len() as int) =~= Seq::<InputEventV>::empty());
        }
        (machine, transitions)
    }
}

impl InputEvent {
    /// Returns a value equal to this one.
    pub fn duplicate(&self) -> (r: InputEvent)
        ensures
            r@ =~~= self@,
    {
        match self {
            InputEvent::Command(command) => InputEvent::Command(command.duplicate()),
            InputEvent::Tunnel(event) => InputEvent::Tunnel(event.duplicate()),
        }
    }
}

impl TunnelCommand {
    /// Returns a value equal to this one.
    pub fn duplicate(&self) -> (r: TunnelCommand)
        ensures
            r@ =~~= self@,
    {
        match self {
            TunnelCommand::Connect => TunnelCommand::Connect,
            TunnelCommand::Disconnect => TunnelCommand::Disconnect,
            TunnelCommand::Block(reason) => TunnelCommand::Block(reason.duplicate()),
            TunnelCommand::AllowLan(allow) => TunnelCommand::AllowLan(*allow),
            TunnelCommand::BlockWhenDisconnected(block) => TunnelCommand::BlockWhenDisconnected(
                *block,
            ),
            TunnelCommand::IsOffline(offline) => TunnelCommand::IsOffline(*offline),
        }
    }
}

/// Determinism: two machines in equal states, fed identical sequences of
/// commands and tunnel events, visit identical sequences of state
/// transitions.
pub proof fn lemma_run_deterministic(
    machine_a: MachineV,
    machine_b: MachineV,
    events_a: Seq<InputEventV>,
    events_b: Seq<InputEventV>,
)
    requires
        machine_a == machine_b,
        events_a == events_b,
    ensures
        spec_run(machine_a, events_a) == spec_run(machine_b, events_b),
{
}

} // verus!
