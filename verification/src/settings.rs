//! The daemon's persistent settings.
//!
//! The settings hold the account, the relay and bridge selection, and the
//! user's traffic flags. Each setter normalizes and stores the new value
//! and reports whether anything changed, so the embedding knows when the
//! settings file must be rewritten; reading and writing that file happens
//! outside this crate.

use vstd::prelude::*;

use crate::tunnel::GenericTunnelOptions;

verus! {

/// A constraint on a relay property: anything, or one named value.
#[derive(Clone, Debug, PartialEq, Eq, Hash)]
pub enum Constraint<T> {
    Any,
    Only(T),
}

/// A constraint on the relay location.
#[derive(Clone, Debug, PartialEq, Eq, Hash)]
pub enum LocationConstraint {
    /// A country, by its code.
    Country(String),
    /// A city, by country and city code.
    City(String, String),
    /// One relay, by country, city and hostname.
    Hostname(String, String, String),
}

/// The mathematical model of a location constraint.
#[verifier::ext_equal]
pub enum LocationConstraintV {
    Country(Seq<char>),
    City(Seq<char>, Seq<char>),
    Hostname(Seq<char>, Seq<char>, Seq<char>),
}

impl View for LocationConstraint {
    type V = LocationConstraintV;

    open spec fn view(&self) -> LocationConstraintV {
        match self {
            LocationConstraint::Country(country) => LocationConstraintV::Country(country@),
            LocationConstraint::City(country, city) => LocationConstraintV::City(country@, city@),
            LocationConstraint::Hostname(country, city, hostname) => LocationConstraintV::Hostname(
                country@,
                city@,
                hostname@,
            ),
        }
    }
}

/// The mathematical model of a location constraint choice.
#[verifier::ext_equal]
pub enum LocationChoiceV {
    Any,
    Only(LocationConstraintV),
}

impl View for Constraint<LocationConstraint> {
    type V = LocationChoiceV;

    open spec fn view(&self) -> LocationChoiceV {
        match self {
            Constraint::Any => LocationChoiceV::Any,
            Constraint::Only(location) => LocationChoiceV::Only(location@),
        }
    }
}

/// Returns whether two location constraints are the same.
fn eq_location(a: &LocationConstraint, b: &LocationConstraint) -> (r: bool)
    ensures
        r == (a@ =~~= b@),
{
    match (a, b) {
        (LocationConstraint::Country(c1), LocationConstraint::Country(c2)) => c1.eq(c2),
        (LocationConstraint::City(c1, t1), LocationConstraint::City(c2, t2)) => c1.eq(c2) && t1.eq(
            t2,
        ),
        (
            LocationConstraint::Hostname(c1, t1, h1),
            LocationConstraint::Hostname(c2, t2, h2),
        ) => c1.eq(c2) && t1.eq(t2) && h1.eq(h2),
        _ => false,
    }
}

/// Returns whether two location choices are the same.
fn eq_location_choice(a: &Constraint<LocationConstraint>, b: &Constraint<LocationConstraint>) -> (r:
    bool)
    ensures
        r == (a@ =~~= b@),
{
    match (a, b) {
        (Constraint::Any, Constraint::Any) => true,
        (Constraint::Only(l1), Constraint::Only(l2)) => eq_location(l1, l2),
        _ => false,
    }
}

/// Returns a location choice equal to the given one.
fn dup_location_choice(a: &Constraint<LocationConstraint>) -> (r: Constraint<LocationConstraint>)
    ensures
        r@ =~~= a@,
{
    match a {
        Constraint::Any => Constraint::Any,
        Constraint::Only(LocationConstraint::Country(country)) => Constraint::Only(
            LocationConstraint::Country(country.clone()),
        ),
        Constraint::Only(LocationConstraint::City(country, city)) => Constraint::Only(
            LocationConstraint::City(country.clone(), city.clone()),
        ),
        Constraint::Only(LocationConstraint::Hostname(country, city, hostname)) => Constraint::Only(
            LocationConstraint::Hostname(country.clone(), city.clone(), hostname.clone()),
        ),
    }
}

/// The constraints relay selection works under.
#[derive(Clone, Debug, PartialEq, Eq, Hash)]
pub struct RelayConstraints {
    pub location: Constraint<LocationConstraint>,
}

/// How relays are selected: by constraints.
#[derive(Clone, Debug, PartialEq, Eq, Hash)]
pub enum RelaySettings {
    Normal(RelayConstraints),
}

/// The mathematical model of the relay settings.
#[verifier::ext_equal]
pub enum RelaySettingsV {
    Normal { location: LocationChoiceV },
}

impl View for RelaySettings {
    type V = RelaySettingsV;

    open spec fn view(&self) -> RelaySettingsV {
        match self {
            RelaySettings::Normal(constraints) => RelaySettingsV::Normal {
                location: constraints.location@,
            },
        }
    }
}

/// A partial update of the relay settings: each present field replaces
/// the stored one.
#[derive(Clone, Debug, PartialEq, Eq, Hash)]
pub struct RelaySettingsUpdate {
    pub location: Option<Constraint<LocationConstraint>>,
}

/// The model of merging an update into the relay settings.
pub open spec fn spec_merge_relay_settings(
    settings: RelaySettingsV,
    update_location: Option<LocationChoiceV>,
) -> RelaySettingsV {
    match update_location {
        Some(location) => RelaySettingsV::Normal { location },
        None => settings,
    }
}

/// The constraints bridge selection works under.
#[derive(Clone, Debug, PartialEq, Eq, Hash)]
pub struct BridgeConstraints {
    pub location: Constraint<LocationConstraint>,
}

/// How bridges are selected: by constraints.
#[derive(Clone, Debug, PartialEq, Eq, Hash)]
pub enum BridgeSettings {
    Normal(BridgeConstraints),
}

/// The mathematical model of the bridge settings.
#[verifier::ext_equal]
pub enum BridgeSettingsV {
    Normal { location: LocationChoiceV },
}

impl View for BridgeSettings {
    type V = BridgeSettingsV;

    open spec fn view(&self) -> BridgeSettingsV {
        match self {
            BridgeSettings::Normal(constraints) => BridgeSettingsV::Normal {
                location: constraints.location@,
            },
        }
    }
}

/// Whether bridges are used: automatically, always, or never.
#[derive(Clone, Copy, Debug, PartialEq, Eq, Structural, Hash)]
pub enum BridgeState {
    Auto,
    On,
    Off,
}

/// OpenVPN-specific tunnel options.
#[derive(Clone, Copy, Debug, PartialEq, Eq, Structural, Hash)]
pub struct OpenVpnTunnelOptions {
    /// The maximum segment size to clamp TCP to, when set.
    pub mssfix: Option<u16>,
}

/// WireGuard-specific tunnel options.
#[derive(Clone, Copy, Debug, PartialEq, Eq, Structural, Hash)]
pub struct WireguardTunnelOptions {
    /// The tunnel interface MTU, when set.
    pub mtu: Option<u16>,
}

/// Options applied to tunnels of each type regardless of where the
/// relays might be located.
#[derive(Clone, Copy, Debug, PartialEq, Eq, Structural, Hash)]
pub struct TunnelOptions {
    /// OpenVPN-specific options.
    pub openvpn: OpenVpnTunnelOptions,
    /// Tinc-specific options.
    pub tinc: crate::tinc::TunnelOptions,
    /// WireGuard-specific options.
    pub wireguard: WireguardTunnelOptions,
    /// Options that apply to more than a single tunnel type.
    pub generic: GenericTunnelOptions,
}

impl Default for TunnelOptions {
    /// No option set; IPv6 stays off until asked for.
    fn default() -> (r: TunnelOptions)
        ensures
            r.openvpn.mssfix is None,
            r.wireguard.mtu is None,
            !r.generic.enable_ipv6,
    {
        TunnelOptions {
            openvpn: OpenVpnTunnelOptions { mssfix: None },
            tinc: crate::tinc::TunnelOptions {  },
            wireguard: WireguardTunnelOptions { mtu: None },
            generic: GenericTunnelOptions { enable_ipv6: false },
        }
    }
}

/// The model of an optional account token.
pub open spec fn opt_string_view(s: Option<String>) -> Option<Seq<char>> {
    match s {
        Some(t) => Some(t@),
        None => None,
    }
}

/// An empty account token means no token at all.
pub open spec fn spec_normalize_token(token: Option<Seq<char>>) -> Option<Seq<char>> {
    match token {
        Some(t) => if t.len() == 0 {
            None
        } else {
            Some(t)
        },
        None => None,
    }
}

/// Returns whether two optional tokens are the same.
fn eq_opt_token(a: &Option<String>, b: &Option<String>) -> (r: bool)
    ensures
        r == (opt_string_view(*a) =~~= opt_string_view(*b)),
{
    match (a, b) {
        (Some(t1), Some(t2)) => t1.eq(t2),
        (None, None) => true,
        _ => false,
    }
}

/// Returns whether two optional numbers are the same.
fn eq_opt_u16(a: Option<u16>, b: Option<u16>) -> (r: bool)
    ensures
        r == (a == b),
{
    match (a, b) {
        (Some(v1), Some(v2)) => v1 == v2,
        (None, None) => true,
        _ => false,
    }
}

/// The daemon settings.
#[derive(Clone, Debug, PartialEq, Eq, Hash)]
pub struct Settings {
    pub account_token: Option<String>,
    pub relay_settings: RelaySettings,
    pub bridge_settings: BridgeSettings,
    pub bridge_state: BridgeState,
    /// Whether the daemon should allow communication with private (LAN)
    /// networks.
    pub allow_lan: bool,
    /// Extra level of kill switch: when set, the disconnected state
    /// blocks the firewall so no traffic passes in or out.
    pub block_when_disconnected: bool,
    /// Whether the daemon should connect the tunnel directly on start.
    pub auto_connect: bool,
    /// Options applied to tunnels of a specific type regardless of where
    /// the relays might be located.
    pub tunnel_options: TunnelOptions,
}

impl Default for Settings {
    /// The settings of a fresh install: no account, relays constrained
    /// to one default country, everything else off.
    fn default() -> (r: Settings)
        ensures
            r.spec_account_token() is None,
            r.spec_relay_settings() =~~= (RelaySettingsV::Normal {
                location: LocationChoiceV::Only(LocationConstraintV::Country("se"@)),
            }),
            r.spec_bridge_settings() =~~= (BridgeSettingsV::Normal {
                location: LocationChoiceV::Any,
            }),
            r.spec_bridge_state() == BridgeState::Auto,
            !r.spec_allow_lan(),
            !r.spec_block_when_disconnected(),
            !r.spec_auto_connect(),
            r.spec_tunnel_options().openvpn.mssfix is None,
            r.spec_tunnel_options().wireguard.mtu is None,
            !r.spec_tunnel_options().generic.enable_ipv6,
    {
        Settings {
            account_token: None,
            relay_settings: RelaySettings::Normal(
                RelayConstraints {
                    location: Constraint::Only(LocationConstraint::Country("se".to_owned())),
                },
            ),
            bridge_settings: BridgeSettings::Normal(
                BridgeConstraints { location: Constraint::Any },
            ),
            bridge_state: BridgeState::Auto,
            allow_lan: false,
            block_when_disconnected: false,
            auto_connect: false,
            tunnel_options: TunnelOptions::default(),
        }
    }
}

impl Settings {
    /// The model of the stored account token.
    pub open spec fn spec_account_token(&self) -> Option<Seq<char>> {
        opt_string_view(self.account_token)
    }

    /// The model of the relay settings.
    pub open spec fn spec_relay_settings(&self) -> RelaySettingsV {
        self.relay_settings@
    }

    /// The model of the bridge settings.
    pub open spec fn spec_bridge_settings(&self) -> BridgeSettingsV {
        self.bridge_settings@
    }

    /// The stored bridge state.
    pub open spec fn spec_bridge_state(&self) -> BridgeState {
        self.bridge_state
    }

    /// The stored allow-LAN flag.
    pub open spec fn spec_allow_lan(&self) -> bool {
        self.allow_lan
    }

    /// The stored kill-switch flag.
    pub open spec fn spec_block_when_disconnected(&self) -> bool {
        self.block_when_disconnected
    }

    /// The stored auto-connect flag.
    pub open spec fn spec_auto_connect(&self) -> bool {
        self.auto_connect
    }

    /// The stored tunnel options.
    pub open spec fn spec_tunnel_options(&self) -> TunnelOptions {
        self.tunnel_options
    }

    /// Everything except the account token, unchanged.
    pub open spec fn same_but_account(&self, other: &Settings) -> bool {
        &&& self.relay_settings == other.relay_settings
        &&& self.bridge_settings == other.bridge_settings
        &&& self.bridge_state == other.bridge_state
        &&& self.allow_lan == other.allow_lan
        &&& self.block_when_disconnected == other.block_when_disconnected
        &&& self.auto_connect == other.auto_connect
        &&& self.tunnel_options == other.tunnel_options
    }

    /// Returns the stored account token.
    pub fn get_account_token(&self) -> (r: Option<String>)
        ensures
            opt_string_view(r) =~~= self.spec_account_token(),
    {
        match &self.account_token {
            Some(token) => Some(token.clone()),
            None => None,
        }
    }

    /// Changes the account token to the one given; an empty token is
    /// treated as unsetting it. Returns whether the stored token
    /// changed, so the embedding knows to rewrite the settings file.
    pub fn set_account_token(&mut self, account_token: Option<String>) -> (changed: bool)
        ensures
            final(self).spec_account_token() =~~= spec_normalize_token(
                opt_string_view(account_token),
            ),
            changed == !(spec_normalize_token(opt_string_view(account_token)) =~~= old(
                self,
            ).spec_account_token()),
            final(self).same_but_account(old(self)),
    {
        let normalized: Option<String> = match account_token {
            Some(token) => {
                if token.as_str().unicode_len() == 0 {
                    None
                } else {
                    Some(token)
                }
            },
            None => None,
        };
        let changed = !eq_opt_token(&normalized, &self.account_token);
        if changed {
            self.account_token = normalized;
        }
        changed
    }

    /// Returns the relay selection constraints.
    pub fn get_relay_settings(&self) -> (r: RelaySettings)
        ensures
            r@ =~~= self.spec_relay_settings(),
    {
        match &self.relay_settings {
            RelaySettings::Normal(constraints) => RelaySettings::Normal(
                RelayConstraints { location: dup_location_choice(&constraints.location) },
            ),
        }
    }

    /// Merges an update into the relay settings: each present field of
    /// the update replaces the stored one. Returns whether anything
    /// changed.
    pub fn update_relay_settings(&mut self, update: RelaySettingsUpdate) -> (changed: bool)
        ensures
            ({
                let update_location = match update.location {
                    Some(location) => Some(location@),
                    None => None,
                };
                let merged = spec_merge_relay_settings(
                    old(self).spec_relay_settings(),
                    update_location,
                );
                &&& final(self).spec_relay_settings() =~~= merged
                &&& changed == !(merged =~~= old(self).spec_relay_settings())
            }),
            final(self).account_token == old(self).account_token,
            final(self).bridge_settings == old(self).bridge_settings,
            final(self).bridge_state == old(self).bridge_state,
            final(self).allow_lan == old(self).allow_lan,
            final(self).block_when_disconnected == old(self).block_when_disconnected,
            final(self).auto_connect == old(self).auto_connect,
            final(self).tunnel_options == old(self).tunnel_options,
    {
        match update.location {
            Some(location) => {
                let RelaySettings::Normal(constraints) = &self.relay_settings;
                let changed = !eq_location_choice(&constraints.location, &location);
                if changed {
                    self.relay_settings = RelaySettings::Normal(RelayConstraints { location });
                }
                changed
            },
            None => false,
        }
    }

    /// Returns the allow-LAN flag.
    pub fn get_allow_lan(&self) -> (r: bool)
        ensures
            r == self.spec_allow_lan(),
    {
        self.allow_lan
    }

    /// Changes the allow-LAN flag; returns whether it changed.
    pub fn set_allow_lan(&mut self, allow_lan: bool) -> (changed: bool)
        ensures
            final(self).spec_allow_lan() == allow_lan,
            changed == (allow_lan != old(self).spec_allow_lan()),
            final(self).account_token == old(self).account_token,
            final(self).relay_settings == old(self).relay_settings,
            final(self).bridge_settings == old(self).bridge_settings,
            final(self).bridge_state == old(self).bridge_state,
            final(self).block_when_disconnected == old(self).block_when_disconnected,
            final(self).auto_connect == old(self).auto_connect,
            final(self).tunnel_options == old(self).tunnel_options,
    {
        let changed = allow_lan != self.allow_lan;
        if changed {
            self.allow_lan = allow_lan;
        }
        changed
    }

    /// Returns the kill-switch flag.
    pub fn get_block_when_disconnected(&self) -> (r: bool)
        ensures
            r == self.spec_block_when_disconnected(),
    {
        self.block_when_disconnected
    }

    /// Changes the kill-switch flag; returns whether it changed.
    pub fn set_block_when_disconnected(&mut self, block_when_disconnected: bool) -> (changed: bool)
        ensures
            final(self).spec_block_when_disconnected() == block_when_disconnected,
            changed == (block_when_disconnected != old(self).spec_block_when_disconnected()),
            final(self).account_token == old(self).account_token,
            final(self).relay_settings == old(self).relay_settings,
            final(self).bridge_settings == old(self).bridge_settings,
            final(self).bridge_state == old(self).bridge_state,
            final(self).allow_lan == old(self).allow_lan,
            final(self).auto_connect == old(self).auto_connect,
            final(self).tunnel_options == old(self).tunnel_options,
    {
        let changed = block_when_disconnected != self.block_when_disconnected;
        if changed {
            self.block_when_disconnected = block_when_disconnected;
        }
        changed
    }

    /// Returns the auto-connect flag.
    pub fn get_auto_connect(&self) -> (r: bool)
        ensures
            r == self.spec_auto_connect(),
    {
        self.auto_connect
    }

    /// Changes the auto-connect flag; returns whether it changed.
    pub fn set_auto_connect(&mut self, auto_connect: bool) -> (changed: bool)
        ensures
            final(self).spec_auto_connect() == auto_connect,
            changed == (auto_connect != old(self).spec_auto_connect()),
            final(self).account_token == old(self).account_token,
            final(self).relay_settings == old(self).relay_settings,
            final(self).bridge_settings == old(self).bridge_settings,
            final(self).bridge_state == old(self).bridge_state,
            final(self).allow_lan == old(self).allow_lan,
            final(self).block_when_disconnected == old(self).block_when_disconnected,
            final(self).tunnel_options == old(self).tunnel_options,
    {
        let changed = auto_connect != self.auto_connect;
        if changed {
            self.auto_connect = auto_connect;
        }
        changed
    }

    /// Changes the OpenVPN maximum segment size; returns whether it
    /// changed.
    pub fn set_openvpn_mssfix(&mut self, openvpn_mssfix: Option<u16>) -> (changed: bool)
        ensures
            final(self).spec_tunnel_options().openvpn.mssfix == openvpn_mssfix,
            changed == (openvpn_mssfix != old(self).spec_tunnel_options().openvpn.mssfix),
            final(self).spec_tunnel_options().tinc == old(self).spec_tunnel_options().tinc,
            final(self).spec_tunnel_options().wireguard == old(
                self,
            ).spec_tunnel_options().wireguard,
            final(self).spec_tunnel_options().generic == old(self).spec_tunnel_options().generic,
            final(self).account_token == old(self).account_token,
            final(self).relay_settings == old(self).relay_settings,
            final(self).bridge_settings == old(self).bridge_settings,
            final(self).bridge_state == old(self).bridge_state,
            final(self).allow_lan == old(self).allow_lan,
            final(self).block_when_disconnected == old(self).block_when_disconnected,
            final(self).auto_connect == old(self).auto_connect,
    {
        let changed = !eq_opt_u16(self.tunnel_options.openvpn.mssfix, openvpn_mssfix);
        if changed {
            self.tunnel_options.openvpn.mssfix = openvpn_mssfix;
        }
        changed
    }

    /// Changes whether tunnels carry IPv6; returns whether it changed.
    pub fn set_enable_ipv6(&mut self, enable_ipv6: bool) -> (changed: bool)
        ensures
            final(self).spec_tunnel_options().generic.enable_ipv6 == enable_ipv6,
            changed == (enable_ipv6 != old(self).spec_tunnel_options().generic.enable_ipv6),
            final(self).spec_tunnel_options().openvpn == old(self).spec_tunnel_options().openvpn,
            final(self).spec_tunnel_options().tinc == old(self).spec_tunnel_options().tinc,
            final(self).spec_tunnel_options().wireguard == old(
                self,
            ).spec_tunnel_options().wireguard,
            final(self).account_token == old(self).account_token,
            final(self).relay_settings == old(self).relay_settings,
            final(self).bridge_settings == old(self).bridge_settings,
            final(self).bridge_state == old(self).bridge_state,
            final(self).allow_lan == old(self).allow_lan,
            final(self).block_when_disconnected == old(self).block_when_disconnected,
            final(self).auto_connect == old(self).auto_connect,
    {
        let changed = enable_ipv6 != self.tunnel_options.generic.enable_ipv6;
        if changed {
            self.tunnel_options.generic.enable_ipv6 = enable_ipv6;
        }
        changed
    }

    /// Changes the WireGuard MTU; returns whether it changed.
    pub fn set_wireguard_mtu(&mut self, mtu: Option<u16>) -> (changed: bool)
        ensures
            final(self).spec_tunnel_options().wireguard.mtu == mtu,
            changed == (mtu != old(self).spec_tunnel_options().wireguard.mtu),
            final(self).spec_tunnel_options().openvpn == old(self).spec_tunnel_options().openvpn,
            final(self).spec_tunnel_options().tinc == old(self).spec_tunnel_options().tinc,
            final(self).spec_tunnel_options().generic == old(self).spec_tunnel_options().generic,
            final(self).account_token == old(self).account_token,
            final(self).relay_settings == old(self).relay_settings,
            final(self).bridge_settings == old(self).bridge_settings,
            final(self).bridge_state == old(self).bridge_state,
            final(self).allow_lan == old(self).allow_lan,
            final(self).block_when_disconnected == old(self).block_when_disconnected,
            final(self).auto_connect == old(self).auto_connect,
    {
        let changed = !eq_opt_u16(self.tunnel_options.wireguard.mtu, mtu);
        if changed {
            self.tunnel_options.wireguard.mtu = mtu;
        }
        changed
    }

    /// Returns the stored tunnel options.
    pub fn get_tunnel_options(&self) -> (r: &TunnelOptions)
        ensures
            *r == self.spec_tunnel_options(),
    {
        &self.tunnel_options
    }

    /// Returns the bridge selection constraints.
    pub fn get_bridge_settings(&self) -> (r: &BridgeSettings)
        ensures
            r@ =~~= self.spec_bridge_settings(),
    {
        &self.bridge_settings
    }

    /// Replaces the bridge settings; returns whether they changed.
    pub fn set_bridge_settings(&mut self, bridge_settings: BridgeSettings) -> (changed: bool)
        ensures
            final(self).spec_bridge_settings() =~~= bridge_settings@,
            changed == !(bridge_settings@ =~~= old(self).spec_bridge_settings()),
            final(self).account_token == old(self).account_token,
            final(self).relay_settings == old(self).relay_settings,
            final(self).bridge_state == old(self).bridge_state,
            final(self).allow_lan == old(self).allow_lan,
            final(self).block_when_disconnected == old(self).block_when_disconnected,
            final(self).auto_connect == old(self).auto_connect,
            final(self).tunnel_options == old(self).tunnel_options,
    {
        let changed = {
            let BridgeSettings::Normal(new_constraints) = &bridge_settings;
            let BridgeSettings::Normal(constraints) = &self.bridge_settings;
            !eq_location_choice(&constraints.location, &new_constraints.location)
        };
        if changed {
            self.bridge_settings = bridge_settings;
        }
        changed
    }

    /// Returns the bridge state.
    pub fn get_bridge_state(&self) -> (r: &BridgeState)
        ensures
            *r == self.spec_bridge_state(),
    {
        &self.bridge_state
    }

    /// Replaces the bridge state; returns whether it changed.
    pub fn set_bridge_state(&mut self, bridge_state: BridgeState) -> (changed: bool)
        ensures
            final(self).spec_bridge_state() == bridge_state,
            changed == (bridge_state != old(self).spec_bridge_state()),
            final(self).account_token == old(self).account_token,
            final(self).relay_settings == old(self).relay_settings,
            final(self).bridge_settings == old(self).bridge_settings,
            final(self).allow_lan == old(self).allow_lan,
            final(self).block_when_disconnected == old(self).block_when_disconnected,
            final(self).auto_connect == old(self).auto_connect,
            final(self).tunnel_options == old(self).tunnel_options,
    {
        let changed = match (self.bridge_state, bridge_state) {
            (BridgeState::Auto, BridgeState::Auto) => false,
            (BridgeState::On, BridgeState::On) => false,
            (BridgeState::Off, BridgeState::Off) => false,
            _ => true,
        };
        if changed {
            self.bridge_state = bridge_state;
        }
        changed
    }
}

} // verus!
