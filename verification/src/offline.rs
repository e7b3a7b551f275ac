//! The connectivity monitor's decision logic.
//!
//! The operating system reports network-connectivity changes and
//! power-suspend transitions; this module folds them into one offline
//! flag and decides when the state machine must be told. The listener
//! threads and OS hooks live outside this crate and only deliver the
//! observed changes here.

use vstd::prelude::*;

use crate::state_machine::TunnelCommand;

verus! {

/// One observed change of the host's situation.
#[derive(Clone, Copy, Debug, PartialEq, Eq, Structural, Hash)]
pub enum StateChange {
    /// The network is connected, or not.
    NetworkConnectivity(bool),
    /// The machine is suspended, or resumed.
    Suspended(bool),
}

/// What the host is known to be doing: connectivity and suspension.
#[derive(Clone, Copy, Debug, PartialEq, Eq, Structural, Hash)]
pub struct SystemState {
    pub network_connectivity: bool,
    pub suspended: bool,
}

impl SystemState {
    /// The host is offline when the network is down or the machine is
    /// suspended.
    pub open spec fn spec_is_offline(self) -> bool {
        !self.network_connectivity || self.suspended
    }

    /// The state after applying one observed change.
    pub open spec fn spec_apply_change(self, change: StateChange) -> SystemState {
        match change {
            StateChange::NetworkConnectivity(connectivity) => SystemState {
                network_connectivity: connectivity,
                ..self
            },
            StateChange::Suspended(suspended) => SystemState { suspended, ..self },
        }
    }

    /// Returns whether the host is offline right now.
    pub fn is_offline_currently(&self) -> (r: bool)
        ensures
            r == self.spec_is_offline(),
    {
        !self.network_connectivity || self.suspended
    }

    /// Applies one observed change and returns the command to post to
    /// the state machine: exactly when the offline flag flipped, and
    /// carrying the new flag.
    pub fn apply_change(&mut self, change: StateChange) -> (r: Option<TunnelCommand>)
        ensures
            *final(self) == old(self).spec_apply_change(change),
            old(self).spec_is_offline() == final(self).spec_is_offline() ==> r is None,
            old(self).spec_is_offline() != final(self).spec_is_offline() ==> (r matches Some(
                command,
            ) && command == TunnelCommand::IsOffline(final(self).spec_is_offline())),
    {
        let old_state = self.is_offline_currently();
        match change {
            StateChange::NetworkConnectivity(connectivity) => {
                self.network_connectivity = connectivity;
            },
            StateChange::Suspended(suspended) => {
                self.suspended = suspended;
            },
        }
        let new_state = self.is_offline_currently();
        if old_state != new_state {
            Some(TunnelCommand::IsOffline(new_state))
        } else {
            None
        }
    }
}

} // verus!
