//! The firewall: applies compiled policies as one atomic table replace.
//!
//! The packet-filter table is a single process-wide resource. Applying a
//! policy always starts from an empty table and replaces it wholesale, so
//! stale rules from a previous policy can never linger and there is never
//! a window with a partial table. The netlink transport that carries the
//! replace to the OS lives outside this crate; here the table is the value
//! the transport must make true.

use vstd::prelude::*;

use crate::compiler::spec_compile;
use crate::compiler::FinalizedBatch;
use crate::compiler::FinalizedBatchV;
use crate::compiler::PolicyBatch;
use crate::policy::FirewallPolicy;
use crate::policy::FirewallPolicyV;

verus! {

/// Arguments required when first initializing the firewall.
pub struct FirewallArguments {
    /// Whether the firewall should atomically enter the blocked state
    /// during init.
    pub initialize_blocked: bool,
    /// Required for the blocked state to configure the firewall
    /// correctly.
    pub allow_lan: Option<bool>,
}

/// The table state an installation step leaves behind: the complete
/// compiled rule set of the policy, whatever stood there before.
pub open spec fn spec_install(
    table: Option<FinalizedBatchV>,
    policy: FirewallPolicyV,
) -> Option<FinalizedBatchV> {
    Some(spec_compile(policy))
}

/// Manages the packet-filter table of the machine: applies and enforces
/// firewall policies until another policy is applied or the table is
/// reset.
pub struct Firewall {
    /// The complete rule set currently installed, if any.
    pub table: Option<FinalizedBatch>,
}

impl View for Firewall {
    type V = Option<FinalizedBatchV>;

    open spec fn view(&self) -> Option<FinalizedBatchV> {
        match self.table {
            Some(batch) => Some(batch@),
            None => None,
        }
    }
}

impl Firewall {
    /// Returns a new `Firewall`, ready to apply policies. When asked to,
    /// it enters the blocked state at once, so that no traffic can leak
    /// before the first policy arrives.
    pub fn new(args: FirewallArguments) -> (r: Firewall)
        ensures
            args.initialize_blocked ==> r@ =~~= Some(
                spec_compile(
                    FirewallPolicyV::Blocked {
                        allow_lan: args.allow_lan is Some && args.allow_lan matches Some(true),
                    },
                ),
            ),
            !args.initialize_blocked ==> r@ is None,
    {
        if args.initialize_blocked {
            let allow_lan = match args.allow_lan {
                Some(v) => v,
                None => false,
            };
            let mut firewall = Firewall { table: None };
            firewall.apply_policy(FirewallPolicy::Blocked { allow_lan });
            firewall
        } else {
            Firewall { table: None }
        }
    }

    /// Applies and starts enforcing the given policy: compiles its
    /// complete rule set and replaces the table with it in one step.
    /// The table holds exactly the compiled set afterwards, whatever it
    /// held before.
    pub fn apply_policy(&mut self, policy: FirewallPolicy)
        ensures
            final(self)@ =~~= spec_install(old(self)@, policy@),
    {
        let batch = PolicyBatch::new().finalize(&policy);
        self.table = Some(batch);
    }

    /// Resets the table: removes any currently enforced policy and
    /// returns the system to the state it had before any policy was
    /// applied.
    pub fn reset_policy(&mut self)
        ensures
            final(self)@ is None,
    {
        self.table = None;
    }

    /// Returns whether a policy is currently installed.
    pub fn has_policy(&self) -> (r: bool)
        ensures
            r == (self@ is Some),
    {
        match self.table {
            Some(_) => true,
            None => false,
        }
    }

    /// Returns the currently installed rule set, to hand to the
    /// packet-filter transport or to inspect.
    pub fn installed_table(&self) -> (r: &Option<FinalizedBatch>)
        ensures
            self@ is Some <==> r is Some,
            r matches Some(batch) ==> self@ =~~= Some(batch@),
    {
        &self.table
    }
}

/// Installing the same policy twice leaves a table identical to
/// installing it once: the table replace is idempotent.
pub proof fn lemma_install_idempotent(table: Option<FinalizedBatchV>, policy: FirewallPolicyV)
    ensures
        spec_install(spec_install(table, policy), policy) == spec_install(table, policy),
{
}

/// Which table a policy installation produces does not depend on what the
/// table held before.
pub proof fn lemma_install_overwrites(
    table_a: Option<FinalizedBatchV>,
    table_b: Option<FinalizedBatchV>,
    policy: FirewallPolicyV,
) ensures
        spec_install(table_a, policy) == spec_install(table_b, policy),
{
}

/// The firewall of platforms that enforce the policy in the platform's
/// own network stack: applying and resetting policies is a no-op here.
pub struct AndroidFirewall;

impl AndroidFirewall {
    /// Returns a new `AndroidFirewall`.
    pub fn new() -> (r: AndroidFirewall) {
        AndroidFirewall
    }

    /// Accepts a policy; the platform enforces it elsewhere.
    pub fn apply_policy(&mut self, _policy: FirewallPolicy) -> (r: bool)
        ensures
            r,
    {
        true
    }

    /// Accepts a reset; the platform enforces it elsewhere.
    pub fn reset_policy(&mut self) -> (r: bool)
        ensures
            r,
    {
        true
    }
}

} // verus!
