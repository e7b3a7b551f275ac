//! Basic facts about the platform this build targets.
//!
//! The packet-filter rule model in this crate is the one of the Linux
//! backend, so the build targets Linux; the platform probes that need
//! system calls live outside this crate.

use vstd::prelude::*;

verus! {

/// Returns whether this build targets Linux.
pub fn is_linux() -> (r: bool)
    ensures
        r,
{
    true
}

/// Returns whether this build targets Windows.
pub fn is_win() -> (r: bool)
    ensures
        !r,
{
    false
}

} // verus!
