//! Preflight gate: ordered, non-retryable checks that must pass before any
//! socket is opened.
//!
//! Privilege is checked first; without it the resource-accounting query may
//! itself be meaningless. Both checks are fatal: the caller exits nonzero
//! with the message of the returned error.

use vstd::prelude::*;
use crate::errors::Error;

verus! {

/// The four-way state of the kernel's resource accounting (RACCT/RCTL).
/// Only `Enabled` allows the exporter to continue; every other state has a
/// distinct operator remedy.
#[derive(Clone, Copy, Debug, PartialEq, Eq, Structural)]
pub enum RctlState {
    /// Accounting is compiled in and switched on.
    Enabled,
    /// Accounting is compiled in but administratively disabled.
    Disabled,
    /// The query ran inside a jail, where accounting is not visible.
    Jailed,
    /// Accounting is not compiled into the kernel.
    NotPresent,
}

/// Classifies the host's resource-accounting state: continue only when it is
/// `Enabled`, otherwise fail with the remedy for that exact state.
pub fn is_racct_rctl_available(state: RctlState) -> (r: Result<(), Error>)
    ensures
        r is Ok <==> state is Enabled,
        state is Disabled ==> (r matches Err(Error::RctlUnavailable(m))
            && m@ == "Present, but disabled; enable using kern.racct.enable=1 tunable"@),
        state is Jailed ==> (r matches Err(Error::RctlUnavailable(m))
            && m@ == "Jail Exporter cannot run within a jail"@),
        state is NotPresent ==> (r matches Err(Error::RctlUnavailable(m))
            && m@ == "Support not present in kernel; see rctl(8) for details"@),
{
    match state {
        RctlState::Enabled => Ok(()),
        RctlState::Disabled => Err(Error::RctlUnavailable(
            "Present, but disabled; enable using kern.racct.enable=1 tunable".to_owned(),
        )),
        RctlState::Jailed => Err(Error::RctlUnavailable(
            "Jail Exporter cannot run within a jail".to_owned(),
        )),
        RctlState::NotPresent => Err(Error::RctlUnavailable(
            "Support not present in kernel; see rctl(8) for details".to_owned(),
        )),
    }
}

/// The privilege rule: only the superuser identity (effective uid 0) passes.
pub fn root_check(effective_uid: u32) -> (r: Result<(), Error>)
    ensures
        r is Ok <==> effective_uid == 0,
        r is Err ==> r matches Err(Error::NotRunningAsRoot),
{
    if effective_uid == 0 {
        Ok(())
    } else {
        Err(Error::NotRunningAsRoot)
    }
}

/// Relies on users::get_effective_uid: returns the effective user id of this
/// process (geteuid). The value depends on the environment, so nothing is
/// promised of it.
#[verifier::external_body]
fn effective_uid() -> u32 {
    users::get_effective_uid()
}

/// Checks that the process runs as root. Whatever uid the host reports, a
/// failure is exactly the `NotRunningAsRoot` error.
pub fn is_running_as_root() -> (r: Result<(), Error>)
    ensures
        r is Err ==> r matches Err(Error::NotRunningAsRoot),
{
    root_check(effective_uid())
}

} // verus!
