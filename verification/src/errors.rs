//! Fatal startup errors.
//!
//! Every variant is raised before the server accepts its first connection and
//! terminates the process; per-request collection failures are not errors of
//! this kind, they are contained to the failing request.

use vstd::prelude::*;
use vstd::string::StringExecFns;

verus! {

/// A fatal startup error, reported to the operator and followed by a nonzero
/// process exit.
pub enum Error {
    /// A required argument had no value from any source.
    ArgNotSet(String),
    /// The process does not run with the superuser's effective uid.
    NotRunningAsRoot,
    /// The kernel's resource accounting is not usable; the payload names the
    /// remedy.
    RctlUnavailable(String),
    /// The listen address could not be bound; the payload names the address
    /// and the underlying cause.
    BindAddress(String),
}

impl Error {
    /// The human-readable message for the operator.
    pub fn message(&self) -> (m: String)
        ensures
            self matches Error::ArgNotSet(a) ==> m@ == "argument was not set: "@ + a@,
            self is NotRunningAsRoot ==> m@ == "jail_exporter must be run as root"@,
            self matches Error::RctlUnavailable(r) ==> m@ == "RACCT/RCTL: "@ + r@,
            self matches Error::BindAddress(b) ==> m@ == "could not bind to: "@ + b@,
    {
        match self {
            Error::ArgNotSet(a) => {
                let mut m = "argument was not set: ".to_owned();
                m.append(a.as_str());
                m
            },
            Error::NotRunningAsRoot => "jail_exporter must be run as root".to_owned(),
            Error::RctlUnavailable(r) => {
                let mut m = "RACCT/RCTL: ".to_owned();
                m.append(r.as_str());
                m
            },
            Error::BindAddress(b) => {
                let mut m = "could not bind to: ".to_owned();
                m.append(b.as_str());
                m
            },
        }
    }
}

} // verus!
