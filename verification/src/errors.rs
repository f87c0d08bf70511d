use vstd::prelude::*;

verus! {

/// The error taxonomy of the session core.
///
/// `DependencyNotFound`, `ProcessSpawnFailed` and `ConnectionFailed` are fatal
/// to session startup; `ElementNotFound` is fatal to the current sign-in step;
/// `RegistryNotFound` and `InvalidRegistryEntry` belong to teardown, the
/// latter per registry entry and non-fatal; `TerminationFailed` is a
/// per-process, non-fatal teardown outcome.
#[derive(Clone, Copy, Debug, PartialEq, Eq, Structural)]
pub enum SessionError {
    DependencyNotFound,
    ProcessSpawnFailed,
    ConnectionFailed,
    ElementNotFound,
    RegistryNotFound,
    InvalidRegistryEntry,
    TerminationFailed,
}

impl SessionError {
    /// The fixed description of each error, for reports and logs.
    pub open spec fn describe_spec(self) -> Seq<char> {
        match self {
            SessionError::DependencyNotFound => "required external executable or resource missing"@,
            SessionError::ProcessSpawnFailed => "failed to start an auxiliary process"@,
            SessionError::ConnectionFailed => "failed to connect to the automation driver"@,
            SessionError::ElementNotFound => "a required page element was not found"@,
            SessionError::RegistryNotFound => "process registry not found"@,
            SessionError::InvalidRegistryEntry => "malformed process registry entry"@,
            SessionError::TerminationFailed => "failed to terminate a recorded process"@,
        }
    }

    pub fn describe(&self) -> (r: &'static str)
        ensures
            r@ == self.describe_spec(),
    {
        match self {
            SessionError::DependencyNotFound => "required external executable or resource missing",
            SessionError::ProcessSpawnFailed => "failed to start an auxiliary process",
            SessionError::ConnectionFailed => "failed to connect to the automation driver",
            SessionError::ElementNotFound => "a required page element was not found",
            SessionError::RegistryNotFound => "process registry not found",
            SessionError::InvalidRegistryEntry => "malformed process registry entry",
            SessionError::TerminationFailed => "failed to terminate a recorded process",
        }
    }
}

} // verus!
