//! The command-line surface: the subcommands the program accepts. Argument
//! parsing itself is a thin collaborator of the surrounding application;
//! these are the plain values it hands the core.

use vstd::prelude::*;

verus! {

/// The parsed command line.
#[derive(Clone, Copy, Debug, PartialEq, Eq, Structural)]
pub struct Cli {
    pub command: Commands,
}

/// The subcommands.
#[derive(Clone, Copy, Debug, PartialEq, Eq, Structural)]
pub enum Commands {
    /// Start the session and run the sign-in flow. The offer percentage is
    /// accepted but not yet used by the core.
    Build { offer_percentage: i16 },
    /// The terminal view; unimplemented, and it must fail loudly rather
    /// than silently succeed.
    View,
    /// Tear the session down from the persisted registry.
    Teardown,
}

impl Commands {
    /// The unimplemented subcommands: dispatch must refuse these, never
    /// silently succeed.
    pub fn is_unimplemented(&self) -> (r: bool)
        ensures
            r <==> *self is View,
    {
        match self {
            Commands::View => true,
            _ => false,
        }
    }
}

} // verus!
