use vstd::prelude::*;

verus! {

/// The command line: a subcommand and the configuration file to read.
pub struct Cli {
    pub command: Commands,
    /// Path to the configuration file.
    pub config: Option<String>,
}

/// The subcommands.
#[derive(Debug, Clone, Copy, PartialEq, Eq, Structural)]
pub enum Commands {
    /// Start an HTML server.
    Serve,
}

} // verus!
