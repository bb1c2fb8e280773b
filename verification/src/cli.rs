//! The commands of the control surface, as they come from the command line.

use vstd::prelude::*;

verus! {

/// A parsed command line.
#[derive(Debug, Clone, PartialEq, Eq)]
pub struct Cli {
    pub command: Commands,
}

/// What the user asks for.
#[derive(Debug, Clone, PartialEq, Eq)]
pub enum Commands {
    /// Create a descriptor file with the boilerplate.
    Config(ConfigArgs),
    /// Watch the named repository, or all of them.
    Watch(OptConfigArgs),
    /// Stop the daemon of the named repository, or all of them.
    Stop(OptConfigArgs),
    /// List the tracked repositories and their daemons.
    Status,
    /// Show the log of the named repository.
    Log(ConfigArgs),
    /// Start the application of the named repository, or of all.
    Start(OptConfigArgs),
}

/// A command that needs the name of a tracked repository.
#[derive(Debug, Clone, PartialEq, Eq)]
pub struct ConfigArgs {
    pub name: String,
}

/// A command for one tracked repository, or for all where no name is given.
#[derive(Debug, Clone, PartialEq, Eq)]
pub struct OptConfigArgs {
    pub name: Option<String>,
}

/// What the status listing is asked to show.
#[derive(Debug, Clone, Copy, PartialEq, Eq)]
pub struct StatusArgs {
    /// Only the repositories that a daemon watches.
    pub watch: bool,
    /// The statistics of each daemon's process.
    pub process: bool,
}

} // verus!
