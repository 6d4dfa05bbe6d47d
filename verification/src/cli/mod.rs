//! The command line: what can be asked for, and the rules of each command.

pub mod discover;
pub mod hegel;

use vstd::prelude::*;

verus! {

/// The arguments of the program.
#[derive(Debug, Clone, PartialEq, Eq)]
pub struct Args {
    pub command: Option<Command>,
}

/// The commands of the program.
#[derive(Debug, Clone, PartialEq, Eq)]
pub enum Command {
    /// Discover and inspect projects.
    Discover {
        subcommand: DiscoverCommand,
        /// Output as JSON in place of the human-readable format.
        json: bool,
        /// Force a fresh scan of the disk, past the cache.
        no_cache: bool,
    },
    /// Remove a project from tracking.
    Remove { project_name: String },
    /// Refresh the cached data of the named projects, or of all where none
    /// is named.
    Refresh { project_names: Vec<String> },
    /// Run a command of the workflow tool across all projects.
    X { args: Vec<String> },
}

/// What `discover` can show.
#[derive(Debug, Clone, PartialEq, Eq)]
pub enum DiscoverCommand {
    /// List all projects, without metrics.
    List,
    /// Show one project in detail.
    Show { project_name: String },
    /// Show the metrics of all projects in a table.
    All {
        /// Column to sort by.
        sort_by: String,
        /// Whether the table has a column for the load time.
        benchmark: bool,
    },
}

} // verus!
