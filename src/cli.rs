//! The commands the tool understands.
use vstd::prelude::*;

verus! {

/// A parsed command line.
#[derive(Debug)]
pub struct Cli {
    pub command: Commands,
}

/// One command of the tool.
#[derive(Debug)]
pub enum Commands {
    /// Apply a batch read from a file, or from standard input when the path is `-`.
    Apply { config: String, no_backup: bool, force: bool },
    /// Report which requirements are present.
    Check,
    /// Install the missing requirements.
    Install,
    /// List the configured domains.
    List,
    /// Add one domain.
    Add { domain: String, port: u16, ssl: bool, email: Option<String>, max_body_size: String },
    /// Remove one domain.
    Remove { domain: String },
    /// Run the configuration validator.
    Test,
    /// Reload the server.
    Reload,
    /// Show the service, the configuration, the snapshots and the domains.
    Status,
    /// Remove the sites the validator blames.
    Clean { dry_run: bool },
    /// Restore a snapshot by name, or the most recent one for `latest`.
    Restore { backup_id: String },
}

} // verus!
