//! The command line: a global verbosity switch and one subcommand.
use vstd::prelude::*;

verus! {

/// The parsed command line.
#[derive(Debug)]
pub struct Cli {
    /// Verbose output, for debugging.
    pub verbose: bool,
    /// Results only, for CI.
    pub quiet: bool,
    /// JSON lines, for scripts.
    pub json: bool,
    pub command: Commands,
}

/// The subcommands.
#[derive(Debug)]
pub enum Commands {
    /// Writes a new `peleka.yml`.
    Init {
        /// Service name to put in the file.
        service: Option<String>,
        /// Container image to put in the file.
        image: Option<String>,
        /// Overwrite an existing file.
        force: bool,
    },
    /// Deploys the service to its servers.
    Deploy {
        /// The destination, as named in the configuration.
        destination: Option<String>,
        /// Break a deploy lock held by someone else.
        force: bool,
    },
    /// Goes back to the previous deployment.
    Rollback {
        /// The destination, as named in the configuration.
        destination: Option<String>,
    },
    /// Runs a command in the service's container.
    Exec {
        /// The destination, as named in the configuration.
        destination: Option<String>,
        /// The command and its arguments.
        command: Vec<String>,
    },
    /// Shows the deployment's status.
    Status,
    /// Streams the container's logs.
    Logs {
        /// Lines to show from the end.
        tail: Option<u64>,
        /// Keep following the output.
        follow: bool,
        /// Only lines since this time (such as `2024-01-15T10:00:00`).
        since: Option<String>,
        /// Show log disk usage instead.
        stats: bool,
    },
}

/// The output mode the flags ask for: JSON wins over quiet.
pub fn output_mode(cli: &Cli) -> (r: crate::output::OutputMode)
    ensures
        r == if cli.json {
            crate::output::OutputMode::Json
        } else if cli.quiet {
            crate::output::OutputMode::Quiet
        } else {
            crate::output::OutputMode::Normal
        },
{
    if cli.json {
        crate::output::OutputMode::Json
    } else if cli.quiet {
        crate::output::OutputMode::Quiet
    } else {
        crate::output::OutputMode::Normal
    }
}

} // verus!
