//! Command-line syntax and global options for `nodesea`.

use std::path::PathBuf;

use vstd::prelude::*;

use crate::daemon::helper::HelperError;

verus! {

/// Declares `std::path::PathBuf`, an owned filesystem path.
#[verifier::external_type_specification]
#[verifier::external_body]
pub struct ExPathBuf(PathBuf);

/// Output formats supported by CLI commands.
#[derive(Debug, Clone, Copy, PartialEq, Eq, Structural)]
pub enum OutputFormat {
    Text,
    Json,
}

/// Commands exposed by the NodeSea CLI.
#[derive(Debug, Clone, Copy, PartialEq, Eq, Structural)]
pub enum Command {
    /// Show the current daemon engine status.
    Status,
}

/// Options shared by every CLI command.
#[derive(Debug)]
pub struct GlobalArgs {
    /// Optional path to the daemon's local IPC socket.
    pub socket: Option<PathBuf>,
    /// Serialization format for command output.
    pub output: OutputFormat,
}

/// Parsed top-level command-line arguments.
#[derive(Debug)]
pub struct Cli {
    pub global: GlobalArgs,
    pub command: Command,
}

/// The socket the CLI dials: the explicit `--socket` path when one was
/// given, whatever the platform default is; else the platform default, or
/// the error of resolving it.
pub fn resolve_socket_path(explicit: Option<PathBuf>, default: Result<PathBuf, HelperError>) -> (r:
    Result<PathBuf, HelperError>)
    ensures
        r == match explicit {
            Some(p) => Ok(p),
            None => default,
        },
{
    match explicit {
        Some(p) => Ok(p),
        None => default,
    }
}

} // verus!
