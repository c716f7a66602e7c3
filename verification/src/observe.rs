//! Observed facts about the environment, gathered by the caller and handed
//! to the checks as plain values: how lookups and external commands went,
//! whether files exist, and what the package-list files contained.

use vstd::prelude::*;

verus! {

/// How the lookup of one required command on the executable search path went.
#[derive(Clone, Copy, Debug, PartialEq, Eq, Structural)]
pub enum LookupOutcome {
    /// The lookup ran and resolved the command to an executable.
    Resolved,
    /// The lookup ran and did not resolve the command.
    Unresolved,
    /// The lookup itself could not be run.
    LookupFailed,
}

/// What happened when an external command was invoked.
#[derive(Clone, Copy, Debug, PartialEq, Eq, Structural)]
pub enum CommandOutcome {
    /// The process ran to completion.
    Exited {
        /// Whether the process exited successfully.
        success: bool,
        /// Whether the process wrote nothing to standard output.
        stdout_empty: bool,
    },
    /// The process could not be spawned or its output could not be captured.
    SpawnFailed,
}

/// What reading one package list and parsing one of its array attributes
/// yielded. The caller gathers it: it reads the file and hands the text to
/// the configuration parser, fencing that parser so that any failure of
/// its own arrives here as a parse error.
#[derive(Debug)]
pub enum ArrayOutcome {
    /// The file could not be read; the error text of the failed read.
    ReadError {
        /// The underlying error's text.
        message: String,
    },
    /// The file was read but the queried array could not be parsed out of
    /// it.
    ParseError {
        /// The parser's error text.
        message: String,
    },
    /// The queried array was parsed.
    Values {
        /// The array's values, in order.
        values: Vec<String>,
    },
}

/// Everything one diagnostic run observes about the environment. The fields
/// for the secondary (Homebrew) backend are consulted only when `on_macos`
/// holds.
pub struct Observations {
    /// Whether the expanded Linux package-list path exists.
    pub linux_path_exists: bool,
    /// Whether the expanded Darwin package-list path exists.
    pub darwin_path_exists: bool,
    /// Whether the expanded Homebrew package-list path exists.
    pub homebrew_path_exists: bool,
    /// Lookup of `git` on the executable search path.
    pub git_lookup: LookupOutcome,
    /// Lookup of `nix` on the executable search path.
    pub nix_lookup: LookupOutcome,
    /// Lookup of `brew` on the executable search path.
    pub brew_lookup: LookupOutcome,
    /// Lookup of `make` on the executable search path.
    pub make_lookup: LookupOutcome,
    /// Outcome of `git status` in the configuration directory.
    pub git_status: CommandOutcome,
    /// Outcome of `git status --porcelain` in the configuration directory.
    /// Consulted only when `git_status` reports a successful exit.
    pub git_porcelain: CommandOutcome,
    /// Outcome of the smoke-test query against the Nix search backend.
    pub nix_search: CommandOutcome,
    /// Outcome of the smoke-test query against the Homebrew search backend.
    pub brew_search: CommandOutcome,
    /// Read-and-parse of the system packages array out of the
    /// OS-appropriate Nix package list.
    pub system_packages: ArrayOutcome,
    /// Read-and-parse of the brews array out of the Homebrew package list.
    /// Consulted only when `on_macos` holds.
    pub brews: ArrayOutcome,
    /// Read-and-parse of the casks array out of the Homebrew package list.
    /// Consulted only when `on_macos` holds.
    pub casks: ArrayOutcome,
    /// Whether the host is the secondary backend's OS (macOS).
    pub on_macos: bool,
}

} // verus!
