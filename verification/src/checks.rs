//! The five diagnostic checks and the runner that composes them. Each check
//! is a decision from observed facts to verdicts; gathering the facts
//! (probing the filesystem and running external commands) is the caller's
//! part.

use vstd::prelude::*;
use crate::config::{Config, get_expanded_path, parent_dir, spec_expanded_path, spec_parent_dir};
use crate::observe::{ArrayOutcome, CommandOutcome, LookupOutcome, Observations};
use crate::packages::{check_package_list, list_verdict_ok};
use crate::verdict::{CommandVerdict, GitVerdict, ParseVerdict, PathVerdict, SearchVerdict};

verus! {

/// The verdict owed for one configured path that exists iff `exists`.
pub open spec fn spec_path_verdict(exists: bool) -> PathVerdict {
    if exists {
        PathVerdict::Found
    } else {
        PathVerdict::Missing
    }
}

/// The verdict for one configured path: `Found` exactly when the path
/// exists.
pub fn path_verdict(exists: bool) -> (v: PathVerdict)
    ensures
        v == spec_path_verdict(exists),
        v == PathVerdict::Found <==> exists,
{
    if exists {
        PathVerdict::Found
    } else {
        PathVerdict::Missing
    }
}

/// The existence verdicts of the three configured paths, in the order
/// Linux, Darwin, Homebrew. Every path is judged, whatever the others'
/// verdicts: each verdict is `Found` exactly when that path exists.
pub fn check_config_paths(linux_exists: bool, darwin_exists: bool, homebrew_exists: bool) -> (r: (
    PathVerdict,
    PathVerdict,
    PathVerdict,
))
    ensures
        r.0 == PathVerdict::Found <==> linux_exists,
        r.1 == PathVerdict::Found <==> darwin_exists,
        r.2 == PathVerdict::Found <==> homebrew_exists,
{
    (path_verdict(linux_exists), path_verdict(darwin_exists), path_verdict(homebrew_exists))
}

/// The fixed table of required commands with the purpose each is needed
/// for, in the order they are checked.
pub fn required_commands() -> (r: Vec<(&'static str, &'static str)>)
    ensures
        r@.len() == 4,
        r@[0].0@ == "git"@ && r@[0].1@ == "Required for version control"@,
        r@[1].0@ == "nix"@ && r@[1].1@ == "Required for package management"@,
        r@[2].0@ == "brew"@ && r@[2].1@ == "Required for Homebrew package management (macOS only)"@,
        r@[3].0@ == "make"@ && r@[3].1@ == "Required for running installation commands"@,
{
    let mut r: Vec<(&'static str, &'static str)> = Vec::new();
    r.push(("git", "Required for version control"));
    r.push(("nix", "Required for package management"));
    r.push(("brew", "Required for Homebrew package management (macOS only)"));
    r.push(("make", "Required for running installation commands"));
    r
}

/// The verdict owed for a command whose lookup went as `outcome`.
pub open spec fn spec_command_verdict(outcome: LookupOutcome) -> CommandVerdict {
    match outcome {
        LookupOutcome::Resolved => CommandVerdict::Found,
        LookupOutcome::Unresolved => CommandVerdict::NotFound,
        LookupOutcome::LookupFailed => CommandVerdict::CheckFailed,
    }
}

/// The verdict for one required command: `Found` exactly when the
/// executable search path resolved it, with a failed lookup told apart from
/// an unresolved one.
pub fn command_verdict(outcome: LookupOutcome) -> (v: CommandVerdict)
    ensures
        v == spec_command_verdict(outcome),
        v == CommandVerdict::Found <==> outcome == LookupOutcome::Resolved,
        v == CommandVerdict::NotFound <==> outcome == LookupOutcome::Unresolved,
        v == CommandVerdict::CheckFailed <==> outcome == LookupOutcome::LookupFailed,
{
    match outcome {
        LookupOutcome::Resolved => CommandVerdict::Found,
        LookupOutcome::Unresolved => CommandVerdict::NotFound,
        LookupOutcome::LookupFailed => CommandVerdict::CheckFailed,
    }
}

/// The verdicts of the four required commands, in the order git, nix, brew,
/// make. Every command is judged, whatever the others' verdicts.
pub fn check_commands(
    git: LookupOutcome,
    nix: LookupOutcome,
    brew: LookupOutcome,
    make: LookupOutcome,
) -> (r: (CommandVerdict, CommandVerdict, CommandVerdict, CommandVerdict))
    ensures
        r.0 == spec_command_verdict(git),
        r.1 == spec_command_verdict(nix),
        r.2 == spec_command_verdict(brew),
        r.3 == spec_command_verdict(make),
{
    (command_verdict(git), command_verdict(nix), command_verdict(brew), command_verdict(make))
}

/// The verdict owed for a repository whose status query went as `status`
/// and whose uncommitted-changes query went as `porcelain`. The
/// uncommitted-changes query is consulted only when the status query exited
/// successfully.
pub open spec fn spec_git_verdict(status: CommandOutcome, porcelain: CommandOutcome) -> GitVerdict {
    match status {
        CommandOutcome::SpawnFailed => GitVerdict::StatusFailed,
        CommandOutcome::Exited { success, stdout_empty } => if !success {
            GitVerdict::NotARepo
        } else {
            match porcelain {
                CommandOutcome::SpawnFailed => GitVerdict::ChangesFailed,
                CommandOutcome::Exited { success: _, stdout_empty } => if stdout_empty {
                    GitVerdict::RepoClean
                } else {
                    GitVerdict::RepoDirty
                },
            }
        },
    }
}

/// Judges the configuration repository from the two git probes. When the
/// first probe exits well the directory holds a repository, and the second
/// probe's output decides between a clean tree and uncommitted changes; a
/// bad exit of the first probe marks the directory as no repository, and a
/// probe that would not run at all gets its own failed-to-check verdict.
pub fn check_git_repo(status: CommandOutcome, porcelain: CommandOutcome) -> (v: GitVerdict)
    ensures
        v == spec_git_verdict(status, porcelain),
        v == GitVerdict::RepoClean <==> (status matches CommandOutcome::Exited {
            success: true,
            ..
        } && porcelain matches CommandOutcome::Exited { stdout_empty: true, .. }),
        v == GitVerdict::RepoDirty <==> (status matches CommandOutcome::Exited {
            success: true,
            ..
        } && porcelain matches CommandOutcome::Exited { stdout_empty: false, .. }),
        v == GitVerdict::NotARepo <==> status matches CommandOutcome::Exited {
            success: false,
            ..
        },
        v == GitVerdict::StatusFailed <==> status is SpawnFailed,
{
    match status {
        CommandOutcome::SpawnFailed => GitVerdict::StatusFailed,
        CommandOutcome::Exited { success, stdout_empty: _ } => {
            if !success {
                GitVerdict::NotARepo
            } else {
                match porcelain {
                    CommandOutcome::SpawnFailed => GitVerdict::ChangesFailed,
                    CommandOutcome::Exited { success: _, stdout_empty } => {
                        if stdout_empty {
                            GitVerdict::RepoClean
                        } else {
                            GitVerdict::RepoDirty
                        }
                    },
                }
            }
        },
    }
}

/// The verdict owed for a search backend whose smoke-test query went as
/// `outcome`.
pub open spec fn spec_search_verdict(outcome: CommandOutcome) -> SearchVerdict {
    match outcome {
        CommandOutcome::Exited { success, stdout_empty } => if success {
            SearchVerdict::Success
        } else {
            SearchVerdict::NoResults
        },
        CommandOutcome::SpawnFailed => SearchVerdict::ExecFailed,
    }
}

/// The verdict for one search backend: a successful exit is a success, an
/// unsuccessful one means the backend ran but signalled no results, and a
/// query that could not run at all is a distinct execution error.
pub fn search_verdict(outcome: CommandOutcome) -> (v: SearchVerdict)
    ensures
        v == spec_search_verdict(outcome),
        v == SearchVerdict::Success <==> outcome matches CommandOutcome::Exited {
            success: true,
            ..
        },
        v == SearchVerdict::NoResults <==> outcome matches CommandOutcome::Exited {
            success: false,
            ..
        },
        v == SearchVerdict::ExecFailed <==> outcome is SpawnFailed,
{
    match outcome {
        CommandOutcome::Exited { success, stdout_empty: _ } => {
            if success {
                SearchVerdict::Success
            } else {
                SearchVerdict::NoResults
            }
        },
        CommandOutcome::SpawnFailed => SearchVerdict::ExecFailed,
    }
}

/// The search-check verdicts: the primary (Nix) backend is always judged;
/// the secondary (Homebrew) backend is judged exactly on its own host OS.
pub fn check_search(
    nix_outcome: CommandOutcome,
    brew_outcome: CommandOutcome,
    on_macos: bool,
) -> (r: (SearchVerdict, Option<SearchVerdict>))
    ensures
        r.0 == spec_search_verdict(nix_outcome),
        r.1 is Some <==> on_macos,
        on_macos ==> r.1 == Some(spec_search_verdict(brew_outcome)),
{
    let nix_verdict = search_verdict(nix_outcome);
    if on_macos {
        (nix_verdict, Some(search_verdict(brew_outcome)))
    } else {
        (nix_verdict, None)
    }
}

/// The literal query every search smoke test issues.
pub fn smoke_test_query() -> (r: &'static str)
    ensures
        r@ == "git"@,
{
    "git"
}

/// The argument list of the Nix search smoke test: the experimental-feature
/// flags, the search subcommand against the nixpkgs registry, the query,
/// and structured (JSON) output.
pub fn nix_search_args<'a>(query: &'a str) -> (r: Vec<&'a str>)
    ensures
        r@.len() == 8,
        r@[0]@ == "--extra-experimental-features"@,
        r@[1]@ == "nix-command"@,
        r@[2]@ == "--extra-experimental-features"@,
        r@[3]@ == "flakes"@,
        r@[4]@ == "search"@,
        r@[5]@ == "nixpkgs"@,
        r@[6]@ == query@,
        r@[7]@ == "--json"@,
{
    let mut r: Vec<&'a str> = Vec::new();
    r.push("--extra-experimental-features");
    r.push("nix-command");
    r.push("--extra-experimental-features");
    r.push("flakes");
    r.push("search");
    r.push("nixpkgs");
    r.push(query);
    r.push("--json");
    r
}

/// The argument list of the Homebrew search smoke test.
pub fn brew_search_args<'a>(query: &'a str) -> (r: Vec<&'a str>)
    ensures
        r@.len() == 2,
        r@[0]@ == "search"@,
        r@[1]@ == query@,
{
    let mut r: Vec<&'a str> = Vec::new();
    r.push("search");
    r.push(query);
    r
}

/// The package-list path the parse check reads: the Darwin list on the
/// secondary backend's OS, the Linux list everywhere else, expanded into
/// the home directory.
pub fn packages_path(config: &Config, home: &str, on_macos: bool) -> (r: String)
    ensures
        on_macos ==> r@ == spec_expanded_path(config.darwin_packages_path@, home@),
        !on_macos ==> r@ == spec_expanded_path(config.linux_packages_path@, home@),
{
    if on_macos {
        get_expanded_path(config.darwin_packages_path.as_str(), home)
    } else {
        get_expanded_path(config.linux_packages_path.as_str(), home)
    }
}

/// The directory the git check runs in: the parent of the expanded Darwin
/// package-list path, or `None` when no parent can be determined.
pub fn git_config_dir(config: &Config, home: &str) -> (r: Option<String>)
    ensures
        r is Some <==> spec_parent_dir(
            spec_expanded_path(config.darwin_packages_path@, home@),
        ) is Some,
        r matches Some(p) ==> spec_parent_dir(
            spec_expanded_path(config.darwin_packages_path@, home@),
        ) == Some(p@),
{
    let darwin = get_expanded_path(config.darwin_packages_path.as_str(), home);
    parent_dir(darwin.as_str())
}

/// The parse-check verdicts of the package lists, in the order system
/// packages, Homebrew brews, Homebrew casks. `system` is the read-and-parse
/// outcome of the OS-appropriate Nix package list; `brews` and `casks`
/// those of the two arrays of the Homebrew list, consulted exactly on the
/// secondary backend's OS.
pub fn check_package_lists(
    system: &ArrayOutcome,
    brews: &ArrayOutcome,
    casks: &ArrayOutcome,
    on_macos: bool,
) -> (r: (ParseVerdict, Option<ParseVerdict>, Option<ParseVerdict>))
    ensures
        list_verdict_ok(r.0, *system),
        r.1 is Some <==> on_macos,
        r.2 is Some <==> on_macos,
        r.1 matches Some(b) ==> list_verdict_ok(b, *brews),
        r.2 matches Some(c) ==> list_verdict_ok(c, *casks),
{
    let system_packages = check_package_list(system);
    if on_macos {
        (system_packages, Some(check_package_list(brews)), Some(check_package_list(casks)))
    } else {
        (system_packages, None, None)
    }
}

/// The banner printed after the whole sequence has run. It is
/// unconditional: it reports completion of the sequence, not that every
/// check passed.
pub fn success_banner() -> (r: &'static str)
    ensures
        r@ == "Everything looks good! 🎉"@,
{
    "Everything looks good! 🎉"
}

/// Why a diagnostic run aborted instead of producing a report.
#[derive(Clone, Copy, Debug, PartialEq, Eq, Structural)]
pub enum DoctorError {
    /// The configuration directory could not be determined: the expanded
    /// Darwin package-list path has no parent directory.
    NoConfigDir,
}

/// Every verdict of one diagnostic run, in the order the checks run.
#[derive(Debug)]
pub struct DoctorReport {
    /// Existence of the Linux package-list path.
    pub linux_path: PathVerdict,
    /// Existence of the Darwin package-list path.
    pub darwin_path: PathVerdict,
    /// Existence of the Homebrew package-list path.
    pub homebrew_path: PathVerdict,
    /// Availability of `git`.
    pub git_command: CommandVerdict,
    /// Availability of `nix`.
    pub nix_command: CommandVerdict,
    /// Availability of `brew`.
    pub brew_command: CommandVerdict,
    /// Availability of `make`.
    pub make_command: CommandVerdict,
    /// State of the configuration git repository.
    pub git_repo: GitVerdict,
    /// Reachability of the Nix search backend.
    pub nix_search: SearchVerdict,
    /// Reachability of the Homebrew search backend, judged only on macOS.
    pub brew_search: Option<SearchVerdict>,
    /// Parse of the `environment.systemPackages` array.
    pub system_packages: ParseVerdict,
    /// Parse of the `homebrew.brews` array, judged only on macOS.
    pub brews: Option<ParseVerdict>,
    /// Parse of the `homebrew.casks` array, judged only on macOS.
    pub casks: Option<ParseVerdict>,
}

/// Runs the whole diagnostic sequence over the observed facts. The run
/// aborts — and that is the only way it aborts — exactly when the
/// configuration directory cannot be derived from the expanded Darwin
/// package-list path; otherwise every check contributes its verdict,
/// whatever the verdicts before it were.
pub fn check_doctor(config: &Config, home: &str, obs: &Observations) -> (r: Result<
    DoctorReport,
    DoctorError,
>)
    ensures
        r is Err <==> spec_parent_dir(
            spec_expanded_path(config.darwin_packages_path@, home@),
        ) is None,
        r matches Err(e) ==> e == DoctorError::NoConfigDir,
        r matches Ok(rep) ==> {
            &&& rep.linux_path == PathVerdict::Found <==> obs.linux_path_exists
            &&& rep.darwin_path == PathVerdict::Found <==> obs.darwin_path_exists
            &&& rep.homebrew_path == PathVerdict::Found <==> obs.homebrew_path_exists
            &&& rep.git_command == spec_command_verdict(obs.git_lookup)
            &&& rep.nix_command == spec_command_verdict(obs.nix_lookup)
            &&& rep.brew_command == spec_command_verdict(obs.brew_lookup)
            &&& rep.make_command == spec_command_verdict(obs.make_lookup)
            &&& rep.git_repo == spec_git_verdict(obs.git_status, obs.git_porcelain)
            &&& rep.nix_search == spec_search_verdict(obs.nix_search)
            &&& (rep.brew_search is Some <==> obs.on_macos)
            &&& (obs.on_macos ==> rep.brew_search == Some(spec_search_verdict(obs.brew_search)))
            &&& list_verdict_ok(rep.system_packages, obs.system_packages)
            &&& (rep.brews is Some <==> obs.on_macos)
            &&& (rep.casks is Some <==> obs.on_macos)
            &&& (rep.brews matches Some(b) ==> list_verdict_ok(b, obs.brews))
            &&& (rep.casks matches Some(c) ==> list_verdict_ok(c, obs.casks))
        },
{
    let (linux_path, darwin_path, homebrew_path) = check_config_paths(
        obs.linux_path_exists,
        obs.darwin_path_exists,
        obs.homebrew_path_exists,
    );
    let (git_command, nix_command, brew_command, make_command) = check_commands(
        obs.git_lookup,
        obs.nix_lookup,
        obs.brew_lookup,
        obs.make_lookup,
    );
    if git_config_dir(config, home).is_none() {
        return Err(DoctorError::NoConfigDir);
    }
    let git_repo = check_git_repo(obs.git_status, obs.git_porcelain);
    let (nix_search, brew_search) = check_search(obs.nix_search, obs.brew_search, obs.on_macos);
    let (system_packages, brews, casks) = check_package_lists(
        &obs.system_packages,
        &obs.brews,
        &obs.casks,
        obs.on_macos,
    );
    Ok(
        DoctorReport {
            linux_path,
            darwin_path,
            homebrew_path,
            git_command,
            nix_command,
            brew_command,
            make_command,
            git_repo,
            nix_search,
            brew_search,
            system_packages,
            brews,
            casks,
        },
    )
}

} // verus!
