use nix_doctor::checks::{
    brew_search_args, check_commands, check_config_paths, check_doctor, check_git_repo,
    check_package_lists, check_search, command_verdict, git_config_dir, nix_search_args,
    packages_path, path_verdict, required_commands, search_verdict, smoke_test_query,
    success_banner, DoctorError,
};
use nix_doctor::config::{get_expanded_path, parent_dir, Config};
use nix_doctor::observe::{ArrayOutcome, CommandOutcome, LookupOutcome, Observations};
use nix_doctor::packages::{brews_attr, casks_attr, check_package_list, system_packages_attr};
use nix_doctor::verdict::{
    CommandVerdict, GitVerdict, ParseVerdict, PathVerdict, SearchVerdict,
};

/// Reads an array attribute with the real configuration parser, as the
/// program does before handing the outcome to the library.
fn parse_outcome(text: &str, attr: &str) -> ArrayOutcome {
    match nix_editor::read::getarrvals(text, attr) {
        Ok(values) => ArrayOutcome::Values { values },
        Err(e) => ArrayOutcome::ParseError { message: e.to_string() },
    }
}

fn config(linux: &str, darwin: &str, homebrew: &str) -> Config {
    Config {
        linux_packages_path: String::from(linux),
        darwin_packages_path: String::from(darwin),
        homebrew_packages_path: String::from(homebrew),
    }
}

const NIX_LIST: &str =
    "{\n  environment.systemPackages = [\n    pkgs.git\n    pkgs.vim\n    pkgs.htop\n    pkgs.curl\n    pkgs.wget\n  ];\n}\n";

const BREW_LIST: &str =
    "{\n  homebrew.brews = [ \"wget\" \"curl\" \"htop\" ];\n  homebrew.casks = [ \"firefox\" \"alacritty\" ];\n}\n";

#[test]
fn expand_replaces_home_prefix() {
    let r = get_expanded_path("~/cfg/flake.nix", "/home/u");
    assert_eq!(r, "/home/u/cfg/flake.nix");
}

#[test]
fn expand_tilde_alone_is_home() {
    let r = get_expanded_path("~", "/home/u");
    assert_eq!(r, "/home/u");
}

#[test]
fn expand_leaves_other_paths_alone() {
    assert_eq!(get_expanded_path("/etc/nixos/x.nix", "/home/u"), "/etc/nixos/x.nix");
    assert_eq!(get_expanded_path("a~/b", "/home/u"), "a~/b");
    assert_eq!(get_expanded_path("~x", "/home/u"), "~x");
    assert_eq!(get_expanded_path("", "/home/u"), "");
}

#[test]
fn parent_of_nested_path() {
    assert_eq!(parent_dir("/etc/nixos/darwin.nix"), Some(String::from("/etc/nixos")));
}

#[test]
fn parent_of_top_level_path_is_root() {
    assert_eq!(parent_dir("/darwin.nix"), Some(String::from("/")));
}

#[test]
fn parent_of_relative_name_is_none() {
    assert_eq!(parent_dir("darwin.nix"), None);
    assert_eq!(parent_dir(""), None);
}

#[test]
fn parent_of_root_is_none() {
    assert_eq!(parent_dir("/"), None);
}

#[test]
fn parent_strips_trailing_slashes() {
    assert_eq!(parent_dir("/a/b/"), Some(String::from("/a")));
    assert_eq!(parent_dir("/home/u//"), Some(String::from("/home")));
    assert_eq!(parent_dir("x/"), None);
}

#[test]
fn path_verdict_matches_existence() {
    assert_eq!(path_verdict(true), PathVerdict::Found);
    assert_eq!(path_verdict(false), PathVerdict::Missing);
    let r = check_config_paths(true, false, true);
    assert_eq!(r.0, PathVerdict::Found);
    assert_eq!(r.1, PathVerdict::Missing);
    assert_eq!(r.2, PathVerdict::Found);
}

#[test]
fn path_labels() {
    assert_eq!(PathVerdict::Found.label(), "✓");
    assert_eq!(PathVerdict::Missing.label(), "⨯ File not found");
}

#[test]
fn command_verdict_found_iff_resolved() {
    assert_eq!(command_verdict(LookupOutcome::Resolved), CommandVerdict::Found);
    assert_eq!(command_verdict(LookupOutcome::Unresolved), CommandVerdict::NotFound);
    assert_eq!(command_verdict(LookupOutcome::LookupFailed), CommandVerdict::CheckFailed);
    let r = check_commands(
        LookupOutcome::Resolved,
        LookupOutcome::Unresolved,
        LookupOutcome::LookupFailed,
        LookupOutcome::Resolved,
    );
    assert_eq!(r.0, CommandVerdict::Found);
    assert_eq!(r.1, CommandVerdict::NotFound);
    assert_eq!(r.2, CommandVerdict::CheckFailed);
    assert_eq!(r.3, CommandVerdict::Found);
}

#[test]
fn command_labels_distinct() {
    assert_eq!(CommandVerdict::Found.label(), "✓");
    assert_eq!(CommandVerdict::NotFound.label(), "⨯ Not found");
    assert_eq!(CommandVerdict::CheckFailed.label(), "⨯ Failed to check");
}

#[test]
fn required_commands_table() {
    let r = required_commands();
    assert_eq!(r.len(), 4);
    assert_eq!(r[0], ("git", "Required for version control"));
    assert_eq!(r[1], ("nix", "Required for package management"));
    assert_eq!(r[2], ("brew", "Required for Homebrew package management (macOS only)"));
    assert_eq!(r[3], ("make", "Required for running installation commands"));
}

fn exited(success: bool, stdout_empty: bool) -> CommandOutcome {
    CommandOutcome::Exited { success, stdout_empty }
}

#[test]
fn git_clean_repo_is_pass_pass() {
    let v = check_git_repo(exited(true, false), exited(true, true));
    assert_eq!(v, GitVerdict::RepoClean);
    assert_eq!(v.status_label(), "✓");
    assert_eq!(v.changes_label(), Some("✓ Working directory clean"));
}

#[test]
fn git_dirty_repo_is_pass_warn() {
    let v = check_git_repo(exited(true, false), exited(true, false));
    assert_eq!(v, GitVerdict::RepoDirty);
    assert_eq!(v.status_label(), "✓");
    assert_eq!(v.changes_label(), Some("! Uncommitted changes present"));
}

#[test]
fn git_non_repo_is_fail() {
    let v = check_git_repo(exited(false, false), exited(true, true));
    assert_eq!(v, GitVerdict::NotARepo);
    assert_eq!(v.status_label(), "⨯ Not a git repository");
    assert_eq!(v.changes_label(), None);
}

#[test]
fn git_unrunnable_status_is_failed_to_check() {
    let v = check_git_repo(CommandOutcome::SpawnFailed, exited(true, true));
    assert_eq!(v, GitVerdict::StatusFailed);
    assert_eq!(v.status_label(), "⨯ Failed to check git status");
    assert_eq!(v.changes_label(), None);
}

#[test]
fn git_unrunnable_porcelain_is_distinct() {
    let v = check_git_repo(exited(true, false), CommandOutcome::SpawnFailed);
    assert_eq!(v, GitVerdict::ChangesFailed);
    assert_eq!(v.status_label(), "✓");
    assert_eq!(v.changes_label(), Some("⨯ Failed to check"));
}

#[test]
fn search_verdicts_three_way() {
    assert_eq!(search_verdict(exited(true, false)), SearchVerdict::Success);
    assert_eq!(search_verdict(exited(false, true)), SearchVerdict::NoResults);
    assert_eq!(search_verdict(CommandOutcome::SpawnFailed), SearchVerdict::ExecFailed);
}

#[test]
fn search_labels_distinct() {
    let success = SearchVerdict::Success.label();
    let no_results = SearchVerdict::NoResults.label();
    let exec_failed = SearchVerdict::ExecFailed.label();
    assert_eq!(success, "✓");
    assert_eq!(no_results, "⨯ Search returned no results");
    assert_eq!(exec_failed, "⨯ Search failed");
    assert_ne!(success, no_results);
    assert_ne!(success, exec_failed);
    assert_ne!(no_results, exec_failed);
}

#[test]
fn search_checks_brew_only_on_macos() {
    let r = check_search(exited(true, true), exited(false, true), false);
    assert_eq!(r.0, SearchVerdict::Success);
    assert_eq!(r.1, None);
    let r = check_search(exited(true, true), exited(false, true), true);
    assert_eq!(r.0, SearchVerdict::Success);
    assert_eq!(r.1, Some(SearchVerdict::NoResults));
}

#[test]
fn search_argument_lists() {
    assert_eq!(smoke_test_query(), "git");
    let args = nix_search_args("git");
    assert_eq!(
        args,
        vec![
            "--extra-experimental-features",
            "nix-command",
            "--extra-experimental-features",
            "flakes",
            "search",
            "nixpkgs",
            "git",
            "--json",
        ]
    );
    assert_eq!(brew_search_args("git"), vec!["search", "git"]);
}

#[test]
fn attribute_names() {
    assert_eq!(system_packages_attr(), "environment.systemPackages");
    assert_eq!(brews_attr(), "homebrew.brews");
    assert_eq!(casks_attr(), "homebrew.casks");
}

#[test]
fn parse_reports_exact_count() {
    let v = check_package_list(&parse_outcome(NIX_LIST, system_packages_attr()));
    assert!(matches!(v, ParseVerdict::Parsed { count: 5 }));
    let v = check_package_list(&parse_outcome(
        "{ environment.systemPackages = [ ]; }",
        system_packages_attr(),
    ));
    assert!(matches!(v, ParseVerdict::Parsed { count: 0 }));
}

#[test]
fn parse_with_statement_counts_entries() {
    let content = "{\n  environment.systemPackages = with pkgs; [ git vim ];\n}\n";
    let v = check_package_list(&parse_outcome(content, system_packages_attr()));
    assert!(matches!(v, ParseVerdict::Parsed { count: 2 }));
}

#[test]
fn parse_failure_fires_error_branch() {
    let v = check_package_list(&parse_outcome("this is not nix", system_packages_attr()));
    assert_eq!(v.label(), "⨯ Failed to parse");
    match v {
        ParseVerdict::ParseFailed { message } => assert_eq!(message, "Error while parsing"),
        other => panic!("expected a parse failure, got {:?}", other),
    }
    let v = check_package_list(&parse_outcome("{ }", system_packages_attr()));
    match v {
        ParseVerdict::ParseFailed { message } => assert_eq!(message, "No attributes"),
        other => panic!("expected a parse failure, got {:?}", other),
    }
}

#[test]
fn read_failure_keeps_error_text() {
    let v = check_package_list(&ArrayOutcome::ReadError {
        message: String::from("No such file or directory"),
    });
    match v {
        ParseVerdict::ReadFailed { message } => {
            assert_eq!(message, "No such file or directory");
        }
        other => panic!("expected a read failure, got {:?}", other),
    }
}

#[test]
fn parse_is_idempotent() {
    let first = check_package_list(&parse_outcome(NIX_LIST, system_packages_attr()));
    let second = check_package_list(&parse_outcome(NIX_LIST, system_packages_attr()));
    match (first, second) {
        (ParseVerdict::Parsed { count: c1 }, ParseVerdict::Parsed { count: c2 }) => {
            assert_eq!(c1, 5);
            assert_eq!(c2, 5);
        }
        _ => panic!("expected both runs to parse"),
    }
}

#[test]
fn package_lists_brew_only_on_macos() {
    let system = parse_outcome(NIX_LIST, system_packages_attr());
    let brews = parse_outcome(BREW_LIST, brews_attr());
    let casks = parse_outcome(BREW_LIST, casks_attr());
    let r = check_package_lists(&system, &brews, &casks, false);
    assert!(matches!(r.0, ParseVerdict::Parsed { count: 5 }));
    assert!(r.1.is_none());
    assert!(r.2.is_none());
    let r = check_package_lists(&system, &brews, &casks, true);
    assert!(matches!(r.0, ParseVerdict::Parsed { count: 5 }));
    assert!(matches!(r.1, Some(ParseVerdict::Parsed { count: 3 })));
    assert!(matches!(r.2, Some(ParseVerdict::Parsed { count: 2 })));
}

#[test]
fn packages_path_follows_os() {
    let cfg = config("~/linux.nix", "~/darwin.nix", "~/homebrew.nix");
    assert_eq!(packages_path(&cfg, "/home/u", true), "/home/u/darwin.nix");
    assert_eq!(packages_path(&cfg, "/home/u", false), "/home/u/linux.nix");
}

#[test]
fn git_config_dir_is_darwin_parent() {
    let cfg = config("~/cfg/linux.nix", "~/cfg/darwin.nix", "~/cfg/homebrew.nix");
    assert_eq!(git_config_dir(&cfg, "/home/u"), Some(String::from("/home/u/cfg")));
    let bare = config("linux.nix", "darwin.nix", "homebrew.nix");
    assert_eq!(git_config_dir(&bare, "/home/u"), None);
}

fn happy_observations(on_macos: bool) -> Observations {
    Observations {
        linux_path_exists: true,
        darwin_path_exists: true,
        homebrew_path_exists: true,
        git_lookup: LookupOutcome::Resolved,
        nix_lookup: LookupOutcome::Resolved,
        brew_lookup: LookupOutcome::Resolved,
        make_lookup: LookupOutcome::Resolved,
        git_status: exited(true, false),
        git_porcelain: exited(true, true),
        nix_search: exited(true, false),
        brew_search: exited(true, false),
        system_packages: parse_outcome(NIX_LIST, system_packages_attr()),
        brews: parse_outcome(BREW_LIST, brews_attr()),
        casks: parse_outcome(BREW_LIST, casks_attr()),
        on_macos,
    }
}

#[test]
fn end_to_end_healthy_macos_run() {
    let cfg = config("~/cfg/linux.nix", "~/cfg/darwin.nix", "~/cfg/homebrew.nix");
    let report = check_doctor(&cfg, "/home/u", &happy_observations(true)).unwrap();
    assert_eq!(report.linux_path, PathVerdict::Found);
    assert_eq!(report.darwin_path, PathVerdict::Found);
    assert_eq!(report.homebrew_path, PathVerdict::Found);
    assert_eq!(report.git_command, CommandVerdict::Found);
    assert_eq!(report.nix_command, CommandVerdict::Found);
    assert_eq!(report.brew_command, CommandVerdict::Found);
    assert_eq!(report.make_command, CommandVerdict::Found);
    assert_eq!(report.git_repo, GitVerdict::RepoClean);
    assert_eq!(report.nix_search, SearchVerdict::Success);
    assert_eq!(report.brew_search, Some(SearchVerdict::Success));
    assert!(matches!(report.system_packages, ParseVerdict::Parsed { count: 5 }));
    assert!(matches!(report.brews, Some(ParseVerdict::Parsed { count: 3 })));
    assert!(matches!(report.casks, Some(ParseVerdict::Parsed { count: 2 })));
    assert_eq!(success_banner(), "Everything looks good! 🎉");
}

#[test]
fn end_to_end_linux_run_skips_homebrew() {
    let cfg = config("~/cfg/linux.nix", "~/cfg/darwin.nix", "~/cfg/homebrew.nix");
    let report = check_doctor(&cfg, "/home/u", &happy_observations(false)).unwrap();
    assert_eq!(report.brew_search, None);
    assert!(report.brews.is_none());
    assert!(report.casks.is_none());
    assert!(matches!(report.system_packages, ParseVerdict::Parsed { count: 5 }));
}

#[test]
fn doctor_aborts_when_config_dir_underivable() {
    let cfg = config("linux.nix", "darwin.nix", "homebrew.nix");
    let r = check_doctor(&cfg, "/home/u", &happy_observations(true));
    assert_eq!(r.unwrap_err(), DoctorError::NoConfigDir);
}

#[test]
fn doctor_reports_failures_without_aborting() {
    let cfg = config("~/cfg/linux.nix", "~/cfg/darwin.nix", "~/cfg/homebrew.nix");
    let mut obs = happy_observations(true);
    obs.linux_path_exists = false;
    obs.brew_lookup = LookupOutcome::Unresolved;
    obs.git_status = exited(false, false);
    obs.nix_search = exited(false, true);
    obs.system_packages = ArrayOutcome::ReadError { message: String::from("permission denied") };
    let report = check_doctor(&cfg, "/home/u", &obs).unwrap();
    assert_eq!(report.linux_path, PathVerdict::Missing);
    assert_eq!(report.darwin_path, PathVerdict::Found);
    assert_eq!(report.brew_command, CommandVerdict::NotFound);
    assert_eq!(report.git_repo, GitVerdict::NotARepo);
    assert_eq!(report.nix_search, SearchVerdict::NoResults);
    assert!(matches!(report.system_packages, ParseVerdict::ReadFailed { .. }));
}
