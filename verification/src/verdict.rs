//! The verdicts the diagnostic checks hand back, and the status text each
//! one is rendered with. Every verdict of one check carries distinct text,
//! so the outcomes can be told apart in the printed report.

use vstd::prelude::*;

verus! {

/// Outcome of testing whether a configured package-list path exists.
#[derive(Clone, Copy, Debug, PartialEq, Eq, Structural)]
pub enum PathVerdict {
    /// The path exists on the filesystem.
    Found,
    /// The path does not exist.
    Missing,
}

/// Outcome of looking one required command up on the executable search path.
#[derive(Clone, Copy, Debug, PartialEq, Eq, Structural)]
pub enum CommandVerdict {
    /// The command resolved to an executable.
    Found,
    /// The lookup ran but did not resolve the command.
    NotFound,
    /// The lookup itself could not be run.
    CheckFailed,
}

/// Outcome of the git repository check: the validity of the repository and,
/// when it is valid, the state of its working tree.
#[derive(Clone, Copy, Debug, PartialEq, Eq, Structural)]
pub enum GitVerdict {
    /// The directory is a valid repository and the working tree is clean.
    RepoClean,
    /// The directory is a valid repository with uncommitted changes.
    RepoDirty,
    /// The directory is not a git repository.
    NotARepo,
    /// The repository status query itself could not be run.
    StatusFailed,
    /// The repository is valid but the uncommitted-changes query could not
    /// be run.
    ChangesFailed,
}

/// Outcome of smoke-testing one search backend.
#[derive(Clone, Copy, Debug, PartialEq, Eq, Structural)]
pub enum SearchVerdict {
    /// The backend ran the query and exited successfully.
    Success,
    /// The backend ran but signalled no results (exit failure).
    NoResults,
    /// The backend could not be executed at all.
    ExecFailed,
}

/// Outcome of reading and parsing one package-list file.
#[derive(Debug)]
pub enum ParseVerdict {
    /// The named array attribute was parsed; `count` is its number of
    /// entries.
    Parsed { count: usize },
    /// The file was read but the named array attribute could not be parsed
    /// out of it; `message` is the parser's error text.
    ParseFailed { message: String },
    /// The file could not be read; `message` is the underlying error text.
    ReadFailed { message: String },
}

/// The status text of a path verdict.
pub open spec fn spec_path_label(v: PathVerdict) -> Seq<char> {
    match v {
        PathVerdict::Found => "✓"@,
        PathVerdict::Missing => "⨯ File not found"@,
    }
}

impl PathVerdict {
    /// The status text this verdict is rendered with.
    pub fn label(&self) -> (r: &'static str)
        ensures
            r@ == spec_path_label(*self),
    {
        match self {
            PathVerdict::Found => "✓",
            PathVerdict::Missing => "⨯ File not found",
        }
    }
}

/// The status text of a command verdict.
pub open spec fn spec_command_label(v: CommandVerdict) -> Seq<char> {
    match v {
        CommandVerdict::Found => "✓"@,
        CommandVerdict::NotFound => "⨯ Not found"@,
        CommandVerdict::CheckFailed => "⨯ Failed to check"@,
    }
}

impl CommandVerdict {
    /// The status text this verdict is rendered with.
    pub fn label(&self) -> (r: &'static str)
        ensures
            r@ == spec_command_label(*self),
    {
        match self {
            CommandVerdict::Found => "✓",
            CommandVerdict::NotFound => "⨯ Not found",
            CommandVerdict::CheckFailed => "⨯ Failed to check",
        }
    }
}

/// The status text of the repository-status line of a git verdict.
pub open spec fn spec_git_status_label(v: GitVerdict) -> Seq<char> {
    match v {
        GitVerdict::RepoClean => "✓"@,
        GitVerdict::RepoDirty => "✓"@,
        GitVerdict::ChangesFailed => "✓"@,
        GitVerdict::NotARepo => "⨯ Not a git repository"@,
        GitVerdict::StatusFailed => "⨯ Failed to check git status"@,
    }
}

/// The status text of the uncommitted-changes line of a git verdict, present
/// exactly when the repository was found valid.
pub open spec fn spec_git_changes_label(v: GitVerdict) -> Option<Seq<char>> {
    match v {
        GitVerdict::RepoClean => Some("✓ Working directory clean"@),
        GitVerdict::RepoDirty => Some("! Uncommitted changes present"@),
        GitVerdict::ChangesFailed => Some("⨯ Failed to check"@),
        GitVerdict::NotARepo => None,
        GitVerdict::StatusFailed => None,
    }
}

impl GitVerdict {
    /// The status text of the repository-status line.
    pub fn status_label(&self) -> (r: &'static str)
        ensures
            r@ == spec_git_status_label(*self),
    {
        match self {
            GitVerdict::RepoClean => "✓",
            GitVerdict::RepoDirty => "✓",
            GitVerdict::ChangesFailed => "✓",
            GitVerdict::NotARepo => "⨯ Not a git repository",
            GitVerdict::StatusFailed => "⨯ Failed to check git status",
        }
    }

    /// The status text of the uncommitted-changes line, present exactly when
    /// the repository was found valid.
    pub fn changes_label(&self) -> (r: Option<&'static str>)
        ensures
            r is Some <==> spec_git_changes_label(*self) is Some,
            r matches Some(s) ==> spec_git_changes_label(*self) == Some(s@),
    {
        match self {
            GitVerdict::RepoClean => Some("✓ Working directory clean"),
            GitVerdict::RepoDirty => Some("! Uncommitted changes present"),
            GitVerdict::ChangesFailed => Some("⨯ Failed to check"),
            GitVerdict::NotARepo => None,
            GitVerdict::StatusFailed => None,
        }
    }
}

/// The status text of a search verdict.
pub open spec fn spec_search_label(v: SearchVerdict) -> Seq<char> {
    match v {
        SearchVerdict::Success => "✓"@,
        SearchVerdict::NoResults => "⨯ Search returned no results"@,
        SearchVerdict::ExecFailed => "⨯ Search failed"@,
    }
}

impl SearchVerdict {
    /// The status text this verdict is rendered with.
    pub fn label(&self) -> (r: &'static str)
        ensures
            r@ == spec_search_label(*self),
    {
        match self {
            SearchVerdict::Success => "✓",
            SearchVerdict::NoResults => "⨯ Search returned no results",
            SearchVerdict::ExecFailed => "⨯ Search failed",
        }
    }
}

/// The status text a parse verdict is rendered with, before the count or the
/// error text that the caller appends.
pub open spec fn spec_parse_label(v: ParseVerdict) -> Seq<char> {
    match v {
        ParseVerdict::Parsed { .. } => "✓"@,
        ParseVerdict::ParseFailed { .. } => "⨯ Failed to parse"@,
        ParseVerdict::ReadFailed { .. } => "⨯ Failed to read file"@,
    }
}

impl ParseVerdict {
    /// The status text this verdict is rendered with, before the count or
    /// the error text that the caller appends.
    pub fn label(&self) -> (r: &'static str)
        ensures
            r@ == spec_parse_label(*self),
    {
        match self {
            ParseVerdict::Parsed { .. } => "✓",
            ParseVerdict::ParseFailed { .. } => "⨯ Failed to parse",
            ParseVerdict::ReadFailed { .. } => "⨯ Failed to read file",
        }
    }
}

/// The two command verdicts that are not `Found`, and `Found` itself, all
/// carry distinct status text, so the report tells them apart.
pub proof fn lemma_command_labels_distinct(a: CommandVerdict, b: CommandVerdict)
    requires
        a != b,
    ensures
        spec_command_label(a) != spec_command_label(b),
{
    reveal_strlit("✓");
    reveal_strlit("⨯ Not found");
    reveal_strlit("⨯ Failed to check");
    assert("✓"@.len() == 1);
    assert("⨯ Not found"@.len() == 11);
    assert("⨯ Failed to check"@.len() == 17);
}

/// The three search verdicts carry distinct status text, so success, "no
/// results" and "execution error" can be told apart in the report.
pub proof fn lemma_search_labels_distinct(a: SearchVerdict, b: SearchVerdict)
    requires
        a != b,
    ensures
        spec_search_label(a) != spec_search_label(b),
{
    reveal_strlit("✓");
    reveal_strlit("⨯ Search returned no results");
    reveal_strlit("⨯ Search failed");
    assert("✓"@.len() == 1);
    assert("⨯ Search returned no results"@.len() == 28);
    assert("⨯ Search failed"@.len() == 15);
}

/// The five git verdicts are told apart by the pair of their two status
/// lines: no two verdicts render the same repository-status text together
/// with the same uncommitted-changes text.
pub proof fn lemma_git_labels_distinct(a: GitVerdict, b: GitVerdict)
    requires
        a != b,
    ensures
        spec_git_status_label(a) != spec_git_status_label(b) || spec_git_changes_label(a)
            != spec_git_changes_label(b),
{
    reveal_strlit("✓");
    reveal_strlit("⨯ Not a git repository");
    reveal_strlit("⨯ Failed to check git status");
    reveal_strlit("✓ Working directory clean");
    reveal_strlit("! Uncommitted changes present");
    reveal_strlit("⨯ Failed to check");
    assert("✓"@.len() == 1);
    assert("⨯ Not a git repository"@.len() == 22);
    assert("⨯ Failed to check git status"@.len() == 28);
    assert("✓ Working directory clean"@.len() == 25);
    assert("! Uncommitted changes present"@.len() == 29);
    assert("⨯ Failed to check"@.len() == 17);
}

} // verus!
