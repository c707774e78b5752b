//! Whether a configured path holds a repository that the workflow can enter.

use crate::command::CommandResult;
use crate::config::{expand_tilde_in, expanded, home_text, ConfigError};
use crate::git::{check_status, status_of, GitError};
use crate::text::join;
use vstd::prelude::*;

verus! {

/// What was found at a repository's path.
#[derive(Debug, Clone, Copy, PartialEq, Eq, Structural)]
pub struct RepoProbe {
    /// The path exists.
    pub exists: bool,
    /// It holds a `.git` entry.
    pub has_git: bool,
}

/// Why a path cannot enter the workflow, or its status not be told.
#[derive(Debug, Clone, Copy, PartialEq, Eq, Structural)]
pub enum RepoError {
    /// Nothing exists at the path.
    PathMissing,
    /// The path holds no `.git` entry.
    NotARepository,
    /// `git status` did not give the status.
    Status(GitError),
}

/// Whether what was found at a path is a repository.
pub open spec fn probed(probe: RepoProbe) -> Result<(), RepoError> {
    if !probe.exists {
        Err(RepoError::PathMissing)
    } else if !probe.has_git {
        Err(RepoError::NotARepository)
    } else {
        Ok(())
    }
}

/// Whether the repository has changes, from what was found at its path and
/// what `git status --porcelain` gave there.
pub open spec fn repository_state(probe: RepoProbe, status: CommandResult) -> Result<
    bool,
    RepoError,
> {
    match probed(probe) {
        Err(e) => Err(e),
        Ok(_) => match status_of(status) {
            Ok(b) => Ok(b),
            Err(e) => Err(RepoError::Status(e)),
        },
    }
}

/// `path` with a leading `~/` replaced by `home`.
pub fn expand_path(path: &str, home: &Option<String>) -> (r: Result<String, ConfigError>)
    ensures
        match expanded(path@, home_text(*home)) {
            Some(p) => r matches Ok(s) && s@ == p,
            None => r == Err::<String, ConfigError>(ConfigError::NoHomeDirectory),
        },
{
    expand_tilde_in(path, home)
}

/// Whether what was found at a path is a repository: the path exists and
/// holds a `.git` entry.
pub fn validate_repository(probe: &RepoProbe) -> (r: Result<(), RepoError>)
    ensures
        r == probed(*probe),
{
    if !probe.exists {
        Err(RepoError::PathMissing)
    } else if !probe.has_git {
        Err(RepoError::NotARepository)
    } else {
        Ok(())
    }
}

/// Whether the repository has changes. A path that is no repository is an
/// error, whatever `git status` gave.
pub fn check_repository(probe: &RepoProbe, status: &CommandResult) -> (r: Result<bool, RepoError>)
    ensures
        r == repository_state(*probe, *status),
{
    match validate_repository(probe) {
        Err(e) => Err(e),
        Ok(_) => match check_status(status) {
            Ok(b) => Ok(b),
            Err(e) => Err(RepoError::Status(e)),
        },
    }
}

impl RepoError {
    /// The text of the error, for the repository at `path`.
    pub open spec fn text(self, path: Seq<char>) -> Seq<char> {
        match self {
            RepoError::PathMissing => "Repository path does not exist: "@ + path,
            RepoError::NotARepository => "Not a git repository: "@ + path,
            RepoError::Status(_) => "Failed to get git status for repository: "@ + path,
        }
    }

    /// The text of the error, for the repository at `path`.
    pub fn message(&self, path: &str) -> (m: String)
        ensures
            m@ == self.text(path@),
    {
        match self {
            RepoError::PathMissing => join("Repository path does not exist: ", path),
            RepoError::NotARepository => join("Not a git repository: ", path),
            RepoError::Status(_) => join("Failed to get git status for repository: ", path),
        }
    }
}

} // verus!
