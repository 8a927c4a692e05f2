//! The trusted boundary around the version-control library: type
//! declarations for its opaque handles and one thin wrapper per call the
//! pipeline makes. Everything a repository returns depends on what is on
//! disk, so the wrappers promise nothing about those values; the verified
//! pipeline takes them as arguments and states what it does for every
//! possible outcome.

use vstd::prelude::*;

verus! {

#[verifier::external_type_specification]
#[verifier::external_body]
pub struct ExGitError(git2::Error);

#[verifier::external_type_specification]
#[verifier::external_body]
pub struct ExRepository(git2::Repository);

#[verifier::external_type_specification]
#[verifier::external_body]
pub struct ExBlame<'a>(git2::Blame<'a>);

#[verifier::external_type_specification]
#[verifier::external_body]
pub struct ExBlameHunk<'a>(git2::BlameHunk<'a>);

#[verifier::external_type_specification]
#[verifier::external_body]
pub struct ExCommit<'a>(git2::Commit<'a>);

#[verifier::external_type_specification]
#[verifier::external_body]
pub struct ExOid(git2::Oid);

#[verifier::external_type_specification]
#[verifier::external_body]
pub struct ExConfig(git2::Config);

/// Relies on git2::Repository::discover: walks upward from `path` through
/// ancestor directories and opens the first repository found, or fails.
#[verifier::external_body]
pub(crate) fn repo_discover(path: &str) -> Result<git2::Repository, git2::Error> {
    git2::Repository::discover(std::path::Path::new(path))
}

/// Relies on git2::Repository::blame_file: computes the per-line blame of
/// `file` (a path relative to the repository root) with default options,
/// or fails when the file is not tracked.
#[verifier::external_body]
pub(crate) fn repo_blame_file<'a>(repo: &'a git2::Repository, file: &str) -> Result<
    git2::Blame<'a>,
    git2::Error,
> {
    repo.blame_file(std::path::Path::new(file), None)
}

/// Relies on git2::Blame::get_line: hands back the hunk covering the given
/// 1-based line number, or `None` when the line is out of range.
#[verifier::external_body]
pub(crate) fn blame_hunk_at_line<'a, 'b>(blame: &'a git2::Blame<'b>, line: usize) -> Option<
    git2::BlameHunk<'a>,
> {
    blame.get_line(line)
}

/// Relies on git2::BlameHunk::final_commit_id: the id of the most recent
/// commit that touched this hunk.
#[verifier::external_body]
pub(crate) fn hunk_final_commit_id<'a, 'b>(hunk: &'a git2::BlameHunk<'b>) -> git2::Oid {
    hunk.final_commit_id()
}

/// Relies on git2::BlameHunk::final_signature and git2::Signature::name:
/// the display name of the final commit's signature, absent when the hunk
/// carries no signature or the name is not valid UTF-8.
#[verifier::external_body]
pub(crate) fn hunk_committer_name<'a, 'b>(hunk: &'a git2::BlameHunk<'b>) -> Option<String> {
    hunk.final_signature().and_then(|s| s.name().ok().map(|n| n.to_owned()))
}

/// Relies on git2::BlameHunk::final_signature and git2::Signature::email:
/// the email of the final commit's signature, absent when the hunk carries
/// no signature or the email is not valid UTF-8.
#[verifier::external_body]
pub(crate) fn hunk_committer_email<'a, 'b>(hunk: &'a git2::BlameHunk<'b>) -> Option<String> {
    hunk.final_signature().and_then(|s| s.email().ok().map(|e| e.to_owned()))
}

/// Relies on git2::Repository::find_commit: resolves a commit id to the
/// commit object, or fails when the history is incomplete or corrupted.
#[verifier::external_body]
pub(crate) fn repo_find_commit<'a>(repo: &'a git2::Repository, oid: git2::Oid) -> Result<
    git2::Commit<'a>,
    git2::Error,
> {
    repo.find_commit(oid)
}

/// Relies on git2::Commit::time and git2::Time::seconds: the commit time in
/// seconds since the epoch.
#[verifier::external_body]
pub(crate) fn commit_time_seconds<'a, 'b>(commit: &'a git2::Commit<'b>) -> i64 {
    commit.time().seconds()
}

/// Relies on git2::Commit::summary: the first paragraph of the commit
/// message with whitespace trimmed and squashed, absent when the commit has
/// no summary or it is not valid UTF-8.
#[verifier::external_body]
pub(crate) fn commit_summary<'a, 'b>(commit: &'a git2::Commit<'b>) -> Option<String> {
    commit.summary().ok().flatten().map(|s| s.to_owned())
}

/// Relies on git2::Repository::config: opens the effective, merged
/// configuration as seen from this repository (repository-local over
/// global and system scopes), or fails when the configuration store
/// cannot be opened.
#[verifier::external_body]
pub(crate) fn repo_config(repo: &git2::Repository) -> Result<git2::Config, git2::Error> {
    repo.config()
}

/// Relies on git2::Config::get_string: looks the key up in the merged
/// configuration, or fails when the key is unset or unreadable.
#[verifier::external_body]
pub(crate) fn config_get_string(config: &git2::Config, key: &str) -> Result<String, git2::Error> {
    config.get_string(key)
}

} // verus!
