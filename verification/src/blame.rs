//! The blame pipeline: locate the repository, resolve one line to its last
//! commit, and render the annotation. The top-level entry point never
//! fails: every internal error becomes an empty annotation.

use vstd::prelude::*;
use crate::gitio;
use crate::identity;
use crate::model::{BlameError, BlameInfo};
use crate::textfmt;
use crate::timefmt;

verus! {

/// The fixed display width a commit summary is truncated to.
pub const SUMMARY_WIDTH: usize = 30;

/// Discover the repository enclosing `starting_directory`, walking upward
/// through ancestor directories; every failure is `NotFound`.
pub fn discover(starting_directory: &str) -> (r: Result<git2::Repository, BlameError>)
    ensures
        r matches Err(e) ==> e == BlameError::NotFound,
{
    match gitio::repo_discover(starting_directory) {
        Ok(repo) => Ok(repo),
        Err(_) => Err(BlameError::NotFound),
    }
}

/// Map one fallible pipeline stage to the library's taxonomy: a stage
/// that failed reports `kind`, whatever the underlying cause; a stage
/// that succeeded hands its value through unchanged.
pub fn found_or<T>(stage: Result<T, git2::Error>, kind: BlameError) -> (r: Result<T, BlameError>)
    ensures
        stage is Ok <==> r is Ok,
        r matches Err(e) ==> e == kind,
        stage matches Ok(v) ==> r == Ok::<T, BlameError>(v),
{
    match stage {
        Ok(v) => Ok(v),
        Err(_) => Err(kind),
    }
}

/// Map one pipeline stage that yields an optional value to the library's
/// taxonomy: an absent value reports `kind`, a present one is handed
/// through unchanged.
pub fn present_or<T>(stage: Option<T>, kind: BlameError) -> (r: Result<T, BlameError>)
    ensures
        stage is Some <==> r is Ok,
        r matches Err(e) ==> e == kind,
        stage matches Some(v) ==> r == Ok::<T, BlameError>(v),
{
    match stage {
        Some(v) => Ok(v),
        None => Err(kind),
    }
}

/// The display text of an optional commit summary: the summary itself, or
/// the empty string when the commit has none.
pub open spec fn summary_text(summary: Option<String>) -> Seq<char> {
    match summary {
        Some(m) => m@,
        None => Seq::<char>::empty(),
    }
}

/// Assemble resolved authorship from the extracted parts. An absent name,
/// email or summary never fails the query: the optional fields are kept
/// as they are and a missing summary becomes the empty string; only the
/// timestamp is mandatory.
pub fn assemble_info(
    name: Option<String>,
    email: Option<String>,
    timestamp: i64,
    summary: Option<String>,
) -> (r: BlameInfo)
    ensures
        r.name == name,
        r.email == email,
        r.timestamp == timestamp,
        r.message@ == summary_text(summary),
{
    let message = match summary {
        Some(m) => m,
        None => String::new(),
    };
    BlameInfo { name, email, timestamp, message }
}

/// Resolve one line of `file` (1-based, the editor's convention) to the
/// authorship of the most recent commit that touched it.
///
/// The error says which stage failed: `LineOutOfRange` when the line is
/// zero or the blame has no hunk covering it, `NotFound` when the file
/// has no blame at all (untracked), `CommitResolutionError` when the
/// commit the hunk names cannot be resolved. `ConfigError` never arises
/// here. Each stage's mapping, and the assembly of the result from the
/// extracted parts, stands in the contracted helpers above.
pub fn blame_line(repo: &git2::Repository, file: &str, line: usize) -> (r: Result<
    BlameInfo,
    BlameError,
>)
    ensures
        r matches Err(e) ==> (e == BlameError::NotFound || e == BlameError::LineOutOfRange
            || e == BlameError::CommitResolutionError),
        line == 0 ==> r == Err::<BlameInfo, BlameError>(BlameError::LineOutOfRange),
{
    if line == 0 {
        // Line numbers are 1-based: zero is out of range for every file.
        return Err(BlameError::LineOutOfRange);
    }
    let blame = match found_or(gitio::repo_blame_file(repo, file), BlameError::NotFound) {
        Ok(b) => b,
        Err(e) => {
            return Err(e);
        },
    };
    let hunk = match present_or(gitio::blame_hunk_at_line(&blame, line), BlameError::LineOutOfRange) {
        Ok(h) => h,
        Err(e) => {
            return Err(e);
        },
    };
    let name = gitio::hunk_committer_name(&hunk);
    let email = gitio::hunk_committer_email(&hunk);
    let oid = gitio::hunk_final_commit_id(&hunk);
    let commit = match found_or(gitio::repo_find_commit(repo, oid), BlameError::CommitResolutionError) {
        Ok(c) => c,
        Err(e) => {
            return Err(e);
        },
    };
    let timestamp = gitio::commit_time_seconds(&commit);
    Ok(assemble_info(name, email, timestamp, gitio::commit_summary(&commit)))
}

/// The display name an annotation leads with: "You" for the local user,
/// otherwise the committer's name, or "Unknown" when the signature has
/// none.
pub open spec fn display_name_spec(name: Option<Seq<char>>, is_user: bool) -> Seq<char> {
    if is_user {
        "You"@
    } else {
        match name {
            Some(n) => n,
            None => "Unknown"@,
        }
    }
}

/// The rendered annotation for resolved authorship `info` at moment `now`,
/// with `user_check` the outcome of the identity lookup: the display name,
/// the relative time, and the truncated summary, joined as
/// `"{name}, {time} • {summary}"`. A failed identity lookup counts as
/// "not the local user", so the name is still shown.
pub open spec fn annotate_spec(
    info: BlameInfo,
    now: int,
    user_check: Result<bool, BlameError>,
) -> Seq<char> {
    display_name_spec(identity::view_opt(info.name), user_check == Ok::<bool, BlameError>(true))
        + ", "@ + timefmt::relative_spec(info.timestamp as int, now) + " • "@
        + textfmt::truncate_spec(info.message@, SUMMARY_WIDTH as int)
}

/// Render the annotation for resolved authorship `info` at moment `now`,
/// given the outcome `user_check` of the identity lookup.
pub fn annotate(info: &BlameInfo, now: i64, user_check: &Result<bool, BlameError>) -> (r: String)
    ensures
        r@ == annotate_spec(*info, now as int, *user_check),
{
    let is_user = match user_check {
        Ok(b) => *b,
        Err(_) => false,
    };
    let time_phrase = timefmt::format_relative(info.timestamp, now);
    let summary = textfmt::truncate(info.message.as_str(), SUMMARY_WIDTH);
    let mut out: String = if is_user {
        String::from_str("You")
    } else {
        match &info.name {
            Some(n) => n.clone(),
            None => String::from_str("Unknown"),
        }
    };
    out.append(", ");
    out.append(time_phrase.as_str());
    out.append(" • ");
    out.append(summary.as_str());
    proof {
        assert(out@ =~= annotate_spec(*info, now as int, *user_check));
    }
    out
}

/// The fallible pipeline behind the orchestrator: resolve and render one
/// line's annotation, reporting the stage that failed. A failed identity
/// lookup is not a pipeline failure: it falls back to showing the
/// committer's name, so `ConfigError` never escapes here.
pub fn annotated_line(cwd: &str, file: &str, line: usize) -> (r: Result<String, BlameError>)
    ensures
        r matches Err(e) ==> (e == BlameError::NotFound || e == BlameError::LineOutOfRange
            || e == BlameError::CommitResolutionError),
        r matches Ok(s) ==> exists|info: BlameInfo, now: int, user: Result<bool, BlameError>| s@
            == annotate_spec(info, now, user),
{
    let repo = match discover(cwd) {
        Ok(repo) => repo,
        Err(e) => {
            return Err(e);
        },
    };
    let info = match blame_line(&repo, file, line) {
        Ok(info) => info,
        Err(e) => {
            return Err(e);
        },
    };
    let now = timefmt::now_seconds();
    let user_check = identity::is_local_user(&repo, &info.name, &info.email);
    let out = annotate(&info, now, &user_check);
    proof {
        assert(out@ == annotate_spec(info, now as int, user_check));
    }
    Ok(out)
}

/// Collapse a fallible pipeline outcome to its fallback value: a
/// successful annotation passes through unchanged, and every error kind
/// becomes the empty string.
pub fn or_empty(outcome: Result<String, BlameError>) -> (r: String)
    ensures
        outcome matches Ok(s) ==> r == s,
        outcome is Err ==> r@ == Seq::<char>::empty(),
{
    match outcome {
        Ok(s) => s,
        Err(_) => String::new(),
    }
}

/// Answer one blame query: who last changed `line` of `file`, when, and
/// why, starting repository discovery from `cwd`. This entry point never
/// fails: any internal error — no repository, untracked file, line out of
/// range, unresolvable commit — yields an empty string through
/// `or_empty`, and a failed identity lookup merely falls back to showing
/// the committer's name.
pub fn peek_blame(cwd: &str, file: &str, line: usize) -> (r: String)
    ensures
        r@.len() > 0 ==> exists|info: BlameInfo, now: int, user: Result<bool, BlameError>| r@
            == annotate_spec(info, now, user),
{
    or_empty(annotated_line(cwd, file, line))
}

} // verus!
