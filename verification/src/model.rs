//! The data carried through one blame query: the resolved authorship of a
//! line, and the kinds of failure the pipeline distinguishes.

use vstd::prelude::*;

verus! {

/// Authorship of one line: who last changed it, when, and why.
///
/// `timestamp` is always present (a commit always carries a time);
/// `name`, `email` and `message` may be absent or empty and the rest of the
/// pipeline must cope with that without failing the query.
#[derive(Clone, Debug)]
pub struct BlameInfo {
    /// Committer display name, absent if the signature lacks one.
    pub name: Option<String>,
    /// Committer email, absent if the signature lacks one.
    pub email: Option<String>,
    /// Commit time, in seconds since the epoch.
    pub timestamp: i64,
    /// First line (summary) of the commit message, empty if the commit
    /// has none.
    pub message: String,
}

/// The failure taxonomy of the blame pipeline. Each stage reports exactly
/// one of these kinds; the top-level entry point collapses them all to an
/// empty annotation.
#[derive(Clone, Copy, Debug, PartialEq, Eq, Structural)]
pub enum BlameError {
    /// No enclosing repository was found, or the file is not tracked.
    NotFound,
    /// The requested line number is outside the file's current line count.
    LineOutOfRange,
    /// The commit that the blame names could not be resolved.
    CommitResolutionError,
    /// The configuration store could not be opened.
    ConfigError,
}

} // verus!
