//! Line-blame annotation for a text editor: given a working directory, a
//! tracked file and a line number, find the commit that last touched that
//! line and render a one-line summary such as `You, 3 minutes ago • Fix bug`.
//!
//! The pipeline is: locate the enclosing repository, compute the per-line
//! blame, extract the final commit's signature and summary, decide whether
//! the committer is the locally configured user, format the commit time as a
//! relative phrase, and truncate the summary for display. Every internal
//! failure is collapsed to an empty annotation at the top-level entry point.

pub mod blame;
pub mod gitio;
pub mod identity;
pub mod model;
pub mod textfmt;
pub mod timefmt;

pub use model::{BlameError, BlameInfo};
