//! Display-side text shaping: truncating a commit summary to a fixed width.

use vstd::prelude::*;

verus! {

/// What truncation means: a string over the limit keeps its first `n`
/// characters and gains a single ellipsis character; a string at or under
/// the limit passes through unchanged. Lengths count characters, not bytes.
pub open spec fn truncate_spec(s: Seq<char>, n: int) -> Seq<char> {
    if s.len() > n {
        s.take(n) + "…"@
    } else {
        s
    }
}

/// Truncate `s` to at most `n` characters, appending an ellipsis when
/// anything was cut.
pub fn truncate(s: &str, n: usize) -> (r: String)
    ensures
        r@ == truncate_spec(s@, n as int),
{
    let len = s.unicode_len();
    if len > n {
        let prefix = s.substring_char(0, n);
        let mut out = prefix.to_owned();
        out.append("…");
        proof {
            assert(out@ =~= truncate_spec(s@, n as int));
        }
        out
    } else {
        s.to_owned()
    }
}

} // verus!
