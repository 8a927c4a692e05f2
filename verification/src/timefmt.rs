//! Relative-time rendering: turning a commit timestamp and the present
//! moment into a phrase such as "3 minutes ago", at single-unit
//! granularity, with every delta under one minute collapsed to "Just now".

use vstd::prelude::*;

verus! {

/// The phrase the relative-time formatter produces for a delta of
/// `delta` seconds. The formatter is deterministic in its input, but its
/// full unit table is its own; only the facts stated on the wrapper below
/// are known of this function.
pub uninterp spec fn relative_phrase(delta: int) -> Seq<char>;

/// Relies on timeago::Formatter (English defaults, one item, minimum unit
/// minutes, "Just now" below that): the phrase depends on the delta alone,
/// and any delta under one minute yields exactly the configured
/// "Just now" string, since the formatter then emits no unit chunk at all.
#[verifier::external_body]
fn relative_phrase_of(delta: u64) -> (r: String)
    ensures
        r@ == relative_phrase(delta as int),
        delta < 60 ==> r@ == "Just now"@,
{
    let mut fmt = timeago::Formatter::new();
    fmt.num_items(1).min_unit(timeago::TimeUnit::Minutes).too_low("Just now");
    fmt.convert(std::time::Duration::from_secs(delta))
}

/// Relies on std::time::SystemTime::now, SystemTime::duration_since and
/// Duration::as_secs: the clock reading as whole seconds since the epoch,
/// or `None` when the clock stands before the epoch. Nothing can be
/// promised of a clock reading.
#[verifier::external_body]
fn clock_secs() -> Option<u64> {
    std::time::SystemTime::now().duration_since(std::time::UNIX_EPOCH).ok().map(|d| d.as_secs())
}

/// The current time in whole seconds since the epoch. Total: a clock set
/// before the epoch reads as the epoch itself, and one past the
/// representable range is clamped, so a strange clock can skew the phrase
/// but never fail the query.
pub(crate) fn now_seconds() -> i64 {
    match clock_secs() {
        Some(s) => {
            if s > i64::MAX as u64 {
                i64::MAX
            } else {
                s as i64
            }
        },
        None => 0,
    }
}

/// What `format_relative` returns: the formatter's phrase for the elapsed
/// seconds, or the fixed out-of-order marker when `timestamp` lies in the
/// future of `now`.
pub open spec fn relative_spec(timestamp: int, now: int) -> Seq<char> {
    if now >= timestamp {
        relative_phrase(now - timestamp)
    } else {
        "???"@
    }
}

/// Render the elapsed time from `timestamp` to `now` as a single
/// largest-unit phrase; any delta under one minute is "Just now", and a
/// timestamp in the future of `now` is marked "???".
pub fn format_relative(timestamp: i64, now: i64) -> (r: String)
    ensures
        r@ == relative_spec(timestamp as int, now as int),
        timestamp <= now && now - timestamp < 60 ==> r@ == "Just now"@,
{
    if now >= timestamp {
        let wide: i128 = now as i128 - timestamp as i128;
        assert(0 <= wide <= u64::MAX);
        let delta: u64 = wide as u64;
        relative_phrase_of(delta)
    } else {
        String::from_str("???")
    }
}

} // verus!
