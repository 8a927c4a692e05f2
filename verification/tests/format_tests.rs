use blam::textfmt::truncate;
use blam::timefmt::format_relative;

const NOW: i64 = 1_700_000_000;

#[test]
fn relative_just_now_under_a_minute() {
    assert_eq!(format_relative(NOW - 30, NOW), "Just now");
    assert_eq!(format_relative(NOW, NOW), "Just now");
    assert_eq!(format_relative(NOW - 59, NOW), "Just now");
}

#[test]
fn relative_three_minutes() {
    assert_eq!(format_relative(NOW - 180, NOW), "3 minutes ago");
}

#[test]
fn relative_two_days() {
    assert_eq!(format_relative(NOW - 86400 * 2, NOW), "2 days ago");
}

#[test]
fn relative_single_unit_only() {
    assert_eq!(format_relative(NOW - 60, NOW), "1 minute ago");
    assert_eq!(format_relative(NOW - 3600 * 5, NOW), "5 hours ago");
    // One magnitude unit, even when the delta is not a round count.
    assert_eq!(format_relative(NOW - (86400 * 2 + 3600 * 5), NOW), "2 days ago");
}

#[test]
fn relative_future_timestamp_is_marked() {
    assert_eq!(format_relative(NOW + 10, NOW), "???");
}

#[test]
fn truncate_long_summary_gets_ellipsis() {
    let forty = "a".repeat(40);
    let expected = format!("{}…", "a".repeat(30));
    assert_eq!(truncate(&forty, 30), expected);
}

#[test]
fn truncate_short_summary_unchanged() {
    let twenty = "b".repeat(20);
    assert_eq!(truncate(&twenty, 30), twenty);
}

#[test]
fn truncate_boundary() {
    let thirty = "c".repeat(30);
    assert_eq!(truncate(&thirty, 30), thirty);
    let thirty_one = "d".repeat(31);
    assert_eq!(truncate(&thirty_one, 30), format!("{}…", "d".repeat(30)));
}

#[test]
fn truncate_counts_characters_not_bytes() {
    // Four characters, each more than one byte long: under the limit.
    let s = "écrit";
    assert_eq!(truncate(s, 30), s);
    assert_eq!(truncate("héllo wörld", 4), "héll…");
}

#[test]
fn truncate_empty() {
    assert_eq!(truncate("", 30), "");
}
