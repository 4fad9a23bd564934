use git_same::tui::format::{
    fmt_count_minus, fmt_count_plus, fmt_flag, format_duration_secs, format_last_synced, format_timestamp,
    relative_age,
};

#[test]
fn flags_and_counts() {
    assert_eq!(fmt_flag(true), "*");
    assert_eq!(fmt_flag(false), ".");
    assert_eq!(fmt_count_plus(3), "+3");
    assert_eq!(fmt_count_plus(0), ".");
    assert_eq!(fmt_count_minus(12), "-12");
    assert_eq!(fmt_count_minus(0), ".");
}

#[test]
fn durations() {
    assert_eq!(format_duration_secs(0), "0s");
    assert_eq!(format_duration_secs(59), "59s");
    assert_eq!(format_duration_secs(60), "1m0s");
    assert_eq!(format_duration_secs(125), "2m5s");
}

#[test]
fn relative_ages() {
    const MS: i128 = 1_000_000;
    assert_eq!(relative_age(-5_000 * MS), "just now");
    assert_eq!(relative_age(59_999 * MS), "just now");
    assert_eq!(relative_age(60_000 * MS - 1), "just now");
    assert_eq!(relative_age(60_000 * MS), "about 1 min ago");
    assert_eq!(relative_age(2 * 3_600_000 * MS + 5), "about 2h ago");
    assert_eq!(relative_age(3 * 86_400_000 * MS), "about 3d ago");
    assert_eq!(relative_age(30 * 86_400_000 * MS), "about 30d ago");
    assert_eq!(relative_age(61 * 86_400_000 * MS), "about 2mo ago");
}

#[test]
fn last_synced_labels() {
    let (label, abs) = format_last_synced(None, 0, 0);
    assert_eq!(label, "never");
    assert!(abs.is_none());

    // 2024-01-01T00:00:00Z is 1704067200 s after the epoch.
    let now = 1_704_067_200i64 + 3 * 3_600;
    let (label, abs) = format_last_synced(Some("2024-01-01T00:00:00+00:00"), now, 0);
    assert_eq!(label, "about 3h ago");
    assert_eq!(abs.as_deref(), Some("2024-01-01 00:00:00"));

    let (label, abs) = format_last_synced(Some("not a date"), now, 0);
    assert_eq!(label, "not a date");
    assert!(abs.is_none());
}

#[test]
fn timestamps() {
    let now = 1_704_067_200i64 + 10 * 60;
    assert_eq!(
        format_timestamp("2024-01-01T00:00:00+00:00", now, 0),
        "about 10 min ago at 2024-01-01 00:00:00"
    );
    assert_eq!(format_timestamp("garbage", now, 0), "garbage");
}

#[test]
fn ages_count_sub_millisecond_fractions() {
    // Synced 0.999999 s past the hour; seen 60.9999985 s past the hour: the
    // age is just under a minute, though the whole milliseconds differ by 60000.
    let now = 1_704_067_200i64 + 60;
    let (label, _) = format_last_synced(Some("2024-01-01T00:00:00.999999+00:00"), now, 999_998_500);
    assert_eq!(label, "just now");
    let (label, _) = format_last_synced(Some("2024-01-01T00:00:00.999999+00:00"), now + 1, 0);
    assert_eq!(label, "about 1 min ago");
}
