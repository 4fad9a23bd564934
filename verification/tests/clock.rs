use git_same::tui::clock::{clock_reading, read_clock};

#[test]
fn clock_reading_keeps_times_after_the_epoch() {
    let c = clock_reading(Some(1_700_000_000_123));
    assert_eq!(c.now_ms, 1_700_000_000_123);
    assert_eq!(c.now_rfc3339, "2023-11-14T22:13:20.123+00:00");
}

#[test]
fn clock_reading_before_the_epoch_reads_zero() {
    let c = clock_reading(None);
    assert_eq!(c.now_ms, 0);
    assert_eq!(c.now_rfc3339, "1970-01-01T00:00:00+00:00");
}

#[test]
fn clock_reading_beyond_chrono_has_no_text() {
    let c = clock_reading(Some(u64::MAX));
    assert_eq!(c.now_ms, u64::MAX);
    assert_eq!(c.now_rfc3339, "");
}

#[test]
fn read_clock_reads_a_time_after_2020() {
    let c = read_clock();
    assert!(c.now_ms > 1_577_836_800_000);
    assert!(c.now_rfc3339.contains('T'));
    assert!(c.now_rfc3339.ends_with("+00:00"));
}
