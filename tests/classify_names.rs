use screenshot_renamer::classify::{classify, rename_for_local_time, RenameDecision};
use screenshot_renamer::datetime::{format_timestamp, unix_time, LocalDateTime, UnixTime};

fn no_mtime() -> Result<UnixTime, String> {
    panic!("the modification time must not be read for this name")
}

fn renamed(s: &str) -> RenameDecision {
    RenameDecision::Rename(s.to_string())
}

#[test]
fn current_tool_name_keeps_its_timestamp() {
    let r = classify("スクリーンショット 2024-01-31 153000.png", no_mtime);
    assert_eq!(r, renamed("Screenshot 2024-01-31 153000.png"));
    let r = classify("スクリーンショット 1999-12-01 000001.png", no_mtime);
    assert_eq!(r, renamed("Screenshot 1999-12-01 000001.png"));
}

#[test]
fn legacy_name_is_repunctuated() {
    let r = classify("スクリーンショット_20240131_153000.png", no_mtime);
    assert_eq!(r, renamed("Screenshot 2024-01-31 153000.png"));
}

#[test]
fn canonical_name_is_skipped() {
    assert_eq!(classify("Screenshot 2024-01-31 153000.png", no_mtime), RenameDecision::Skip);
    assert_eq!(classify("Screenshot 2024-01-31-153000.png", no_mtime), RenameDecision::Skip);
}

#[test]
fn unmatched_names_are_skipped_without_metadata() {
    for name in [
        "notes.txt",
        "",
        "スクリーンショット",
        "スクリーンショット 2024-01-31 15300.png",
        "スクリーンショット 2024-01-31 153000.jpg",
        "スクリーンショット_2024013_153000.png",
        "スクリーンショット ().png",
        "スクリーンショット (a).png",
        "スクリーンショット(2).png",
        "xスクリーンショット.png",
    ] {
        assert_eq!(classify(name, no_mtime), RenameDecision::Skip, "{name}");
    }
}

#[test]
fn unnamed_name_reads_the_modification_time() {
    let r = classify("スクリーンショット (2).png", || Ok(UnixTime { secs: 0, nanos: 0 }));
    match r {
        RenameDecision::Rename(s) => {
            assert!(
                s.starts_with("Screenshot 1970-01-01 ") || s.starts_with("Screenshot 1969-12-31 "),
                "{s}"
            );
            assert!(s.ends_with(".png"));
            assert_eq!(s.chars().count(), "Screenshot 1970-01-01 000000.png".chars().count());
        }
        other => panic!("unexpected {other:?}"),
    }
    let r = classify("スクリーンショット.png", || Ok(UnixTime { secs: 1_706_715_000, nanos: 5 }));
    assert!(matches!(r, RenameDecision::Rename(_)));
}

#[test]
fn unnamed_name_with_unreadable_metadata_is_an_error() {
    let r = classify("スクリーンショット.png", || Err("no metadata".to_string()));
    assert_eq!(r, RenameDecision::Error("no metadata".to_string()));
}

#[test]
fn out_of_range_modification_time_is_an_error() {
    let r = classify("スクリーンショット (12).png", || Ok(UnixTime { secs: i64::MAX, nanos: 0 }));
    assert!(matches!(r, RenameDecision::Error(_)));
}

#[test]
fn local_time_gives_canonical_name() {
    let d = LocalDateTime { year: 2024, month: 1, day: 31, hour: 15, minute: 30, second: 0 };
    assert_eq!(rename_for_local_time(Some(d)), renamed("Screenshot 2024-01-31 153000.png"));
    assert!(matches!(rename_for_local_time(None), RenameDecision::Error(_)));
}

#[test]
fn timestamps_are_zero_padded() {
    let d = LocalDateTime { year: 987, month: 2, day: 3, hour: 4, minute: 5, second: 6 };
    assert_eq!(format_timestamp(&d), "0987-02-03 040506");
    let d = LocalDateTime { year: 12345, month: 12, day: 31, hour: 23, minute: 59, second: 59 };
    assert_eq!(format_timestamp(&d), "+12345-12-31 235959");
    let d = LocalDateTime { year: -5, month: 1, day: 1, hour: 0, minute: 0, second: 0 };
    assert_eq!(format_timestamp(&d), "-0005-01-01 000000");
}

#[test]
fn unix_time_rounds_towards_the_past() {
    assert_eq!(unix_time(true, 5, 250), Some(UnixTime { secs: 5, nanos: 250 }));
    assert_eq!(unix_time(false, 5, 0), Some(UnixTime { secs: -5, nanos: 0 }));
    assert_eq!(
        unix_time(false, 5, 250_000_000),
        Some(UnixTime { secs: -6, nanos: 750_000_000 })
    );
    assert_eq!(unix_time(true, u64::MAX, 0), None);
}
