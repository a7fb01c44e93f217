use dir_meta::utils::MAX_RENDERABLE_SECS;
use dir_meta::utils::MIN_RENDERABLE_SECS;
use dir_meta::utils::TAI64_UNIX_EPOCH_SECS;
use dir_meta::FileMetadata;
use dir_meta::FsDuration;
use dir_meta::FsUtils;
use dir_meta::Timestamp;

fn ts(secs_after_epoch: u64, nanos: u32) -> Timestamp {
    Timestamp { secs: TAI64_UNIX_EPOCH_SECS + secs_after_epoch, nanos }
}

#[test]
fn duration_subtracts_exactly() {
    let later = ts(10, 500);
    let earlier = ts(3, 200);
    assert_eq!(
        FsUtils::tai64_duration(&later, &earlier),
        Some(FsDuration { secs: 7, nanos: 300 })
    );
}

#[test]
fn duration_borrows_a_second_when_nanos_cross() {
    let later = ts(10, 500);
    let earlier = ts(3, 700);
    assert_eq!(
        FsUtils::tai64_duration(&later, &earlier),
        Some(FsDuration { secs: 6, nanos: 999_999_800 })
    );
}

#[test]
fn duration_of_equal_instants_is_zero() {
    let t = ts(42, 7);
    assert_eq!(
        FsUtils::tai64_duration(&t, &t),
        Some(FsDuration { secs: 0, nanos: 0 })
    );
}

#[test]
fn duration_is_absent_when_first_is_earlier() {
    let later = ts(10, 0);
    let earlier = ts(3, 0);
    assert_eq!(FsUtils::tai64_duration(&earlier, &later), None);
    let a = ts(5, 100);
    let b = ts(5, 200);
    assert_eq!(FsUtils::tai64_duration(&a, &b), None);
}

#[test]
fn duration_agrees_with_tai64() {
    let later = ts(90061, 123);
    let earlier = ts(1, 456);
    let ours = FsUtils::tai64_duration(&later, &earlier).unwrap();
    let theirs = tai64::Tai64N(tai64::Tai64(later.secs), later.nanos)
        .duration_since(&tai64::Tai64N(tai64::Tai64(earlier.secs), earlier.nanos))
        .unwrap();
    assert_eq!(ours.secs, theirs.as_secs());
    assert_eq!(ours.nanos, theirs.subsec_nanos());
}

#[test]
fn duration_since_epoch_counts_unix_seconds() {
    let t = ts(1_000_000, 25);
    assert_eq!(
        FsUtils::tai64_duration_since_epoch(&t),
        Some(FsDuration { secs: 1_000_000, nanos: 25 })
    );
    // one nanosecond before the epoch
    let before = Timestamp { secs: TAI64_UNIX_EPOCH_SECS - 1, nanos: 999_999_999 };
    assert_eq!(FsUtils::tai64_duration_since_epoch(&before), None);
}

#[test]
fn duration_from_now_sees_past_timestamps() {
    let long_ago = ts(1, 0);
    let d = FsUtils::tai64_duration_from_now(&long_ago).unwrap();
    assert!(d.secs > 0);
    assert!(d.nanos < 1_000_000_000);
}

#[test]
fn maybe_time_agrees_with_tai64_conversion() {
    assert_eq!(FsUtils::maybe_time(None), None);
    let now = std::time::SystemTime::now();
    let converted = FsUtils::maybe_time(Some(now)).unwrap();
    let direct = tai64::Tai64N::from_system_time(&now);
    assert_eq!(converted.secs, (direct.0).0);
    assert_eq!(converted.nanos, direct.1);
    assert!(converted.nanos < 1_000_000_000);
}

#[test]
fn epoch_renders_to_known_text() {
    let epoch = ts(0, 0);
    let rendered = FsUtils::tai64_to_local_hrs(&epoch);
    assert_eq!(rendered.date, "Thursday, 1 January, 1970");
    assert_eq!(rendered.time, "00:00:00");
    let twelve_hour = FsUtils::tai64_to_local_am_pm(&epoch);
    assert_eq!(twelve_hour.date, "Thursday, 1 January, 1970");
    assert_eq!(twelve_hour.time, "12:00 AM");
}

#[test]
fn rendering_agrees_with_chrono() {
    let t = ts(1_234_567_890, 0);
    let rendered = FsUtils::tai64_to_local_hrs(&t);
    let system = tai64::Tai64N(tai64::Tai64(t.secs), t.nanos).to_system_time();
    let expected: chrono::DateTime<chrono::Utc> = system.into();
    assert_eq!(
        rendered.date,
        expected.date_naive().format("%A, %-d %B, %C%y").to_string()
    );
    assert_eq!(rendered.time, expected.format("%H:%M:%S").to_string());
}

#[test]
fn humantime_renders_exact_spans() {
    let later = ts(2, 0);
    let earlier = ts(0, 0);
    assert_eq!(
        FsUtils::tai64_to_humantime(&later, &earlier),
        Some("2s".to_string())
    );
    assert_eq!(FsUtils::tai64_to_humantime(&earlier, &later), None);
    let far = ts(90061, 0);
    let expected =
        humantime::format_duration(std::time::Duration::new(90061, 0)).to_string();
    assert_eq!(FsUtils::tai64_to_humantime(&far, &earlier), Some(expected));
}

#[test]
fn humantime_with_epoch_needs_post_epoch_times() {
    let t = ts(61, 0);
    let expected = humantime::format_duration(std::time::Duration::new(61, 0)).to_string();
    assert_eq!(FsUtils::tai64_to_humantime_with_epoch(&t), Some(expected));
    let before = Timestamp { secs: TAI64_UNIX_EPOCH_SECS - 5, nanos: 0 };
    assert_eq!(FsUtils::tai64_to_humantime_with_epoch(&before), None);
}

#[test]
fn maybe_time_handles_pre_epoch_instants() {
    let before = std::time::UNIX_EPOCH - std::time::Duration::new(5, 300);
    let converted = FsUtils::maybe_time(Some(before)).unwrap();
    let direct = tai64::Tai64N::from_system_time(&before);
    assert_eq!(converted.secs, (direct.0).0);
    assert_eq!(converted.nanos, direct.1);
}

#[test]
fn renderable_bounds_match_the_calendar() {
    let min_label = TAI64_UNIX_EPOCH_SECS as i64 + chrono::DateTime::<chrono::Utc>::MIN_UTC.timestamp();
    assert_eq!(MIN_RENDERABLE_SECS, min_label as u64);
    let max_label = TAI64_UNIX_EPOCH_SECS as i64 + chrono::DateTime::<chrono::Utc>::MAX_UTC.timestamp();
    assert_eq!(MAX_RENDERABLE_SECS, max_label as u64);
}

#[test]
fn rendering_covers_the_whole_renderable_range() {
    let earliest = Timestamp { secs: MIN_RENDERABLE_SECS, nanos: 0 };
    let first = FsUtils::tai64_to_local_hrs(&earliest);
    assert!(first.date.contains("January"));
    assert_eq!(first.time, "00:00:00");

    let latest = Timestamp { secs: MAX_RENDERABLE_SECS, nanos: 999_999_999 };
    let last = FsUtils::tai64_to_local_am_pm(&latest);
    assert!(last.date.contains("December"));
    assert_eq!(last.time, "11:59 PM");
}

#[test]
fn renderable_guard_brackets_the_calendar() {
    let inside = ts(1_000, 0);
    assert!(inside.is_well_formed());
    assert!(inside.is_renderable());
    let malformed = Timestamp { secs: TAI64_UNIX_EPOCH_SECS, nanos: 1_000_000_000 };
    assert!(!malformed.is_well_formed());
    assert!(!malformed.is_renderable());
    let too_early = Timestamp { secs: MIN_RENDERABLE_SECS - 1, nanos: 0 };
    assert!(!too_early.is_renderable());
    let too_late = Timestamp { secs: MAX_RENDERABLE_SECS + 1, nanos: 0 };
    assert!(!too_late.is_renderable());
}

#[test]
fn time_accessors_follow_the_stored_timestamps() {
    let stamp = ts(1_000, 0);
    let file = FileMetadata {
        name: "a.txt".to_string(),
        path: "root/a.txt".to_string(),
        size: 5,
        read_only: false,
        symlink: false,
        created: Some(stamp),
        accessed: Some(stamp),
        modified: None,
        file_format: None,
    };
    assert!(file.accessed_24hr().is_some());
    assert!(file.accessed_am_pm().is_some());
    assert!(file.accessed_humatime().is_some());
    assert!(file.created_24hr().is_some());
    assert!(file.created_am_pm().is_some());
    assert!(file.created_humatime().is_some());
    assert_eq!(file.modified_24hr(), None);
    assert_eq!(file.modified_am_pm(), None);
    assert_eq!(file.modified_humatime(), None);
    assert_eq!(file.accessed_24hr().unwrap(), FsUtils::tai64_to_local_hrs(&stamp));
}
