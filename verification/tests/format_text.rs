use poor_jimmy::create_progress_bar;
use poor_jimmy::format_duration;

#[test]
fn test_format_duration_seconds() {
    assert_eq!(format_duration(45), "00:45");
}

#[test]
fn test_format_duration_minutes() {
    assert_eq!(format_duration(150), "02:30");
}

#[test]
fn test_format_duration_hours() {
    assert_eq!(format_duration(3665), "01:01:05");
}

#[test]
fn test_format_duration_zero() {
    assert_eq!(format_duration(0), "00:00");
}

#[test]
fn test_format_duration_max_values() {
    assert_eq!(format_duration(359999), "99:59:59");
}

#[test]
fn test_format_duration_hour_boundary() {
    assert_eq!(format_duration(3599), "59:59");
    assert_eq!(format_duration(3600), "01:00:00");
}

#[test]
fn test_progress_bar_empty() {
    let bar = create_progress_bar(0, Some(300), 10);
    assert!(bar.contains("░░░░░░░░░░"));
    assert!(bar.contains("00:00 / 05:00"));
}

#[test]
fn test_progress_bar_half() {
    let bar = create_progress_bar(150, Some(300), 10);
    assert!(bar.contains("▓▓▓▓▓░░░░░"));
    assert!(bar.contains("02:30 / 05:00"));
}

#[test]
fn test_progress_bar_full() {
    let bar = create_progress_bar(300, Some(300), 10);
    assert!(bar.contains("▓▓▓▓▓▓▓▓▓▓"));
    assert!(bar.contains("05:00 / 05:00"));
}

#[test]
fn test_progress_bar_no_total() {
    let bar = create_progress_bar(150, None, 10);
    assert!(bar.contains("02:30 / 02:30"));
}

#[test]
fn test_progress_bar_over_100_percent() {
    let bar = create_progress_bar(400, Some(300), 10);
    assert!(bar.contains("▓▓▓▓▓▓▓▓▓▓"));
    assert!(bar.contains("06:40 / 05:00"));
}

#[test]
fn test_progress_bar_different_lengths() {
    let bar_5 = create_progress_bar(150, Some(300), 5);
    assert!(bar_5.contains("▓▓░░░") || bar_5.contains("▓▓▓░░"));

    let bar_20 = create_progress_bar(150, Some(300), 20);
    assert!(bar_20.contains("02:30 / 05:00"));
}

#[test]
fn test_progress_bar_zero_length() {
    let bar = create_progress_bar(0, Some(300), 0);
    assert!(bar.contains("[] 00:00 / 05:00"));
}

#[test]
fn test_progress_bar_zero_total() {
    let bar = create_progress_bar(0, Some(0), 10);
    assert!(bar.contains("[░░░░░░░░░░] 00:00 / 00:00"));
}
