use poor_jimmy::TrackMetadata;
use poor_jimmy::session::resolve_metadata;
use poor_jimmy::session::title_or;

#[test]
fn test_track_metadata_creation() {
    let metadata = TrackMetadata {
        title: "Test Song".to_string(),
        thumbnail_url: Some("https://example.com/thumb.jpg".to_string()),
        duration: Some(180),
    };

    assert_eq!(metadata.title, "Test Song");
    assert_eq!(
        metadata.thumbnail_url,
        Some("https://example.com/thumb.jpg".to_string())
    );
    assert_eq!(metadata.duration, Some(180));
}

#[test]
fn test_track_metadata_clone() {
    let metadata = TrackMetadata {
        title: "Original".to_string(),
        thumbnail_url: None,
        duration: None,
    };

    let cloned = metadata.clone();
    assert_eq!(cloned.title, "Original");
    assert_eq!(cloned.thumbnail_url, None);
    assert_eq!(cloned.duration, None);
}

#[test]
fn test_track_metadata_with_no_thumbnail() {
    let metadata = TrackMetadata {
        title: "No Thumbnail Song".to_string(),
        thumbnail_url: None,
        duration: Some(240),
    };

    assert!(metadata.thumbnail_url.is_none());
}

#[test]
fn test_track_metadata_with_no_duration() {
    let metadata = TrackMetadata {
        title: "Live Stream".to_string(),
        thumbnail_url: Some("https://example.com/live.jpg".to_string()),
        duration: None,
    };

    assert!(metadata.duration.is_none());
}

#[test]
fn resolved_metadata_defaults_missing_title() {
    let metadata = resolve_metadata(None, Some("https://example.com/t.jpg".to_string()), Some(7));
    assert_eq!(metadata.title, "Unknown Track Title");
    assert_eq!(metadata.thumbnail_url, Some("https://example.com/t.jpg".to_string()));
    assert_eq!(metadata.duration, Some(7));

    let named = resolve_metadata(Some("Named".to_string()), None, None);
    assert_eq!(named.title, "Named");
}

#[test]
fn title_fallback_applies_only_when_missing() {
    assert_eq!(title_or(Some("A Song".to_string()), "Song"), "A Song");
    assert_eq!(title_or(None, "Song"), "Song");
}
