use music_presence::resolver::{extract_upload_url, needs_resize, ArtResolver};
use music_presence::track::TrackRecord;

fn local_track(path: &str) -> TrackRecord {
    TrackRecord {
        title: "A".to_string(),
        artist: "B".to_string(),
        album: "".to_string(),
        art_reference: path.to_string(),
        art_is_local: true,
        start: 0,
        length_ms: 0,
        paused: false,
    }
}

#[test]
fn same_path_twice_uploads_once() {
    let mut resolver = ArtResolver::new();
    let rec = local_track("/tmp/cover.jpg");
    assert_eq!(resolver.observe(&rec), Some("/tmp/cover.jpg".to_string()));
    // The second, unchanged record arrives before any upload completes: the
    // key was updated when the first upload started, so nothing is started.
    let rec2 = local_track("/tmp/cover.jpg");
    assert_eq!(resolver.observe(&rec2), None);
}

#[test]
fn changed_path_uploads_again() {
    let mut resolver = ArtResolver::new();
    assert!(resolver.observe(&local_track("/tmp/a.jpg")).is_some());
    assert_eq!(resolver.observe(&local_track("/tmp/b.jpg")), Some("/tmp/b.jpg".to_string()));
    assert_eq!(resolver.observe(&local_track("/tmp/b.jpg")), None);
}

#[test]
fn remote_art_never_uploads() {
    let mut resolver = ArtResolver::new();
    let mut rec = local_track("https://example.org/c.png");
    rec.art_is_local = false;
    assert_eq!(resolver.observe(&rec), None);
}

#[test]
fn resize_only_shrinks() {
    // Skipped only where the source is smaller than the target in both
    // dimensions.
    assert!(!needs_resize(100, 100, 150, 150));
    assert!(needs_resize(200, 100, 150, 150));
    assert!(needs_resize(100, 200, 150, 150));
    assert!(needs_resize(150, 150, 150, 150));
    assert!(needs_resize(1000, 1000, 150, 150));
}

#[test]
fn upload_response_is_transformed() {
    let body = r#"{"status":"success","data":{"url":"https://tmpfiles.org/123/cover.jpg"}}"#;
    assert_eq!(
        extract_upload_url(body),
        Some("https://tmpfiles.org/dl/123/cover.jpg".to_string())
    );
}

#[test]
fn malformed_responses_are_rejected() {
    assert_eq!(extract_upload_url("not json"), None);
    assert_eq!(extract_upload_url("[]"), None);
    assert_eq!(extract_upload_url(r#"{"data":{"url":"https://tmpfiles.org/1"}}"#), None);
    assert_eq!(extract_upload_url(r#"{"status":7,"data":{"url":"x"}}"#), None);
    assert_eq!(extract_upload_url(r#"{"status":"ok"}"#), None);
    assert_eq!(extract_upload_url(r#"{"status":"ok","data":"x"}"#), None);
    assert_eq!(extract_upload_url(r#"{"status":"ok","data":{}}"#), None);
    assert_eq!(extract_upload_url(r#"{"status":"ok","data":{"url":5}}"#), None);
}

#[test]
fn foreign_url_kept_unchanged() {
    let body = r#"{"status":"ok","data":{"url":"https://elsewhere.example/x"}}"#;
    assert_eq!(extract_upload_url(body), Some("https://elsewhere.example/x".to_string()));
}
