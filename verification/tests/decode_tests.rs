use music_presence::activity::build_activity;
use music_presence::decode::{classify_line, LineEvent};

fn decode(line: &str, now: i64) -> music_presence::track::TrackRecord {
    match classify_line(line, now) {
        LineEvent::Track(rec) => rec,
        _ => panic!("expected a track record"),
    }
}

#[test]
fn round_trip_local_art_line() {
    let line = r#"{"title":"A","artist":"B","album":"","art_url":"file:///tmp/x.jpg","length":"180000000","status":"Playing","player":"kew"}"#;
    let rec = decode(line, 1000);
    assert_eq!(rec.title, "A");
    assert_eq!(rec.artist, "B");
    assert_eq!(rec.album, "");
    assert!(rec.art_is_local);
    assert_eq!(rec.art_reference, "/tmp/x.jpg");
    assert_eq!(rec.length_ms, 180000000);
    assert!(!rec.paused);
    assert_eq!(rec.start, 1000);
    let act = build_activity(&rec, false);
    assert_eq!(act.state, "by: B");
}

#[test]
fn remote_art_kept_verbatim() {
    let line = r#"{"title":"T","artist":"X","album":"L","art_url":"https://example.org/c.png","length":"1000","status":"Playing","player":"p"}"#;
    let rec = decode(line, 5);
    assert!(!rec.art_is_local);
    assert_eq!(rec.art_reference, "https://example.org/c.png");
    let act = build_activity(&rec, false);
    assert_eq!(act.state, "by: X, in: L");
}

#[test]
fn empty_line_is_blank() {
    assert!(matches!(classify_line("", 0), LineEvent::Blank));
}

#[test]
fn whitespace_line_is_blank() {
    assert!(matches!(classify_line("  \t ", 0), LineEvent::Blank));
}

#[test]
fn malformed_line_is_ignored() {
    assert!(matches!(classify_line("{not json", 0), LineEvent::Ignored));
}

#[test]
fn non_object_json_is_ignored() {
    assert!(matches!(classify_line("42", 0), LineEvent::Ignored));
    assert!(matches!(classify_line("\"x\"", 0), LineEvent::Ignored));
    assert!(matches!(classify_line("[1,2]", 0), LineEvent::Ignored));
}

#[test]
fn missing_status_means_paused() {
    let rec = decode(r#"{"title":"A"}"#, 0);
    assert!(rec.paused);
}

#[test]
fn non_playing_status_means_paused() {
    let rec = decode(r#"{"title":"A","status":"Paused"}"#, 0);
    assert!(rec.paused);
}

#[test]
fn missing_fields_default_to_empty() {
    let rec = decode(r#"{"status":"Playing"}"#, 0);
    assert_eq!(rec.title, "");
    assert_eq!(rec.artist, "");
    assert_eq!(rec.album, "");
    assert_eq!(rec.art_reference, "");
    assert!(!rec.art_is_local);
    assert_eq!(rec.length_ms, 0);
    assert!(!rec.paused);
}

#[test]
fn bad_length_defaults_to_zero() {
    let rec = decode(r#"{"length":"12a"}"#, 0);
    assert_eq!(rec.length_ms, 0);
    let rec = decode(r#"{"length":7}"#, 0);
    assert_eq!(rec.length_ms, 0);
}

#[test]
fn bare_local_scheme_is_empty_path() {
    let rec = decode(r#"{"art_url":"file://"}"#, 0);
    assert!(rec.art_is_local);
    assert_eq!(rec.art_reference, "");
}
