use now_playing::metadata::{MetaValue, Metadata, PlaybackStatus};
use now_playing::spotify::get_current_track;

fn bag(entries: Vec<(&str, MetaValue)>) -> Metadata {
    Metadata { entries: entries.into_iter().map(|(k, v)| (k.to_string(), v)).collect() }
}

fn strv(s: &str) -> MetaValue {
    MetaValue::Str(s.to_string())
}

fn listv(items: &[&str]) -> MetaValue {
    MetaValue::StrList(items.iter().map(|s| s.to_string()).collect())
}

fn full_bag() -> Metadata {
    bag(vec![
        ("xesam:title", strv("Song")),
        ("xesam:artist", listv(&["Artist"])),
        ("mpris:artUrl", strv("https://example.invalid/cover.jpg")),
    ])
}

#[test]
fn legacy_full_bag_yields_record() {
    let t = get_current_track(PlaybackStatus::Playing, &full_bag()).expect("all fields present");
    assert_eq!(t.title, "Song");
    assert_eq!(t.artist, "Artist");
    assert_eq!(t.cover_art, "https://example.invalid/cover.jpg");
    assert!(t.is_playing);
}

#[test]
fn legacy_missing_title_fails_query() {
    let meta = bag(vec![
        ("xesam:artist", listv(&["Artist"])),
        ("mpris:artUrl", strv("u")),
    ]);
    assert!(get_current_track(PlaybackStatus::Playing, &meta).is_none());
}

#[test]
fn legacy_missing_artist_fails_query() {
    let meta = bag(vec![("xesam:title", strv("Song")), ("mpris:artUrl", strv("u"))]);
    assert!(get_current_track(PlaybackStatus::Playing, &meta).is_none());
}

#[test]
fn legacy_empty_artist_list_fails_query() {
    let meta = bag(vec![
        ("xesam:title", strv("Song")),
        ("xesam:artist", listv(&[])),
        ("mpris:artUrl", strv("u")),
    ]);
    assert!(get_current_track(PlaybackStatus::Playing, &meta).is_none());
}

#[test]
fn legacy_missing_cover_fails_query() {
    let meta = bag(vec![("xesam:title", strv("Song")), ("xesam:artist", listv(&["Artist"]))]);
    assert!(get_current_track(PlaybackStatus::Playing, &meta).is_none());
}

#[test]
fn legacy_stopped_yields_nothing() {
    assert!(get_current_track(PlaybackStatus::Stopped, &full_bag()).is_none());
}

#[test]
fn legacy_paused_yields_record_not_playing() {
    let t = get_current_track(PlaybackStatus::Paused, &full_bag())
        .expect("paused players still yield a record");
    assert!(!t.is_playing);
}
