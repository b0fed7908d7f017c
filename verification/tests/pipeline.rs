use now_playing::metadata::{MetaValue, Metadata, PlaybackStatus};
use now_playing::select::{get_current_track, select_track, PlayerReading, PlayerResponse};

fn bag(entries: Vec<(&str, MetaValue)>) -> Metadata {
    Metadata { entries: entries.into_iter().map(|(k, v)| (k.to_string(), v)).collect() }
}

fn strv(s: &str) -> MetaValue {
    MetaValue::Str(s.to_string())
}

fn listv(items: &[&str]) -> MetaValue {
    MetaValue::StrList(items.iter().map(|s| s.to_string()).collect())
}

fn live(service: &str, title: &str) -> PlayerResponse {
    PlayerResponse {
        service_name: service.to_string(),
        reading: Some(PlayerReading {
            status: PlaybackStatus::Playing,
            metadata: bag(vec![("xesam:title", strv(title)), ("xesam:artist", listv(&["A"]))]),
        }),
    }
}

fn stopped(service: &str) -> PlayerResponse {
    PlayerResponse {
        service_name: service.to_string(),
        reading: Some(PlayerReading {
            status: PlaybackStatus::Stopped,
            metadata: bag(vec![("xesam:title", strv("Idle"))]),
        }),
    }
}

fn failed(service: &str) -> PlayerResponse {
    PlayerResponse { service_name: service.to_string(), reading: None }
}

#[test]
fn no_players_no_track() {
    assert!(get_current_track(&vec![]).is_none());
}

#[test]
fn all_stopped_no_track() {
    let responses = vec![
        stopped("org.mpris.MediaPlayer2.spotify"),
        stopped("org.mpris.MediaPlayer2.vlc"),
    ];
    assert!(get_current_track(&responses).is_none());
}

#[test]
fn failed_queries_are_dropped() {
    let responses = vec![
        failed("org.mpris.MediaPlayer2.spotify"),
        live("org.mpris.MediaPlayer2.vlc", "From Vlc"),
    ];
    let t = get_current_track(&responses).expect("one live player remains");
    assert_eq!(t.title, "From Vlc");
    assert_eq!(t.player_name, "Vlc");
}

#[test]
fn spotify_wins_regardless_of_order() {
    let first = get_current_track(&vec![
        live("org.mpris.MediaPlayer2.spotify", "From Spotify"),
        live("org.mpris.MediaPlayer2.quodlibet", "From Elsewhere"),
    ])
    .expect("two live players");
    assert_eq!(first.title, "From Spotify");

    let second = get_current_track(&vec![
        live("org.mpris.MediaPlayer2.quodlibet", "From Elsewhere"),
        live("org.mpris.MediaPlayer2.spotify", "From Spotify"),
    ])
    .expect("two live players");
    assert_eq!(second.title, "From Spotify");
}

#[test]
fn priority_table_orders_candidates() {
    let t = get_current_track(&vec![
        live("org.mpris.MediaPlayer2.mpv", "From Mpv"),
        live("org.mpris.MediaPlayer2.firefox.instance12", "From Firefox"),
        live("org.mpris.MediaPlayer2.vlc", "From Vlc"),
    ])
    .expect("three live players");
    assert_eq!(t.title, "From Vlc");
}

#[test]
fn tie_broken_by_discovery_order() {
    let t = get_current_track(&vec![
        live("org.mpris.MediaPlayer2.alpha", "First Unknown"),
        live("org.mpris.MediaPlayer2.beta", "Second Unknown"),
    ])
    .expect("two live players");
    assert_eq!(t.title, "First Unknown");
}

#[test]
fn paused_candidate_is_still_selected() {
    let responses = vec![PlayerResponse {
        service_name: "org.mpris.MediaPlayer2.vlc".to_string(),
        reading: Some(PlayerReading {
            status: PlaybackStatus::Paused,
            metadata: bag(vec![("xesam:title", strv("Paused Song"))]),
        }),
    }];
    let t = get_current_track(&responses).expect("paused players are selectable");
    assert_eq!(t.title, "Paused Song");
    assert!(!t.is_playing);
}

#[test]
fn unchanged_state_yields_equal_records() {
    let responses = vec![
        live("org.mpris.MediaPlayer2.spotify", "Same Song"),
        live("org.mpris.MediaPlayer2.vlc", "Other Song"),
    ];
    let first = get_current_track(&responses);
    let second = get_current_track(&responses);
    assert_eq!(first, second);
    assert!(first.is_some());
}

#[test]
fn select_track_empty_is_none() {
    assert!(select_track(vec![]).is_none());
}
