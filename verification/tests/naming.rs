use now_playing::media::{filter_player_services, get_player_display_name, get_player_priority};

#[test]
fn display_name_chromium_instance() {
    let name = get_player_display_name("org.mpris.MediaPlayer2.chromium.instance7531");
    assert_eq!(name, "Chromium");
}

#[test]
fn display_name_plain_service() {
    assert_eq!(get_player_display_name("org.mpris.MediaPlayer2.spotify"), "Spotify");
    assert_eq!(get_player_display_name("org.mpris.MediaPlayer2.vlc"), "Vlc");
}

#[test]
fn display_name_without_prefix() {
    assert_eq!(get_player_display_name("spotify"), "Spotify");
    assert_eq!(get_player_display_name("Already"), "Already");
}

#[test]
fn display_name_empty_segment() {
    assert_eq!(get_player_display_name("org.mpris.MediaPlayer2."), "");
    assert_eq!(get_player_display_name(""), "");
}

#[test]
fn priority_table_values() {
    assert_eq!(get_player_priority("org.mpris.MediaPlayer2.spotify"), 1);
    assert_eq!(get_player_priority("org.mpris.MediaPlayer2.vlc"), 2);
    assert_eq!(get_player_priority("org.mpris.MediaPlayer2.firefox.instance1"), 3);
    assert_eq!(get_player_priority("org.mpris.MediaPlayer2.chromium.instance2"), 4);
    assert_eq!(get_player_priority("org.mpris.MediaPlayer2.chrome"), 4);
    assert_eq!(get_player_priority("org.mpris.MediaPlayer2.brave.instance3"), 5);
    assert_eq!(get_player_priority("org.mpris.MediaPlayer2.mpv"), 6);
    assert_eq!(get_player_priority("org.mpris.MediaPlayer2.rhythmbox"), 100);
    assert_eq!(get_player_priority(""), 100);
}

#[test]
fn priority_is_case_sensitive() {
    assert_eq!(get_player_priority("org.mpris.MediaPlayer2.Spotify"), 100);
}

#[test]
fn filter_keeps_only_namespace() {
    let names = vec![
        "org.freedesktop.DBus".to_string(),
        "org.mpris.MediaPlayer2.spotify".to_string(),
        ":1.42".to_string(),
        "org.mpris.MediaPlayer2.vlc".to_string(),
    ];
    let players = filter_player_services(&names);
    assert_eq!(
        players,
        vec![
            "org.mpris.MediaPlayer2.spotify".to_string(),
            "org.mpris.MediaPlayer2.vlc".to_string(),
        ]
    );
}

#[test]
fn filter_empty_when_nothing_matches() {
    let names = vec![
        "org.freedesktop.DBus".to_string(),
        ":1.7".to_string(),
        "org.mpris.MediaPlayer".to_string(),
    ];
    let players = filter_player_services(&names);
    assert!(players.is_empty());
}
