//! The canonical track record, the media-player service namespace, the fixed
//! player priority table, display-name derivation, and the normalizer that
//! turns one player's reading into a record.

use vstd::prelude::*;
use crate::metadata::{
    artist_of, cover_art_of, extract_artist, extract_cover_art, extract_title, lookup, title_of,
    Metadata, MetaValue, PlaybackStatus,
};
use crate::text::{
    capitalize, capitalize_spec, contains_seq, contains_substr, find_char, is_prefix_of,
    starts_with,
};

verus! {

/// The canonical "now playing" record handed to the display layer.
#[derive(Clone, Debug, PartialEq)]
pub struct MediaTrack {
    pub title: String,
    pub artist: String,
    pub cover_art: String,
    pub is_playing: bool,
    pub player_name: String,
}

/// The mathematical value of a [`MediaTrack`]: each text field as a
/// character sequence.
pub struct TrackView {
    pub title: Seq<char>,
    pub artist: Seq<char>,
    pub cover_art: Seq<char>,
    pub is_playing: bool,
    pub player_name: Seq<char>,
}

impl View for MediaTrack {
    type V = TrackView;

    open spec fn view(&self) -> TrackView {
        TrackView {
            title: self.title@,
            artist: self.artist@,
            cover_art: self.cover_art@,
            is_playing: self.is_playing,
            player_name: self.player_name@,
        }
    }
}

/// The namespace prefix under which media players register on the bus.
pub open spec fn player_prefix() -> Seq<char> {
    "org.mpris.MediaPlayer2."@
}

/// `name` lies in the media-player namespace.
pub open spec fn is_player_service(name: Seq<char>) -> bool {
    is_prefix_of(player_prefix(), name)
}

/// Whether a bus service name lies in the media-player namespace.
pub fn is_player_service_name(name: &str) -> (r: bool)
    ensures
        r == is_player_service(name@),
{
    starts_with(name, "org.mpris.MediaPlayer2.")
}

/// The views of a list of strings.
pub open spec fn views_of(names: Seq<String>) -> Seq<Seq<char>> {
    names.map_values(|s: String| s@)
}

/// The subsequence of `names` lying in the media-player namespace, in order.
pub open spec fn filter_players(names: Seq<Seq<char>>) -> Seq<Seq<char>>
    decreases names.len(),
{
    if names.len() == 0 {
        Seq::empty()
    } else if is_player_service(names.last()) {
        filter_players(names.drop_last()).push(names.last())
    } else {
        filter_players(names.drop_last())
    }
}

/// Keeps the service names that lie in the media-player namespace, in
/// discovery order.
pub fn filter_player_services(names: &Vec<String>) -> (r: Vec<String>)
    ensures
        views_of(r@) == filter_players(views_of(names@)),
{
    let mut r: Vec<String> = Vec::new();
    let mut i: usize = 0;
    proof {
        assert(views_of(names@.take(0)) =~= Seq::<Seq<char>>::empty());
        assert(views_of(r@) =~= Seq::<Seq<char>>::empty());
    }
    while i < names.len()
        invariant
            i <= names@.len(),
            views_of(r@) == filter_players(views_of(names@.take(i as int))),
        decreases names@.len() - i,
    {
        let ghost prev = r@;
        if is_player_service_name(names[i].as_str()) {
            r.push(names[i].clone());
            proof {
                assert(views_of(r@) =~= views_of(prev).push(names@[i as int]@));
            }
        }
        proof {
            let v1 = views_of(names@.take(i + 1));
            assert(v1.drop_last() =~= views_of(names@.take(i as int)));
            assert(v1.last() == names@[i as int]@);
        }
        i += 1;
    }
    proof {
        assert(names@.take(names@.len() as int) =~= names@);
    }
    r
}

/// If no registered name lies in the media-player namespace, the filter
/// keeps nothing.
pub proof fn lemma_no_player_services(names: Seq<Seq<char>>)
    requires
        forall|i: int| 0 <= i < names.len() ==> !is_player_service(names[i]),
    ensures
        filter_players(names).len() == 0,
    decreases names.len(),
{
    if names.len() > 0 {
        assert(names.last() == names[names.len() - 1]);
        lemma_no_player_services(names.drop_last());
    }
}

/// The rank of a player in the fixed priority table, keyed by substring
/// match on the service name in table order; a smaller number wins, and a
/// name matching no listed token gets the sentinel lowest rank.
pub open spec fn priority_of(name: Seq<char>) -> u32 {
    if contains_seq(name, "spotify"@) {
        1
    } else if contains_seq(name, "vlc"@) {
        2
    } else if contains_seq(name, "firefox"@) {
        3
    } else if contains_seq(name, "chromium"@) || contains_seq(name, "chrome"@) {
        4
    } else if contains_seq(name, "brave"@) {
        5
    } else if contains_seq(name, "mpv"@) {
        6
    } else {
        100
    }
}

/// The priority rank of a player service name (lower wins).
pub fn get_player_priority(player_name: &str) -> (p: u32)
    ensures
        p == priority_of(player_name@),
{
    if contains_substr(player_name, "spotify") {
        1
    } else if contains_substr(player_name, "vlc") {
        2
    } else if contains_substr(player_name, "firefox") {
        3
    } else if contains_substr(player_name, "chromium") || contains_substr(player_name, "chrome") {
        4
    } else if contains_substr(player_name, "brave") {
        5
    } else if contains_substr(player_name, "mpv") {
        6
    } else {
        100
    }
}

/// `name` without the media-player namespace prefix; `name` itself when the
/// prefix is absent.
pub open spec fn strip_player_prefix(name: Seq<char>) -> Seq<char> {
    if is_player_service(name) {
        name.skip(player_prefix().len() as int)
    } else {
        name
    }
}

/// The leading segment of `s` up to (excluding) the first `sep`.
pub open spec fn segment_before(s: Seq<char>, sep: char) -> Seq<char>
    decreases s.len(),
{
    if s.len() == 0 {
        s
    } else if s[0] == sep {
        Seq::empty()
    } else {
        seq![s[0]] + segment_before(s.skip(1), sep)
    }
}

/// When `i` is the position of the first `sep` in `s` (or the length of `s`
/// if `sep` is absent), the leading segment is exactly `s` up to `i`.
proof fn lemma_segment_before_subrange(s: Seq<char>, sep: char, i: int)
    requires
        0 <= i <= s.len(),
        forall|j: int| 0 <= j < i ==> s[j] != sep,
        i < s.len() ==> s[i] == sep,
    ensures
        segment_before(s, sep) =~= s.subrange(0, i),
    decreases s.len(),
{
    if s.len() == 0 {
    } else if s[0] == sep {
        assert(i == 0);
    } else {
        assert(i >= 1);
        let t = s.skip(1);
        assert(forall|j: int| 0 <= j < i - 1 ==> t[j] == s[j + 1] && s[j + 1] != sep);
        assert(i - 1 < t.len() ==> t[i - 1] == s[i]);
        lemma_segment_before_subrange(t, sep, i - 1);
        assert(segment_before(s, sep) == seq![s[0]] + segment_before(t, sep));
        assert(t.subrange(0, i - 1) =~= s.subrange(1, i));
        assert(seq![s[0]] + s.subrange(1, i) =~= s.subrange(0, i));
    }
}

/// The display name a service name denotes: the namespace prefix is
/// stripped, the segment before the first remaining separator is kept
/// (dropping multi-instance suffixes), and its first character is
/// capitalized.
pub open spec fn display_name_of(name: Seq<char>) -> Seq<char> {
    capitalize_spec(segment_before(strip_player_prefix(name), '.'))
}

/// Derives the human-readable player name from a bus service name.
pub fn get_player_display_name(service_name: &str) -> (r: String)
    ensures
        r@ == display_name_of(service_name@),
{
    let prefix = "org.mpris.MediaPlayer2.";
    let stripped: &str = if starts_with(service_name, prefix) {
        let plen = prefix.unicode_len();
        let slen = service_name.unicode_len();
        service_name.substring_char(plen, slen)
    } else {
        service_name
    };
    proof {
        assert(stripped@ =~= strip_player_prefix(service_name@));
    }
    let i = find_char(stripped, '.');
    let seg = stripped.substring_char(0, i);
    proof {
        lemma_segment_before_subrange(stripped@, '.', i as int);
    }
    capitalize(seg)
}

/// The canonical record one player's reading normalizes to.
pub open spec fn normalized_track(
    service: Seq<char>,
    status: PlaybackStatus,
    entries: Seq<(String, MetaValue)>,
) -> TrackView {
    TrackView {
        title: title_of(entries),
        artist: artist_of(entries, display_name_of(service)),
        cover_art: cover_art_of(entries),
        is_playing: status is Playing,
        player_name: display_name_of(service),
    }
}

/// Normalizes one player's reading into the canonical record.  Every field
/// degrades to its fallback instead of failing.
pub fn normalize(service_name: &str, status: PlaybackStatus, meta: &Metadata) -> (r: MediaTrack)
    ensures
        r@ == normalized_track(service_name@, status, meta.entries@),
{
    let player_name = get_player_display_name(service_name);
    let title = extract_title(meta);
    let artist = extract_artist(meta, player_name.as_str());
    let cover_art = extract_cover_art(meta);
    MediaTrack {
        title,
        artist,
        cover_art,
        is_playing: status == PlaybackStatus::Playing,
        player_name,
    }
}

/// Turns one player's reading into a candidate record: nothing for a stopped
/// player, the normalized record otherwise.
pub fn track_from_reading(service_name: &str, status: PlaybackStatus, meta: &Metadata) -> (r:
    Option<MediaTrack>)
    ensures
        r is None <==> status is Stopped,
        match r {
            Some(t) => t@ == normalized_track(service_name@, status, meta.entries@),
            None => status is Stopped,
        },
{
    if status == PlaybackStatus::Stopped {
        None
    } else {
        Some(normalize(service_name, status, meta))
    }
}

/// A bag without artist and album-artist entries normalizes its artist field
/// to the player's derived display name.
pub proof fn lemma_artist_falls_back_to_display_name(
    service: Seq<char>,
    status: PlaybackStatus,
    entries: Seq<(String, MetaValue)>,
)
    requires
        lookup(entries, "xesam:artist"@) is None,
        lookup(entries, "xesam:albumArtist"@) is None,
    ensures
        normalized_track(service, status, entries).artist == display_name_of(service),
{
}

} // verus!
