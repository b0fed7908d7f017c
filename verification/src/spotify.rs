//! The legacy single-player variant: it reads one well-known player and,
//! unlike the discovery pipeline, fails the whole query when the title, the
//! artist or the artwork entry is absent or has the wrong shape.

use vstd::prelude::*;
use crate::metadata::{lookup, opt_first_string, Metadata, MetaValue, PlaybackStatus};

verus! {

/// The record the legacy single-player query returns.
#[derive(Clone, Debug, PartialEq)]
pub struct SpotifyTrack {
    pub title: String,
    pub artist: String,
    pub cover_art: String,
    pub is_playing: bool,
}

/// The mathematical value of a [`SpotifyTrack`].
pub struct SpotifyTrackView {
    pub title: Seq<char>,
    pub artist: Seq<char>,
    pub cover_art: Seq<char>,
    pub is_playing: bool,
}

impl View for SpotifyTrack {
    type V = SpotifyTrackView;

    open spec fn view(&self) -> SpotifyTrackView {
        SpotifyTrackView {
            title: self.title@,
            artist: self.artist@,
            cover_art: self.cover_art@,
            is_playing: self.is_playing,
        }
    }
}

/// The record the legacy policy extracts: nothing for a stopped player, and
/// nothing unless the title is a string, the artist array has a first
/// element and the art URL is a string.
pub open spec fn strict_track(
    status: PlaybackStatus,
    entries: Seq<(String, MetaValue)>,
) -> Option<SpotifyTrackView> {
    if status is Stopped {
        None
    } else {
        strict_fields(status, entries)
    }
}

/// The field extraction of the legacy policy, strict in every field.
pub open spec fn strict_fields(
    status: PlaybackStatus,
    entries: Seq<(String, MetaValue)>,
) -> Option<SpotifyTrackView> {
    match lookup(entries, "xesam:title"@) {
        Some(MetaValue::Str(title)) => match opt_first_string(
            lookup(entries, "xesam:artist"@),
        ) {
            Some(artist) => match lookup(entries, "mpris:artUrl"@) {
                Some(MetaValue::Str(cover)) => Some(
                    SpotifyTrackView {
                        title: title@,
                        artist: artist,
                        cover_art: cover@,
                        is_playing: status is Playing,
                    },
                ),
                _ => None,
            },
            None => None,
        },
        _ => None,
    }
}

/// The legacy single-player query on one reading: a stopped player yields no
/// record, every field is required, and a missing or wrong-shaped entry
/// fails the whole query.
pub fn get_current_track(status: PlaybackStatus, meta: &Metadata) -> (r: Option<SpotifyTrack>)
    ensures
        status is Stopped ==> r is None,
        match r {
            Some(t) => strict_track(status, meta.entries@) == Some(t@),
            None => strict_track(status, meta.entries@) is None,
        },
{
    if status == PlaybackStatus::Stopped {
        return None;
    }
    let title = match meta.get("xesam:title") {
        Some(MetaValue::Str(s)) => s.clone(),
        _ => {
            return None;
        },
    };
    let artist = match meta.get("xesam:artist") {
        Some(MetaValue::StrList(items)) => {
            if items.len() > 0 {
                items[0].clone()
            } else {
                return None;
            }
        },
        _ => {
            return None;
        },
    };
    let cover_art = match meta.get("mpris:artUrl") {
        Some(MetaValue::Str(s)) => s.clone(),
        _ => {
            return None;
        },
    };
    Some(
        SpotifyTrack {
            title,
            artist,
            cover_art,
            is_playing: status == PlaybackStatus::Playing,
        },
    )
}

} // verus!
