//! The loosely typed property bag a media player reports, and the rules that
//! extract the canonical track fields from it.  A key that is absent and a
//! key whose value has the wrong shape are treated alike: the field falls
//! back to its default instead of failing.

use vstd::prelude::*;
use crate::text::str_eq;

verus! {

/// One dynamically typed property value: a string, an array of strings, or
/// anything else (which no extraction rule can use).
pub enum MetaValue {
    Str(String),
    StrList(Vec<String>),
    Other,
}

/// A player's metadata bag: property keys paired with their values, in the
/// order they were reported.  A lookup takes the first entry with the key.
pub struct Metadata {
    pub entries: Vec<(String, MetaValue)>,
}

/// The playback state a player reports.
#[derive(Clone, Copy, Debug, PartialEq, Eq, Structural)]
pub enum PlaybackStatus {
    Playing,
    Paused,
    Stopped,
    Unknown,
}

/// The value under the first entry whose key reads `key`, if any.
pub open spec fn lookup(entries: Seq<(String, MetaValue)>, key: Seq<char>) -> Option<MetaValue>
    decreases entries.len(),
{
    if entries.len() == 0 {
        None
    } else if entries[0].0@ == key {
        Some(entries[0].1)
    } else {
        lookup(entries.skip(1), key)
    }
}

impl Metadata {
    /// The value stored under `key`, if any.
    pub fn get(&self, key: &str) -> (r: Option<&MetaValue>)
        ensures
            match r {
                Some(v) => lookup(self.entries@, key@) == Some(*v),
                None => lookup(self.entries@, key@) is None,
            },
    {
        let mut i: usize = 0;
        proof {
            assert(self.entries@.skip(0) =~= self.entries@);
        }
        while i < self.entries.len()
            invariant
                i <= self.entries@.len(),
                lookup(self.entries@, key@) == lookup(self.entries@.skip(i as int), key@),
            decreases self.entries@.len() - i,
        {
            proof {
                assert(self.entries@.skip(i as int)[0] == self.entries@[i as int]);
                assert(self.entries@.skip(i as int).skip(1) =~= self.entries@.skip(i + 1));
            }
            if str_eq(self.entries[i].0.as_str(), key) {
                return Some(&self.entries[i].1);
            }
            i += 1;
        }
        proof {
            assert(self.entries@.skip(self.entries@.len() as int).len() == 0);
        }
        None
    }
}

/// The playback status a reported status string denotes.  Anything beyond
/// the three standard values counts as unknown.
pub open spec fn status_of(s: Seq<char>) -> PlaybackStatus {
    if s == "Playing"@ {
        PlaybackStatus::Playing
    } else if s == "Paused"@ {
        PlaybackStatus::Paused
    } else if s == "Stopped"@ {
        PlaybackStatus::Stopped
    } else {
        PlaybackStatus::Unknown
    }
}

/// Parses the status string a player reports.
pub fn parse_playback_status(s: &str) -> (r: PlaybackStatus)
    ensures
        r == status_of(s@),
{
    if str_eq(s, "Playing") {
        PlaybackStatus::Playing
    } else if str_eq(s, "Paused") {
        PlaybackStatus::Paused
    } else if str_eq(s, "Stopped") {
        PlaybackStatus::Stopped
    } else {
        PlaybackStatus::Unknown
    }
}

/// The first element of a string-array value; nothing for an empty array or
/// a value of any other shape.
pub open spec fn first_string(v: MetaValue) -> Option<Seq<char>> {
    match v {
        MetaValue::StrList(items) => if items@.len() > 0 {
            Some(items@[0]@)
        } else {
            None
        },
        _ => None,
    }
}

/// `first_string` lifted over an optional lookup result.
pub open spec fn opt_first_string(o: Option<MetaValue>) -> Option<Seq<char>> {
    match o {
        Some(v) => first_string(v),
        None => None,
    }
}

/// The normalized title: the string under the standard title key, or the
/// placeholder when it is absent or not a string.
pub open spec fn title_of(entries: Seq<(String, MetaValue)>) -> Seq<char> {
    match lookup(entries, "xesam:title"@) {
        Some(MetaValue::Str(s)) => s@,
        _ => "Unknown Title"@,
    }
}

/// The normalized artist: the first artist entry, else the first
/// album-artist entry, else the given fallback.
pub open spec fn artist_of(entries: Seq<(String, MetaValue)>, fallback: Seq<char>) -> Seq<char> {
    match opt_first_string(lookup(entries, "xesam:artist"@)) {
        Some(a) => a,
        None => match opt_first_string(lookup(entries, "xesam:albumArtist"@)) {
            Some(a) => a,
            None => fallback,
        },
    }
}

/// The normalized artwork location: the string under the standard art-URL
/// key, or empty.
pub open spec fn cover_art_of(entries: Seq<(String, MetaValue)>) -> Seq<char> {
    match lookup(entries, "mpris:artUrl"@) {
        Some(MetaValue::Str(s)) => s@,
        _ => Seq::<char>::empty(),
    }
}

/// Extracts the title field, defaulting to the placeholder.
pub fn extract_title(meta: &Metadata) -> (r: String)
    ensures
        r@ == title_of(meta.entries@),
{
    match meta.get("xesam:title") {
        Some(MetaValue::Str(s)) => s.clone(),
        _ => String::from_str("Unknown Title"),
    }
}

/// Extracts the artist field, falling back from artist to album artist to
/// the given name.
pub fn extract_artist(meta: &Metadata, fallback: &str) -> (r: String)
    ensures
        r@ == artist_of(meta.entries@, fallback@),
{
    if let Some(MetaValue::StrList(items)) = meta.get("xesam:artist") {
        if items.len() > 0 {
            return items[0].clone();
        }
    }
    if let Some(MetaValue::StrList(items)) = meta.get("xesam:albumArtist") {
        if items.len() > 0 {
            return items[0].clone();
        }
    }
    String::from_str(fallback)
}

/// Extracts the artwork location, defaulting to the empty string.
pub fn extract_cover_art(meta: &Metadata) -> (r: String)
    ensures
        r@ == cover_art_of(meta.entries@),
{
    match meta.get("mpris:artUrl") {
        Some(MetaValue::Str(s)) => s.clone(),
        _ => String::new(),
    }
}

/// A bag without a usable title entry is normalized to the placeholder
/// title.
pub proof fn lemma_missing_title_placeholder(entries: Seq<(String, MetaValue)>)
    requires
        lookup(entries, "xesam:title"@) is None,
    ensures
        title_of(entries) == "Unknown Title"@,
{
}

} // verus!
