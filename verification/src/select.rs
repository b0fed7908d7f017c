//! The selection policy of one poll cycle: each queried player yields at most
//! one candidate record, and among the candidates the one whose service name
//! ranks highest in the priority table wins, with discovery order breaking
//! ties.

use vstd::prelude::*;
use crate::media::{
    get_player_priority, normalized_track, priority_of, track_from_reading, MediaTrack, TrackView,
};
use crate::metadata::Metadata;
use crate::metadata::PlaybackStatus;

verus! {

/// One successful property read of a player: its playback state and its
/// metadata bag.
pub struct PlayerReading {
    pub status: PlaybackStatus,
    pub metadata: Metadata,
}

/// The outcome of querying one discovered service: the reading, or nothing
/// when the query failed at any step.
pub struct PlayerResponse {
    pub service_name: String,
    pub reading: Option<PlayerReading>,
}

/// The views of a candidate list: each service name and record as values.
pub open spec fn candidate_views(c: Seq<(String, MediaTrack)>) -> Seq<(Seq<char>, TrackView)> {
    c.map_values(|p: (String, MediaTrack)| (p.0@, p.1@))
}

/// Position `i` holds the winning candidate: no candidate ranks strictly
/// better, and every earlier candidate ranks strictly worse.
pub open spec fn is_selected(c: Seq<(Seq<char>, TrackView)>, i: int) -> bool {
    &&& 0 <= i < c.len()
    &&& forall|j: int| 0 <= j < c.len() ==> priority_of(c[i].0) <= priority_of(c[j].0)
    &&& forall|j: int| 0 <= j < i ==> priority_of(c[j].0) > priority_of(c[i].0)
}

/// `r` is the selection the candidate list `c` calls for: nothing exactly
/// when `c` is empty, else the record of the winning candidate.
pub open spec fn selection_of(c: Seq<(Seq<char>, TrackView)>, r: Option<TrackView>) -> bool {
    match r {
        Some(t) => exists|i: int| is_selected(c, i) && t == c[i].1,
        None => c.len() == 0,
    }
}

/// The view of an optional record.
pub open spec fn view_opt(r: Option<MediaTrack>) -> Option<TrackView> {
    match r {
        Some(t) => Some(t@),
        None => None,
    }
}

/// At most one position holds the winning candidate.
pub proof fn lemma_selected_unique(c: Seq<(Seq<char>, TrackView)>, i: int, j: int)
    requires
        is_selected(c, i),
        is_selected(c, j),
    ensures
        i == j,
{
    if i < j {
        assert(priority_of(c[i].0) > priority_of(c[j].0));
        assert(priority_of(c[j].0) <= priority_of(c[i].0));
    }
    if j < i {
        assert(priority_of(c[j].0) > priority_of(c[i].0));
        assert(priority_of(c[i].0) <= priority_of(c[j].0));
    }
}

/// Returns the candidate whose service name ranks highest in the priority
/// table; among equal ranks the earliest discovered wins.
pub fn select_track(candidates: Vec<(String, MediaTrack)>) -> (r: Option<MediaTrack>)
    ensures
        selection_of(candidate_views(candidates@), view_opt(r)),
{
    let mut candidates = candidates;
    if candidates.len() == 0 {
        return None;
    }
    let ghost cv = candidate_views(candidates@);
    let mut best: usize = 0;
    let mut i: usize = 1;
    while i < candidates.len()
        invariant
            cv == candidate_views(candidates@),
            candidates@.len() == cv.len(),
            best < i <= cv.len(),
            forall|j: int| 0 <= j < i ==> priority_of(cv[best as int].0) <= priority_of(cv[j].0),
            forall|j: int| 0 <= j < best ==> priority_of(cv[j].0) > priority_of(cv[best as int].0),
        decreases cv.len() - i,
    {
        if get_player_priority(candidates[i].0.as_str()) < get_player_priority(
            candidates[best].0.as_str(),
        ) {
            best = i;
        }
        i += 1;
    }
    proof {
        assert(is_selected(cv, best as int));
    }
    let (_, track) = candidates.remove(best);
    Some(track)
}

/// The candidate list a sequence of query outcomes produces: one normalized
/// record per response that succeeded and was not stopped, in discovery
/// order.
pub open spec fn response_candidates(rs: Seq<PlayerResponse>) -> Seq<(Seq<char>, TrackView)>
    decreases rs.len(),
{
    if rs.len() == 0 {
        Seq::empty()
    } else {
        response_candidates(rs.drop_last()) + candidate_of(rs.last())
    }
}

/// The zero or one candidates one query outcome contributes.
pub open spec fn candidate_of(p: PlayerResponse) -> Seq<(Seq<char>, TrackView)> {
    match p.reading {
        Some(rd) => if rd.status is Stopped {
            Seq::empty()
        } else {
            seq![
                (p.service_name@, normalized_track(p.service_name@, rd.status, rd.metadata.entries@)),
            ]
        },
        None => Seq::empty(),
    }
}

/// One full poll cycle over the query outcomes of the discovered players:
/// normalizes every live reading and selects the highest-priority record.
/// Failed queries and stopped players contribute nothing, and an empty
/// outcome list yields no track.
pub fn get_current_track(responses: &Vec<PlayerResponse>) -> (r: Option<MediaTrack>)
    ensures
        selection_of(response_candidates(responses@), view_opt(r)),
        responses@.len() == 0 ==> r is None,
{
    let mut candidates: Vec<(String, MediaTrack)> = Vec::new();
    let mut i: usize = 0;
    proof {
        assert(candidate_views(candidates@) =~= response_candidates(responses@.take(0)));
    }
    while i < responses.len()
        invariant
            i <= responses@.len(),
            candidate_views(candidates@) == response_candidates(responses@.take(i as int)),
        decreases responses@.len() - i,
    {
        let ghost prev = candidates@;
        let resp = &responses[i];
        match &resp.reading {
            Some(reading) => {
                match track_from_reading(resp.service_name.as_str(), reading.status,
                    &reading.metadata) {
                    Some(t) => {
                        candidates.push((resp.service_name.clone(), t));
                        proof {
                            assert(candidate_views(candidates@) =~= candidate_views(prev)
                                + candidate_of(responses@[i as int]));
                        }
                    },
                    None => {
                        proof {
                            assert(candidate_of(responses@[i as int]) =~= Seq::empty());
                        }
                    },
                }
            },
            None => {
                proof {
                    assert(candidate_of(responses@[i as int]) =~= Seq::empty());
                }
            },
        }
        proof {
            let t1 = responses@.take(i + 1);
            assert(t1.drop_last() =~= responses@.take(i as int));
            assert(t1.last() == responses@[i as int]);
            assert(candidate_views(candidates@) =~= response_candidates(responses@.take(i + 1)));
        }
        i += 1;
    }
    proof {
        assert(responses@.take(responses@.len() as int) =~= responses@);
    }
    select_track(candidates)
}

/// On an empty candidate list the selection is necessarily empty.
pub proof fn lemma_empty_selection(c: Seq<(Seq<char>, TrackView)>, r: Option<TrackView>)
    requires
        c.len() == 0,
        selection_of(c, r),
    ensures
        r is None,
{
    match r {
        Some(t) => {
            let i = choose|i: int| is_selected(c, i) && t == c[i].1;
            assert(false);
        },
        None => {},
    }
}

/// If no registered service name lies in the media-player namespace, the
/// cycle has one query outcome per matched name — that is, none — and
/// therefore yields no track.
pub proof fn lemma_no_matching_services_no_track(
    names: Seq<Seq<char>>,
    rs: Seq<PlayerResponse>,
    r: Option<TrackView>,
)
    requires
        forall|i: int| 0 <= i < names.len() ==> !crate::media::is_player_service(names[i]),
        rs.len() == crate::media::filter_players(names).len(),
        selection_of(response_candidates(rs), r),
    ensures
        r is None,
{
    crate::media::lemma_no_player_services(names);
    lemma_empty_selection(response_candidates(rs), r);
}

/// If every queried player that answered reports Stopped, the cycle yields
/// no candidate and therefore no track.
pub proof fn lemma_all_stopped(rs: Seq<PlayerResponse>, r: Option<TrackView>)
    requires
        forall|i: int|
            0 <= i < rs.len() ==> ((#[trigger] rs[i].reading) matches Some(rd)
                ==> rd.status is Stopped),
        selection_of(response_candidates(rs), r),
    ensures
        r is None,
    decreases rs.len(),
{
    lemma_all_stopped_empty(rs);
    lemma_empty_selection(response_candidates(rs), r);
}

proof fn lemma_all_stopped_empty(rs: Seq<PlayerResponse>)
    requires
        forall|i: int|
            0 <= i < rs.len() ==> ((#[trigger] rs[i].reading) matches Some(rd)
                ==> rd.status is Stopped),
    ensures
        response_candidates(rs).len() == 0,
    decreases rs.len(),
{
    if rs.len() > 0 {
        assert(rs.last() == rs[rs.len() - 1]);
        assert(candidate_of(rs.last()) =~= Seq::empty());
        lemma_all_stopped_empty(rs.drop_last());
    }
}

/// Among two live candidates, the one whose service name holds the
/// table-listed token "spotify" wins over one whose name matches no listed
/// token, whichever of the two was discovered first.
pub proof fn lemma_spotify_outranks_unlisted(
    c: Seq<(Seq<char>, TrackView)>,
    i: int,
    r: Option<TrackView>,
)
    requires
        c.len() == 2,
        0 <= i < 2,
        crate::text::contains_seq(c[i].0, "spotify"@),
        !crate::text::contains_seq(c[1 - i].0, "spotify"@),
        !crate::text::contains_seq(c[1 - i].0, "vlc"@),
        !crate::text::contains_seq(c[1 - i].0, "firefox"@),
        !crate::text::contains_seq(c[1 - i].0, "chromium"@),
        !crate::text::contains_seq(c[1 - i].0, "chrome"@),
        !crate::text::contains_seq(c[1 - i].0, "brave"@),
        !crate::text::contains_seq(c[1 - i].0, "mpv"@),
        selection_of(c, r),
    ensures
        r == Some(c[i].1),
{
    assert(priority_of(c[i].0) == 1);
    assert(priority_of(c[1 - i].0) == 100);
    assert(is_selected(c, i));
    match r {
        None => {
            assert(false);
        },
        Some(t) => {
            let j = choose|j: int| is_selected(c, j) && t == c[j].1;
            lemma_selected_unique(c, i, j);
        },
    }
}

/// Selection is a function of the candidate list alone: two poll cycles over
/// unchanged query outcomes return equal records.
pub proof fn lemma_poll_idempotent(
    rs: Seq<PlayerResponse>,
    r1: Option<TrackView>,
    r2: Option<TrackView>,
)
    requires
        selection_of(response_candidates(rs), r1),
        selection_of(response_candidates(rs), r2),
    ensures
        r1 == r2,
{
    let c = response_candidates(rs);
    match (r1, r2) {
        (Some(t1), Some(t2)) => {
            let i1 = choose|i: int| is_selected(c, i) && t1 == c[i].1;
            let i2 = choose|i: int| is_selected(c, i) && t2 == c[i].1;
            lemma_selected_unique(c, i1, i2);
        },
        (Some(t1), None) => {
            let i1 = choose|i: int| is_selected(c, i) && t1 == c[i].1;
            assert(false);
        },
        (None, Some(t2)) => {
            let i2 = choose|i: int| is_selected(c, i) && t2 == c[i].1;
            assert(false);
        },
        (None, None) => {},
    }
}

} // verus!
