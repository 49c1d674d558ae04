//! Which media clip a node shows at a given timeline time.
use vstd::prelude::*;
use crate::project::{
    MediaClip, MediaClipView, Project, ProjectView, TimelineTrack, TimelineTrackView, views,
};
use crate::text::str_eq;

verus! {

/// First instant at which a track's clip is active; 0 for an entry without media.
pub open spec fn track_start(track: TimelineTrackView) -> int {
    match track.media {
        Some(m) => m.start_at + m.in_time,
        None => 0,
    }
}

/// First instant after a track's clip has ended; 0 for an entry without media.
pub open spec fn track_end(track: TimelineTrackView) -> int {
    match track.media {
        Some(m) => m.start_at + m.out_time,
        None => 0,
    }
}

/// A track covers `(node, t)` when it places media on that node and `t` lies in
/// the half-open interval from its start to its end.
pub open spec fn covers(track: TimelineTrackView, node: Seq<char>, t: int) -> bool {
    match track.media {
        Some(m) => m.target_node_id == node && track_start(track) <= t < track_end(track),
        None => false,
    }
}

/// Track `w` wins among the first `n` tracks: it covers `(node, t)`, and every
/// other covering track among them starts earlier, or starts at the same
/// instant and stands no later in the sequence.
pub open spec fn wins_among(
    tracks: Seq<TimelineTrackView>,
    node: Seq<char>,
    t: int,
    n: int,
    w: int,
) -> bool {
    &&& 0 <= w < n <= tracks.len()
    &&& covers(tracks[w], node, t)
    &&& forall|j: int|
        0 <= j < n && covers(#[trigger] tracks[j], node, t) ==> {
            ||| track_start(tracks[j]) < track_start(tracks[w])
            ||| (track_start(tracks[j]) == track_start(tracks[w]) && j <= w)
        }
}

/// Track `w` wins among all tracks.
pub open spec fn wins(tracks: Seq<TimelineTrackView>, node: Seq<char>, t: int, w: int) -> bool {
    wins_among(tracks, node, t, tracks.len() as int, w)
}

/// The index of the winning track, if any track covers `(node, t)`.
pub open spec fn winner(tracks: Seq<TimelineTrackView>, node: Seq<char>, t: int) -> Option<int> {
    if exists|w: int| wins(tracks, node, t, w) {
        Some(choose|w: int| wins(tracks, node, t, w))
    } else {
        None
    }
}

/// Clip `c` is the first of the media list that carries `id`.
pub open spec fn is_first_with_id(media: Seq<MediaClipView>, id: Seq<char>, c: int) -> bool {
    &&& 0 <= c < media.len()
    &&& media[c].id == id
    &&& forall|k: int| 0 <= k < c ==> (#[trigger] media[k]).id != id
}

/// The index of the first clip that carries `id`, if there is one.
pub open spec fn clip_index(media: Seq<MediaClipView>, id: Seq<char>) -> Option<int> {
    if exists|c: int| is_first_with_id(media, id, c) {
        Some(choose|c: int| is_first_with_id(media, id, c))
    } else {
        None
    }
}

/// Id and uri of the clip that `node` shows at time `t`: the clip of the
/// winning track, looked up in the media list. There is none when the project
/// has no timeline, when no track covers `(node, t)`, or when the winning
/// track names a clip that the media list does not hold.
pub open spec fn active_clip(p: ProjectView, node: Seq<char>, t: int) -> Option<
    (Seq<char>, Seq<char>),
> {
    match p.timeline {
        None => None,
        Some(timeline) => match winner(timeline.tracks, node, t) {
            None => None,
            Some(w) => match clip_index(p.media, timeline.tracks[w].media.unwrap().clip_id) {
                None => None,
                Some(c) => Some((p.media[c].id, p.media[c].uri)),
            },
        },
    }
}

/// The characters of an optional pair of strings.
pub open spec fn pair_view(r: Option<(String, String)>) -> Option<(Seq<char>, Seq<char>)> {
    match r {
        Some((a, b)) => Some((a@, b@)),
        None => None,
    }
}

/// At most one track wins.
pub proof fn lemma_winner_is_unique(
    tracks: Seq<TimelineTrackView>,
    node: Seq<char>,
    t: int,
    a: int,
    b: int,
)
    requires
        wins(tracks, node, t, a),
        wins(tracks, node, t, b),
    ensures
        a == b,
{
}

/// A track that wins is the one that `winner` names.
pub proof fn lemma_winner_is(tracks: Seq<TimelineTrackView>, node: Seq<char>, t: int, w: int)
    requires
        wins(tracks, node, t, w),
    ensures
        winner(tracks, node, t) == Some(w),
{
    let c = choose|c: int| wins(tracks, node, t, c);
    lemma_winner_is_unique(tracks, node, t, c, w);
}

/// At most one clip is the first with a given id, and `clip_index` names it.
pub proof fn lemma_clip_index_is(media: Seq<MediaClipView>, id: Seq<char>, c: int)
    requires
        is_first_with_id(media, id, c),
    ensures
        clip_index(media, id) == Some(c),
{
    let d = choose|d: int| is_first_with_id(media, id, d);
    assert(d == c) by {
        if d < c {
            assert(media[d].id != id);
        }
        if c < d {
            assert(media[c].id != id);
        }
    }
}

/// The position in `tracks` of the track that wins for `(node_id, t)`.
pub fn winning_track(tracks: &Vec<TimelineTrack>, node_id: &str, t: i64) -> (r: Option<usize>)
    ensures
        r.is_some() == winner(views(tracks@), node_id@, t as int).is_some(),
        r matches Some(w) ==> winner(views(tracks@), node_id@, t as int) == Some(
            w as int,
        ),
{
    let ghost all = views(tracks@);
    let mut best: Option<usize> = None;
    let mut best_start: i128 = 0;
    let mut i: usize = 0;
    while i < tracks.len()
        invariant
            i <= tracks.len(),
            all == views(tracks@),
            match best {
                Some(w) => wins_among(all, node_id@, t as int, i as int, w as int) && best_start
                    == track_start(all[w as int]),
                None => forall|j: int| 0 <= j < i ==> !covers(#[trigger] all[j], node_id@, t as int),
            },
        decreases tracks.len() - i,
    {
        assert(all[i as int] == tracks@[i as int]@);
        match &tracks[i].media {
            Some(m) => {
                if str_eq(m.target_node_id.as_str(), node_id) {
                    let start: i128 = m.start_at as i128 + m.in_time as i128;
                    let end: i128 = m.start_at as i128 + m.out_time as i128;
                    if start <= t as i128 && (t as i128) < end {
                        let replace = match best {
                            Some(_) => start >= best_start,
                            None => true,
                        };
                        if replace {
                            best = Some(i);
                            best_start = start;
                        }
                    }
                }
            },
            None => {},
        }
        i = i + 1;
    }
    proof {
        match best {
            Some(w) => {
                lemma_winner_is(all, node_id@, t as int, w as int);
            },
            None => {
                assert forall|w: int| !wins(all, node_id@, t as int, w) by {
                    if wins(all, node_id@, t as int, w) {
                        assert(covers(all[w], node_id@, t as int));
                    }
                }
            },
        }
    }
    best
}

/// The first clip of `media` that carries `id`.
pub fn find_clip<'a>(media: &'a Vec<MediaClip>, id: &str) -> (r: Option<&'a MediaClip>)
    ensures
        match clip_index(views(media@), id@) {
            Some(c) => r == Some(&media@[c]),
            None => r.is_none(),
        },
{
    let ghost all = views(media@);
    let mut i: usize = 0;
    while i < media.len()
        invariant
            i <= media.len(),
            all == views(media@),
            forall|k: int| 0 <= k < i ==> (#[trigger] all[k]).id != id@,
        decreases media.len() - i,
    {
        assert(all[i as int] == media@[i as int]@);
        if str_eq(media[i].id.as_str(), id) {
            proof {
                lemma_clip_index_is(all, id@, i as int);
            }
            return Some(&media[i]);
        }
        i = i + 1;
    }
    proof {
        assert forall|c: int| !is_first_with_id(all, id@, c) by {
            if is_first_with_id(all, id@, c) {
                assert(all[c].id != id@);
            }
        }
    }
    None
}

/// Id and uri of the clip that the node `node_id` shows at timeline time `t`.
pub fn active_clip_for_node(project: &Project, node_id: &str, t: i64) -> (r: Option<
    (String, String),
>)
    ensures
        pair_view(r) == active_clip(project@, node_id@, t as int),
{
    match &project.timeline {
        None => None,
        Some(timeline) => {
            match winning_track(&timeline.tracks, node_id, t) {
                None => None,
                Some(w) => {
                    assert(project@.timeline.unwrap().tracks[w as int] == timeline.tracks@[w as int]@);
                    match &timeline.tracks[w].media {
                        None => None,
                        Some(m) => {
                            match find_clip(&project.media, m.clip_id.as_str()) {
                                None => None,
                                Some(clip) => Some((clip.id.clone(), clip.uri.clone())),
                            }
                        },
                    }
                },
            }
        },
    }
}

// ------------------------------------------------------------------ laws

/// Among the first `n` tracks either one wins or none covers `(node, t)`.
pub proof fn lemma_winner_among(tracks: Seq<TimelineTrackView>, node: Seq<char>, t: int, n: nat) -> (w:
    Option<int>)
    requires
        n <= tracks.len(),
    ensures
        match w {
            Some(w) => wins_among(tracks, node, t, n as int, w),
            None => forall|j: int| 0 <= j < n ==> !covers(#[trigger] tracks[j], node, t),
        },
    decreases n,
{
    if n == 0 {
        None
    } else {
        let before = lemma_winner_among(tracks, node, t, (n - 1) as nat);
        if covers(tracks[n - 1], node, t) {
            match before {
                Some(b) => if track_start(tracks[n - 1]) < track_start(tracks[b]) {
                    Some(b)
                } else {
                    Some(n - 1)
                },
                None => Some(n - 1),
            }
        } else {
            before
        }
    }
}

/// Latest start wins: when a track covers `(node, t)`, some track wins, and
/// the winner starts no earlier than that track; if both start at the same
/// instant, the winner stands no earlier in the sequence.
pub proof fn lemma_latest_start_wins(tracks: Seq<TimelineTrackView>, node: Seq<char>, t: int, i: int)
    requires
        0 <= i < tracks.len(),
        covers(tracks[i], node, t),
    ensures
        winner(tracks, node, t) matches Some(w) && {
            &&& wins(tracks, node, t, w)
            &&& track_start(tracks[w]) >= track_start(tracks[i])
            &&& track_start(tracks[w]) == track_start(tracks[i]) ==> w >= i
        },
{
    match lemma_winner_among(tracks, node, t, tracks.len()) {
        Some(w) => {
            lemma_winner_is(tracks, node, t, w);
        },
        None => {
            assert(!covers(tracks[i], node, t));
        },
    }
}

/// No track wins where no track covers.
pub proof fn lemma_no_cover_no_winner(tracks: Seq<TimelineTrackView>, node: Seq<char>, t: int)
    requires
        forall|j: int| 0 <= j < tracks.len() ==> !covers(#[trigger] tracks[j], node, t),
    ensures
        winner(tracks, node, t).is_none(),
{
    assert forall|w: int| !wins(tracks, node, t, w) by {
        if wins(tracks, node, t, w) {
            assert(covers(tracks[w], node, t));
        }
    }
}

/// A track's interval is closed at its start and open at its end. At its start
/// the track covers its node, and the winner is that track or a later one with
/// the same start. At its end the track does not cover its node and does not
/// win.
pub proof fn lemma_interval_is_half_open(tracks: Seq<TimelineTrackView>, k: int)
    requires
        0 <= k < tracks.len(),
        tracks[k].media.is_some(),
        track_start(tracks[k]) < track_end(tracks[k]),
    ensures
        ({
            let node = tracks[k].media.unwrap().target_node_id;
            let a = track_start(tracks[k]);
            let b = track_end(tracks[k]);
            &&& covers(tracks[k], node, a)
            &&& !covers(tracks[k], node, b)
            &&& winner(tracks, node, b) != Some(k)
            &&& winner(tracks, node, a) matches Some(w) && w >= k && track_start(tracks[w]) == a
        }),
{
    let node = tracks[k].media.unwrap().target_node_id;
    let a = track_start(tracks[k]);
    let b = track_end(tracks[k]);
    lemma_latest_start_wins(tracks, node, a, k);
    if winner(tracks, node, b) == Some(k) {
        assert(wins(tracks, node, b, k));
    }
}

/// A project whose timeline has one track shows that track's clip on the
/// track's node at the start of the track's interval, and nothing at its end.
pub proof fn lemma_single_track_is_half_open(p: ProjectView, c: int)
    requires
        p.timeline.is_some(),
        p.timeline.unwrap().tracks.len() == 1,
        p.timeline.unwrap().tracks[0].media.is_some(),
        track_start(p.timeline.unwrap().tracks[0]) < track_end(p.timeline.unwrap().tracks[0]),
        is_first_with_id(p.media, p.timeline.unwrap().tracks[0].media.unwrap().clip_id, c),
    ensures
        ({
            let track = p.timeline.unwrap().tracks[0];
            let node = track.media.unwrap().target_node_id;
            &&& active_clip(p, node, track_start(track)) == Some((p.media[c].id, p.media[c].uri))
            &&& active_clip(p, node, track_end(track)).is_none()
        }),
{
    let tracks = p.timeline.unwrap().tracks;
    let track = tracks[0];
    let node = track.media.unwrap().target_node_id;
    lemma_interval_is_half_open(tracks, 0);
    lemma_clip_index_is(p.media, track.media.unwrap().clip_id, c);
    lemma_no_cover_no_winner(tracks, node, track_end(track));
}

} // verus!
