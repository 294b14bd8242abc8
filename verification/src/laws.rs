//! Properties of the radio that span several operations, proved over the
//! models that the operations' contracts speak of.

use vstd::prelude::*;

use crate::client::{accepted_event, applied, AppStateView};
use crate::dto::{CurrentTrack, IdPlaylistView, Mode as ModeMessage};
use crate::library::{lemma_listed_library_rebuilds, map_of_entries};
use crate::middleware::{
    connection_step, next_track_step, playlist_update_step, start_track_step, within_target,
    MiddlewareView,
};
use crate::playlist::{auto_pick, is_last_max, lemma_last_max_index, Mode, PlaylistView, Suggestion};
use crate::protocol::{ClientId, OutgoingView, ServerToClientView};
use crate::track::{InfoView, TrackId};
use crate::track::{spec_extract_cover, RevisionView};
use crate::ui::{board_in_order, is_voting_board, resolve_ids, spec_detect_mime, votes_before};

verus! {

/// Automatic mode picks a suggestion with the most votes, and the last one
/// among several with as many.
pub proof fn law_auto_pick_is_last_most_voted(s: Seq<Suggestion>)
    ensures
        s.len() == 0 <==> auto_pick(s) is None,
        s.len() > 0 ==> exists|i: int| #[trigger] is_last_max(s, i) && auto_pick(s) == Some(s[i].0),
{
    if s.len() > 0 {
        lemma_last_max_index(s);
        let i = crate::playlist::last_max_index(s);
        assert(is_last_max(s, i));
    }
}

/// In manual mode, once the lined-up tracks are cleared and the playlist is
/// empty, no track is picked.
pub proof fn law_manual_pick_after_clear_next(p: PlaylistView)
    requires
        p.mode == Mode::MANUAL,
        p.playlist.len() == 0,
    ensures
        (PlaylistView { next_up: Seq::empty(), ..p }).next_id() is None,
{
}

/// Choosing the next track keeps the lined-up tracks and the suggestions
/// within the target, so that the radio can go on choosing.
pub proof fn law_next_track_keeps_target(
    old: MiddlewareView,
    p1: PlaylistView,
    new: MiddlewareView,
    r: Option<(TrackId, InfoView)>,
)
    requires
        within_target(old.playlist),
        next_track_step(old, p1, new, r),
    ensures
        within_target(new.playlist),
{
    assert(p1.next_up.len() <= 3 && p1.suggestions.len() <= 3);
}

/// After a choice every suggestion is fresh: each names a track of the
/// library and has no votes; with a non-empty library the lined-up tracks
/// and the suggestions are full.
pub proof fn law_next_track_fresh_suggestions(
    old: MiddlewareView,
    p1: PlaylistView,
    new: MiddlewareView,
    r: Option<(TrackId, InfoView)>,
)
    requires
        next_track_step(old, p1, new, r),
    ensures
        forall|i: int|
            0 <= i < new.playlist.suggestions.len() ==> old.library.contains_key(
                (#[trigger] new.playlist.suggestions[i]).0,
            ) && new.playlist.suggestions[i].1 == 0,
        old.library.dom().len() > 0 ==> new.playlist.next_up.len() == 3
            && new.playlist.suggestions.len() == 3,
{
    assert(p1.after_next().suggestions.len() == 0);
}

/// In manual mode with a playlist, the track chosen is the playlist's first,
/// whatever the random fillings, and it leaves the playlist.
pub proof fn law_manual_choice_follows_playlist(
    old: MiddlewareView,
    p1: PlaylistView,
    new: MiddlewareView,
    r: Option<(TrackId, InfoView)>,
)
    requires
        old.playlist.mode == Mode::MANUAL,
        old.playlist.playlist.len() > 0,
        old.library.contains_key(old.playlist.playlist[0]),
        next_track_step(old, p1, new, r),
    ensures
        r == Some((old.playlist.playlist[0], old.library[old.playlist.playlist[0]])),
        new.playlist.playlist == old.playlist.playlist.drop_first(),
{
}

/// A client that connects after a queue update is sent the updated
/// playlist and lined-up tracks.
pub proof fn law_connection_after_playlist_update(
    s0: MiddlewareView,
    u: IdPlaylistView,
    s1: MiddlewareView,
    out1: Seq<OutgoingView>,
    c: ClientId,
    s2: MiddlewareView,
    out2: Seq<OutgoingView>,
)
    requires
        playlist_update_step(s0, s1, u, out1),
        connection_step(s1, s2, c, out2),
    ensures
        out2[2] == OutgoingView::Broadcast(
            ServerToClientView::PlaylistUpdate(
                IdPlaylistView {
                    playlist: u.playlist,
                    next_up: u.next_up,
                    suggestions: s0.playlist.suggestions,
                },
            ),
        ),
{
}

/// A client that connects after a track started is sent that track.
pub proof fn law_connection_after_start(
    s0: MiddlewareView,
    current: CurrentTrack,
    s1: MiddlewareView,
    out1: Seq<OutgoingView>,
    c: ClientId,
    s2: MiddlewareView,
    out2: Seq<OutgoingView>,
)
    requires
        start_track_step(s0, s1, current, out1),
        connection_step(s1, s2, c, out2),
    ensures
        out2[1] == OutgoingView::Send(c, ServerToClientView::CurrentTrackUpdate(Some(current))),
{
}

/// The message that an outgoing message carries.
pub open spec fn payload(o: OutgoingView) -> ServerToClientView {
    match o {
        OutgoingView::Send(_, m) => m,
        OutgoingView::Broadcast(m) => m,
    }
}

/// A client that takes, in order, the messages that the server sends when it
/// connects knows what the server knows: the library, the track playing and
/// the queues. (A client told that no track plays does not take that
/// message, so a track must be playing.)
pub proof fn law_client_mirrors_server(
    s: MiddlewareView,
    s2: MiddlewareView,
    c: ClientId,
    out: Seq<OutgoingView>,
    a: AppStateView,
)
    requires
        connection_step(s, s2, c, out),
        s.current_track is Some,
    ensures
        accepted_event(payload(out[0])),
        accepted_event(payload(out[1])),
        accepted_event(payload(out[2])),
        ({
            let a3 = applied(applied(applied(a, payload(out[0])), payload(out[1])), payload(out[2]));
            &&& a3.library == s.library
            &&& a3.current_track_id == Some(s.current_track->0.track_id)
            &&& a3.current_track_start_time == Some(s.current_track->0.start_time)
            &&& a3.current_track_duration == Some(s.current_track->0.duration)
            &&& a3.playlist_ids == s.playlist.playlist
            &&& a3.next_up_ids == s.playlist.next_up
            &&& a3.suggestions == s.playlist.suggestions
        }),
{
    let tracks = choose|t: Seq<(TrackId, InfoView)>|
        out[0] == OutgoingView::Send(c, ServerToClientView::LibraryUpdate(t));
    if let OutgoingView::Send(_, ServerToClientView::LibraryUpdate(t)) = out[0] {
        lemma_listed_library_rebuilds(t, s.library);
        assert(map_of_entries(t) == s.library);
    }
}

/// Taking a message of the server twice leaves the client as taking it once,
/// so a repeated broadcast changes nothing.
pub proof fn law_apply_event_idempotent(a: AppStateView, e: ServerToClientView)
    requires
        accepted_event(e),
    ensures
        applied(applied(a, e), e) == applied(a, e),
{
}

/// When the probe's revision has a visual, the cover is its first visual,
/// whatever the container holds, a missing revision included; only when the
/// probe gives no visual does the container's first visual count.
pub proof fn law_probe_visual_is_the_cover(container: Option<RevisionView>, probe: RevisionView)
    ensures
        probe.visuals.len() > 0 ==> spec_extract_cover(container, Some(probe)) == Some(
            probe.visuals[0],
        ),
        probe.visuals.len() == 0 ==> spec_extract_cover(container, Some(probe)) == match container {
            Some(c) => if c.visuals.len() > 0 {
                Some(c.visuals[0])
            } else {
                None
            },
            None => None::<Seq<u8>>,
        },
{
}

/// Any bytes that begin with the JPEG start-of-image marker `FF D8 FF` are
/// detected as a JPEG image, whatever follows.
pub proof fn law_jpeg_marker_is_jpeg(b: Seq<u8>)
    requires
        b.len() >= 3,
        b[0] == 0xFF,
        b[1] == 0xD8,
        b[2] == 0xFF,
    ensures
        spec_detect_mime(b) == "image/jpeg"@,
{
}

/// After a mode update carrying mode `m`, the client's mode is `m`, whatever
/// it was before, and nothing else of the client changes.
pub proof fn law_mode_update_sets_client_mode(a: AppStateView, m: ModeMessage)
    ensures
        applied(a, ServerToClientView::ModeUpdate(m)).mode == m.mode,
        applied(a, ServerToClientView::ModeUpdate(m)) == (AppStateView { mode: m.mode, ..a }),
{
}

/// In manual mode the pick is the first track of the playlist, which loses
/// exactly that track; with an empty playlist it is the first lined-up
/// track, and the lined-up tracks lose exactly their first element.
pub proof fn law_manual_pick_takes_the_front(p: PlaylistView)
    requires
        p.mode == Mode::MANUAL,
    ensures
        p.playlist.len() > 0 ==> p.next_id() == Some(p.playlist[0]) && p.after_next().playlist
            == p.playlist.subrange(1, p.playlist.len() as int) && p.after_next().next_up
            == p.next_up,
        p.playlist.len() == 0 && p.next_up.len() > 0 ==> p.next_id() == Some(p.next_up[0])
            && p.after_next().next_up == p.next_up.subrange(1, p.next_up.len() as int)
            && p.after_next().playlist == p.playlist,
{
}

/// `pos` lists, in increasing order, exactly the positions of `ids` whose
/// identifier the library knows.
pub open spec fn known_positions(ids: Seq<TrackId>, lib: Map<TrackId, InfoView>, pos: Seq<int>) -> bool {
    &&& forall|k: int| 0 <= k < pos.len() ==> 0 <= #[trigger] pos[k] < ids.len()
    &&& forall|k: int, l: int| 0 <= k < l < pos.len() ==> #[trigger] pos[k] < #[trigger] pos[l]
    &&& forall|i: int|
        0 <= i < ids.len() ==> (lib.contains_key(#[trigger] ids[i]) <==> exists|k: int|
            0 <= k < pos.len() && #[trigger] pos[k] == i)
}

/// `shown` has one entry per known position, in order: the library's
/// description of the identifier there.
pub open spec fn shows_positions(
    shown: Seq<InfoView>,
    ids: Seq<TrackId>,
    lib: Map<TrackId, InfoView>,
    pos: Seq<int>,
) -> bool {
    &&& known_positions(ids, lib, pos)
    &&& shown.len() == pos.len()
    &&& forall|k: int| 0 <= k < shown.len() ==> #[trigger] shown[k] == lib[ids[pos[k]]]
}

/// The up-next list has one entry per lined-up identifier that the library
/// knows, in queue order and repeats included: its `k`-th entry describes
/// the `k`-th such identifier.
pub proof fn law_up_next_shows_each_known_position(ids: Seq<TrackId>, lib: Map<TrackId, InfoView>)
    ensures
        exists|pos: Seq<int>| #[trigger] shows_positions(resolve_ids(ids, lib), ids, lib, pos),
    decreases ids.len(),
{
    if ids.len() == 0 {
        assert(resolve_ids(ids, lib) =~= Seq::<InfoView>::empty());
        assert(shows_positions(resolve_ids(ids, lib), ids, lib, Seq::<int>::empty()));
    } else {
        let t = ids.drop_last();
        let x = ids.last();
        let n = ids.len() - 1;
        law_up_next_shows_each_known_position(t, lib);
        let pt = choose|pos: Seq<int>| #[trigger] shows_positions(resolve_ids(t, lib), t, lib, pos);
        let rt = resolve_ids(t, lib);
        assert(ids.drop_last() == t);
        if lib.contains_key(x) {
            let pos = pt.push(n);
            assert(resolve_ids(ids, lib) == rt + seq![lib[x]]);
            let r = resolve_ids(ids, lib);
            assert forall|i: int| 0 <= i < ids.len() implies (lib.contains_key(#[trigger] ids[i])
                <==> exists|k: int| 0 <= k < pos.len() && #[trigger] pos[k] == i) by {
                if i < n {
                    assert(ids[i] == t[i]);
                    if lib.contains_key(ids[i]) {
                        let k = choose|k: int| 0 <= k < pt.len() && #[trigger] pt[k] == i;
                        assert(pos[k] == i);
                    }
                    if exists|k: int| 0 <= k < pos.len() && #[trigger] pos[k] == i {
                        let k = choose|k: int| 0 <= k < pos.len() && #[trigger] pos[k] == i;
                        assert(k < pt.len());
                        assert(pt[k] == i);
                    }
                } else {
                    assert(pos[pos.len() - 1] == i);
                }
            }
            assert forall|k: int, l: int| 0 <= k < l < pos.len() implies #[trigger] pos[k]
                < #[trigger] pos[l] by {
                if l < pt.len() {
                    assert(pos[k] == pt[k] && pos[l] == pt[l]);
                } else {
                    assert(pos[k] == pt[k]);
                }
            }
            assert forall|k: int| 0 <= k < r.len() implies #[trigger] r[k] == lib[ids[pos[k]]] by {
                if k < rt.len() {
                    assert(r[k] == rt[k]);
                    assert(pos[k] == pt[k]);
                    assert(ids[pt[k]] == t[pt[k]]);
                }
            }
            assert(shows_positions(r, ids, lib, pos));
        } else {
            assert(resolve_ids(ids, lib) == rt);
            assert forall|i: int| 0 <= i < ids.len() implies (lib.contains_key(#[trigger] ids[i])
                <==> exists|k: int| 0 <= k < pt.len() && #[trigger] pt[k] == i) by {
                if i < n {
                    assert(ids[i] == t[i]);
                } else {
                    if exists|k: int| 0 <= k < pt.len() && #[trigger] pt[k] == i {
                        let k = choose|k: int| 0 <= k < pt.len() && #[trigger] pt[k] == i;
                        assert(pt[k] < t.len());
                    }
                }
            }
            assert forall|k: int| 0 <= k < rt.len() implies #[trigger] rt[k] == lib[ids[pt[k]]] by {
                assert(ids[pt[k]] == t[pt[k]]);
            }
            assert(shows_positions(rt, ids, lib, pt));
        }
    }
}

/// The voting board goes from most votes to fewest.
pub proof fn law_voting_board_sorted(board: Seq<(InfoView, u32)>, s: Seq<(InfoView, u32)>)
    requires
        is_voting_board(board, s),
    ensures
        forall|k: int, l: int| 0 <= k < l < board.len() ==> #[trigger] board[k].1 >= #[trigger] board[l].1,
{
    let p = choose|p: Seq<usize>| #[trigger] board_in_order(board, s, p);
    let v = s.map_values(|e: (InfoView, u32)| e.1);
    assert forall|k: int, l: int| 0 <= k < l < board.len() implies #[trigger] board[k].1
        >= #[trigger] board[l].1 by {
        assert(votes_before(v, p[k] as int, p[l] as int));
        assert(board[k] == s[p[k] as int]);
        assert(board[l] == s[p[l] as int]);
    }
}

} // verus!
