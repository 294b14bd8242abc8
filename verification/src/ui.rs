//! What the client shows: the connection status, the track playing, the
//! queue or the voting board, and each track's cover.

use base64::engine::general_purpose::STANDARD;
use base64::Engine;
use vstd::prelude::*;
use vstd::string::StringExecFns;

use crate::client::{AppState, AppStateView};
use crate::playlist::Suggestion;
use crate::track::{Info, InfoView, TrackId};

verus! {

/// The standard base64 encoding (RFC 4648 alphabet, with `=` padding) of a
/// byte sequence.
pub uninterp spec fn base64_standard(bytes: Seq<u8>) -> Seq<char>;

/// The length of a padded base64 encoding: four characters for each started
/// group of three bytes.
pub open spec fn padded_base64_len(n: nat) -> nat {
    ((n + 2) / 3 * 4) as nat
}

/// `base64::Engine::encode` of the `STANDARD` engine: the padded base64
/// encoding of the bytes, named `base64_standard`, whose length is four
/// characters per started group of three bytes. The crate computes that
/// length first and panics when it overflows `usize`; `requires` leaves that
/// out.
#[verifier::external_body]
fn base64_encode(bytes: &[u8]) -> (r: String)
    requires
        padded_base64_len(bytes@.len()) <= usize::MAX,
    ensures
        r@ == base64_standard(bytes@),
        r@.len() == padded_base64_len(bytes@.len()),
{
    STANDARD.encode(bytes)
}

/// The CSS class of the connection status.
pub fn status_class(connected: bool) -> (r: &'static str)
    ensures
        r@ == if connected {
            "status status--connected"@
        } else {
            "status status--disconnected"@
        },
{
    if connected {
        "status status--connected"
    } else {
        "status status--disconnected"
    }
}

/// The CSS class of a track's card: the track playing is shown large.
pub fn track_class(main: bool) -> (r: &'static str)
    ensures
        r@ == if main {
            "track track--main"@
        } else {
            "track"@
        },
{
    if main {
        "track track--main"
    } else {
        "track"
    }
}

/// The media type of an image, told by its first bytes.
pub open spec fn spec_detect_mime(b: Seq<u8>) -> Seq<char> {
    if b.len() >= 3 && b[0] == 0xFF && b[1] == 0xD8 && b[2] == 0xFF {
        "image/jpeg"@
    } else if b.len() >= 4 && b[0] == 0x89 && b[1] == 0x50 && b[2] == 0x4E && b[3] == 0x47 {
        "image/png"@
    } else if b.len() >= 3 && b[0] == 0x47 && b[1] == 0x49 && b[2] == 0x46 {
        "image/gif"@
    } else if b.len() >= 12 && b[0] == 0x52 && b[1] == 0x49 && b[2] == 0x46 && b[3] == 0x46
        && b[8] == 0x57 && b[9] == 0x45 && b[10] == 0x42 && b[11] == 0x50 {
        "image/webp"@
    } else {
        "application/octet-stream"@
    }
}

/// The media type of an image, told by its signature: JPEG, PNG, GIF or
/// WebP, else a generic byte stream.
pub fn detect_mime(bytes: &[u8]) -> (r: &'static str)
    ensures
        r@ == spec_detect_mime(bytes@),
{
    let n = bytes.len();
    if n >= 3 && bytes[0] == 0xFF && bytes[1] == 0xD8 && bytes[2] == 0xFF {
        "image/jpeg"
    } else if n >= 4 && bytes[0] == 0x89 && bytes[1] == 0x50 && bytes[2] == 0x4E && bytes[3] == 0x47 {
        "image/png"
    } else if n >= 3 && bytes[0] == 0x47 && bytes[1] == 0x49 && bytes[2] == 0x46 {
        "image/gif"
    } else if n >= 12 && bytes[0] == 0x52 && bytes[1] == 0x49 && bytes[2] == 0x46 && bytes[3] == 0x46
        && bytes[8] == 0x57 && bytes[9] == 0x45 && bytes[10] == 0x42 && bytes[11] == 0x50 {
        "image/webp"
    } else {
        "application/octet-stream"
    }
}

/// The data URL of a cover image: its media type and its base64 encoding.
pub open spec fn spec_cover_data_url(b: Seq<u8>) -> Seq<char> {
    "data:"@ + spec_detect_mime(b) + ";base64,"@ + base64_standard(b)
}

/// The data URL under which a cover image is shown.
pub fn cover_data_url(bytes: &[u8]) -> (r: String)
    requires
        padded_base64_len(bytes@.len()) <= usize::MAX,
    ensures
        r@ == spec_cover_data_url(bytes@),
{
    let mime = detect_mime(bytes);
    let b64 = base64_encode(bytes);
    let mut url = String::from_str("data:");
    url.append(mime);
    url.append(";base64,");
    url.append(b64.as_str());
    url
}

/// The description of the track playing, if the client knows both.
pub open spec fn spec_now_playing(s: AppStateView) -> Option<InfoView> {
    match s.current_track_id {
        Some(id) => if s.library.contains_key(id) {
            Some(s.library[id])
        } else {
            None
        },
        None => None,
    }
}

/// The description of the track playing, as the client shows it.
pub fn now_playing(state: &AppState) -> (r: Option<Info>)
    ensures
        match r {
            Some(info) => spec_now_playing(state@) == Some(info@),
            None => spec_now_playing(state@) is None,
        },
{
    match state.current_track_id {
        Some(id) => state.library.get_track_info(id),
        None => None,
    }
}

/// The descriptions of the given tracks that the library has, in order.
pub open spec fn resolve_ids(ids: Seq<TrackId>, lib: Map<TrackId, InfoView>) -> Seq<InfoView> {
    ids.filter_map(
        |id: TrackId|
            if lib.contains_key(id) {
                Some(lib[id])
            } else {
                None
            },
    )
}

/// The lined-up tracks, as the client shows them in manual mode: those the
/// library describes, in queue order.
pub fn manual_queue(state: &AppState) -> (r: Vec<Info>)
    ensures
        r@.map_values(|i: Info| i@) == resolve_ids(state@.next_up_ids, state@.library),
{
    let ghost ids = state@.next_up_ids;
    let ghost lib = state@.library;
    let ghost f = |id: TrackId|
        if lib.contains_key(id) {
            Some(lib[id])
        } else {
            None
        };
    let mut out: Vec<Info> = Vec::new();
    let n = state.next_up_ids.len();
    for i in 0..n
        invariant
            n == ids.len(),
            ids == state@.next_up_ids,
            lib == state@.library,
            f == (|id: TrackId|
                if lib.contains_key(id) {
                    Some(lib[id])
                } else {
                    None
                }),
            out@.map_values(|x: Info| x@) == ids.take(i as int).filter_map(f),
    {
        let id = state.next_up_ids[i];
        proof {
            ids.lemma_filter_map_take_succ(f, i as int);
        }
        match state.library.get_track_info(id) {
            Some(info) => {
                out.push(info);
                assert(out@.map_values(|x: Info| x@) =~= ids.take(i as int).filter_map(f) + seq![
                    lib[id],
                ]);
            },
            None => {},
        }
    }
    assert(ids.take(n as int) =~= ids);
    out
}

/// The suggestions that the library describes, each with its votes, in
/// suggestion order.
pub open spec fn resolve_suggestions(s: Seq<Suggestion>, lib: Map<TrackId, InfoView>) -> Seq<
    (InfoView, u32),
> {
    s.filter_map(
        |x: Suggestion|
            if lib.contains_key(x.0) {
                Some((lib[x.0], x.1))
            } else {
                None
            },
    )
}

/// Entry `a` comes before entry `b` on the voting board: it has more votes,
/// or as many and was suggested earlier.
pub open spec fn votes_before(v: Seq<u32>, a: int, b: int) -> bool {
    v[a] > v[b] || (v[a] == v[b] && a < b)
}

/// `p` lists the indices of `v` in voting-board order: most votes first,
/// ties in the order in which they were suggested.
pub open spec fn is_vote_order(v: Seq<u32>, p: Seq<usize>) -> bool {
    &&& p.len() == v.len()
    &&& forall|k: int| 0 <= k < p.len() ==> #[trigger] p[k] < v.len()
    &&& forall|k: int, l: int|
        0 <= k < l < p.len() ==> votes_before(v, #[trigger] p[k] as int, #[trigger] p[l] as int)
}

/// The indices of `votes` in voting-board order (a stable sort, most votes first).
fn vote_order(votes: &Vec<u32>) -> (p: Vec<usize>)
    ensures
        is_vote_order(votes@, p@),
{
    let n = votes.len();
    let mut p: Vec<usize> = Vec::new();
    for i in 0..n
        invariant
            n == votes@.len(),
            p@.len() == i,
            forall|k: int| 0 <= k < p@.len() ==> #[trigger] p@[k] < i,
            forall|k: int, l: int|
                0 <= k < l < p@.len() ==> votes_before(
                    votes@,
                    #[trigger] p@[k] as int,
                    #[trigger] p@[l] as int,
                ),
    {
        let vi = votes[i];
        let mut k: usize = 0;
        while k < p.len() && !(vi > votes[p[k]])
            invariant
                n == votes@.len(),
                i < n,
                vi == votes@[i as int],
                p@.len() == i,
                k <= p@.len(),
                forall|j: int| 0 <= j < p@.len() ==> #[trigger] p@[j] < i,
                forall|j: int| 0 <= j < k ==> votes@[#[trigger] p@[j] as int] >= vi,
            decreases p@.len() - k,
        {
            k = k + 1;
        }
        let ghost old_p = p@;
        p.insert(k, i);
        proof {
            assert forall|a: int, b: int| 0 <= a < b < p@.len() implies votes_before(
                votes@,
                #[trigger] p@[a] as int,
                #[trigger] p@[b] as int,
            ) by {
                if b < k {
                    assert(p@[a] == old_p[a] && p@[b] == old_p[b]);
                } else if b == k {
                    assert(p@[a] == old_p[a]);
                    assert(votes@[old_p[a] as int] >= vi);
                } else if a == k {
                    assert(p@[b] == old_p[b - 1]);
                    assert(votes_before(votes@, old_p[k as int] as int, old_p[b - 1] as int)
                        || b - 1 == k);
                } else if a < k {
                    assert(p@[a] == old_p[a] && p@[b] == old_p[b - 1]);
                } else {
                    assert(p@[a] == old_p[a - 1] && p@[b] == old_p[b - 1]);
                }
            }
            assert forall|j: int| 0 <= j < p@.len() implies #[trigger] p@[j] < i + 1 by {
                if j < k {
                    assert(p@[j] == old_p[j]);
                } else if j > k {
                    assert(p@[j] == old_p[j - 1]);
                }
            }
        }
    }
    p
}

/// `board` is the voting board of the suggestions `s`: their resolved
/// entries, most votes first, ties in suggestion order.
pub open spec fn is_voting_board(board: Seq<(InfoView, u32)>, s: Seq<(InfoView, u32)>) -> bool {
    exists|p: Seq<usize>| #[trigger] board_in_order(board, s, p)
}

/// `board` lists the entries of `s` in the order `p`, a voting-board order.
pub open spec fn board_in_order(board: Seq<(InfoView, u32)>, s: Seq<(InfoView, u32)>, p: Seq<usize>) -> bool {
    &&& is_vote_order(s.map_values(|e: (InfoView, u32)| e.1), p)
    &&& board.len() == s.len()
    &&& forall|k: int| 0 <= k < board.len() ==> #[trigger] board[k] == s[p[k] as int]
}

/// The models of a list of board entries.
pub open spec fn board_view(b: Seq<(Info, u32)>) -> Seq<(InfoView, u32)> {
    b.map_values(|e: (Info, u32)| (e.0@, e.1))
}

/// The voting board that the client shows in automatic mode: the
/// suggestions that the library describes, with their votes, most votes
/// first and ties in suggestion order.
pub fn auto_voting(state: &AppState) -> (r: Vec<(Info, u32)>)
    ensures
        is_voting_board(
            board_view(r@),
            resolve_suggestions(state@.suggestions, state@.library),
        ),
{
    let ghost sugg = state@.suggestions;
    let ghost lib = state@.library;
    let ghost f = |x: Suggestion|
        if lib.contains_key(x.0) {
            Some((lib[x.0], x.1))
        } else {
            None
        };
    let mut resolved: Vec<(Info, u32)> = Vec::new();
    let n = state.suggestions.len();
    for i in 0..n
        invariant
            n == sugg.len(),
            sugg == state@.suggestions,
            lib == state@.library,
            f == (|x: Suggestion|
                if lib.contains_key(x.0) {
                    Some((lib[x.0], x.1))
                } else {
                    None
                }),
            board_view(resolved@) == sugg.take(i as int).filter_map(f),
    {
        let (id, votes) = state.suggestions[i];
        proof {
            sugg.lemma_filter_map_take_succ(f, i as int);
        }
        match state.library.get_track_info(id) {
            Some(info) => {
                resolved.push((info, votes));
                assert(board_view(resolved@) =~= sugg.take(i as int).filter_map(f) + seq![
                    (lib[id], votes),
                ]);
            },
            None => {},
        }
    }
    assert(sugg.take(n as int) =~= sugg);
    let ghost s = board_view(resolved@);
    let mut votes: Vec<u32> = Vec::new();
    let m = resolved.len();
    for i in 0..m
        invariant
            m == resolved@.len(),
            s == board_view(resolved@),
            votes@ == s.map_values(|e: (InfoView, u32)| e.1).take(i as int),
    {
        votes.push(resolved[i].1);
        assert(votes@ =~= s.map_values(|e: (InfoView, u32)| e.1).take(i + 1));
    }
    assert(votes@ =~= s.map_values(|e: (InfoView, u32)| e.1));
    let order = vote_order(&votes);
    let mut board: Vec<(Info, u32)> = Vec::new();
    for k in 0..m
        invariant
            m == resolved@.len(),
            m == order@.len(),
            s == board_view(resolved@),
            is_vote_order(s.map_values(|e: (InfoView, u32)| e.1), order@),
            board@.len() == k,
            forall|j: int| 0 <= j < k ==> #[trigger] board_view(board@)[j] == s[order@[j] as int],
    {
        let idx = order[k];
        proof {
            assert(order@[k as int] < s.map_values(|e: (InfoView, u32)| e.1).len());
        }
        let entry = &resolved[idx];
        let ghost old_board = board@;
        board.push((entry.0.duplicate(), entry.1));
        proof {
            assert(board_view(board@)[k as int] == s[idx as int]);
            assert forall|j: int| 0 <= j < k + 1 implies #[trigger] board_view(board@)[j]
                == s[order@[j] as int] by {
                if j < k {
                    assert(board@[j] == old_board[j]);
                    assert(board_view(old_board)[j] == s[order@[j] as int]);
                }
            }
        }
    }
    assert(board_in_order(board_view(board@), s, order@));
    board
}

/// The votes of the leading suggestion: those of the board's first entry,
/// or none on an empty board.
pub fn leader_votes(board: &Vec<(Info, u32)>) -> (r: u32)
    ensures
        r == if board@.len() > 0 {
            board@[0].1
        } else {
            0
        },
{
    if board.len() > 0 {
        board[0].1
    } else {
        0
    }
}

/// Whether an entry with `votes` is shown as leading: it has the leader's
/// votes, and the leader has at least one.
pub fn is_leading(votes: u32, leader_votes: u32) -> (r: bool)
    ensures
        r == (votes == leader_votes && leader_votes > 0),
{
    votes == leader_votes && leader_votes > 0
}

} // verus!
