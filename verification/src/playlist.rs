//! The play queue: the listeners' own playlist, the tracks lined up after
//! it, and the suggestions that listeners vote on.

use std::collections::VecDeque;
use vstd::prelude::*;

use crate::track::TrackId;

verus! {

/// How the next track is chosen.
#[derive(Clone, Copy, Debug, PartialEq, Eq, Structural, PartialOrd, Ord)]
pub enum Mode {
    /// From the playlist, then from the tracks lined up after it.
    MANUAL,
    /// The suggestion with the most votes.
    AUTO,
}

/// A suggestion: a track and the number of votes it received.
pub type Suggestion = (TrackId, u32);

/// The play queue.
pub struct Playlist {
    pub mode: Mode,
    pub playlist: VecDeque<TrackId>,
    pub next_up: VecDeque<TrackId>,
    pub suggestions: VecDeque<Suggestion>,
}

/// The model of a [`Playlist`].
pub struct PlaylistView {
    pub mode: Mode,
    pub playlist: Seq<TrackId>,
    pub next_up: Seq<TrackId>,
    pub suggestions: Seq<Suggestion>,
}

impl View for Playlist {
    type V = PlaylistView;

    open spec fn view(&self) -> PlaylistView {
        PlaylistView {
            mode: self.mode,
            playlist: self.playlist@,
            next_up: self.next_up@,
            suggestions: self.suggestions@,
        }
    }
}

/// The index of the last suggestion of `s` with the most votes
/// (meaningful when `s` is not empty).
pub open spec fn last_max_index(s: Seq<Suggestion>) -> int
    decreases s.len(),
{
    if s.len() <= 1 {
        0
    } else {
        let j = last_max_index(s.drop_last());
        if s.last().1 >= s[j].1 {
            s.len() - 1
        } else {
            j
        }
    }
}

/// The track that automatic mode picks among the suggestions: the last one
/// among those with the most votes, or none when there are no suggestions.
pub open spec fn auto_pick(s: Seq<Suggestion>) -> Option<TrackId> {
    if s.len() == 0 {
        None
    } else {
        Some(s[last_max_index(s)].0)
    }
}

/// `i` indexes a suggestion with the most votes, and every later one has fewer.
pub open spec fn is_last_max(s: Seq<Suggestion>, i: int) -> bool {
    &&& 0 <= i < s.len()
    &&& forall|j: int| 0 <= j < s.len() ==> #[trigger] s[j].1 <= s[i].1
    &&& forall|j: int| i < j < s.len() ==> #[trigger] s[j].1 < s[i].1
}

/// `last_max_index` indexes the last suggestion with the most votes.
pub proof fn lemma_last_max_index(s: Seq<Suggestion>)
    requires
        s.len() > 0,
    ensures
        is_last_max(s, last_max_index(s)),
    decreases s.len(),
{
    if s.len() > 1 {
        let t = s.drop_last();
        lemma_last_max_index(t);
        let j0 = last_max_index(t);
        let k = last_max_index(s);
        assert forall|j: int| 0 <= j < s.len() implies #[trigger] s[j].1 <= s[k].1 by {
            if j < t.len() {
                assert(t[j] == s[j]);
                assert(t[j].1 <= t[j0].1);
            }
        }
        assert forall|j: int| k < j < s.len() implies #[trigger] s[j].1 < s[k].1 by {
            if j < t.len() {
                assert(t[j] == s[j]);
                assert(t[j].1 < t[j0].1);
            }
        }
    }
}

impl PlaylistView {
    /// The track that the next pick returns.
    pub open spec fn next_id(self) -> Option<TrackId> {
        match self.mode {
            Mode::MANUAL => if self.playlist.len() > 0 {
                Some(self.playlist[0])
            } else if self.next_up.len() > 0 {
                Some(self.next_up[0])
            } else {
                None
            },
            Mode::AUTO => auto_pick(self.suggestions),
        }
    }

    /// The queue after the next pick: in manual mode the picked track leaves
    /// the front of the queue it came from; in either mode the suggestions
    /// are cleared.
    pub open spec fn after_next(self) -> PlaylistView {
        match self.mode {
            Mode::MANUAL => if self.playlist.len() > 0 {
                PlaylistView {
                    playlist: self.playlist.drop_first(),
                    suggestions: Seq::empty(),
                    ..self
                }
            } else if self.next_up.len() > 0 {
                PlaylistView {
                    next_up: self.next_up.drop_first(),
                    suggestions: Seq::empty(),
                    ..self
                }
            } else {
                PlaylistView { suggestions: Seq::empty(), ..self }
            },
            Mode::AUTO => PlaylistView { suggestions: Seq::empty(), ..self },
        }
    }
}

/// Copies a queue of track identifiers.
pub(crate) fn copy_ids(q: &VecDeque<TrackId>) -> (r: VecDeque<TrackId>)
    ensures
        r@ == q@,
{
    let r = q.clone();
    assert(r@ =~= q@);
    r
}

/// Copies a queue of suggestions.
pub(crate) fn copy_suggestions(q: &VecDeque<Suggestion>) -> (r: VecDeque<Suggestion>)
    ensures
        r@ == q@,
{
    let mut r: VecDeque<Suggestion> = VecDeque::new();
    let n = q.len();
    for i in 0..n
        invariant
            n == q@.len(),
            r@ == q@.take(i as int),
    {
        let (id, votes) = q[i];
        r.push_back((id, votes));
        assert(q@.take(i + 1) =~= q@.take(i as int).push(q@[i as int]));
    }
    assert(q@.take(n as int) =~= q@);
    r
}

/// The index of the last suggestion with the most votes.
fn find_last_max(s: &VecDeque<Suggestion>) -> (r: usize)
    requires
        s@.len() > 0,
    ensures
        r as int == last_max_index(s@),
        r < s@.len(),
{
    proof {
        lemma_last_max_index(s@);
    }
    let n = s.len();
    let mut best: usize = 0;
    let mut i: usize = 1;
    while i < n
        invariant
            n == s@.len(),
            1 <= i <= n,
            best < i,
            best as int == last_max_index(s@.take(i as int)),
        decreases n - i,
    {
        let ghost t = s@.take(i as int + 1);
        assert(t.drop_last() =~= s@.take(i as int));
        if s[i].1 >= s[best].1 {
            best = i;
        }
        i = i + 1;
    }
    assert(s@.take(n as int) =~= s@);
    best
}

impl Playlist {
    /// An empty queue in automatic mode.
    pub fn new() -> (r: Playlist)
        ensures
            r@.mode == Mode::AUTO,
            r@.playlist == Seq::<TrackId>::empty(),
            r@.next_up == Seq::<TrackId>::empty(),
            r@.suggestions == Seq::<Suggestion>::empty(),
    {
        Playlist {
            playlist: VecDeque::new(),
            next_up: VecDeque::new(),
            suggestions: VecDeque::new(),
            mode: Mode::AUTO,
        }
    }

    /// Picks the next track. In manual mode it is taken from the front of
    /// the playlist, or of the tracks lined up when the playlist is empty;
    /// in automatic mode it is the last of the suggestions with the most
    /// votes, and no queue changes. The suggestions are cleared either way.
    pub fn next_track_id(&mut self) -> (r: Option<TrackId>)
        ensures
            r == old(self)@.next_id(),
            final(self)@ == old(self)@.after_next(),
    {
        let next_track = match self.mode {
            Mode::MANUAL => {
                if self.playlist.len() > 0 {
                    self.playlist.pop_front()
                } else {
                    self.next_up.pop_front()
                }
            },
            Mode::AUTO => {
                if self.suggestions.len() == 0 {
                    None
                } else {
                    let best = find_last_max(&self.suggestions);
                    Some(self.suggestions[best].0)
                }
            },
        };
        self.suggestions.clear();
        next_track
    }

    /// Empties the tracks lined up after the playlist.
    pub fn clear_next(&mut self)
        ensures
            final(self)@ == (PlaylistView { next_up: Seq::empty(), ..old(self)@ }),
    {
        self.next_up.clear();
    }
}

} // verus!
