//! The music library: the description of every track, by identifier.

use rand::seq::IndexedRandom;
use std::collections::HashMap;
use vstd::prelude::*;
use vstd::std_specs::iter::IteratorSpec;

use crate::dto;
use crate::track::{Info, InfoView, TrackId};

verus! {

/// `rand::seq::IndexedRandom::choose` on the identifiers, with the thread's
/// generator `rand::rng()`: `None` when there are none, else one of them,
/// picked at random. Which one is left unsaid: it rests on chance.
#[verifier::external_body]
fn choose_random(ids: &Vec<TrackId>) -> (r: Option<TrackId>)
    ensures
        r is None <==> ids@.len() == 0,
        r matches Some(id) ==> ids@.contains(id),
{
    ids.choose(&mut rand::rng()).copied()
}

/// The music library.
pub struct Library {
    pub library: HashMap<TrackId, Info>,
}

impl View for Library {
    type V = Map<TrackId, InfoView>;

    open spec fn view(&self) -> Map<TrackId, InfoView> {
        self.library@.map_values(|i: Info| i@)
    }
}

/// The map that a list of entries gives when they are inserted in order: a
/// later entry for an identifier replaces an earlier one.
pub open spec fn map_of_entries(s: Seq<(TrackId, InfoView)>) -> Map<TrackId, InfoView>
    decreases s.len(),
{
    if s.len() == 0 {
        Map::empty()
    } else {
        map_of_entries(s.drop_last()).insert(s.last().0, s.last().1)
    }
}

/// The models of a list of entries.
pub open spec fn entries_view(s: Seq<(TrackId, Info)>) -> Seq<(TrackId, InfoView)> {
    s.map_values(|e: (TrackId, Info)| (e.0, e.1@))
}

/// `tracks` lists every track of `m` exactly once, each with its description.
pub open spec fn lists_library(tracks: Seq<(TrackId, InfoView)>, m: Map<TrackId, InfoView>) -> bool {
    &&& tracks.len() == m.dom().len()
    &&& forall|i: int| 0 <= i < tracks.len() ==> m.contains_key(#[trigger] tracks[i].0) && m[tracks[i].0]
        == tracks[i].1
    &&& forall|i: int, j: int| 0 <= i < j < tracks.len() ==> #[trigger] tracks[i].0 != #[trigger] tracks[j].0
    &&& forall|k: TrackId| #[trigger] m.contains_key(k) ==> exists|i: int| 0 <= i < tracks.len() && #[trigger] tracks[i].0 == k
}

/// Inserting the entries of a list gives a map whose keys are the list's
/// identifiers.
proof fn lemma_map_of_entries_dom(s: Seq<(TrackId, InfoView)>, k: TrackId)
    ensures
        map_of_entries(s).contains_key(k) <==> exists|i: int| 0 <= i < s.len() && #[trigger] s[i].0 == k,
    decreases s.len(),
{
    if s.len() > 0 {
        let t = s.drop_last();
        lemma_map_of_entries_dom(t, k);
        if exists|i: int| 0 <= i < t.len() && #[trigger] t[i].0 == k {
            let i = choose|i: int| 0 <= i < t.len() && #[trigger] t[i].0 == k;
            assert(s[i].0 == k);
        }
        if exists|i: int| 0 <= i < s.len() && #[trigger] s[i].0 == k {
            let i = choose|i: int| 0 <= i < s.len() && #[trigger] s[i].0 == k;
            if i < t.len() {
                assert(t[i].0 == k);
            }
        }
    }
}

/// When the identifiers of a list are distinct, each maps to its own
/// description.
proof fn lemma_map_of_entries_value(s: Seq<(TrackId, InfoView)>, i: int)
    requires
        0 <= i < s.len(),
        forall|a: int, b: int| 0 <= a < b < s.len() ==> #[trigger] s[a].0 != #[trigger] s[b].0,
    ensures
        map_of_entries(s).contains_key(s[i].0),
        map_of_entries(s)[s[i].0] == s[i].1,
    decreases s.len(),
{
    let t = s.drop_last();
    if i < s.len() - 1 {
        assert forall|a: int, b: int| 0 <= a < b < t.len() implies #[trigger] t[a].0 != #[trigger] t[b].0 by {
            assert(t[a] == s[a] && t[b] == s[b]);
        }
        lemma_map_of_entries_value(t, i);
        assert(s[i] == t[i]);
        assert(s[i].0 != s.last().0);
    }
}

/// A list that names every track of a library once gives back that library
/// when its entries are inserted.
pub proof fn lemma_listed_library_rebuilds(tracks: Seq<(TrackId, InfoView)>, m: Map<TrackId, InfoView>)
    requires
        lists_library(tracks, m),
    ensures
        map_of_entries(tracks) == m,
{
    let r = map_of_entries(tracks);
    assert forall|k: TrackId| r.contains_key(k) <==> m.contains_key(k) by {
        lemma_map_of_entries_dom(tracks, k);
        if m.contains_key(k) {
            let i = choose|i: int| 0 <= i < tracks.len() && #[trigger] tracks[i].0 == k;
        }
    }
    assert forall|k: TrackId| r.contains_key(k) implies r[k] == m[k] by {
        lemma_map_of_entries_dom(tracks, k);
        let i = choose|i: int| 0 <= i < tracks.len() && #[trigger] tracks[i].0 == k;
        lemma_map_of_entries_value(tracks, i);
    }
    assert(r =~= m);
}

impl Library {
    /// The library of the given entries, inserted in order.
    pub fn new(entries: Vec<(TrackId, Info)>) -> (r: Library)
        ensures
            r@ == map_of_entries(entries_view(entries@)),
    {
        let ghost all = entries_view(entries@);
        let mut library: HashMap<TrackId, Info> = HashMap::new();
        let n = entries.len();
        for i in 0..n
            invariant
                n == entries@.len(),
                all == entries_view(entries@),
                library@.map_values(|v: Info| v@) == map_of_entries(all.take(i as int)),
        {
            let id = entries[i].0;
            let info = entries[i].1.duplicate();
            let ghost iv = info@;
            library.insert(id, info);
            proof {
                assert(all.take(i + 1).drop_last() =~= all.take(i as int));
                assert(all.take(i + 1).last() == (id, iv));
                assert(library@.map_values(|v: Info| v@) =~= map_of_entries(all.take(i as int)).insert(id, iv));
            }
        }
        assert(all.take(n as int) =~= all);
        Library { library }
    }

    /// The library of the given tracks, inserted in order.
    pub fn from_tracks(tracks: &Vec<dto::Track>) -> (r: Library)
        ensures
            r@ == map_of_entries(tracks@.map_values(|t: dto::Track| t@)),
    {
        let ghost all = tracks@.map_values(|t: dto::Track| t@);
        let mut library: HashMap<TrackId, Info> = HashMap::new();
        let n = tracks.len();
        for i in 0..n
            invariant
                n == tracks@.len(),
                all == tracks@.map_values(|t: dto::Track| t@),
                library@.map_values(|v: Info| v@) == map_of_entries(all.take(i as int)),
        {
            let id = tracks[i].id;
            let info = tracks[i].info.duplicate();
            let ghost iv = info@;
            library.insert(id, info);
            proof {
                assert(all.take(i + 1).drop_last() =~= all.take(i as int));
                assert(all.take(i + 1).last() == (id, iv));
                assert(library@.map_values(|v: Info| v@) =~= map_of_entries(all.take(i as int)).insert(id, iv));
            }
        }
        assert(all.take(n as int) =~= all);
        Library { library }
    }

    /// The description of the track `id`, if the library has it.
    pub fn get_track_info(&self, id: TrackId) -> (r: Option<Info>)
        ensures
            match r {
                Some(info) => self@.contains_key(id) && info@ == self@[id],
                None => !self@.contains_key(id),
            },
    {
        match self.library.get(&id) {
            Some(info) => Some(info.duplicate()),
            None => None,
        }
    }

    /// The identifiers of every track.
    pub fn track_ids(&self) -> (r: Vec<TrackId>)
        ensures
            r@.len() == self@.dom().len(),
            r@.no_duplicates(),
            r@.to_set() == self@.dom(),
    {
        let mut ids: Vec<TrackId> = Vec::new();
        let ghost keys = self.library.keys().remaining().unref();
        assert(keys.to_set() == self.library@.dom());
        assert(self@.dom() =~= self.library@.dom());
        for id in it: self.library.keys()
            invariant
                it.seq().unref() == keys,
                ids@ == keys.take(it.index() as int),
        {
            proof {
                assert(keys.take(it.index() + 1) =~= keys.take(it.index() as int).push(*id));
            }
            ids.push(*id);
        }
        assert(ids@ =~= keys);
        ids
    }

    /// A track picked at random, or `None` when the library is empty.
    pub fn pick_random(&self) -> (r: Option<TrackId>)
        ensures
            r is None <==> self@.dom().len() == 0,
            r matches Some(id) ==> self@.contains_key(id),
    {
        let track_ids = self.track_ids();
        let r = choose_random(&track_ids);
        proof {
            if let Some(id) = r {
                assert(track_ids@.to_set().contains(id));
            }
        }
        r
    }

    /// Every track of the library with its description, each once, in the
    /// order in which the map is walked.
    pub fn tracks(&self) -> (r: Vec<dto::Track>)
        ensures
            lists_library(r@.map_values(|t: dto::Track| t@), self@),
    {
        let mut out: Vec<dto::Track> = Vec::new();
        let ghost kv = self.library.iter().remaining();
        for entry in it: self.library.iter()
            invariant
                it.seq() == kv,
                out@.len() == it.index(),
                forall|i: int| 0 <= i < it.index() ==> #[trigger] out@[i]@ == (*kv[i].0, kv[i].1@),
        {
            let (id, info) = entry;
            out.push(dto::Track { id: *id, info: info.duplicate() });
        }
        proof {
            let tv = out@.map_values(|t: dto::Track| t@);
            let m = self.library@;
            assert(self@.dom() =~= m.dom());
            assert(tv.len() == kv.len());
            assert forall|i: int| 0 <= i < tv.len() implies self@.contains_key(#[trigger] tv[i].0)
                && self@[tv[i].0] == tv[i].1 by {
                assert(m.contains_key(*kv[i].0) && m[*kv[i].0] == *kv[i].1);
            }
            assert forall|i: int, j: int| 0 <= i < j < tv.len() implies #[trigger] tv[i].0
                != #[trigger] tv[j].0 by {
                if tv[i].0 == tv[j].0 {
                    assert(m.contains_key(*kv[i].0) && m[*kv[i].0] == *kv[i].1);
                    assert(m.contains_key(*kv[j].0) && m[*kv[j].0] == *kv[j].1);
                    assert(kv[i] == kv[j]);
                }
            }
            assert forall|k: TrackId| #[trigger] self@.contains_key(k) implies exists|i: int|
                0 <= i < tv.len() && #[trigger] tv[i].0 == k by {
                assert(kv.contains((&k, &m[k])));
                let i = choose|i: int| 0 <= i < kv.len() && kv[i] == (&k, &m[k]);
                assert(tv[i].0 == k);
            }
        }
        out
    }
}

} // verus!
