//! The values that the server and its clients exchange.

use std::collections::VecDeque;
use vstd::prelude::*;

use crate::playlist;
use crate::playlist::{copy_ids, copy_suggestions, Playlist, PlaylistView, Suggestion};
use crate::track::{Info, InfoView, TrackDuration, TrackId};

verus! {

/// A point in time in UTC: whole seconds since the Unix epoch and the
/// nanoseconds past that second.
#[derive(Clone, Copy, Debug, PartialEq, Eq, Structural)]
pub struct Timestamp {
    pub secs: i64,
    pub nanos: u32,
}

/// A track of the library with its identifier.
#[derive(Clone, Debug)]
pub struct Track {
    pub id: TrackId,
    pub info: Info,
}

impl View for Track {
    type V = (TrackId, InfoView);

    open spec fn view(&self) -> (TrackId, InfoView) {
        (self.id, self.info@)
    }
}

/// The queues of a play queue, by track identifier.
#[derive(Clone, Debug)]
pub struct IdPlaylist {
    pub playlist: VecDeque<TrackId>,
    pub next_up: VecDeque<TrackId>,
    pub suggestions: VecDeque<Suggestion>,
}

/// The model of an [`IdPlaylist`].
pub struct IdPlaylistView {
    pub playlist: Seq<TrackId>,
    pub next_up: Seq<TrackId>,
    pub suggestions: Seq<Suggestion>,
}

impl View for IdPlaylist {
    type V = IdPlaylistView;

    open spec fn view(&self) -> IdPlaylistView {
        IdPlaylistView {
            playlist: self.playlist@,
            next_up: self.next_up@,
            suggestions: self.suggestions@,
        }
    }
}

/// The queues of a play queue's model.
pub open spec fn id_playlist_of(p: PlaylistView) -> IdPlaylistView {
    IdPlaylistView { playlist: p.playlist, next_up: p.next_up, suggestions: p.suggestions }
}

impl IdPlaylist {
    /// The queues of `p`, copied.
    pub fn from_playlist(p: &Playlist) -> (r: IdPlaylist)
        ensures
            r@ == id_playlist_of(p@),
    {
        IdPlaylist {
            playlist: copy_ids(&p.playlist),
            next_up: copy_ids(&p.next_up),
            suggestions: copy_suggestions(&p.suggestions),
        }
    }

    /// A copy of these queues.
    pub fn duplicate(&self) -> (r: IdPlaylist)
        ensures
            r@ == self@,
    {
        IdPlaylist {
            playlist: copy_ids(&self.playlist),
            next_up: copy_ids(&self.next_up),
            suggestions: copy_suggestions(&self.suggestions),
        }
    }
}

/// The whole library, as a list of tracks.
#[derive(Clone, Debug)]
pub struct InfoLibrary {
    pub library: Vec<Track>,
}

impl View for InfoLibrary {
    type V = Seq<(TrackId, InfoView)>;

    open spec fn view(&self) -> Seq<(TrackId, InfoView)> {
        self.library@.map_values(|t: Track| t@)
    }
}

/// The way the next track is chosen.
#[derive(Clone, Copy, Debug, PartialEq, Eq, Structural)]
pub struct Mode {
    pub mode: playlist::Mode,
}

/// The track that is playing: when it started, which it is, and how long it lasts.
#[derive(Clone, Copy, Debug, PartialEq, Eq, Structural)]
pub struct CurrentTrack {
    pub start_time: Timestamp,
    pub track_id: TrackId,
    pub duration: TrackDuration,
}

} // verus!
