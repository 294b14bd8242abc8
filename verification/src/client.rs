//! What a listener's client knows of the radio, and how each message of the
//! server changes it.

use std::collections::VecDeque;
use vstd::prelude::*;

use crate::dto::Timestamp;
use crate::library::{map_of_entries, Library};
use crate::playlist;
use crate::playlist::{copy_ids, copy_suggestions, Suggestion};
use crate::protocol::{ServerToClient, ServerToClientView};
use crate::track::{InfoView, TrackDuration, TrackId};

verus! {

/// The client's state.
pub struct AppState {
    pub current_track_id: Option<TrackId>,
    pub current_track_start_time: Option<Timestamp>,
    pub current_track_duration: Option<TrackDuration>,
    pub now: Timestamp,
    pub library: Library,
    pub playlist_ids: VecDeque<TrackId>,
    pub next_up_ids: VecDeque<TrackId>,
    pub suggestions: VecDeque<Suggestion>,
    pub connected: bool,
    pub mode: playlist::Mode,
}

/// The model of an [`AppState`].
pub struct AppStateView {
    pub current_track_id: Option<TrackId>,
    pub current_track_start_time: Option<Timestamp>,
    pub current_track_duration: Option<TrackDuration>,
    pub now: Timestamp,
    pub library: Map<TrackId, InfoView>,
    pub playlist_ids: Seq<TrackId>,
    pub next_up_ids: Seq<TrackId>,
    pub suggestions: Seq<Suggestion>,
    pub connected: bool,
    pub mode: playlist::Mode,
}

impl View for AppState {
    type V = AppStateView;

    open spec fn view(&self) -> AppStateView {
        AppStateView {
            current_track_id: self.current_track_id,
            current_track_start_time: self.current_track_start_time,
            current_track_duration: self.current_track_duration,
            now: self.now,
            library: self.library@,
            playlist_ids: self.playlist_ids@,
            next_up_ids: self.next_up_ids@,
            suggestions: self.suggestions@,
            connected: self.connected,
            mode: self.mode,
        }
    }
}

/// The server's messages that a client takes: every one but the one that
/// says that no track is playing.
pub open spec fn accepted_event(event: ServerToClientView) -> bool {
    !(event matches ServerToClientView::CurrentTrackUpdate(None))
}

/// The client's state after a message of the server.
pub open spec fn applied(s: AppStateView, event: ServerToClientView) -> AppStateView {
    match event {
        ServerToClientView::LibraryUpdate(tracks) => AppStateView {
            library: map_of_entries(tracks),
            ..s
        },
        ServerToClientView::PlaylistUpdate(u) => AppStateView {
            playlist_ids: u.playlist,
            next_up_ids: u.next_up,
            suggestions: u.suggestions,
            ..s
        },
        ServerToClientView::ModeUpdate(m) => AppStateView { mode: m.mode, ..s },
        ServerToClientView::CurrentTrackUpdate(c) => match c {
            Some(c) => AppStateView {
                current_track_start_time: Some(c.start_time),
                current_track_id: Some(c.track_id),
                current_track_duration: Some(c.duration),
                ..s
            },
            None => s,
        },
    }
}

impl AppState {
    /// A client that has not heard from the server yet: no track, an empty
    /// library and queue, not connected, automatic mode.
    pub fn new(now: Timestamp) -> (r: AppState)
        ensures
            r@.current_track_id is None,
            r@.current_track_start_time is None,
            r@.current_track_duration is None,
            r@.now == now,
            r@.library == Map::<TrackId, InfoView>::empty(),
            r@.playlist_ids.len() == 0,
            r@.next_up_ids.len() == 0,
            r@.suggestions.len() == 0,
            !r@.connected,
            r@.mode == playlist::Mode::AUTO,
    {
        let empty: Vec<crate::dto::Track> = Vec::new();
        let library = Library::from_tracks(&empty);
        assert(empty@.map_values(|t: crate::dto::Track| t@) =~= Seq::empty());
        AppState {
            current_track_id: None,
            current_track_start_time: None,
            current_track_duration: None,
            now,
            library,
            playlist_ids: VecDeque::new(),
            next_up_ids: VecDeque::new(),
            suggestions: VecDeque::new(),
            connected: false,
            mode: playlist::Mode::AUTO,
        }
    }

    /// Takes a message of the server: a library update replaces the library,
    /// a queue update the three queues, a mode update the mode, and a track
    /// update the track playing.
    pub fn apply_event(&mut self, event: ServerToClient)
        requires
            accepted_event(event@),
        ensures
            final(self)@ == applied(old(self)@, event@),
    {
        match event {
            ServerToClient::LibraryUpdate(u) => {
                self.library = Library::from_tracks(&u.library);
            },
            ServerToClient::PlaylistUpdate(u) => {
                self.playlist_ids = copy_ids(&u.playlist);
                self.next_up_ids = copy_ids(&u.next_up);
                self.suggestions = copy_suggestions(&u.suggestions);
            },
            ServerToClient::ModeUpdate(mode) => {
                self.mode = mode.mode;
            },
            ServerToClient::CurrentTrackUpdate(current_track) => {
                match current_track {
                    Some(current_track) => {
                        self.current_track_start_time = Some(current_track.start_time);
                        self.current_track_id = Some(current_track.track_id);
                        self.current_track_duration = Some(current_track.duration);
                    },
                    None => {},
                }
            },
        }
    }
}

} // verus!
