//! The radio's decisions: which track plays next, how the queue is kept
//! filled, and what the server tells its clients on each event.
//!
//! The program around it loads tracks, plays them, keeps the time and
//! carries the messages; it hands the outcome of that work back here.

use vstd::prelude::*;

use crate::dto;
use crate::dto::{id_playlist_of, CurrentTrack, IdPlaylist, IdPlaylistView, InfoLibrary, Timestamp};
use crate::library::{lists_library, Library};
use crate::playlist::{copy_ids, Mode, Playlist, PlaylistView, Suggestion};
use crate::protocol::{
    outgoing_view, ClientId, ClientToServer, ClientToServerView, Outgoing, OutgoingView,
    ServerEvent, ServerEventView, ServerToClient, ServerToClientView,
};
use crate::track::{Info, InfoView, TrackDuration, TrackId};

verus! {

/// How many tracks the queue of lined-up tracks, and the suggestions, are
/// filled up to.
pub const QUEUE_TARGET: usize = 3;

/// The radio's state: the library, the play queue and the track playing.
pub struct MiddlewareInner {
    pub music_library: Library,
    pub playlist: Playlist,
    pub current_track: Option<CurrentTrack>,
}

/// The model of a [`MiddlewareInner`].
pub struct MiddlewareView {
    pub library: Map<TrackId, InfoView>,
    pub playlist: PlaylistView,
    pub current_track: Option<CurrentTrack>,
}

impl View for MiddlewareInner {
    type V = MiddlewareView;

    open spec fn view(&self) -> MiddlewareView {
        MiddlewareView {
            library: self.music_library@,
            playlist: self.playlist@,
            current_track: self.current_track,
        }
    }
}

/// `new` is `old` filled up to the target with tracks of the library, or
/// `old` itself when the library is empty.
pub open spec fn filled_ids(old: Seq<TrackId>, new: Seq<TrackId>, lib: Map<TrackId, InfoView>) -> bool {
    if lib.dom().len() == 0 {
        new == old
    } else {
        &&& new.len() == QUEUE_TARGET
        &&& new.take(old.len() as int) == old
        &&& forall|i: int| old.len() <= i < new.len() ==> lib.contains_key(#[trigger] new[i])
    }
}

/// `new` is `old` filled up to the target with suggestions of tracks of the
/// library that have no votes yet, or `old` itself when the library is empty.
pub open spec fn filled_suggestions(
    old: Seq<Suggestion>,
    new: Seq<Suggestion>,
    lib: Map<TrackId, InfoView>,
) -> bool {
    if lib.dom().len() == 0 {
        new == old
    } else {
        &&& new.len() == QUEUE_TARGET
        &&& new.take(old.len() as int) == old
        &&& forall|i: int|
            old.len() <= i < new.len() ==> lib.contains_key((#[trigger] new[i]).0) && new[i].1 == 0
    }
}

/// `new` is the queue `old` after filling: the lined-up tracks and the
/// suggestions are filled up, nothing else changes.
pub open spec fn hydrated(old: PlaylistView, new: PlaylistView, lib: Map<TrackId, InfoView>) -> bool {
    &&& new.mode == old.mode
    &&& new.playlist == old.playlist
    &&& filled_ids(old.next_up, new.next_up, lib)
    &&& filled_suggestions(old.suggestions, new.suggestions, lib)
}

/// Filling is possible: neither queue is over the target already.
pub open spec fn within_target(p: PlaylistView) -> bool {
    p.next_up.len() <= QUEUE_TARGET && p.suggestions.len() <= QUEUE_TARGET
}

/// The message that carries the queues of a play queue.
pub open spec fn playlist_message(p: PlaylistView) -> OutgoingView {
    OutgoingView::Broadcast(ServerToClientView::PlaylistUpdate(id_playlist_of(p)))
}

/// The model of the track that the radio has chosen to load.
pub open spec fn chosen_view(r: Option<(TrackId, Info)>) -> Option<(TrackId, InfoView)> {
    match r {
        Some((id, info)) => Some((id, info@)),
        None => None,
    }
}

/// One way that choosing the next track takes the radio from `old` to
/// `new`, with `p1` the queue after its first filling: the queue is filled,
/// the next track is picked from it, the queue is filled again; the track
/// to load is the pick if the library has it, and when there is none the
/// radio no longer plays a track.
pub open spec fn next_track_step(
    old: MiddlewareView,
    p1: PlaylistView,
    new: MiddlewareView,
    r: Option<(TrackId, InfoView)>,
) -> bool {
    &&& hydrated(old.playlist, p1, old.library)
    &&& hydrated(p1.after_next(), new.playlist, old.library)
    &&& new.library == old.library
    &&& if p1.next_id() is Some && old.library.contains_key(p1.next_id()->0) {
        &&& r == Some((p1.next_id()->0, old.library[p1.next_id()->0]))
        &&& new.current_track == old.current_track
    } else {
        &&& r is None
        &&& new.current_track is None
    }
}

/// The radio at `new` plays the track that started, the rest unchanged,
/// and tells every client so, then sends everyone the queue.
pub open spec fn start_track_step(
    old: MiddlewareView,
    new: MiddlewareView,
    current: CurrentTrack,
    out: Seq<OutgoingView>,
) -> bool {
    &&& new == MiddlewareView { current_track: Some(current), ..old }
    &&& out == seq![
        OutgoingView::Broadcast(ServerToClientView::CurrentTrackUpdate(Some(current))),
        playlist_message(old.playlist),
    ]
}

/// A queue update from a client: the playlist and the lined-up tracks are
/// replaced (its suggestions are not taken), and the update is passed on to
/// every client as it came.
pub open spec fn playlist_update_step(
    old: MiddlewareView,
    new: MiddlewareView,
    update: IdPlaylistView,
    out: Seq<OutgoingView>,
) -> bool {
    &&& new == MiddlewareView {
        playlist: PlaylistView { playlist: update.playlist, next_up: update.next_up, ..old.playlist },
        ..old
    }
    &&& out == seq![OutgoingView::Broadcast(ServerToClientView::PlaylistUpdate(update))]
}

/// A mode update from a client: it is passed on to every client; the
/// radio's state does not change.
pub open spec fn mode_update_step(
    old: MiddlewareView,
    new: MiddlewareView,
    update: dto::Mode,
    out: Seq<OutgoingView>,
) -> bool {
    &&& new == old
    &&& out == seq![OutgoingView::Broadcast(ServerToClientView::ModeUpdate(update))]
}

/// A client connects: it is sent the whole library and the track playing,
/// then every client is sent the queue; the radio's state does not change.
pub open spec fn connection_step(
    old: MiddlewareView,
    new: MiddlewareView,
    client: ClientId,
    out: Seq<OutgoingView>,
) -> bool {
    &&& new == old
    &&& out.len() == 3
    &&& out[0] matches OutgoingView::Send(c, ServerToClientView::LibraryUpdate(tracks)) && c == client
        && lists_library(tracks, old.library)
    &&& out[1] == OutgoingView::Send(client, ServerToClientView::CurrentTrackUpdate(old.current_track))
    &&& out[2] == playlist_message(old.playlist)
}

/// What the radio does with an event of the server.
pub open spec fn event_step(
    old: MiddlewareView,
    new: MiddlewareView,
    event: ServerEventView,
    out: Seq<OutgoingView>,
) -> bool {
    match event {
        ServerEventView::ClientConnected(c) => connection_step(old, new, c, out),
        ServerEventView::ClientDisconnected(_) => new == old && out.len() == 0,
        ServerEventView::Message(_, ClientToServerView::ModeUpdate(m)) => mode_update_step(old, new, m, out),
        ServerEventView::Message(_, ClientToServerView::PlaylistUpdate(u)) => playlist_update_step(
            old,
            new,
            u,
            out,
        ),
    }
}

impl MiddlewareInner {
    /// The state of a radio that has just started: an empty queue in
    /// automatic mode and nothing playing.
    pub fn new(music_library: Library) -> (r: MiddlewareInner)
        ensures
            r@.library == music_library@,
            r@.playlist.mode == Mode::AUTO,
            r@.playlist.playlist.len() == 0,
            r@.playlist.next_up.len() == 0,
            r@.playlist.suggestions.len() == 0,
            r@.current_track is None,
    {
        MiddlewareInner { music_library, playlist: Playlist::new(), current_track: None }
    }

    /// Fills the lined-up tracks, then the suggestions, up to the target
    /// with tracks picked at random from the library.
    pub fn hydrate(&mut self)
        requires
            within_target(old(self)@.playlist),
        ensures
            hydrated(old(self)@.playlist, final(self)@.playlist, old(self)@.library),
            final(self)@.library == old(self)@.library,
            final(self)@.current_track == old(self)@.current_track,
    {
        let ghost lib = self.music_library@;
        let ghost old_next = self.playlist.next_up@;
        let ghost old_sugg = self.playlist.suggestions@;
        let ghost old_mode = self.playlist.mode;
        let ghost old_playlist = self.playlist.playlist@;
        let ghost old_current = self.current_track;
        let missing = QUEUE_TARGET - self.playlist.next_up.len();
        for k in 0..missing
            invariant
                lib == self.music_library@,
                missing == QUEUE_TARGET - old_next.len(),
                old_next.len() <= QUEUE_TARGET,
                lib.dom().len() == 0 ==> self.playlist.next_up@ == old_next,
                lib.dom().len() != 0 ==> self.playlist.next_up@.len() == old_next.len() + k,
                self.playlist.next_up@.take(old_next.len() as int) == old_next,
                forall|i: int|
                    old_next.len() <= i < self.playlist.next_up@.len() ==> lib.contains_key(
                        #[trigger] self.playlist.next_up@[i],
                    ),
                self.playlist.suggestions@ == old_sugg,
                self.playlist.mode == old_mode,
                self.playlist.playlist@ == old_playlist,
                self.current_track == old_current,
        {
            let picked = self.music_library.pick_random();
            if let Some(id) = picked {
                let ghost before = self.playlist.next_up@;
                self.playlist.next_up.push_back(id);
                assert(self.playlist.next_up@.take(old_next.len() as int) =~= before.take(
                    old_next.len() as int,
                ));
            }
        }
        let missing = QUEUE_TARGET - self.playlist.suggestions.len();
        let ghost new_next = self.playlist.next_up@;
        for k in 0..missing
            invariant
                lib == self.music_library@,
                missing == QUEUE_TARGET - old_sugg.len(),
                old_sugg.len() <= QUEUE_TARGET,
                lib.dom().len() == 0 ==> self.playlist.suggestions@ == old_sugg,
                lib.dom().len() != 0 ==> self.playlist.suggestions@.len() == old_sugg.len() + k,
                self.playlist.suggestions@.take(old_sugg.len() as int) == old_sugg,
                forall|i: int|
                    old_sugg.len() <= i < self.playlist.suggestions@.len() ==> lib.contains_key(
                        (#[trigger] self.playlist.suggestions@[i]).0,
                    ) && self.playlist.suggestions@[i].1 == 0,
                self.playlist.next_up@ == new_next,
                self.playlist.mode == old_mode,
                self.playlist.playlist@ == old_playlist,
                self.current_track == old_current,
        {
            let picked = self.music_library.pick_random();
            if let Some(id) = picked {
                let ghost before = self.playlist.suggestions@;
                self.playlist.suggestions.push_back((id, 0));
                assert(self.playlist.suggestions@.take(old_sugg.len() as int) =~= before.take(
                    old_sugg.len() as int,
                ));
            }
        }
    }
    /// Chooses the next track: fills the queue, picks from it, fills it
    /// again, and returns the track to load with its description, or `None`
    /// (and then nothing plays any more) when there is no pick or the
    /// library does not have it.
    pub fn next_track(&mut self) -> (r: Option<(TrackId, Info)>)
        requires
            within_target(old(self)@.playlist),
        ensures
            exists|p1: PlaylistView| next_track_step(old(self)@, p1, final(self)@, chosen_view(r)),
    {
        self.hydrate();
        let ghost p1 = self.playlist@;
        let next_track_id = self.playlist.next_track_id();
        if self.playlist.mode == Mode::AUTO {
            self.playlist.suggestions.clear();
        }
        self.hydrate();
        let chosen = match next_track_id {
            Some(track_id) => match self.music_library.get_track_info(track_id) {
                Some(info) => Some((track_id, info)),
                None => None,
            },
            None => None,
        };
        if chosen.is_none() {
            self.current_track = None;
        }
        assert(next_track_step(old(self)@, p1, self@, chosen_view(chosen)));
        chosen
    }

    /// Records that the chosen track started at `start_time` and lasts
    /// `duration`, and returns what every client is told: the track
    /// playing, then the queue.
    pub fn start_track(&mut self, track_id: TrackId, duration: TrackDuration, start_time: Timestamp) -> (r: Vec<Outgoing>)
        ensures
            start_track_step(
                old(self)@,
                final(self)@,
                CurrentTrack { start_time, track_id, duration },
                outgoing_view(r@),
            ),
    {
        let current = CurrentTrack { start_time, track_id, duration };
        self.current_track = Some(current);
        let mut out: Vec<Outgoing> = Vec::new();
        out.push(Outgoing::Broadcast(ServerToClient::CurrentTrackUpdate(Some(current))));
        out.push(Outgoing::Broadcast(ServerToClient::PlaylistUpdate(IdPlaylist::from_playlist(&self.playlist))));
        assert(outgoing_view(out@) =~= seq![
            OutgoingView::Broadcast(ServerToClientView::CurrentTrackUpdate(Some(current))),
            playlist_message(old(self)@.playlist),
        ]);
        out
    }

    /// Takes a client's queue update: replaces the playlist and the
    /// lined-up tracks, and passes the update on to every client.
    pub fn playlist_update(&mut self, playlist_update: IdPlaylist) -> (r: Vec<Outgoing>)
        ensures
            playlist_update_step(old(self)@, final(self)@, playlist_update@, outgoing_view(r@)),
    {
        self.playlist.playlist = copy_ids(&playlist_update.playlist);
        self.playlist.next_up = copy_ids(&playlist_update.next_up);
        let ghost u = playlist_update@;
        let mut out: Vec<Outgoing> = Vec::new();
        out.push(Outgoing::Broadcast(ServerToClient::PlaylistUpdate(playlist_update)));
        assert(outgoing_view(out@) =~= seq![OutgoingView::Broadcast(ServerToClientView::PlaylistUpdate(u))]);
        out
    }

    /// Takes a client's mode update: passes it on to every client.
    pub fn mode_update(&mut self, mode_update: dto::Mode) -> (r: Vec<Outgoing>)
        ensures
            mode_update_step(old(self)@, final(self)@, mode_update, outgoing_view(r@)),
    {
        let mut out: Vec<Outgoing> = Vec::new();
        out.push(Outgoing::Broadcast(ServerToClient::ModeUpdate(mode_update)));
        assert(outgoing_view(out@) =~= seq![OutgoingView::Broadcast(ServerToClientView::ModeUpdate(mode_update))]);
        out
    }

    /// Greets a client that connected: it is sent the library and the track
    /// playing, and every client is sent the queue.
    pub fn on_connection(&mut self, client_id: ClientId) -> (r: Vec<Outgoing>)
        ensures
            connection_step(old(self)@, final(self)@, client_id, outgoing_view(r@)),
    {
        let library_infos = self.music_library.tracks();
        let ghost tracks = library_infos@.map_values(|t: dto::Track| t@);
        let mut out: Vec<Outgoing> = Vec::new();
        out.push(Outgoing::Send(client_id, ServerToClient::LibraryUpdate(InfoLibrary { library: library_infos })));
        out.push(Outgoing::Send(client_id, ServerToClient::CurrentTrackUpdate(self.current_track)));
        out.push(Outgoing::Broadcast(ServerToClient::PlaylistUpdate(IdPlaylist::from_playlist(&self.playlist))));
        proof {
            let ov = outgoing_view(out@);
            assert(ov[0] == OutgoingView::Send(client_id, ServerToClientView::LibraryUpdate(tracks)));
            assert(ov[1] == OutgoingView::Send(client_id, ServerToClientView::CurrentTrackUpdate(self.current_track)));
            assert(ov[2] == playlist_message(self.playlist@));
        }
        out
    }

    /// Handles one event of the server: a connection is greeted, a
    /// disconnection changes nothing, and a client's message is taken as a
    /// queue or mode update.
    pub fn process_event(&mut self, event: ServerEvent) -> (r: Vec<Outgoing>)
        ensures
            event_step(old(self)@, final(self)@, event@, outgoing_view(r@)),
    {
        match event {
            ServerEvent::ClientConnected(client_id) => self.on_connection(client_id),
            ServerEvent::ClientDisconnected(_) => {
                let out: Vec<Outgoing> = Vec::new();
                assert(outgoing_view(out@) =~= Seq::<OutgoingView>::empty());
                out
            },
            ServerEvent::Message(client_message) => match client_message.payload {
                ClientToServer::PlaylistUpdate(id_playlist_update) => self.playlist_update(
                    id_playlist_update,
                ),
                ClientToServer::ModeUpdate(mode_update) => self.mode_update(mode_update),
            },
        }
    }
}

} // verus!
