//! The messages of the radio's protocol, and the events that the server's
//! connections report.

use vstd::prelude::*;

use crate::dto::{CurrentTrack, IdPlaylist, IdPlaylistView, InfoLibrary, Mode};
use crate::track::{InfoView, TrackId};

verus! {

/// A client's identifier: the 128 bits of its UUID.
pub type ClientId = u128;

/// A message from a client to the server.
#[derive(Clone, Debug)]
pub enum ClientToServer {
    ModeUpdate(Mode),
    PlaylistUpdate(IdPlaylist),
}

/// The model of a [`ClientToServer`].
pub enum ClientToServerView {
    ModeUpdate(Mode),
    PlaylistUpdate(IdPlaylistView),
}

impl View for ClientToServer {
    type V = ClientToServerView;

    open spec fn view(&self) -> ClientToServerView {
        match self {
            ClientToServer::ModeUpdate(m) => ClientToServerView::ModeUpdate(*m),
            ClientToServer::PlaylistUpdate(p) => ClientToServerView::PlaylistUpdate(p@),
        }
    }
}

/// A message from the server to a client.
#[derive(Clone, Debug)]
pub enum ServerToClient {
    CurrentTrackUpdate(Option<CurrentTrack>),
    LibraryUpdate(InfoLibrary),
    ModeUpdate(Mode),
    PlaylistUpdate(IdPlaylist),
}

/// The model of a [`ServerToClient`].
pub enum ServerToClientView {
    CurrentTrackUpdate(Option<CurrentTrack>),
    LibraryUpdate(Seq<(TrackId, InfoView)>),
    ModeUpdate(Mode),
    PlaylistUpdate(IdPlaylistView),
}

impl View for ServerToClient {
    type V = ServerToClientView;

    open spec fn view(&self) -> ServerToClientView {
        match self {
            ServerToClient::CurrentTrackUpdate(c) => ServerToClientView::CurrentTrackUpdate(*c),
            ServerToClient::LibraryUpdate(l) => ServerToClientView::LibraryUpdate(l@),
            ServerToClient::ModeUpdate(m) => ServerToClientView::ModeUpdate(*m),
            ServerToClient::PlaylistUpdate(p) => ServerToClientView::PlaylistUpdate(p@),
        }
    }
}

/// A message that a client sent, with the client's identifier.
#[derive(Clone, Debug)]
pub struct ClientMessage {
    pub client_id: ClientId,
    pub payload: ClientToServer,
}

/// What a connection of the server reports.
#[derive(Clone, Debug)]
pub enum ServerEvent {
    ClientConnected(ClientId),
    ClientDisconnected(ClientId),
    Message(ClientMessage),
}

/// The model of a [`ServerEvent`].
pub enum ServerEventView {
    ClientConnected(ClientId),
    ClientDisconnected(ClientId),
    Message(ClientId, ClientToServerView),
}

impl View for ServerEvent {
    type V = ServerEventView;

    open spec fn view(&self) -> ServerEventView {
        match self {
            ServerEvent::ClientConnected(c) => ServerEventView::ClientConnected(*c),
            ServerEvent::ClientDisconnected(c) => ServerEventView::ClientDisconnected(*c),
            ServerEvent::Message(m) => ServerEventView::Message(m.client_id, m.payload@),
        }
    }
}

/// Where the server sends a message.
#[derive(Clone, Debug)]
pub enum Outgoing {
    /// To one client.
    Send(ClientId, ServerToClient),
    /// To every connected client.
    Broadcast(ServerToClient),
}

/// The model of an [`Outgoing`].
pub enum OutgoingView {
    Send(ClientId, ServerToClientView),
    Broadcast(ServerToClientView),
}

impl View for Outgoing {
    type V = OutgoingView;

    open spec fn view(&self) -> OutgoingView {
        match self {
            Outgoing::Send(c, m) => OutgoingView::Send(*c, m@),
            Outgoing::Broadcast(m) => OutgoingView::Broadcast(m@),
        }
    }
}

/// The models of a list of outgoing messages.
pub open spec fn outgoing_view(v: Seq<Outgoing>) -> Seq<OutgoingView> {
    v.map_values(|o: Outgoing| o@)
}

} // verus!
