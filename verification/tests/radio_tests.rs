use std::collections::{HashSet, VecDeque};

use radio::dto::{CurrentTrack, IdPlaylist, Mode as ModeUpdate, Timestamp};
use radio::library::Library;
use radio::middleware::MiddlewareInner;
use radio::playlist::{Mode, Playlist};
use radio::protocol::{ClientMessage, ClientToServer, Outgoing, ServerEvent, ServerToClient};
use radio::track::{Info, TrackDuration};

fn info(title: &str) -> Info {
    Info {
        path: format!("/music/{title}.flac"),
        title: title.to_string(),
        album: "album".to_string(),
        artist: "artist".to_string(),
        cover: None,
    }
}

fn library(ids: &[u128]) -> Library {
    Library::new(ids.iter().map(|id| (*id, info(&format!("t{id}")))).collect())
}

fn deque<T: Clone>(v: &[T]) -> VecDeque<T> {
    v.iter().cloned().collect()
}

#[test]
fn playlist_starts_empty_in_auto_mode() {
    let p = Playlist::new();
    assert_eq!(p.mode, Mode::AUTO);
    assert!(p.playlist.is_empty() && p.next_up.is_empty() && p.suggestions.is_empty());
}

#[test]
fn manual_pick_takes_the_playlist_first() {
    let mut p = Playlist::new();
    p.mode = Mode::MANUAL;
    p.playlist = deque(&[1, 2]);
    p.next_up = deque(&[3]);
    p.suggestions = deque(&[(4, 9)]);
    assert_eq!(p.next_track_id(), Some(1));
    assert_eq!(p.playlist, deque(&[2]));
    assert_eq!(p.next_up, deque(&[3]));
    assert!(p.suggestions.is_empty());
}

#[test]
fn manual_pick_falls_back_to_next_up() {
    let mut p = Playlist::new();
    p.mode = Mode::MANUAL;
    p.next_up = deque(&[3, 5]);
    assert_eq!(p.next_track_id(), Some(3));
    assert_eq!(p.next_up, deque(&[5]));
    assert_eq!(p.next_track_id(), Some(5));
    assert_eq!(p.next_track_id(), None);
}

#[test]
fn auto_pick_takes_the_last_most_voted() {
    let mut p = Playlist::new();
    p.playlist = deque(&[1]);
    p.suggestions = deque(&[(10, 2), (11, 5), (12, 1), (13, 5), (14, 4)]);
    assert_eq!(p.next_track_id(), Some(13));
    assert!(p.suggestions.is_empty());
    assert_eq!(p.playlist, deque(&[1]));
    assert_eq!(p.next_track_id(), None);
}

#[test]
fn clear_next_empties_the_lined_up_tracks() {
    let mut p = Playlist::new();
    p.mode = Mode::MANUAL;
    p.next_up = deque(&[3, 4]);
    p.clear_next();
    assert!(p.next_up.is_empty());
    assert_eq!(p.next_track_id(), None);
}

#[test]
fn library_answers_lookups() {
    let lib = Library::new(vec![(1, info("a")), (2, info("b")), (1, info("c"))]);
    assert_eq!(lib.get_track_info(1).unwrap().title, "c");
    assert_eq!(lib.get_track_info(2).unwrap().title, "b");
    assert!(lib.get_track_info(3).is_none());
    assert_eq!(lib.library.len(), 2);
}

#[test]
fn pick_random_from_the_library() {
    assert_eq!(library(&[]).pick_random(), None);
    let lib = library(&[5, 6, 7]);
    for _ in 0..20 {
        let id = lib.pick_random().unwrap();
        assert!([5, 6, 7].contains(&id));
    }
}

#[test]
fn library_tracks_lists_every_track_once() {
    let lib = library(&[5, 6, 7]);
    let tracks = lib.tracks();
    assert_eq!(tracks.len(), 3);
    let ids: HashSet<u128> = tracks.iter().map(|t| t.id).collect();
    assert_eq!(ids, [5, 6, 7].into_iter().collect());
    for t in &tracks {
        assert_eq!(t.info.title, format!("t{}", t.id));
    }
}

#[test]
fn hydrate_fills_up_to_three() {
    let mut m = MiddlewareInner::new(library(&[1, 2]));
    m.playlist.next_up = deque(&[9]);
    m.hydrate();
    assert_eq!(m.playlist.next_up.len(), 3);
    assert_eq!(m.playlist.next_up[0], 9);
    assert!(m.playlist.next_up.iter().skip(1).all(|id| *id == 1 || *id == 2));
    assert_eq!(m.playlist.suggestions.len(), 3);
    assert!(m.playlist.suggestions.iter().all(|(id, v)| (*id == 1 || *id == 2) && *v == 0));
}

#[test]
fn hydrate_with_an_empty_library_changes_nothing() {
    let mut m = MiddlewareInner::new(library(&[]));
    m.playlist.next_up = deque(&[9]);
    m.hydrate();
    assert_eq!(m.playlist.next_up, deque(&[9]));
    assert!(m.playlist.suggestions.is_empty());
}

#[test]
fn next_track_in_manual_mode_follows_the_playlist() {
    let mut m = MiddlewareInner::new(library(&[1, 2, 3]));
    m.playlist.mode = Mode::MANUAL;
    m.playlist.playlist = deque(&[2, 3]);
    let (id, chosen) = m.next_track().unwrap();
    assert_eq!(id, 2);
    assert_eq!(chosen.title, "t2");
    assert_eq!(m.playlist.playlist, deque(&[3]));
    assert_eq!(m.playlist.next_up.len(), 3);
    assert_eq!(m.playlist.suggestions.len(), 3);
    assert!(m.playlist.suggestions.iter().all(|(_, v)| *v == 0));
}

#[test]
fn next_track_unknown_to_the_library_stops_playback() {
    let mut m = MiddlewareInner::new(library(&[1]));
    m.playlist.mode = Mode::MANUAL;
    m.playlist.playlist = deque(&[42]);
    m.current_track = Some(CurrentTrack {
        start_time: Timestamp { secs: 1, nanos: 0 },
        track_id: 1,
        duration: TrackDuration { secs: 10, subsec_nanos: 0 },
    });
    assert!(m.next_track().is_none());
    assert!(m.current_track.is_none());
    assert!(m.playlist.playlist.is_empty());
}

#[test]
fn next_track_with_an_empty_library_picks_nothing() {
    let mut m = MiddlewareInner::new(library(&[]));
    assert!(m.next_track().is_none());
    assert!(m.playlist.next_up.is_empty() && m.playlist.suggestions.is_empty());
}

#[test]
fn next_track_in_auto_mode_picks_a_suggestion() {
    let mut m = MiddlewareInner::new(library(&[1, 2, 3]));
    let (id, _) = m.next_track().unwrap();
    assert!([1, 2, 3].contains(&id));
}

#[test]
fn start_track_announces_track_and_queue() {
    let mut m = MiddlewareInner::new(library(&[1]));
    m.playlist.playlist = deque(&[1]);
    let current = CurrentTrack {
        start_time: Timestamp { secs: 1_700_000_000, nanos: 5 },
        track_id: 1,
        duration: TrackDuration { secs: 180, subsec_nanos: 250 },
    };
    let out = m.start_track(1, current.duration, current.start_time);
    assert_eq!(m.current_track, Some(current));
    assert_eq!(out.len(), 2);
    match &out[0] {
        Outgoing::Broadcast(ServerToClient::CurrentTrackUpdate(Some(c))) => assert_eq!(*c, current),
        other => panic!("unexpected {other:?}"),
    }
    match &out[1] {
        Outgoing::Broadcast(ServerToClient::PlaylistUpdate(u)) => assert_eq!(u.playlist, deque(&[1])),
        other => panic!("unexpected {other:?}"),
    }
}

#[test]
fn playlist_update_replaces_queues_and_is_passed_on() {
    let mut m = MiddlewareInner::new(library(&[1]));
    m.playlist.suggestions = deque(&[(1, 3)]);
    let update = IdPlaylist {
        playlist: deque(&[7, 8]),
        next_up: deque(&[9]),
        suggestions: deque(&[(5, 5)]),
    };
    let out = m.playlist_update(update);
    assert_eq!(m.playlist.playlist, deque(&[7, 8]));
    assert_eq!(m.playlist.next_up, deque(&[9]));
    assert_eq!(m.playlist.suggestions, deque(&[(1, 3)]));
    assert_eq!(out.len(), 1);
    match &out[0] {
        Outgoing::Broadcast(ServerToClient::PlaylistUpdate(u)) => {
            assert_eq!(u.suggestions, deque(&[(5, 5)]));
        },
        other => panic!("unexpected {other:?}"),
    }
}

#[test]
fn mode_update_is_passed_on_only() {
    let mut m = MiddlewareInner::new(library(&[1]));
    let out = m.mode_update(ModeUpdate { mode: Mode::MANUAL });
    assert_eq!(m.playlist.mode, Mode::AUTO);
    assert_eq!(out.len(), 1);
    match &out[0] {
        Outgoing::Broadcast(ServerToClient::ModeUpdate(u)) => assert_eq!(u.mode, Mode::MANUAL),
        other => panic!("unexpected {other:?}"),
    }
}

#[test]
fn on_connection_greets_the_client() {
    let mut m = MiddlewareInner::new(library(&[1, 2]));
    m.playlist.next_up = deque(&[2]);
    let out = m.on_connection(77);
    assert_eq!(out.len(), 3);
    match &out[0] {
        Outgoing::Send(77, ServerToClient::LibraryUpdate(l)) => assert_eq!(l.library.len(), 2),
        other => panic!("unexpected {other:?}"),
    }
    match &out[1] {
        Outgoing::Send(77, ServerToClient::CurrentTrackUpdate(None)) => {},
        other => panic!("unexpected {other:?}"),
    }
    match &out[2] {
        Outgoing::Broadcast(ServerToClient::PlaylistUpdate(u)) => assert_eq!(u.next_up, deque(&[2])),
        other => panic!("unexpected {other:?}"),
    }
}

#[test]
fn process_event_dispatches() {
    let mut m = MiddlewareInner::new(library(&[1]));
    assert_eq!(m.process_event(ServerEvent::ClientConnected(3)).len(), 3);
    assert!(m.process_event(ServerEvent::ClientDisconnected(3)).is_empty());
    let out = m.process_event(ServerEvent::Message(ClientMessage {
        client_id: 3,
        payload: ClientToServer::PlaylistUpdate(IdPlaylist {
            playlist: deque(&[1]),
            next_up: VecDeque::new(),
            suggestions: VecDeque::new(),
        }),
    }));
    assert_eq!(out.len(), 1);
    assert_eq!(m.playlist.playlist, deque(&[1]));
    let out = m.process_event(ServerEvent::Message(ClientMessage {
        client_id: 3,
        payload: ClientToServer::ModeUpdate(ModeUpdate { mode: Mode::MANUAL }),
    }));
    assert!(matches!(out[0], Outgoing::Broadcast(ServerToClient::ModeUpdate(_))));
}

#[test]
fn connection_after_playlist_update_reports_it() {
    let mut m = MiddlewareInner::new(library(&[1]));
    m.playlist_update(IdPlaylist {
        playlist: deque(&[4]),
        next_up: deque(&[5]),
        suggestions: VecDeque::new(),
    });
    let out = m.on_connection(1);
    match &out[2] {
        Outgoing::Broadcast(ServerToClient::PlaylistUpdate(u)) => {
            assert_eq!(u.playlist, deque(&[4]));
            assert_eq!(u.next_up, deque(&[5]));
        },
        other => panic!("unexpected {other:?}"),
    }
}

#[test]
fn queue_stays_within_target_over_many_choices() {
    let mut m = MiddlewareInner::new(library(&[1, 2, 3, 4]));
    for round in 0..10 {
        if round == 5 {
            m.playlist.mode = Mode::MANUAL;
        }
        m.next_track();
        assert!(m.playlist.next_up.len() <= 3 && m.playlist.suggestions.len() <= 3);
        assert!(m.playlist.suggestions.iter().all(|(_, v)| *v == 0));
    }
}

#[test]
fn connection_after_start_reports_the_track() {
    let mut m = MiddlewareInner::new(library(&[1]));
    let start = Timestamp { secs: 50, nanos: 7 };
    let duration = TrackDuration { secs: 3, subsec_nanos: 9 };
    m.start_track(1, duration, start);
    let out = m.on_connection(2);
    match &out[1] {
        Outgoing::Send(2, ServerToClient::CurrentTrackUpdate(Some(c))) => {
            assert_eq!(*c, CurrentTrack { start_time: start, track_id: 1, duration });
        },
        other => panic!("unexpected {other:?}"),
    }
}
