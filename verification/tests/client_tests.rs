use std::collections::VecDeque;

use radio::client::AppState;
use radio::dto::{CurrentTrack, IdPlaylist, InfoLibrary, Mode as ModeUpdate, Timestamp, Track};
use radio::library::Library;
use radio::middleware::MiddlewareInner;
use radio::playlist::Mode;
use radio::protocol::{Outgoing, ServerToClient};
use radio::track::{Info, TrackDuration};
use radio::ui::{
    auto_voting, cover_data_url, detect_mime, is_leading, leader_votes, manual_queue, now_playing,
    status_class, track_class,
};

fn info(title: &str) -> Info {
    Info {
        path: format!("/music/{title}.flac"),
        title: title.to_string(),
        album: "album".to_string(),
        artist: "artist".to_string(),
        cover: None,
    }
}

fn deque<T: Clone>(v: &[T]) -> VecDeque<T> {
    v.iter().cloned().collect()
}

fn state_with_library(ids: &[u128]) -> AppState {
    let mut s = AppState::new(Timestamp { secs: 0, nanos: 0 });
    s.apply_event(ServerToClient::LibraryUpdate(InfoLibrary {
        library: ids.iter().map(|id| Track { id: *id, info: info(&format!("t{id}")) }).collect(),
    }));
    s
}

#[test]
fn new_client_state() {
    let s = AppState::new(Timestamp { secs: 12, nanos: 3 });
    assert_eq!(s.now, Timestamp { secs: 12, nanos: 3 });
    assert!(s.current_track_id.is_none());
    assert!(s.library.library.is_empty());
    assert!(!s.connected);
    assert_eq!(s.mode, Mode::AUTO);
}

#[test]
fn apply_each_kind_of_message() {
    let mut s = state_with_library(&[1, 2]);
    assert_eq!(s.library.get_track_info(2).unwrap().title, "t2");
    s.apply_event(ServerToClient::PlaylistUpdate(IdPlaylist {
        playlist: deque(&[1]),
        next_up: deque(&[2, 1]),
        suggestions: deque(&[(2, 4)]),
    }));
    assert_eq!(s.playlist_ids, deque(&[1]));
    assert_eq!(s.next_up_ids, deque(&[2, 1]));
    assert_eq!(s.suggestions, deque(&[(2, 4)]));
    s.apply_event(ServerToClient::ModeUpdate(ModeUpdate { mode: Mode::MANUAL }));
    assert_eq!(s.mode, Mode::MANUAL);
    let c = CurrentTrack {
        start_time: Timestamp { secs: 100, nanos: 1 },
        track_id: 2,
        duration: TrackDuration { secs: 61, subsec_nanos: 0 },
    };
    s.apply_event(ServerToClient::CurrentTrackUpdate(Some(c)));
    assert_eq!(s.current_track_id, Some(2));
    assert_eq!(s.current_track_start_time, Some(c.start_time));
    assert_eq!(s.current_track_duration, Some(c.duration));
}

#[test]
fn client_mirrors_server_after_connecting() {
    let lib = Library::new(vec![(1, info("a")), (2, info("b")), (3, info("c"))]);
    let mut server = MiddlewareInner::new(lib);
    server.playlist.playlist = deque(&[3]);
    server.next_track();
    server.start_track(3, TrackDuration { secs: 5, subsec_nanos: 0 }, Timestamp { secs: 9, nanos: 0 });
    let mut client = AppState::new(Timestamp { secs: 0, nanos: 0 });
    for o in server.on_connection(8) {
        match o {
            Outgoing::Send(_, m) | Outgoing::Broadcast(m) => client.apply_event(m),
        }
    }
    assert_eq!(client.library.library.len(), 3);
    for id in 1..=3u128 {
        assert_eq!(client.library.get_track_info(id).unwrap().title, server.music_library.get_track_info(id).unwrap().title);
    }
    assert_eq!(client.current_track_id, Some(3));
    assert_eq!(client.playlist_ids, server.playlist.playlist);
    assert_eq!(client.next_up_ids, server.playlist.next_up);
    assert_eq!(client.suggestions, server.playlist.suggestions);
}

#[test]
fn status_and_track_classes() {
    assert_eq!(status_class(true), "status status--connected");
    assert_eq!(status_class(false), "status status--disconnected");
    assert_eq!(track_class(true), "track track--main");
    assert_eq!(track_class(false), "track");
}

#[test]
fn mime_detection() {
    assert_eq!(detect_mime(&[0xFF, 0xD8, 0xFF, 0xE0]), "image/jpeg");
    assert_eq!(detect_mime(&[0x89, 0x50, 0x4E, 0x47, 0x0D]), "image/png");
    assert_eq!(detect_mime(&[0x47, 0x49, 0x46, 0x38]), "image/gif");
    assert_eq!(
        detect_mime(&[0x52, 0x49, 0x46, 0x46, 1, 2, 3, 4, 0x57, 0x45, 0x42, 0x50]),
        "image/webp"
    );
    assert_eq!(detect_mime(&[0x52, 0x49, 0x46, 0x46, 1, 2, 3, 4, 0x57, 0x45, 0x42]), "application/octet-stream");
    assert_eq!(detect_mime(&[0xFF, 0xD8]), "application/octet-stream");
    assert_eq!(detect_mime(&[]), "application/octet-stream");
}

#[test]
fn cover_data_urls() {
    assert_eq!(cover_data_url(&[0xFF, 0xD8, 0xFF]), "data:image/jpeg;base64,/9j/");
    assert_eq!(cover_data_url(b"hi"), "data:application/octet-stream;base64,aGk=");
    assert_eq!(cover_data_url(&[]), "data:application/octet-stream;base64,");
}

#[test]
fn now_playing_needs_a_known_track() {
    let mut s = state_with_library(&[1]);
    assert!(now_playing(&s).is_none());
    s.current_track_id = Some(1);
    assert_eq!(now_playing(&s).unwrap().title, "t1");
    s.current_track_id = Some(5);
    assert!(now_playing(&s).is_none());
}

#[test]
fn manual_queue_shows_known_tracks_in_order() {
    let mut s = state_with_library(&[1, 2, 3]);
    s.next_up_ids = deque(&[3, 9, 1]);
    let shown: Vec<String> = manual_queue(&s).into_iter().map(|i| i.title).collect();
    assert_eq!(shown, vec!["t3".to_string(), "t1".to_string()]);
}

#[test]
fn voting_board_is_sorted_and_stable() {
    let mut s = state_with_library(&[1, 2, 3, 4, 5]);
    s.suggestions = deque(&[(1, 2), (2, 5), (9, 7), (3, 2), (4, 5), (5, 0)]);
    let board = auto_voting(&s);
    let shown: Vec<(String, u32)> = board.iter().map(|(i, v)| (i.title.clone(), *v)).collect();
    assert_eq!(
        shown,
        vec![
            ("t2".to_string(), 5),
            ("t4".to_string(), 5),
            ("t1".to_string(), 2),
            ("t3".to_string(), 2),
            ("t5".to_string(), 0),
        ]
    );
    let leader = leader_votes(&board);
    assert_eq!(leader, 5);
    assert!(is_leading(5, leader));
    assert!(!is_leading(2, leader));
    assert_eq!(leader_votes(&Vec::new()), 0);
    assert!(!is_leading(0, 0));
}

#[test]
fn applying_a_message_twice_is_like_once() {
    let mut s = state_with_library(&[1, 2]);
    let update = IdPlaylist { playlist: deque(&[2]), next_up: deque(&[1]), suggestions: deque(&[(1, 1)]) };
    s.apply_event(ServerToClient::PlaylistUpdate(update.clone()));
    s.apply_event(ServerToClient::PlaylistUpdate(update));
    assert_eq!(s.playlist_ids, deque(&[2]));
    assert_eq!(s.next_up_ids, deque(&[1]));
    assert_eq!(s.suggestions, deque(&[(1, 1)]));
    s.apply_event(ServerToClient::LibraryUpdate(InfoLibrary {
        library: vec![Track { id: 1, info: info("t1") }, Track { id: 2, info: info("t2") }],
    }));
    assert_eq!(s.library.library.len(), 2);
    assert_eq!(s.library.get_track_info(2).unwrap().title, "t2");
}
