use radio::decode::{channel_count_or_mono, DecodeProgress, DecodeResult, PacketAction, PacketRead};
use radio::track::{
    extract_cover, extract_tag, info_from_metadata, is_hidden_file_name, Info, MetadataRevision,
    Tag, TagKey,
};

fn tag(key: Option<TagKey>, value: &str) -> Tag {
    Tag { std_key: key, value: value.to_string() }
}

fn revision(tags: Vec<Tag>, visuals: Vec<Vec<u8>>) -> MetadataRevision {
    MetadataRevision { tags, visuals }
}

#[test]
fn extract_tag_prefers_the_container() {
    let container = Some(revision(vec![tag(Some(TagKey::Album), "A1")], vec![]));
    let probe = Some(revision(vec![tag(Some(TagKey::Album), "A2")], vec![]));
    assert_eq!(extract_tag(&container, &probe, TagKey::Album), Some("A1".to_string()));
}

#[test]
fn extract_tag_falls_back_to_the_probe() {
    let container = Some(revision(vec![tag(Some(TagKey::Artist), "X")], vec![]));
    let probe = Some(revision(vec![tag(None, "other"), tag(Some(TagKey::Album), "A2")], vec![]));
    assert_eq!(extract_tag(&container, &probe, TagKey::Album), Some("A2".to_string()));
    assert_eq!(extract_tag(&None, &probe, TagKey::Album), Some("A2".to_string()));
}

#[test]
fn extract_tag_takes_the_first_match() {
    let container = Some(revision(
        vec![tag(Some(TagKey::TrackTitle), "first"), tag(Some(TagKey::TrackTitle), "second")],
        vec![],
    ));
    assert_eq!(extract_tag(&container, &None, TagKey::TrackTitle), Some("first".to_string()));
}

#[test]
fn extract_tag_without_any_match() {
    let container = Some(revision(vec![tag(None, "x")], vec![]));
    assert_eq!(extract_tag(&container, &None, TagKey::Artist), None);
    assert_eq!(extract_tag(&None, &None, TagKey::Artist), None);
}

#[test]
fn extract_cover_prefers_the_probe() {
    let container = Some(revision(vec![], vec![vec![1, 2], vec![3]]));
    let probe = Some(revision(vec![], vec![vec![9], vec![8]]));
    assert_eq!(extract_cover(&container, &probe), Some(vec![9]));
    assert_eq!(extract_cover(&container, &None), Some(vec![1, 2]));
    assert_eq!(extract_cover(&container, &Some(revision(vec![], vec![]))), Some(vec![1, 2]));
    assert_eq!(extract_cover(&None, &None), None);
}

#[test]
fn info_from_metadata_uses_fallback_texts() {
    let info = info_from_metadata("/music/a.flac".to_string(), &None, &None);
    assert_eq!(info.path, "/music/a.flac");
    assert_eq!(info.title, "Title not found");
    assert_eq!(info.album, "Album not found");
    assert_eq!(info.artist, "Artist not found");
    assert_eq!(info.cover, None);
}

#[test]
fn info_from_metadata_reads_tags_and_cover() {
    let container = Some(revision(
        vec![tag(Some(TagKey::TrackTitle), "Song"), tag(Some(TagKey::Artist), "Band")],
        vec![vec![7, 7]],
    ));
    let probe = Some(revision(vec![tag(Some(TagKey::Album), "Record")], vec![]));
    let info = info_from_metadata("p".to_string(), &container, &probe);
    assert_eq!(info.title, "Song");
    assert_eq!(info.album, "Record");
    assert_eq!(info.artist, "Band");
    assert_eq!(info.cover, Some(vec![7, 7]));
}

#[test]
fn hidden_file_names() {
    assert!(is_hidden_file_name(Some(".hidden.mp3")));
    assert!(is_hidden_file_name(Some(".")));
    assert!(!is_hidden_file_name(Some("song.mp3")));
    assert!(!is_hidden_file_name(Some("")));
    assert!(!is_hidden_file_name(None));
}

#[test]
fn info_duplicate_is_equal() {
    let info = Info {
        path: "p".to_string(),
        title: "t".to_string(),
        album: "a".to_string(),
        artist: "r".to_string(),
        cover: Some(vec![1, 2, 3]),
    };
    let copy = info.duplicate();
    assert_eq!(copy.path, info.path);
    assert_eq!(copy.title, info.title);
    assert_eq!(copy.album, info.album);
    assert_eq!(copy.artist, info.artist);
    assert_eq!(copy.cover, info.cover);
}

#[test]
fn decode_packet_decisions() {
    let p = DecodeProgress::new(2);
    assert_eq!(p.on_packet(PacketRead::Packet { track_id: 2 }), PacketAction::Decode);
    assert_eq!(p.on_packet(PacketRead::Packet { track_id: 5 }), PacketAction::Skip);
    assert_eq!(p.on_packet(PacketRead::Failed), PacketAction::Stop);
}

#[test]
fn decode_counts_frames_and_passes_over_errors() {
    let mut p = DecodeProgress::new(0);
    assert!(p.on_decoded(DecodeResult::Decoded { frames: 1152 }));
    assert!(p.on_decoded(DecodeResult::IoError));
    assert!(p.on_decoded(DecodeResult::DecodeError));
    assert!(p.on_decoded(DecodeResult::Decoded { frames: 48 }));
    assert_eq!(p.total_frames, 1200);
    assert!(!p.on_decoded(DecodeResult::Failed));
    assert_eq!(p.total_frames, 1200);
    assert_eq!(p.track_id, 0);
}

#[test]
fn channel_count_defaults_to_mono() {
    assert_eq!(channel_count_or_mono(Some(2)), 2);
    assert_eq!(channel_count_or_mono(None), 1);
}

#[test]
fn args_defaults() {
    let a = radio::args::Args::default();
    assert_eq!(a.music_path, "~/Music");
    assert_eq!(a.bind, "0.0.0.0:8080");
}
