use vlc::engine::Engine;
use vlc::media::{AudioTrack, Media, MediaTrackUnion, RawTrack, VideoTrack};
use vlc::enums::{Meta, State, TrackType};

fn poisoned_raw_track(kind: i32) -> RawTrack {
    // Every sub-record of the union carries garbage; only the one the
    // discriminant selects may reach the result.
    RawTrack {
        codec: 0x6d703461,
        original_fourcc: 0x6d703461,
        id: 7,
        kind,
        profile: 2,
        level: 4,
        bitrate: 128_000,
        language: Some(b"eng".to_vec()),
        description: None,
        audio: AudioTrack { channels: 2, rate: 44_100 },
        video: VideoTrack {
            height: 0xdead,
            width: 0xbeef,
            sar_num: 99,
            sar_den: 98,
            frame_rate_num: 97,
            frame_rate_den: 96,
        },
        subtitle_encoding: Some(vec![0xff, 0xfe]),
    }
}

#[test]
fn media_release_happens_exactly_once() {
    let mut e = Engine::new();
    let m = Media::new_location(&mut e, "http://example/a.ogg").expect("factory accepts");
    let id = m.raw();
    assert_eq!(e.medias[id].refs, 1);
    assert_eq!(e.medias[id].releases, 0);
    m.release(&mut e);
    assert_eq!(e.medias[id].refs, 0);
    assert_eq!(e.medias[id].releases, 1);
}

#[test]
fn factory_refusal_acquires_nothing() {
    let mut e = Engine::new();
    e.can_alloc = false;
    assert!(Media::new_location(&mut e, "http://example").is_none());
    assert!(Media::new_fd(&mut e, 3).is_none());
    assert_eq!(e.medias.len(), 0);
}

#[test]
fn new_path_reports_embedded_nul_recoverably() {
    let mut e = Engine::new();
    assert!(Media::new_path(&mut e, "/tmp/a\0b").is_none());
    assert_eq!(e.medias.len(), 0);
    assert!(Media::new_path(&mut e, "/tmp/a.ogg").is_some());
    assert_eq!(e.medias.len(), 1);
}

#[test]
fn mrl_reads_back_and_frees_once_per_call() {
    let mut e = Engine::new();
    let m = Media::new_location(&mut e, "http://example/a.ogg").expect("factory accepts");
    assert_eq!(e.frees, 0);
    assert_eq!(m.mrl(&mut e), Some(String::from("http://example/a.ogg")));
    assert_eq!(e.frees, 1);
    assert_eq!(m.mrl(&mut e), Some(String::from("http://example/a.ogg")));
    assert_eq!(e.frees, 2);
}

#[test]
fn meta_set_then_get() {
    let mut e = Engine::new();
    let m = Media::new_fd(&mut e, 5).expect("factory accepts");
    assert_eq!(m.get_meta(&mut e, Meta::Title), None);
    m.set_meta(&mut e, Meta::Title, "A Song");
    m.set_meta(&mut e, Meta::Artist, "Someone");
    m.set_meta(&mut e, Meta::Title, "A Better Song");
    assert_eq!(m.get_meta(&mut e, Meta::Title), Some(String::from("A Better Song")));
    assert_eq!(m.get_meta(&mut e, Meta::Artist), Some(String::from("Someone")));
    assert_eq!(m.get_meta(&mut e, Meta::Genre), None);
    assert!(m.save_meta(&e));
}

#[test]
fn duration_sentinel_maps_to_absent() {
    let mut e = Engine::new();
    let m = Media::new_fd(&mut e, 5).expect("factory accepts");
    assert_eq!(m.duration(&e), None);
    e.medias[m.raw()].duration_ms = 5_000;
    assert_eq!(m.duration(&e), Some(5_000));
}

#[test]
fn state_and_parse_flags() {
    let mut e = Engine::new();
    let m = Media::new_fd(&mut e, 5).expect("factory accepts");
    assert_eq!(m.state(&e), State::NothingSpecial);
    e.medias[m.raw()].state_code = 3;
    assert_eq!(m.state(&e), State::Playing);
    e.medias[m.raw()].state_code = 42;
    assert_eq!(m.state(&e), State::Error);
    assert!(!m.is_parsed(&e));
    m.parse(&mut e);
    assert!(m.is_parsed(&e));
}

#[test]
fn audio_track_decodes_only_audio_fields() {
    let mut e = Engine::new();
    let m = Media::new_fd(&mut e, 5).expect("factory accepts");
    e.medias[m.raw()].tracks = vec![poisoned_raw_track(0)];
    let tracks = m.tracks(&mut e).expect("one track");
    assert_eq!(tracks.len(), 1);
    assert_eq!(tracks[0].track_type, TrackType::Audio);
    assert_eq!(
        tracks[0].type_specific_data,
        MediaTrackUnion::Audio(AudioTrack { channels: 2, rate: 44_100 })
    );
    assert_eq!(tracks[0].language, Some(String::from("eng")));
    assert_eq!(tracks[0].description, None);
    assert_eq!(e.track_list_releases, 1);
}

#[test]
fn unknown_discriminant_decodes_to_absent_variant() {
    let mut e = Engine::new();
    let m = Media::new_fd(&mut e, 5).expect("factory accepts");
    e.medias[m.raw()].tracks = vec![poisoned_raw_track(9)];
    let tracks = m.tracks(&mut e).expect("one track");
    assert_eq!(tracks[0].track_type, TrackType::Unknown);
    assert_eq!(tracks[0].type_specific_data, MediaTrackUnion::Unknown);
}

#[test]
fn video_and_subtitle_discriminants_project_their_payload() {
    let mut e = Engine::new();
    let m = Media::new_fd(&mut e, 5).expect("factory accepts");
    e.medias[m.raw()].tracks = vec![poisoned_raw_track(1), poisoned_raw_track(2)];
    let tracks = m.tracks(&mut e).expect("two tracks");
    assert_eq!(
        tracks[0].type_specific_data,
        MediaTrackUnion::Video(VideoTrack {
            height: 0xdead,
            width: 0xbeef,
            sar_num: 99,
            sar_den: 98,
            frame_rate_num: 97,
            frame_rate_den: 96,
        })
    );
    match &tracks[1].type_specific_data {
        MediaTrackUnion::Subtitle(s) => {
            assert_eq!(s.encoding, Some(String::from("\u{fffd}\u{fffd}")));
        },
        _ => panic!("expected a subtitle variant"),
    }
}

#[test]
fn no_tracks_means_absent_and_nothing_released() {
    let mut e = Engine::new();
    let m = Media::new_fd(&mut e, 5).expect("factory accepts");
    assert!(m.tracks(&mut e).is_none());
    assert_eq!(e.track_list_releases, 0);
}
