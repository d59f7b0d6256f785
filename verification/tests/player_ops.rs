use vlc::engine::Engine;
use vlc::enums::VideoAdjustOption;
use vlc::media_player::{MediaPlayer, RawTrackDescription, TrackDescription};
use vlc::{MediaPlayerAudioEx, MediaPlayerVideoEx};

fn engine_with_player() -> (Engine, MediaPlayer) {
    let mut e = Engine::new();
    let p = MediaPlayer::new(&mut e).expect("factory accepts");
    (e, p)
}

#[test]
fn mute_sentinel_maps_to_tri_state() {
    let (mut e, p) = engine_with_player();
    e.players[p.raw()].mute_code = -1;
    assert_eq!(p.get_mute(&e), None);
    e.players[p.raw()].mute_code = 0;
    assert_eq!(p.get_mute(&e), Some(false));
    e.players[p.raw()].mute_code = 1;
    assert_eq!(p.get_mute(&e), Some(true));
    e.players[p.raw()].mute_code = 37;
    assert_eq!(p.get_mute(&e), Some(true));
}

#[test]
fn set_mute_writes_the_engine_flag() {
    let (mut e, p) = engine_with_player();
    p.set_mute(&mut e, true);
    assert_eq!(e.players[p.raw()].mute_code, 1);
    assert_eq!(p.get_mute(&e), Some(true));
    p.set_mute(&mut e, false);
    assert_eq!(p.get_mute(&e), Some(false));
}

#[test]
fn volume_rejects_negative_values() {
    let (mut e, p) = engine_with_player();
    assert_eq!(p.set_volume(&mut e, -3), Err(()));
    assert_eq!(p.get_volume(&e), 0);
    assert_eq!(p.set_volume(&mut e, 80), Ok(()));
    assert_eq!(p.get_volume(&e), 80);
}

#[test]
fn track_sentinels_map_to_absent() {
    let (mut e, p) = engine_with_player();
    assert_eq!(p.get_audio_track(&e), None);
    assert_eq!(p.get_video_track(&e), None);
    assert_eq!(p.get_spu_track(&e), None);
    p.set_audio_track(&mut e, 2);
    p.set_video_track(&mut e, 1);
    p.set_spu_track(&mut e, 0);
    assert_eq!(p.get_audio_track(&e), Some(2));
    assert_eq!(p.get_video_track(&e), Some(1));
    assert_eq!(p.get_spu_track(&e), Some(0));
}

#[test]
fn two_node_track_description_list_decodes_in_order() {
    let (mut e, p) = engine_with_player();
    e.players[p.raw()].video_tds = Some(vec![
        RawTrackDescription { id: 1, name: Some(b"English".to_vec()) },
        RawTrackDescription { id: 2, name: Some(b"French".to_vec()) },
    ]);
    let tds = p.get_video_track_description(&mut e).expect("two nodes");
    assert_eq!(
        tds,
        vec![
            TrackDescription { id: 1, name: Some(String::from("English")) },
            TrackDescription { id: 2, name: Some(String::from("French")) },
        ]
    );
    assert_eq!(e.td_releases, 1);
}

#[test]
fn null_track_description_list_is_absent_and_not_released() {
    let (mut e, p) = engine_with_player();
    assert!(p.get_audio_track_description(&mut e).is_none());
    assert!(p.get_spu_track_description(&mut e).is_none());
    assert_eq!(e.td_releases, 0);
}

#[test]
fn audio_track_description_with_null_name() {
    let (mut e, p) = engine_with_player();
    e.players[p.raw()].audio_tds = Some(vec![RawTrackDescription { id: -1, name: None }]);
    let tds = p.get_audio_track_description(&mut e).expect("one node");
    assert_eq!(tds, vec![TrackDescription { id: -1, name: None }]);
    assert_eq!(e.td_releases, 1);
}

#[test]
fn marquee_timeout_is_clamped() {
    let (mut e, p) = engine_with_player();
    p.set_marquee(&mut e, Some("breaking news"), Some(u64::MAX), Some(4), None);
    let s = &e.players[p.raw()];
    assert_eq!(s.marquee_text, Some(b"breaking news".to_vec()));
    assert_eq!(s.marquee_timeout, i32::MAX);
    assert_eq!(s.marquee_x, 4);
    assert_eq!(s.marquee_y, 0);
    assert!(s.marquee_enabled);
    p.set_marquee(&mut e, None, None, None, None);
    let s = &e.players[p.raw()];
    assert!(!s.marquee_enabled);
    assert_eq!(s.marquee_text, Some(b"breaking news".to_vec()));
}

#[test]
fn marquee_color_and_opacity() {
    let (mut e, p) = engine_with_player();
    p.set_marquee_color(&mut e, 0x00ff00);
    p.set_marquee_opacity(&mut e, 128);
    assert_eq!(e.players[p.raw()].marquee_color, 0x00ff00);
    assert_eq!(e.players[p.raw()].marquee_opacity, 128);
}

#[test]
fn aspect_ratio_round_trip_and_free() {
    let (mut e, p) = engine_with_player();
    assert_eq!(p.get_aspect_ratio(&mut e), None);
    assert_eq!(e.frees, 0);
    p.set_aspect_ratio(&mut e, Some("16:9"));
    assert_eq!(p.get_aspect_ratio(&mut e), Some(String::from("16:9")));
    assert_eq!(e.frees, 1);
    p.set_aspect_ratio(&mut e, None);
    assert_eq!(p.get_aspect_ratio(&mut e), None);
    assert_eq!(e.frees, 1);
}

#[test]
fn adjust_int_stores_per_option() {
    let (mut e, p) = engine_with_player();
    p.set_adjust_int(&mut e, VideoAdjustOption::Enable, 1);
    p.set_adjust_int(&mut e, VideoAdjustOption::Hue, -30);
    assert_eq!(p.get_adjust_int(&e, VideoAdjustOption::Enable), 1);
    assert_eq!(p.get_adjust_int(&e, VideoAdjustOption::Hue), -30);
    assert_eq!(p.get_adjust_int(&e, VideoAdjustOption::Contrast), 0);
}

#[test]
fn fullscreen_toggle_and_inputs() {
    let (mut e, p) = engine_with_player();
    assert!(!p.get_fullscreen(&e));
    p.toggle_fullscreen(&mut e);
    assert!(p.get_fullscreen(&e));
    p.set_fullscreen(&mut e, false);
    assert!(!p.get_fullscreen(&e));
    p.set_key_input(&mut e, true);
    p.set_mouse_input(&mut e, true);
    assert!(e.players[p.raw()].key_input);
    assert!(e.players[p.raw()].mouse_input);
}

#[test]
fn size_and_cursor_follow_the_engine() {
    let (mut e, p) = engine_with_player();
    assert_eq!(p.get_size(&e, 0), None);
    assert_eq!(p.get_cursor(&e, 0), None);
    e.players[p.raw()].video_size = Some((1920, 1080));
    e.players[p.raw()].cursor = Some((12, -3));
    assert_eq!(p.get_size(&e, 0), Some((1920, 1080)));
    assert_eq!(p.get_cursor(&e, 0), Some((12, -3)));
}

#[test]
fn teletext_pages() {
    let (mut e, p) = engine_with_player();
    p.set_teletext(&mut e, 100);
    assert_eq!(p.get_teletext(&e), 100);
    assert_eq!(p.get_teletext_active(&e), 0);
    p.set_teletext_opaque(&mut e, true);
    assert!(e.players[p.raw()].teletext_opaque);
}

#[test]
fn deinterlace_mode_set_and_cleared() {
    let (mut e, p) = engine_with_player();
    p.set_deinterlace(&mut e, Some("blend"));
    assert_eq!(e.players[p.raw()].deinterlace, Some(b"blend".to_vec()));
    p.set_deinterlace(&mut e, None);
    assert_eq!(e.players[p.raw()].deinterlace, None);
}

#[test]
fn player_release_happens_exactly_once() {
    let (mut e, p) = engine_with_player();
    let id = p.raw();
    p.release(&mut e);
    assert_eq!(e.players[id].refs, 0);
    assert_eq!(e.players[id].releases, 1);
}
