use vlc::engine::Engine;
use vlc::enums::PlaybackMode;
use vlc::media::Media;
use vlc::media_list::MediaList;
use vlc::media_list_player::MediaListPlayer;
use vlc::media_player::MediaPlayer;

fn engine_with_playable_list(n: usize) -> (Engine, MediaListPlayer, MediaList) {
    let mut e = Engine::new();
    let lp = MediaListPlayer::new(&mut e).expect("factory accepts");
    let list = MediaList::new(&mut e).expect("factory accepts");
    for i in 0..n {
        let mrl = format!("http://example/{}.ogg", i);
        let m = Media::new_location(&mut e, &mrl).expect("factory accepts");
        list.add_media(&mut e, &m).unwrap();
        m.release(&mut e);
    }
    lp.set_media_list(&mut e, &list);
    (e, lp, list)
}

#[test]
fn play_pause_stop_flags() {
    let (mut e, lp, _list) = engine_with_playable_list(1);
    assert!(!lp.is_playing(&e));
    lp.play(&mut e);
    assert!(lp.is_playing(&e));
    lp.set_pause(&mut e, true);
    assert!(!lp.is_playing(&e));
    lp.set_pause(&mut e, false);
    assert!(lp.is_playing(&e));
    lp.stop(&mut e);
    assert!(!lp.is_playing(&e));
}

#[test]
fn play_item_at_index_checks_bounds() {
    let (mut e, lp, _list) = engine_with_playable_list(2);
    assert_eq!(lp.play_item_at_index(&mut e, 1), Ok(()));
    assert!(lp.is_playing(&e));
    assert_eq!(e.list_players[lp.raw()].current, 1);
    assert_eq!(lp.play_item_at_index(&mut e, 2), Err(()));
    assert_eq!(lp.play_item_at_index(&mut e, -1), Err(()));
}

#[test]
fn play_without_list_fails_to_step() {
    let mut e = Engine::new();
    let lp = MediaListPlayer::new(&mut e).expect("factory accepts");
    assert_eq!(lp.play_item_at_index(&mut e, 0), Err(()));
    assert_eq!(lp.next(&mut e), Err(()));
    assert_eq!(lp.previous(&mut e), Err(()));
}

#[test]
fn next_stops_at_the_end_in_default_mode() {
    let (mut e, lp, _list) = engine_with_playable_list(2);
    lp.play_item_at_index(&mut e, 0).unwrap();
    assert_eq!(lp.next(&mut e), Ok(()));
    assert_eq!(e.list_players[lp.raw()].current, 1);
    assert_eq!(lp.next(&mut e), Err(()));
    assert_eq!(e.list_players[lp.raw()].current, 1);
}

#[test]
fn next_wraps_in_loop_mode() {
    let (mut e, lp, _list) = engine_with_playable_list(2);
    lp.set_playback_mode(&mut e, PlaybackMode::Loop);
    lp.play_item_at_index(&mut e, 1).unwrap();
    assert_eq!(lp.next(&mut e), Ok(()));
    assert_eq!(e.list_players[lp.raw()].current, 0);
}

#[test]
fn repeat_mode_stays_on_the_same_item() {
    let (mut e, lp, _list) = engine_with_playable_list(2);
    lp.set_playback_mode(&mut e, PlaybackMode::Repeat);
    lp.play_item_at_index(&mut e, 1).unwrap();
    assert_eq!(lp.next(&mut e), Ok(()));
    assert_eq!(e.list_players[lp.raw()].current, 1);
    assert_eq!(lp.previous(&mut e), Ok(()));
    assert_eq!(e.list_players[lp.raw()].current, 1);
}

#[test]
fn previous_steps_back_and_wraps_only_in_loop_mode() {
    let (mut e, lp, _list) = engine_with_playable_list(2);
    lp.play_item_at_index(&mut e, 1).unwrap();
    assert_eq!(lp.previous(&mut e), Ok(()));
    assert_eq!(e.list_players[lp.raw()].current, 0);
    assert_eq!(lp.previous(&mut e), Err(()));
    lp.set_playback_mode(&mut e, PlaybackMode::Loop);
    assert_eq!(lp.previous(&mut e), Ok(()));
    assert_eq!(e.list_players[lp.raw()].current, 1);
}

#[test]
fn get_media_player_retains_a_fresh_reference() {
    let mut e = Engine::new();
    let lp = MediaListPlayer::new(&mut e).expect("factory accepts");
    assert!(lp.get_media_player(&mut e).is_none());
    let mp = MediaPlayer::new(&mut e).expect("factory accepts");
    let pid = mp.raw();
    e.list_players[lp.raw()].media_player = Some(pid);
    let handed = lp.get_media_player(&mut e).expect("a player is attached");
    assert_eq!(handed.raw(), pid);
    assert_eq!(e.players[pid].refs, 2);
    handed.release(&mut e);
    assert_eq!(e.players[pid].refs, 1);
}

#[test]
fn playback_mode_codes_are_stored() {
    let (mut e, lp, _list) = engine_with_playable_list(0);
    lp.set_playback_mode(&mut e, PlaybackMode::Repeat);
    assert_eq!(e.list_players[lp.raw()].mode_code, 2);
    lp.set_playback_mode(&mut e, PlaybackMode::Default);
    assert_eq!(e.list_players[lp.raw()].mode_code, 0);
}

#[test]
fn list_player_release_happens_exactly_once() {
    let mut e = Engine::new();
    let lp = MediaListPlayer::new(&mut e).expect("factory accepts");
    let id = lp.raw();
    lp.release(&mut e);
    assert_eq!(e.list_players[id].refs, 0);
    assert_eq!(e.list_players[id].releases, 1);
}
