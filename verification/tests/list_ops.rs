use vlc::engine::Engine;
use vlc::media::Media;
use vlc::media_list::MediaList;

fn engine_with_list_and_medias(n: usize) -> (Engine, MediaList, Vec<Media>) {
    let mut e = Engine::new();
    let list = MediaList::new(&mut e).expect("factory accepts");
    let mut medias = Vec::new();
    for i in 0..n {
        let mrl = format!("http://example/{}.ogg", i);
        medias.push(Media::new_location(&mut e, &mrl).expect("factory accepts"));
    }
    (e, list, medias)
}

#[test]
fn add_count_remove_scenario() {
    let (mut e, list, medias) = engine_with_list_and_medias(3);
    for m in &medias {
        assert_eq!(list.add_media(&mut e, m), Ok(()));
    }
    assert_eq!(list.count(&mut e), 3);
    assert_eq!(list.remove_index(&mut e, 1), Ok(()));
    assert_eq!(list.count(&mut e), 2);
    let first = list.item_at_index(&mut e, 0).expect("index 0 exists");
    let second = list.item_at_index(&mut e, 1).expect("index 1 exists");
    assert_eq!(first.raw(), medias[0].raw());
    assert_eq!(second.raw(), medias[2].raw());
}

#[test]
fn every_locked_operation_pairs_lock_and_unlock() {
    let (mut e, list, medias) = engine_with_list_and_medias(2);
    let id = list.raw();
    assert_eq!(e.lists[id].locks, 0);
    assert_eq!(e.lists[id].unlocks, 0);
    list.add_media(&mut e, &medias[0]).unwrap();
    list.add_media(&mut e, &medias[1]).unwrap();
    list.count(&mut e);
    list.item_at_index(&mut e, 0);
    list.index_of_item(&mut e, &medias[1]);
    list.remove_index(&mut e, 0);
    list.media(&mut e);
    assert_eq!(e.lists[id].locks, 7);
    assert_eq!(e.lists[id].unlocks, 7);
    assert!(!e.lists[id].locked);
}

#[test]
fn read_only_list_refuses_mutation() {
    let (mut e, list, medias) = engine_with_list_and_medias(1);
    e.lists[list.raw()].read_only = true;
    assert_eq!(list.add_media(&mut e, &medias[0]), Err(()));
    assert_eq!(list.insert_media(&mut e, &medias[0], 0), Err(()));
    assert_eq!(list.remove_index(&mut e, 0), Err(()));
    assert_eq!(list.count(&mut e), 0);
    assert!(list.is_readonly(&e));
}

#[test]
fn insert_positions_and_bounds() {
    let (mut e, list, medias) = engine_with_list_and_medias(3);
    assert_eq!(list.insert_media(&mut e, &medias[0], 0), Ok(()));
    assert_eq!(list.insert_media(&mut e, &medias[1], 0), Ok(()));
    assert_eq!(list.insert_media(&mut e, &medias[2], 1), Ok(()));
    // order is now: 1, 2, 0
    assert_eq!(list.item_at_index(&mut e, 0).unwrap().raw(), medias[1].raw());
    assert_eq!(list.item_at_index(&mut e, 1).unwrap().raw(), medias[2].raw());
    assert_eq!(list.item_at_index(&mut e, 2).unwrap().raw(), medias[0].raw());
    assert_eq!(list.insert_media(&mut e, &medias[0], 17), Err(()));
    assert_eq!(list.insert_media(&mut e, &medias[0], -1), Err(()));
}

#[test]
fn remove_out_of_range_fails() {
    let (mut e, list, medias) = engine_with_list_and_medias(1);
    list.add_media(&mut e, &medias[0]).unwrap();
    assert_eq!(list.remove_index(&mut e, 5), Err(()));
    assert_eq!(list.remove_index(&mut e, -1), Err(()));
    assert_eq!(list.count(&mut e), 1);
}

#[test]
fn item_at_index_out_of_range_is_absent() {
    let (mut e, list, _medias) = engine_with_list_and_medias(0);
    assert!(list.item_at_index(&mut e, 0).is_none());
    assert!(list.item_at_index(&mut e, -3).is_none());
}

#[test]
fn index_of_item_finds_first_occurrence() {
    let (mut e, list, medias) = engine_with_list_and_medias(2);
    list.add_media(&mut e, &medias[0]).unwrap();
    list.add_media(&mut e, &medias[1]).unwrap();
    list.add_media(&mut e, &medias[0]).unwrap();
    assert_eq!(list.index_of_item(&mut e, &medias[0]), Some(0));
    assert_eq!(list.index_of_item(&mut e, &medias[1]), Some(1));
}

#[test]
fn index_of_missing_item_is_absent() {
    let (mut e, list, medias) = engine_with_list_and_medias(2);
    list.add_media(&mut e, &medias[0]).unwrap();
    assert_eq!(list.index_of_item(&mut e, &medias[1]), None);
}

#[test]
fn set_media_and_media_retain_a_fresh_reference() {
    let (mut e, list, medias) = engine_with_list_and_medias(1);
    assert!(list.media(&mut e).is_none());
    list.set_media(&mut e, &medias[0]);
    let mid = medias[0].raw();
    assert_eq!(e.medias[mid].refs, 1);
    let again = list.media(&mut e).expect("media was set");
    assert_eq!(again.raw(), mid);
    assert_eq!(e.medias[mid].refs, 2);
    again.release(&mut e);
    assert_eq!(e.medias[mid].refs, 1);
    assert_eq!(e.medias[mid].releases, 1);
}

#[test]
fn item_at_index_retains_a_fresh_reference() {
    let (mut e, list, medias) = engine_with_list_and_medias(1);
    list.add_media(&mut e, &medias[0]).unwrap();
    let mid = medias[0].raw();
    let item = list.item_at_index(&mut e, 0).expect("index 0 exists");
    assert_eq!(e.medias[mid].refs, 2);
    item.release(&mut e);
    assert_eq!(e.medias[mid].refs, 1);
}

#[test]
fn list_release_happens_exactly_once() {
    let mut e = Engine::new();
    let list = MediaList::new(&mut e).expect("factory accepts");
    let id = list.raw();
    list.release(&mut e);
    assert_eq!(e.lists[id].refs, 0);
    assert_eq!(e.lists[id].releases, 1);
}
