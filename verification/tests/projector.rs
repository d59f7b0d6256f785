use vlc::linked_list::ListCursor;

#[test]
fn empty_list_yields_an_empty_sequence() {
    let mut cursor: ListCursor<i32> = ListCursor::new(Vec::new());
    assert_eq!(cursor.len(), 0);
    assert_eq!(cursor.next(), None);
    assert_eq!(cursor.next(), None);
}

#[test]
fn n_nodes_yield_exactly_n_items_in_order() {
    let mut cursor = ListCursor::new(vec![10, 20, 30]);
    assert_eq!(cursor.next(), Some(10));
    assert_eq!(cursor.next(), Some(20));
    assert_eq!(cursor.next(), Some(30));
    assert_eq!(cursor.next(), None);
}

#[test]
fn exhausted_cursor_is_not_restartable() {
    let nodes = vec![1, 2];
    let mut cursor = ListCursor::new(nodes.clone());
    while cursor.next().is_some() {}
    // A second pass over the same exhausted cursor yields nothing.
    assert_eq!(cursor.next(), None);
    assert_eq!(cursor.len(), 0);
    // Only a fresh cursor from the list's head yields the nodes again.
    let mut fresh = ListCursor::new(nodes);
    assert_eq!(fresh.next(), Some(1));
    assert_eq!(fresh.next(), Some(2));
    assert_eq!(fresh.next(), None);
}
