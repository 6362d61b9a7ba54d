use rustmission::table::GenericTable;

fn letters() -> GenericTable<char> {
    GenericTable::new(vec!['a', 'b', 'c'])
}

#[test]
fn a_new_table_has_no_cursor() {
    let table = letters();
    assert_eq!(table.selected, None);
    assert_eq!(table.offset, 0);
    assert_eq!(table.get_len(), 3);
    assert_eq!(table.current_item(), None);
}

#[test]
fn next_walks_down_and_wraps() {
    let mut table = letters();
    table.next();
    assert_eq!(table.selected, Some(0));
    table.next();
    table.next();
    assert_eq!(table.selected, Some(2));
    assert_eq!(table.current_item(), Some(&'c'));
    table.next();
    assert_eq!(table.selected, Some(0));
}

#[test]
fn previous_walks_up_and_wraps() {
    let mut table = letters();
    table.previous();
    assert_eq!(table.selected, Some(0));
    table.previous();
    assert_eq!(table.selected, Some(2));
    table.previous();
    assert_eq!(table.selected, Some(1));
}

#[test]
fn an_empty_table_never_gets_a_cursor() {
    let mut table: GenericTable<char> = GenericTable::new(vec![]);
    table.next();
    table.previous();
    table.scroll_down_by(3);
    table.scroll_up_by(3);
    table.select_first();
    table.select_last();
    table.select(Some(4));
    assert_eq!(table.selected, None);
}

#[test]
fn scrolling_stops_at_the_ends() {
    let mut table = GenericTable::new(vec![0, 1, 2, 3, 4, 5, 6, 7, 8, 9]);
    table.scroll_down_by(4);
    assert_eq!(table.selected, Some(4));
    table.scroll_down_by(4);
    assert_eq!(table.selected, Some(8));
    table.scroll_down_by(4);
    assert_eq!(table.selected, Some(9));
    table.scroll_down_by(usize::MAX);
    assert_eq!(table.selected, Some(9));
    table.scroll_up_by(3);
    assert_eq!(table.selected, Some(6));
    table.scroll_up_by(7);
    assert_eq!(table.selected, Some(0));
}

#[test]
fn first_and_last() {
    let mut table = letters();
    table.select_last();
    assert_eq!(table.selected, Some(2));
    table.select_first();
    assert_eq!(table.selected, Some(0));
}

#[test]
fn the_cursor_stays_inside_when_rows_are_replaced() {
    let mut table = letters();
    table.select_last();
    table.set_items(vec!['x', 'y']);
    assert_eq!(table.selected, Some(1));
    table.set_items(vec![]);
    assert_eq!(table.selected, None);
    table.set_items(vec!['z']);
    assert_eq!(table.selected, None);
}

#[test]
fn clearing_removes_the_cursor() {
    let mut table = letters();
    table.next();
    table.clear();
    assert_eq!(table.items.len(), 0);
    assert_eq!(table.selected, None);
}

#[test]
fn a_shorter_visible_length_pulls_the_cursor_in() {
    let mut table = letters();
    table.select_last();
    table.overwrite_len(Some(2));
    assert_eq!(table.get_len(), 2);
    assert_eq!(table.selected, Some(1));
    table.next();
    assert_eq!(table.selected, Some(0));
    table.overwrite_len(Some(0));
    assert_eq!(table.selected, None);
    table.overwrite_len(Some(17));
    assert_eq!(table.get_len(), 3);
    table.overwrite_len(None);
    assert_eq!(table.get_len(), 3);
}

#[test]
fn the_offset_is_kept() {
    let mut table = letters();
    table.set_offset(2);
    table.next();
    assert_eq!(table.offset, 2);
    table.set_items(vec!['q']);
    assert_eq!(table.offset, 2);
}
