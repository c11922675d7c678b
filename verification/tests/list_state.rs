use elysium::list::{ListState, LIST_LIMIT};

fn row(cells: &[&str]) -> Vec<String> {
    cells.iter().map(|cell| cell.to_string()).collect()
}

fn numbered(count: usize) -> Vec<Vec<String>> {
    (0..count).map(|i| vec![format!("row-{i}"), String::from("OK")]).collect()
}

#[test]
fn next_wraps_to_first_row() {
    let mut list = ListState::new();
    list.load(vec![row(&["beta", "OK", "t1"]), row(&["Alpha", "OK", "t2"])]);
    assert_eq!(list.selected(), 0);
    assert_eq!(list.len(), 2);
    list.next(1);
    assert_eq!(list.selected(), 1);
    list.next(1);
    assert_eq!(list.selected(), 0);
}

#[test]
fn filter_ignores_case() {
    let mut list = ListState::new();
    list.load(vec![row(&["Alpha", "OK"]), row(&["Beta", "FAIL"])]);
    list.filter("fail");
    assert_eq!(list.len(), 1);
    assert_eq!(list.row(0), &row(&["Beta", "FAIL"]));
    assert_eq!(list.selected_row(), Some(&row(&["Beta", "FAIL"])));
    assert_eq!(list.filter_text(), "fail");
    assert_eq!(list.total(), 2);
}

#[test]
fn filter_in_upper_case_matches_lower_case_cells() {
    let mut list = ListState::with_items(vec![row(&["alpha", "ok"]), row(&["beta", "fail"])]);
    list.filter("ALP");
    assert_eq!(list.len(), 1);
    assert_eq!(list.row(0), &row(&["alpha", "ok"]));
}

#[test]
fn empty_filter_keeps_every_row() {
    let mut list = ListState::with_items(vec![row(&["a"]), row(&[]), row(&["b"])]);
    list.filter("");
    assert_eq!(list.len(), 3);
    list.filter("a");
    assert_eq!(list.len(), 1);
    list.filter("");
    assert_eq!(list.len(), 3);
}

#[test]
fn filter_twice_is_filter_once() {
    let mut once = ListState::with_items(numbered(30));
    once.next(25);
    once.filter("row-1");
    let mut twice = ListState::with_items(numbered(30));
    twice.next(25);
    twice.filter("row-1");
    twice.filter("row-1");
    assert_eq!(once.len(), 11);
    assert_eq!(twice.len(), once.len());
    assert_eq!(twice.selected(), once.selected());
    assert_eq!(twice.offset(), once.offset());
    for i in 0..once.len() {
        assert_eq!(twice.row(i), once.row(i));
    }
}

#[test]
fn filtered_rows_are_rows_of_the_unfiltered_view() {
    let rows = numbered(40);
    let mut list = ListState::with_items(rows.clone());
    list.filter("W-3");
    assert_eq!(list.len(), 11);
    let mut last_position = None;
    for i in 0..list.len() {
        let position = rows.iter().position(|r| r == list.row(i));
        assert!(position.is_some());
        assert!(position > last_position);
        last_position = position;
    }
}

#[test]
fn filter_clamps_selection() {
    let mut list = ListState::with_items(numbered(10));
    list.last();
    assert_eq!(list.selected(), 9);
    list.filter("row-1");
    assert_eq!(list.len(), 1);
    assert_eq!(list.selected(), 0);
    let mut list = ListState::with_items(numbered(30));
    list.next(20);
    list.filter("row-1");
    assert_eq!(list.len(), 11);
    assert_eq!(list.selected(), 10);
    list.filter("nothing");
    assert_eq!(list.len(), 0);
    assert_eq!(list.selected(), 0);
    assert!(list.is_empty());
    assert_eq!(list.selected_row(), None);
}

#[test]
fn load_keeps_filter_and_resets_selection() {
    let mut list = ListState::with_items(vec![row(&["d1"]), row(&["d2"]), row(&["d3"])]);
    list.filter("d");
    list.next(2);
    assert_eq!(list.selected(), 2);
    list.load(vec![row(&["x"]), row(&["dx"])]);
    assert_eq!(list.selected(), 0);
    assert_eq!(list.offset(), 0);
    assert_eq!(list.filter_text(), "d");
    assert_eq!(list.len(), 1);
    assert_eq!(list.row(0), &row(&["dx"]));
}

#[test]
fn selection_stays_in_range_under_moves() {
    let mut list = ListState::with_items(numbered(7));
    let moves: [(bool, usize); 10] = [
        (true, 3),
        (true, 3),
        (true, 1),
        (false, 1),
        (false, 5),
        (true, 100),
        (false, 0),
        (true, usize::MAX),
        (false, usize::MAX),
        (true, 6),
    ];
    let expected = [3, 6, 0, 6, 1, 0, 0, 0, 6, 0];
    for (i, (forward, amount)) in moves.iter().enumerate() {
        if *forward {
            list.next(*amount);
        } else {
            list.previous(*amount);
        }
        assert!(list.selected() < list.len());
        assert_eq!(list.selected(), expected[i]);
    }
}

#[test]
fn selection_stays_at_zero_in_empty_view() {
    let mut list = ListState::new();
    list.next(1);
    assert_eq!(list.selected(), 0);
    list.previous(1);
    assert_eq!(list.selected(), 0);
    list.last();
    assert_eq!(list.selected(), 0);
    list.first();
    assert_eq!(list.selected(), 0);
    list.next(5);
    assert_eq!(list.selected(), 0);
    assert_eq!(list.len(), 0);
}

#[test]
fn previous_before_first_selects_last() {
    let mut list = ListState::with_items(numbered(5));
    list.previous(1);
    assert_eq!(list.selected(), 4);
    list.previous(1);
    assert_eq!(list.selected(), 3);
    list.previous(4);
    assert_eq!(list.selected(), 4);
    list.previous(4);
    assert_eq!(list.selected(), 0);
}

#[test]
fn first_and_last_jump_to_the_ends() {
    let mut list = ListState::with_items(numbered(250));
    list.last();
    assert_eq!(list.selected(), 249);
    assert_eq!(list.offset(), 200);
    list.first();
    assert_eq!(list.selected(), 0);
    assert_eq!(list.offset(), 0);
}

#[test]
fn offset_is_start_of_page() {
    assert_eq!(LIST_LIMIT, 100);
    let mut list = ListState::with_items(numbered(350));
    list.next(99);
    assert_eq!(list.offset(), 0);
    list.next(1);
    assert_eq!(list.selected(), 100);
    assert_eq!(list.offset(), 100);
    list.next(249);
    assert_eq!(list.selected(), 349);
    assert_eq!(list.offset(), 300);
    list.next(1);
    assert_eq!(list.selected(), 0);
    assert_eq!(list.offset(), 0);
}

#[test]
fn switch_to_empty_category_resets_selection() {
    let mut list = ListState::with_items(vec![
        row(&["abc-1", "HEALTHY", "t1"]),
        row(&["abc-2", "HEALTHY", "t2"]),
        row(&["abc-3", "UNHEALTHY", "t3"]),
    ]);
    list.filter("abc");
    list.next(2);
    assert_eq!(list.selected(), 2);
    list.load(Vec::new());
    assert_eq!(list.selected(), 0);
    assert_eq!(list.len(), 0);
    assert!(list.is_empty());
    assert_eq!(list.filter_text(), "abc");
}
