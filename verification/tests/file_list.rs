use thunars::components::{EntryKind, File, FileList};
use thunars::Error;

fn list_of(n: usize, viewport: usize) -> FileList {
    let files = (0..n).map(|i| File::new(format!("f{}", i), EntryKind::File)).collect();
    let mut list = FileList::new(files);
    list.set_max_entries(viewport);
    list
}

fn position(list: &FileList) -> (usize, usize) {
    (list.scroll(), list.selected())
}

#[test]
fn new_list_is_at_the_top() {
    let list = list_of(5, 3);
    assert_eq!(position(&list), (0, 0));
    assert_eq!(list.max_entries(), 3);
    assert!(list.is_visible());
    assert!(!list.hints_shown());
    assert_eq!(list.curr_entry(), Ok("f0".to_string()));
}

#[test]
fn scrolling_down_moves_the_selection_then_the_window() {
    let mut list = list_of(5, 3);
    list.scroll_entry(true);
    assert_eq!(position(&list), (0, 1));
    list.scroll_entry(true);
    assert_eq!(position(&list), (0, 2));
    list.scroll_entry(true);
    assert_eq!(position(&list), (1, 2));
    list.scroll_entry(true);
    assert_eq!(position(&list), (2, 2));
    assert_eq!(list.curr_entry(), Ok("f4".to_string()));
}

#[test]
fn scrolling_down_at_the_last_entry_changes_nothing() {
    let mut list = list_of(5, 3);
    for _ in 0..5 {
        list.scroll_entry(true);
    }
    assert_eq!(list.scroll() + list.selected(), 4);
    let before = position(&list);
    list.scroll_entry(true);
    assert_eq!(position(&list), before);
    list.scroll_entry(true);
    assert_eq!(position(&list), before);
}

#[test]
fn scrolling_down_as_often_as_there_are_entries_reaches_the_last() {
    for n in 1..12usize {
        for viewport in 0..6usize {
            let mut list = list_of(n, viewport);
            for _ in 0..n {
                list.scroll_entry(true);
            }
            assert_eq!(list.scroll() + list.selected(), n - 1);
        }
    }
}

#[test]
fn scrolling_up_moves_the_selection_then_the_window() {
    let mut list = list_of(5, 3);
    for _ in 0..4 {
        list.scroll_entry(true);
    }
    assert_eq!(position(&list), (2, 2));
    list.scroll_entry(false);
    assert_eq!(position(&list), (2, 1));
    list.scroll_entry(false);
    assert_eq!(position(&list), (2, 0));
    list.scroll_entry(false);
    assert_eq!(position(&list), (1, 0));
    list.scroll_entry(false);
    assert_eq!(position(&list), (0, 0));
    list.scroll_entry(false);
    assert_eq!(position(&list), (0, 0));
}

#[test]
fn a_smaller_viewport_pins_the_selection_on_the_next_step_down() {
    let mut list = list_of(10, 5);
    for _ in 0..4 {
        list.scroll_entry(true);
    }
    assert_eq!(position(&list), (0, 4));
    list.set_max_entries(3);
    assert_eq!(position(&list), (0, 4));
    list.scroll_entry(true);
    assert_eq!(position(&list), (3, 2));
    assert_eq!(list.curr_entry(), Ok("f5".to_string()));
}

#[test]
fn the_window_scrolls_without_moving_the_selected_row() {
    let mut list = list_of(6, 3);
    list.scroll_entry(true);
    list.scroll_window(true);
    assert_eq!(position(&list), (1, 1));
    list.scroll_window(true);
    assert_eq!(position(&list), (2, 1));
    list.scroll_window(true);
    assert_eq!(position(&list), (3, 1));
    list.scroll_window(true);
    assert_eq!(position(&list), (3, 1));
    list.scroll_window(false);
    assert_eq!(position(&list), (2, 1));
    list.scroll_window(false);
    list.scroll_window(false);
    assert_eq!(position(&list), (0, 1));
    list.scroll_window(false);
    assert_eq!(position(&list), (0, 1));
}

#[test]
fn the_window_does_not_scroll_over_a_list_that_fits() {
    let mut list = list_of(3, 5);
    list.scroll_window(true);
    assert_eq!(position(&list), (0, 0));
}

#[test]
fn any_scrolling_keeps_the_selection_on_an_entry_inside_the_window() {
    let steps = [
        (true, true),
        (true, true),
        (false, true),
        (true, true),
        (true, true),
        (false, true),
        (false, false),
        (true, false),
        (true, true),
        (false, false),
        (false, false),
        (true, false),
        (true, true),
    ];
    for n in 1..9usize {
        for viewport in 1..5usize {
            let mut list = list_of(n, viewport);
            for round in 0..4 {
                for (i, (entry, down)) in steps.iter().enumerate() {
                    if (i + round) % 3 == 0 {
                        list.scroll_window(*down);
                    } else if *entry {
                        list.scroll_entry(*down);
                    } else {
                        list.scroll_window(*down);
                    }
                    assert!(list.scroll() + list.selected() < n);
                    assert!(list.selected() < viewport);
                }
            }
        }
    }
}

#[test]
fn an_empty_list_has_no_current_entry() {
    let mut list = list_of(0, 3);
    assert_eq!(list.curr_entry(), Err(Error::OutOfRange));
    assert_eq!(list.curr_kind(), Err(Error::OutOfRange));
    list.scroll_entry(true);
    list.scroll_entry(false);
    list.scroll_window(true);
    list.scroll_window(false);
    assert_eq!(position(&list), (0, 0));
    assert_eq!(list.visible_rows(), 0);
}

#[test]
fn new_files_reset_the_position() {
    let mut list = list_of(10, 3);
    for _ in 0..6 {
        list.scroll_entry(true);
    }
    list.update_files(vec![File::new("only".to_string(), EntryKind::Directory)]);
    assert_eq!(position(&list), (0, 0));
    assert_eq!(list.max_entries(), 3);
    assert_eq!(list.files().len(), 1);
    assert_eq!(list.curr_entry(), Ok("only".to_string()));
    assert_eq!(list.curr_kind(), Ok(EntryKind::Directory));
}

#[test]
fn visible_rows_are_bounded_by_window_and_list() {
    let mut list = list_of(5, 3);
    assert_eq!(list.visible_rows(), 3);
    for _ in 0..4 {
        list.scroll_entry(true);
    }
    assert_eq!(list.visible_rows(), 3);
    list.set_max_entries(10);
    assert_eq!(list.visible_rows(), 3);
    let short = list_of(2, 10);
    assert_eq!(short.visible_rows(), 2);
    let unset = list_of(5, 0);
    assert_eq!(unset.visible_rows(), 0);
}

#[test]
fn a_hint_jumps_inside_the_window() {
    let mut list = list_of(20, 10);
    for _ in 0..12 {
        list.scroll_entry(true);
    }
    assert_eq!(position(&list), (3, 9));
    assert!(list.valid_hint(&"f".to_string()));
    assert_eq!(list.jump_hint("f".to_string()), Ok(()));
    assert_eq!(position(&list), (3, 2));
    assert_eq!(list.curr_entry(), Ok("f5".to_string()));
    assert!(list.valid_hint(&"tn".to_string()));
    assert_eq!(list.jump_hint("tn".to_string()), Ok(()));
    assert_eq!(position(&list), (3, 9));
}

#[test]
fn a_hint_beyond_the_visible_rows_is_refused() {
    let mut list = list_of(20, 5);
    assert!(!list.valid_hint(&"y".to_string()));
    assert_eq!(list.jump_hint("y".to_string()), Err(Error::UnknownHint));
    assert_eq!(position(&list), (0, 0));
    assert!(!list.valid_hint(&"zz".to_string()));
    assert_eq!(list.jump_hint("zz".to_string()), Err(Error::UnknownHint));
    let mut short = list_of(3, 10);
    assert!(short.valid_hint(&"f".to_string()));
    assert!(!short.valid_hint(&"u".to_string()));
    assert_eq!(short.jump_hint("u".to_string()), Err(Error::UnknownHint));
}

#[test]
fn rows_show_their_codes() {
    let list = list_of(3, 3);
    assert_eq!(list.hint_for_row(0), Some("p".to_string()));
    assert_eq!(list.hint_for_row(10), Some("ts".to_string()));
    assert_eq!(list.hint_for_row(136), None);
}

#[test]
fn a_file_keeps_its_name_and_kind() {
    let file = File::new("notes.txt".to_string(), EntryKind::File);
    assert_eq!(file.name(), "notes.txt");
    assert_eq!(file.kind(), EntryKind::File);
}
