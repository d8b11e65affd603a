use thunars::components::{
    Clipboard, ClipboardEntry, CurrDirectory, EntryKind, File, Finder, Omnibar, Preview, Window,
    BLOCK_LINES, CONTROLS_HEIGHT, CURR_DIR_HEIGHT, RENAME_HEIGHT, TOTAL_USED_LINES,
};
use thunars::config::OmnibarType;
use thunars::Error;

fn strings(names: &[&str]) -> Vec<String> {
    names.iter().map(|s| s.to_string()).collect()
}

#[test]
fn panel_heights_add_up() {
    assert_eq!(BLOCK_LINES, 2);
    assert_eq!(CURR_DIR_HEIGHT, 3);
    assert_eq!(RENAME_HEIGHT, 3);
    assert_eq!(CONTROLS_HEIGHT, 5);
    assert_eq!(TOTAL_USED_LINES, 10);
}

#[test]
fn finder_keeps_no_more_results_than_rows() {
    let mut finder = Finder::new();
    finder.set_max_entries(5);
    let results: Vec<String> = (0..10).map(|i| format!("r{}", i)).collect();
    finder.update_files(results);
    assert_eq!(finder.files().len(), 5);
    assert_eq!(finder.files(), &strings(&["r0", "r1", "r2", "r3", "r4"]));
}

#[test]
fn finder_keeps_fewer_results_whole() {
    let mut finder = Finder::new();
    finder.set_max_entries(5);
    finder.update_files(strings(&["a", "b"]));
    assert_eq!(finder.files(), &strings(&["a", "b"]));
    assert_eq!(finder.max_entries(), 5);
}

#[test]
fn finder_without_rows_keeps_nothing() {
    let mut finder = Finder::new();
    finder.update_files(strings(&["a", "b"]));
    assert_eq!(finder.files().len(), 0);
    assert_eq!(finder.selection(), Err(Error::OutOfRange));
}

#[test]
fn finder_selection_moves_onto_the_last_result_when_results_shrink() {
    let mut finder = Finder::new();
    finder.set_max_entries(5);
    finder.update_files(strings(&["a", "b", "c", "d"]));
    finder.scroll(true);
    finder.scroll(true);
    finder.scroll(true);
    assert_eq!(finder.selected(), 3);
    finder.update_files(strings(&["x", "y"]));
    assert_eq!(finder.selected(), 1);
    assert_eq!(finder.selection(), Ok(&"y".to_string()));
    finder.update_files(Vec::new());
    assert_eq!(finder.selected(), 0);
    assert_eq!(finder.selection(), Err(Error::OutOfRange));
}

#[test]
fn finder_selection_stops_at_both_ends() {
    let mut finder = Finder::new();
    finder.set_max_entries(5);
    finder.update_files(strings(&["a", "b", "c"]));
    finder.scroll(false);
    assert_eq!(finder.selected(), 0);
    finder.scroll(true);
    finder.scroll(true);
    assert_eq!(finder.selected(), 2);
    finder.scroll(true);
    assert_eq!(finder.selected(), 2);
    assert_eq!(finder.selection(), Ok(&"c".to_string()));
    finder.scroll(false);
    assert_eq!(finder.selected(), 1);
}

#[test]
fn finder_selection_stops_at_the_last_row() {
    let mut finder = Finder::new();
    finder.set_max_entries(4);
    finder.update_files(strings(&["a", "b", "c", "d"]));
    finder.set_max_entries(2);
    finder.scroll(true);
    assert_eq!(finder.selected(), 1);
    finder.scroll(true);
    assert_eq!(finder.selected(), 1);
}

#[test]
fn finder_text_and_reset() {
    let mut finder = Finder::new();
    finder.set_max_entries(3);
    finder.set_text("abc".to_string());
    finder.update_files(strings(&["a", "b"]));
    finder.scroll(true);
    assert_eq!(finder.text(), "abc");
    finder.reset();
    assert_eq!(finder.text(), "");
    assert_eq!(finder.files().len(), 0);
    assert_eq!(finder.selected(), 0);
    assert_eq!(finder.max_entries(), 3);
    assert!(!finder.is_visible());
}

#[test]
fn clipboard_entry_is_padded_to_the_panel() {
    let entry = ClipboardEntry::new("/home/u/file.txt".to_string(), false);
    assert_eq!(entry.format(30), "/home/u/file.txt           Y");
    assert_eq!(entry.format(20), "/home/u/file.txt Y");
    let cut = ClipboardEntry::new("/a".to_string(), true);
    assert_eq!(cut.format(8), "/a   X");
}

#[test]
fn clipboard_entry_is_cut_at_the_front() {
    let entry = ClipboardEntry::new("/home/u/file.txt".to_string(), true);
    assert_eq!(entry.format(14), "...ile.txt X");
    assert_eq!(entry.format(19), "...e/u/file.txt X");
    assert_eq!(entry.format(8), "...t X");
    assert_eq!(entry.format(7), "... X");
    assert_eq!(entry.format(4), "... X");
    assert_eq!(entry.format(0), "... X");
}

#[test]
fn clipboard_entry_counts_characters_not_bytes() {
    let entry = ClipboardEntry::new("/é/ü".to_string(), false);
    assert_eq!(entry.format(10), "/é/ü   Y");
    assert_eq!(entry.format(8), "/é/ü Y");
    let long = ClipboardEntry::new("/ä/ö/ü/é".to_string(), false);
    assert_eq!(long.format(10), "...ü/é Y");
}

#[test]
fn empty_clipboard_entry_in_a_narrow_panel() {
    let entry = ClipboardEntry::new(String::new(), false);
    assert_eq!(entry.format(0), " Y");
    assert_eq!(entry.format(6), "   Y");
}

#[test]
fn clipboard_entry_getters() {
    let entry = ClipboardEntry::new("/tmp/x".to_string(), true);
    assert_eq!(entry.fname(), "/tmp/x");
    assert_eq!(entry.file(), &"/tmp/x".to_string());
    assert!(entry.cut());
}

#[test]
fn clipboard_grows_at_the_back_and_clears() {
    let mut clipboard = Clipboard::new();
    assert_eq!(clipboard.get_files().len(), 0);
    clipboard.push(ClipboardEntry::new("/a".to_string(), false));
    clipboard.push(ClipboardEntry::new("/b".to_string(), true));
    assert_eq!(clipboard.get_files().len(), 2);
    assert_eq!(clipboard.get_files()[0].fname(), "/a");
    assert!(!clipboard.get_files()[0].cut());
    assert_eq!(clipboard.get_files()[1].fname(), "/b");
    assert!(clipboard.get_files()[1].cut());
    clipboard.set_max_entries(7);
    assert_eq!(clipboard.max_entries(), 7);
    clipboard.clear();
    assert_eq!(clipboard.get_files().len(), 0);
    assert_eq!(clipboard.max_entries(), 7);
    assert!(clipboard.is_visible());
}

#[test]
fn preview_holds_lines() {
    let mut preview = Preview::new();
    assert_eq!(preview.max_lines(), 0);
    preview.set_max_lines(12);
    preview.update_lines(strings(&["   1 fn main() {", "   2 }"]));
    assert_eq!(preview.max_lines(), 12);
    assert_eq!(preview.lines(), &strings(&["   1 fn main() {", "   2 }"]));
    preview.update_lines(Vec::new());
    assert_eq!(preview.lines().len(), 0);
}

#[test]
fn omnibar_holds_text_and_mode() {
    let mut omnibar = Omnibar::new();
    assert_eq!(omnibar.text(), "");
    assert_eq!(omnibar.mode(), OmnibarType::Rename);
    omnibar.set_text("new".to_string());
    omnibar.set_mode(OmnibarType::Mkdir);
    assert_eq!(omnibar.text(), "new");
    assert_eq!(omnibar.mode(), OmnibarType::Mkdir);
    assert!(!omnibar.is_visible());
}

#[test]
fn directory_label_is_updated() {
    let mut label = CurrDirectory::new("/home".to_string());
    assert_eq!(label.cwd(), "/home");
    label.update_cwd("/home/u".to_string());
    assert_eq!(label.cwd(), "/home/u");
    assert!(label.is_visible());
}

fn shown(window: &Window) -> [bool; 6] {
    [
        window.file_list.is_visible(),
        window.curr_dir.is_visible(),
        window.clipboard.is_visible(),
        window.preview.is_visible(),
        window.finder.is_visible(),
        window.omnibar.is_visible(),
    ]
}

#[test]
fn window_starts_with_the_main_panels() {
    let window = Window::new(vec![File::new(".".to_string(), EntryKind::Directory)], "/".to_string());
    assert_eq!(shown(&window), [true, true, true, true, false, false]);
    assert_eq!(window.curr_dir.cwd(), "/");
    assert_eq!(window.file_list.files().len(), 1);
    assert_eq!(window.omnibar.mode(), OmnibarType::Rename);
}

#[test]
fn finder_mode_covers_the_main_panels() {
    let mut window = Window::new(Vec::new(), "/".to_string());
    window.finder_mode(true);
    assert_eq!(shown(&window), [false, false, false, false, true, false]);
    window.finder_mode(false);
    assert_eq!(shown(&window), [true, true, true, true, false, false]);
}

#[test]
fn omnibar_mode_covers_the_main_panels() {
    let mut window = Window::new(Vec::new(), "/".to_string());
    window.omnibar_mode(true, OmnibarType::Touch);
    assert_eq!(shown(&window), [false, false, false, false, false, true]);
    assert_eq!(window.omnibar.mode(), OmnibarType::Touch);
    window.omnibar_mode(false, OmnibarType::Mkdir);
    assert_eq!(shown(&window), [true, true, true, true, false, false]);
    assert_eq!(window.omnibar.mode(), OmnibarType::Mkdir);
}

#[test]
fn hint_mode_shows_the_codes() {
    let mut window = Window::new(Vec::new(), "/".to_string());
    window.hint_mode(true);
    assert!(window.file_list.hints_shown());
    assert_eq!(shown(&window), [true, true, true, true, false, false]);
    window.hint_mode(false);
    assert!(!window.file_list.hints_shown());
}
