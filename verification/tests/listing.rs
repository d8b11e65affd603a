use thunars::components::{EntryKind, File};
use thunars::listing::{fetch_files, sort_names};

fn strings(names: &[&str]) -> Vec<String> {
    names.iter().map(|s| s.to_string()).collect()
}

fn shown(entries: &Vec<File>) -> Vec<(String, EntryKind)> {
    entries.iter().map(|f| (f.name(), f.kind())).collect()
}

#[test]
fn directories_come_before_files() {
    let entries = fetch_files(&strings(&["b"]), &strings(&["a.txt"]));
    assert_eq!(
        shown(&entries),
        vec![
            (".".to_string(), EntryKind::Directory),
            ("..".to_string(), EntryKind::Directory),
            ("b".to_string(), EntryKind::Directory),
            ("a.txt".to_string(), EntryKind::File),
        ]
    );
}

#[test]
fn an_empty_directory_shows_the_two_synthetic_entries() {
    let entries = fetch_files(&Vec::new(), &Vec::new());
    assert_eq!(
        shown(&entries),
        vec![(".".to_string(), EntryKind::Directory), ("..".to_string(), EntryKind::Directory)]
    );
}

#[test]
fn each_group_is_sorted() {
    let entries = fetch_files(
        &strings(&["src", "docs", ".git", "Target"]),
        &strings(&["b.rs", "a.rs", "Cargo.toml", "a"]),
    );
    let names: Vec<String> = entries.iter().map(|f| f.name()).collect();
    assert_eq!(
        names,
        strings(&[".", "..", ".git", "Target", "docs", "src", "Cargo.toml", "a", "a.rs", "b.rs"])
    );
    let kinds: Vec<EntryKind> = entries.iter().map(|f| f.kind()).collect();
    assert_eq!(kinds[..6], [EntryKind::Directory; 6]);
    assert_eq!(kinds[6..], [EntryKind::File; 4]);
}

#[test]
fn empty_names_are_left_out() {
    let entries = fetch_files(&strings(&["", "d"]), &strings(&["f", ""]));
    let names: Vec<String> = entries.iter().map(|f| f.name()).collect();
    assert_eq!(names, strings(&[".", "..", "d", "f"]));
}

#[test]
fn sorting_keeps_every_name() {
    let sorted = sort_names(&strings(&["pear", "apple", "fig", "apple", "", "Zed", "éclair"]));
    assert_eq!(sorted, strings(&["Zed", "apple", "apple", "fig", "pear", "éclair"]));
}

#[test]
fn sorting_agrees_with_the_order_of_strings() {
    let names = strings(&["m", "b", "zz", "a", "ab", "B", "10", "9", "_x", "a.b", "a-b"]);
    let mut expected = names.clone();
    expected.sort();
    assert_eq!(sort_names(&names), expected);
}
