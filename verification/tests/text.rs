use thunars::text::{chars_eq, chars_lt, file_name, join_path, str_eq, to_chars};

fn lt(a: &str, b: &str) -> bool {
    chars_lt(&to_chars(a), &to_chars(b))
}

#[test]
fn characters_of_a_string() {
    assert_eq!(to_chars("aé;"), vec!['a', 'é', ';']);
    assert_eq!(to_chars(""), Vec::<char>::new());
}

#[test]
fn equality_is_by_characters() {
    assert!(str_eq("enter", "enter"));
    assert!(!str_eq("enter", "ente"));
    assert!(!str_eq("enter", "entex"));
    assert!(str_eq("", ""));
    assert!(chars_eq(&vec!['a'], &vec!['a']));
    assert!(!chars_eq(&vec!['a'], &vec!['b']));
    assert!(!chars_eq(&vec!['a'], &vec![]));
}

#[test]
fn dictionary_order() {
    assert!(lt("a", "b"));
    assert!(!lt("b", "a"));
    assert!(!lt("a", "a"));
    assert!(lt("", "a"));
    assert!(!lt("a", ""));
    assert!(!lt("", ""));
    assert!(lt("ab", "abc"));
    assert!(!lt("abc", "ab"));
    assert!(lt("B", "a"));
    assert!(lt("a.txt", "b"));
    assert!(lt("z", "é"));
    assert!(lt("abd", "abe"));
    assert!(lt("ab", "b"));
}

#[test]
fn dictionary_order_agrees_with_the_order_of_strings() {
    let words = ["", "a", "A", "ab", "abc", "b", "ba", "é", "z", ".", "..", "a.txt", "~"];
    for a in words {
        for b in words {
            assert_eq!(lt(a, b), a < b);
        }
    }
}

#[test]
fn joining_puts_one_slash_between() {
    assert_eq!(join_path("/home/u", "file.txt"), "/home/u/file.txt");
    assert_eq!(join_path("/", "etc"), "/etc");
    assert_eq!(join_path("/home/u/", "x"), "/home/u/x");
    assert_eq!(join_path("", "x"), "x");
    assert_eq!(join_path("/home", ""), "/home/");
}

#[test]
fn the_file_name_follows_the_last_slash() {
    assert_eq!(file_name("/home/u/file.txt"), "file.txt");
    assert_eq!(file_name("file.txt"), "file.txt");
    assert_eq!(file_name("/x"), "x");
    assert_eq!(file_name("/home/u/"), "");
    assert_eq!(file_name(""), "");
    assert_eq!(file_name("/ä/ö"), "ö");
}
