use thunars::hints::HintTable;
use thunars::Error;

#[test]
fn first_rows_have_single_letters() {
    let table = HintTable::new();
    let singles = ["p", "l", "f", "u", "w", "y", "q", ";"];
    for (row, code) in singles.iter().enumerate() {
        assert_eq!(table.lookup_code(row), Some(code.to_string()));
    }
}

#[test]
fn later_rows_have_two_letters() {
    let table = HintTable::new();
    assert_eq!(table.lookup_code(8), Some("tt".to_string()));
    assert_eq!(table.lookup_code(9), Some("tn".to_string()));
    assert_eq!(table.lookup_code(23), Some("t;".to_string()));
    assert_eq!(table.lookup_code(24), Some("nt".to_string()));
    assert_eq!(table.lookup_code(135), Some("o;".to_string()));
}

#[test]
fn rows_beyond_the_table_have_no_code() {
    let table = HintTable::new();
    assert_eq!(table.lookup_code(136), None);
    assert_eq!(table.lookup_code(usize::MAX), None);
}

#[test]
fn resolve_inverts_lookup_on_every_row() {
    let table = HintTable::new();
    for row in 0..136usize {
        let code = table.lookup_code(row).unwrap();
        assert_eq!(table.resolve(&code), Ok(row));
    }
}

#[test]
fn no_two_rows_share_a_code() {
    let table = HintTable::new();
    let codes: Vec<String> = (0..136usize).map(|row| table.lookup_code(row).unwrap()).collect();
    for i in 0..codes.len() {
        for j in (i + 1)..codes.len() {
            assert_ne!(codes[i], codes[j]);
        }
    }
}

#[test]
fn unknown_code_is_refused() {
    let table = HintTable::new();
    assert_eq!(table.resolve(&"zz".to_string()), Err(Error::UnknownHint));
    assert_eq!(table.resolve(&"t".to_string()), Err(Error::UnknownHint));
    assert_eq!(table.resolve(&"pp".to_string()), Err(Error::UnknownHint));
    assert_eq!(table.resolve(&String::new()), Err(Error::UnknownHint));
}

#[test]
fn a_code_is_valid_only_among_the_visible_rows() {
    let table = HintTable::new();
    assert!(table.is_valid_code(&"p".to_string(), 1));
    assert!(!table.is_valid_code(&"p".to_string(), 0));
    assert!(table.is_valid_code(&"f".to_string(), 3));
    assert!(!table.is_valid_code(&"f".to_string(), 2));
    assert!(table.is_valid_code(&"tt".to_string(), 9));
    assert!(!table.is_valid_code(&"tt".to_string(), 8));
    assert!(!table.is_valid_code(&"t".to_string(), 136));
    assert!(table.is_valid_code(&"o;".to_string(), 1000));
}
