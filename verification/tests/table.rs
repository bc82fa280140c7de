use qnicknamebot::table::{NicknameTable, TableError};

fn candidates(list: &[&str]) -> Vec<String> {
    list.iter().map(|s| s.to_string()).collect()
}

#[test]
fn new_table_has_no_letters() {
    let table = NicknameTable::new();
    assert_eq!(table.lookup('a'), None);
    assert_eq!(table.lookup('t'), None);
}

#[test]
fn lookup_gives_the_candidates_in_order() {
    let mut table = NicknameTable::new();
    assert_eq!(table.insert('t', candidates(&["Timmy", "Tiny-T", "The Rock"])), Ok(()));
    assert_eq!(table.insert('a', candidates(&["Ace"])), Ok(()));
    assert_eq!(table.lookup('t'), Some(&candidates(&["Timmy", "Tiny-T", "The Rock"])));
    assert_eq!(table.lookup('a'), Some(&candidates(&["Ace"])));
    assert_eq!(table.lookup('b'), None);
    assert_eq!(table.lookup('T'), None);
}

#[test]
fn empty_list_is_refused() {
    let mut table = NicknameTable::new();
    assert_eq!(table.insert('t', Vec::new()), Err(TableError::NoCandidates));
    assert_eq!(table.lookup('t'), None);
}

#[test]
fn uppercase_letter_is_refused() {
    let mut table = NicknameTable::new();
    assert_eq!(table.insert('T', candidates(&["Timmy"])), Err(TableError::LetterNotLowercase));
    assert_eq!(table.lookup('T'), None);
    assert_eq!(table.lookup('t'), None);
    // U+0130 lowercases to two characters.
    assert_eq!(table.insert('\u{130}', candidates(&["Izzy"])), Err(TableError::LetterNotLowercase));
}

#[test]
fn second_list_for_a_letter_is_refused() {
    let mut table = NicknameTable::new();
    assert_eq!(table.insert('t', candidates(&["Timmy"])), Ok(()));
    assert_eq!(table.insert('t', candidates(&["Tiny-T"])), Err(TableError::LetterTaken));
    assert_eq!(table.lookup('t'), Some(&candidates(&["Timmy"])));
}

#[test]
fn refusals_are_tested_in_order() {
    let mut table = NicknameTable::new();
    assert_eq!(table.insert('t', candidates(&["Timmy"])), Ok(()));
    assert_eq!(table.insert('T', Vec::new()), Err(TableError::NoCandidates));
    assert_eq!(table.insert('t', Vec::new()), Err(TableError::NoCandidates));
}

#[test]
fn letters_without_case_are_accepted() {
    let mut table = NicknameTable::new();
    assert_eq!(table.insert('7', candidates(&["Seven"])), Ok(()));
    assert_eq!(table.insert('\u{e9}', candidates(&["Eclair"])), Ok(()));
    assert_eq!(table.lookup('7'), Some(&candidates(&["Seven"])));
    assert_eq!(table.lookup('\u{e9}'), Some(&candidates(&["Eclair"])));
}
