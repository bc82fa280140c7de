use qnicknamebot::letters::normalized_prefix;
use qnicknamebot::resolver::{resolve, CONSIDERED_LETTERS};
use qnicknamebot::table::NicknameTable;

fn names(list: &[&str]) -> Vec<String> {
    list.iter().map(|s| s.to_string()).collect()
}

fn sample_table() -> NicknameTable {
    let mut table = NicknameTable::new();
    assert_eq!(table.insert('t', names(&["Timmy", "Tiny-T", "The Rock"])), Ok(()));
    assert_eq!(table.insert('z', names(&["Zed", "Zippy"])), Ok(()));
    assert_eq!(table.insert('i', names(&["Iggy", "Ice", "Indy", "Izzy"])), Ok(()));
    table
}

#[test]
fn tim_is_tiny_t() {
    // 'i' is 105 and 'm' is 109: 214 modulo 3 is 1.
    let table = sample_table();
    assert_eq!(resolve(&table, "Tim"), Some("Tiny-T".to_string()));
}

#[test]
fn offset_picks_each_candidate() {
    let table = sample_table();
    // 'c' is 99, 'a' is 97, 'b' is 98.
    assert_eq!(resolve(&table, "Tc"), Some("Timmy".to_string()));
    assert_eq!(resolve(&table, "Ta"), Some("Tiny-T".to_string()));
    assert_eq!(resolve(&table, "Tb"), Some("The Rock".to_string()));
}

#[test]
fn equal_remainders_give_the_same_nickname() {
    let table = sample_table();
    // 214, 100 and 220 all leave 1 modulo 3.
    assert_eq!(resolve(&table, "Tim"), resolve(&table, "Td"));
    assert_eq!(resolve(&table, "Tim"), resolve(&table, "Tom"));
    assert_eq!(resolve(&table, "Td"), Some("Tiny-T".to_string()));
}

#[test]
fn unlisted_first_letter_has_no_nickname() {
    let table = sample_table();
    assert_eq!(resolve(&table, "123abc"), None);
    assert_eq!(resolve(&table, "Alice"), None);
    assert_eq!(resolve(&table, "!tim"), None);
    assert_eq!(resolve(&table, " Tim"), None);
}

#[test]
fn empty_table_has_no_nickname() {
    let table = NicknameTable::new();
    assert_eq!(resolve(&table, "Tim"), None);
}

#[test]
fn resolving_twice_gives_the_same() {
    let table = sample_table();
    let first = resolve(&table, "Timothy");
    let second = resolve(&table, "Timothy");
    assert_eq!(first, second);
    // i 105, m 109, o 111, t 116, h 104, y 121: 666 modulo 3 is 0.
    assert_eq!(first, Some("Timmy".to_string()));
}

#[test]
fn single_letter_takes_the_first_candidate() {
    let table = sample_table();
    assert_eq!(resolve(&table, "Z"), Some("Zed".to_string()));
    assert_eq!(resolve(&table, "z"), Some("Zed".to_string()));
    assert_eq!(resolve(&table, "T"), Some("Timmy".to_string()));
    assert_eq!(resolve(&table, "Q"), None);
}

#[test]
fn case_does_not_matter() {
    let table = sample_table();
    assert_eq!(resolve(&table, "tim"), Some("Tiny-T".to_string()));
    assert_eq!(resolve(&table, "TIM"), Some("Tiny-T".to_string()));
    assert_eq!(resolve(&table, "tIm"), Some("Tiny-T".to_string()));
}

#[test]
fn letters_after_the_twenty_first_are_ignored() {
    let table = sample_table();
    // 't' and twenty times 'a': 1940 modulo 3 is 2.
    let full = format!("t{}", "a".repeat(20));
    assert_eq!(full.chars().count(), 21);
    assert_eq!(resolve(&table, &full), Some("The Rock".to_string()));
    // One more 'b' would give 2038, which is 1 modulo 3, if it were counted.
    let longer = format!("{}b", full);
    assert_eq!(resolve(&table, &longer), Some("The Rock".to_string()));
    let much_longer = format!("{} and then some more, 123 !?", full);
    assert_eq!(resolve(&table, &much_longer), Some("The Rock".to_string()));
}

#[test]
fn twenty_first_letter_still_counts() {
    let table = sample_table();
    // 't', nineteen times 'a' and a 'b': 1941 modulo 3 is 0.
    let name = format!("t{}b", "a".repeat(19));
    assert_eq!(name.chars().count(), 21);
    assert_eq!(resolve(&table, &name), Some("Timmy".to_string()));
    // Without the 'b': 1843 modulo 3 is 1.
    let shorter = format!("t{}", "a".repeat(19));
    assert_eq!(resolve(&table, &shorter), Some("Tiny-T".to_string()));
}

#[test]
fn one_character_may_give_several_lowercase_letters() {
    let table = sample_table();
    // U+0130 lowercases to 'i' and U+0307, which is 775: 775 modulo 4 is 3.
    assert_eq!(resolve(&table, "\u{130}"), Some("Izzy".to_string()));
    // With an 'a' after it: 872 modulo 4 is 0.
    assert_eq!(resolve(&table, "\u{130}a"), Some("Iggy".to_string()));
}

#[test]
fn whitespace_in_a_name_counts() {
    let table = sample_table();
    // 'i' 105, 'm' 109, ' ' 32: 246 modulo 3 is 0.
    assert_eq!(resolve(&table, "Tim "), Some("Timmy".to_string()));
}

#[test]
fn normalized_prefix_lowercases_and_cuts() {
    assert_eq!(normalized_prefix("TiM", 21), vec!['t', 'i', 'm']);
    assert_eq!(normalized_prefix("TiMoThY", 3), vec!['t', 'i', 'm']);
    assert_eq!(normalized_prefix("TiM", 0), Vec::<char>::new());
    assert_eq!(normalized_prefix("", 21), Vec::<char>::new());
    assert_eq!(normalized_prefix("\u{130}x", 21), vec!['i', '\u{307}', 'x']);
    assert_eq!(normalized_prefix("\u{130}x", 1), vec!['i']);
    assert_eq!(normalized_prefix("123 ABC", 21), vec!['1', '2', '3', ' ', 'a', 'b', 'c']);
}

#[test]
fn considered_letters_is_twenty_one() {
    assert_eq!(CONSIDERED_LETTERS, 21);
    let long = "A".repeat(100);
    assert_eq!(normalized_prefix(&long, CONSIDERED_LETTERS).len(), 21);
}
