use buzz_ui::folders::{is_open, open_all, toggle_open};
use buzz_ui::text::{
    chars_of, contains_chars, decimal_chars, is_blank_chars, name_matches_search, search_matches,
    string_from, trim_chars, trim_str,
};

#[test]
fn trimming_takes_unicode_white_space_off_both_ends() {
    assert_eq!(trim_str("  a b \t\n"), "a b");
    assert_eq!(trim_str("\u{3000}wide\u{00A0}"), "wide");
    assert_eq!(trim_str("   "), "");
    let chars = chars_of(" x ");
    assert_eq!(trim_chars(&chars), vec!['x']);
}

#[test]
fn blank_means_nothing_but_white_space() {
    assert!(is_blank_chars(&chars_of("")));
    assert!(is_blank_chars(&chars_of(" \t\r\n")));
    assert!(!is_blank_chars(&chars_of(" . ")));
}

#[test]
fn a_search_of_nothing_matches_everything() {
    assert!(search_matches("", "anything"));
    assert!(search_matches("thin", "anything"));
    assert!(!search_matches("things", "anything"));
    assert!(name_matches_search("  HERO ", "superhero"));
    assert!(!name_matches_search("hero", "villain"));
}

#[test]
fn numbers_are_written_in_decimal() {
    assert_eq!(string_from(&decimal_chars(0)), "0");
    assert_eq!(string_from(&decimal_chars(907)), "907");
    assert_eq!(string_from(&decimal_chars(u64::MAX)), u64::MAX.to_string());
}

#[test]
fn containment_is_by_runs_of_characters() {
    assert!(contains_chars(&chars_of("abcabd"), &chars_of("abd")));
    assert!(!contains_chars(&chars_of("ab"), &chars_of("abc")));
    assert!(contains_chars(&chars_of("ab"), &chars_of("")));
}

#[test]
fn open_folders_are_a_set_of_paths() {
    let mut open = open_all(&["A".to_string(), "A/B".to_string()]);
    assert!(is_open(&open, "A/B"));
    assert!(!is_open(&open, "B"));
    toggle_open(&mut open, "A/B");
    assert!(!is_open(&open, "A/B"));
    assert!(is_open(&open, "A"));
    toggle_open(&mut open, "A/B");
    assert!(is_open(&open, "A/B"));
}

#[test]
fn a_string_is_its_characters() {
    let s = "héllo, wörld";
    assert_eq!(string_from(&chars_of(s)), s);
}
