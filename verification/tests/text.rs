use notate::input::InputType;
use notate::strings::{decimal, ends_with, eq_str, join, split_char, split_spaces, trim};

fn owned(parts: &[&str]) -> Vec<String> {
    parts.iter().map(|p| p.to_string()).collect()
}

#[test]
fn trim_strips_both_ends() {
    assert_eq!(trim("  hello world \t"), "hello world");
    assert_eq!(trim(""), "");
    assert_eq!(trim("   "), "");
    assert_eq!(trim("x"), "x");
}

#[test]
fn split_char_keeps_empty_fields() {
    assert_eq!(split_char("a|b|c", '|'), owned(&["a", "b", "c"]));
    assert_eq!(split_char("a||", '|'), owned(&["a", "", ""]));
    assert_eq!(split_char("", '|'), owned(&[""]));
    assert_eq!(split_char("abc", '|'), owned(&["abc"]));
}

#[test]
fn split_spaces_drops_empty_fields() {
    assert_eq!(split_spaces("  C   E  A "), owned(&["C", "E", "A"]));
    assert_eq!(split_spaces(""), Vec::<String>::new());
    assert_eq!(split_spaces("   "), Vec::<String>::new());
    assert_eq!(split_spaces("solo"), owned(&["solo"]));
}

#[test]
fn join_places_separator_between_parts() {
    assert_eq!(join(&owned(&["a", "b", "c"]), ", "), "a, b, c");
    assert_eq!(join(&owned(&["a"]), ", "), "a");
    assert_eq!(join(&Vec::new(), ", "), "");
}

#[test]
fn decimal_renders_base_ten() {
    assert_eq!(decimal(0), "0");
    assert_eq!(decimal(7), "7");
    assert_eq!(decimal(10), "10");
    assert_eq!(decimal(907), "907");
    assert_eq!(decimal(123456789), "123456789");
}

#[test]
fn ends_with_checks_suffix() {
    assert!(ends_with("song.tab", ".tab"));
    assert!(!ends_with("song.tab", ".md"));
    assert!(!ends_with("ab", ".tab"));
    assert!(ends_with("x", ""));
}

#[test]
fn eq_str_compares_contents() {
    assert!(eq_str("abc", "abc"));
    assert!(!eq_str("abc", "abd"));
    assert!(!eq_str("abc", "ab"));
    assert!(eq_str("", ""));
}

#[test]
fn input_type_by_extension() {
    assert_eq!(InputType::new("song.tab"), InputType::Tab);
    assert_eq!(InputType::new("song.md"), InputType::Markdown);
    assert_eq!(InputType::new("song.txt"), InputType::Invalid);
    assert_eq!(InputType::new(""), InputType::Invalid);
}
