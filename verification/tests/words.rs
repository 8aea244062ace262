use amber::text::{
    concat2, concat3, first_is, from_chars, from_chars_range, join, last_is, number_text, owned,
    repeat, to_chars, trim, without_first, without_last,
};
use amber::utils::metadata::parser::is_variable_name;

#[test]
fn variable_names_start_with_a_letter_or_an_underscore() {
    assert!(is_variable_name("x"));
    assert!(is_variable_name("_x"));
    assert!(is_variable_name("x1"));
    assert!(is_variable_name("some_name_2"));
    assert!(is_variable_name("été"));
    assert!(is_variable_name("变量1"));
    assert!(!is_variable_name("1x"));
    assert!(!is_variable_name("x-y"));
    assert!(!is_variable_name("x y"));
    assert!(!is_variable_name("$x"));
    assert!(!is_variable_name("\"x\""));
    assert!(!is_variable_name("٣x"));
    assert!(is_variable_name("x٣"));
}

#[test]
fn trimming_takes_the_white_space_at_both_ends() {
    assert_eq!(trim("  a b  "), "a b");
    assert_eq!(trim("\n\ta\r\n"), "a");
    assert_eq!(trim("\u{2003}a\u{a0}"), "a");
    assert_eq!(trim("a"), "a");
    assert_eq!(trim("   "), "");
    assert_eq!(trim(""), "");
    assert_eq!(trim(" _ "), "_");
}

#[test]
fn characters_go_to_a_vector_and_back() {
    assert_eq!(to_chars("aé日"), vec!['a', 'é', '日']);
    assert_eq!(to_chars(""), Vec::<char>::new());
    assert_eq!(from_chars(&vec!['a', 'é', '日']), "aé日");
    assert_eq!(from_chars_range(&vec!['a', 'b', 'c', 'd'], 1, 3), "bc");
    assert_eq!(from_chars_range(&vec!['a', 'b'], 2, 2), "");
    assert_eq!(owned("abc"), "abc");
}

#[test]
fn texts_are_put_together() {
    assert_eq!(concat2("ab", "cd"), "abcd");
    assert_eq!(concat3("a", "", "c"), "ac");
    assert_eq!(join(&vec!["a".to_string(), "b".to_string(), "c".to_string()], ", "), "a, b, c");
    assert_eq!(join(&vec!["a".to_string()], ", "), "a");
    assert_eq!(join(&vec![], ", "), "");
    assert_eq!(join(&vec!["".to_string(), "".to_string()], "-"), "-");
    assert_eq!(repeat("ab", 3), "ababab");
    assert_eq!(repeat("ab", 0), "");
}

#[test]
fn numbers_are_written_in_decimal() {
    assert_eq!(number_text(0), "0");
    assert_eq!(number_text(7), "7");
    assert_eq!(number_text(10), "10");
    assert_eq!(number_text(12345), "12345");
    assert_eq!(number_text(usize::MAX), usize::MAX.to_string());
}

#[test]
fn first_and_last_character() {
    assert!(first_is("\"a", '"'));
    assert!(!first_is("a\"", '"'));
    assert!(!first_is("", '"'));
    assert!(last_is("a$", '$'));
    assert!(!last_is("$a", '$'));
    assert!(!last_is("", '$'));
    assert_eq!(without_first("\"ab"), "ab");
    assert_eq!(without_last("ab\""), "ab");
    assert_eq!(without_first("é"), "");
}
