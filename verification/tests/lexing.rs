use amber::compiler::AmberCompiler;
use amber::rules::{compounds, symbols, tokenize};
use amber::utils::metadata::translate::CompilerOptions;

fn words(code: &str) -> Vec<String> {
    tokenize(code).unwrap().into_iter().map(|token| token.word).collect()
}

fn placed(code: &str) -> Vec<(String, usize, usize)> {
    tokenize(code).unwrap().into_iter().map(|token| (token.word, token.row, token.col)).collect()
}

#[test]
fn words_are_split_at_blanks_and_symbols() {
    assert_eq!(words("let x = 12"), vec!["let", "x", "=", "12"]);
    assert_eq!(words("echo(a+b)"), vec!["echo", "(", "a", "+", "b", ")"]);
    assert_eq!(words("f(1, 2)"), vec!["f", "(", "1", ",", "2", ")"]);
    assert_eq!(words("1.5"), vec!["1", ".", "5"]);
    assert_eq!(words(""), Vec::<String>::new());
}

#[test]
fn pairs_of_symbols_form_one_token() {
    assert_eq!(words("a >= b"), vec!["a", ">=", "b"]);
    assert_eq!(words("a<=b"), vec!["a", "<=", "b"]);
    assert_eq!(words("a == b != c"), vec!["a", "==", "b", "!=", "c"]);
    assert_eq!(words("a > = b"), vec!["a", ">", "=", "b"]);
}

#[test]
fn text_without_interpolation_is_one_token() {
    assert_eq!(words("echo(\"a b // c\")"), vec!["echo", "(", "\"a b // c\"", ")"]);
    assert_eq!(words("\"a \\\" b\""), vec!["\"a \\\" b\""]);
}

#[test]
fn command_without_interpolation_is_one_token() {
    assert_eq!(words("$ ls -l $?"), vec!["$ ls -l $", "?"]);
}

#[test]
fn interpolation_is_split_into_tokens() {
    assert_eq!(words("\"a {b + 1} c\""), vec!["\"a ", "{", "b", "+", "1", "}", " c\""]);
    assert_eq!(words("$ echo {x} $"), vec!["$ echo ", "{", "x", "}", " $"]);
}

#[test]
fn comments_and_their_line_breaks_are_no_tokens() {
    assert_eq!(words("a // b c\nd"), vec!["a", "d"]);
    assert_eq!(words("// only a comment"), Vec::<String>::new());
    assert_eq!(words("a / b"), vec!["a", "/", "b"]);
}

#[test]
fn tokens_know_their_row_and_column() {
    assert_eq!(
        placed("let x\n  = 1"),
        vec![
            ("let".to_string(), 1, 1),
            ("x".to_string(), 1, 5),
            ("=".to_string(), 2, 3),
            ("1".to_string(), 2, 5),
        ]
    );
}

#[test]
fn open_regions_are_errors_of_the_lexer() {
    let message = tokenize("echo(\"abc").unwrap_err();
    assert_eq!(message.message, "Unclosed string literal");
    assert_eq!(message.position.from, 0);
    assert_eq!(message.comment, None);
    let message = tokenize("main { echo(1)").unwrap_err();
    assert_eq!(message.message, "Unclosed interpolation");
    assert!(tokenize("// comment without end").is_ok());
    assert!(tokenize("#[allow_absurd_cast").is_ok());
}

#[test]
fn compiler_splits_its_own_code() {
    let compiler = AmberCompiler::new("echo(1) // one".to_string(), None, CompilerOptions::default());
    let tokens: Vec<String> = compiler.tokenize().unwrap().into_iter().map(|t| t.word).collect();
    assert_eq!(tokens, vec!["echo", "(", "1", ")"]);
}

#[test]
fn symbols_and_pairs_of_the_language() {
    assert_eq!(symbols().len(), 23);
    assert!(symbols().contains(&'%'));
    assert!(symbols().contains(&'\n'));
    assert!(!symbols().contains(&'$'));
    assert!(compounds().contains(&('<', '=')));
    assert!(compounds().contains(&('/', '/')));
    assert!(!compounds().contains(&('=', '>')));
}

#[test]
fn text_outside_ascii_must_not_end_where_an_operator_may_begin() {
    for code in ["é<", "echo(\"é\") -", "// é\n1 /", "日本 ."] {
        let message = tokenize(code).unwrap_err();
        assert_eq!(
            message.message,
            "The source holds characters outside ASCII and ends with a symbol that may begin an operator",
            "{}",
            code
        );
        assert_eq!(message.position.from, 0);
        assert_eq!(message.comment, None);
    }
}

#[test]
fn text_outside_ascii_is_read_otherwise() {
    assert_eq!(words("é < 1"), vec!["é", "<", "1"]);
    assert_eq!(words("echo(\"日本\")"), vec!["echo", "(", "\"日本\"", ")"]);
    assert_eq!(words("é<\n"), vec!["é", "<"]);
    assert_eq!(words("a <"), vec!["a", "<"]);
    assert_eq!(words("<"), vec!["<"]);
    assert_eq!(words("é ?"), vec!["é", "?"]);
}

#[test]
fn readable_text_is_ascii_or_ends_outside_the_pairs() {
    let pairs = compounds();
    assert!(amber::rules::is_readable(&pairs, ""));
    assert!(amber::rules::is_readable(&pairs, "a<"));
    assert!(amber::rules::is_readable(&pairs, "é"));
    assert!(amber::rules::is_readable(&pairs, "é<a"));
    assert!(!amber::rules::is_readable(&pairs, "é<"));
    assert!(!amber::rules::is_readable(&pairs, "é="));
    assert!(amber::rules::is_readable(&vec![], "é<"));
    assert!(amber::rules::begins_pair(&pairs, '.'));
    assert!(!amber::rules::begins_pair(&pairs, '?'));
    assert!(amber::rules::is_ascii(&vec!['a', '\u{7f}']));
    assert!(!amber::rules::is_ascii(&vec!['a', '\u{80}']));
}
