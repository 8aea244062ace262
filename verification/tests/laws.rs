use amber::compiler::AmberCompiler;
use amber::modules::command::cmd::Command;
use amber::modules::expression::expr::ExprType;
use amber::modules::expression::interpolated_region::{
    parse_escaped_string, InterpolatedRegionType,
};
use amber::modules::statement::stmt::Statement;
use amber::translate::fragments::interpolable::{
    escape_text, scan_quote_state, InterpolableFragment, InterpolablePart, InterpolableRenderType,
};
use amber::translate::fragments::raw::RawFragment;
use amber::utils::metadata::translate::{CompilerOptions, TranslateMetadata};

fn commands_of(code: &str) -> Vec<Command> {
    let compiler = AmberCompiler::new(code.to_string(), None, CompilerOptions::default());
    let tokens = compiler.tokenize().unwrap();
    let (ast, _) = compiler.parse(tokens).expect("the source parses");
    let mut found = vec![];
    for statement in ast.block.statements {
        if let Statement::Main(main) = statement {
            for inner in main.block.statements {
                if let Statement::Expr(expr) = inner {
                    if let Some(ExprType::Command(command)) = expr.value {
                        found.push(command);
                    }
                }
            }
        }
    }
    found
}

fn outcomes(command: &Command) -> usize {
    [
        command.is_propagating(),
        command.failed.is_parsed && !command.failed.is_question_mark,
        command.succeeded.is_parsed,
        command.exited.is_parsed,
        command.is_trusted,
    ]
    .iter()
    .filter(|held| **held)
    .count()
}

#[test]
fn parsed_command_deals_with_its_outcome_in_one_way() {
    let commands = commands_of(
        "main {
            $ echo \"a\" $?
            $ echo \"b\" $ failed { echo(\"x\") }
            $ echo \"c\" $ succeeded { echo(\"x\") }
            $ echo \"d\" $ then(code) { echo(\"x\") }
            $ echo \"e\" $ exited(code) { echo(\"x\") }
            trust $ echo \"f\" $
        }",
    );
    assert_eq!(commands.len(), 6);
    for command in &commands {
        assert_eq!(outcomes(command), 1, "{:?}", command);
    }
    assert!(commands[0].is_propagating());
    assert!(commands[1].failed.is_parsed);
    assert!(commands[2].succeeded.is_parsed);
    assert!(commands[3].exited.is_parsed);
    assert!(commands[4].exited.is_parsed);
    assert!(commands[5].is_trusted);
}

#[test]
fn trusted_command_with_a_handler_deals_with_it_twice() {
    let commands = commands_of("main { trust $ echo \"a\" $ failed { echo(\"x\") } }");
    assert_eq!(commands.len(), 1);
    assert_eq!(outcomes(&commands[0]), 2);
}

#[test]
fn queue_is_empty_after_each_program() {
    for code in [
        "main { echo(\"test\") }",
        "main { sudo $ echo \"x\" $? }",
        "main { let a = $ echo \"a\" $ failed { echo(\"fail\") } echo(a) }",
        "fun f(x: Num): Num { return x + 1 } main { echo(f(1.5)) }",
        "main { echo(\"a\" < \"b\") }",
    ] {
        let compiler = AmberCompiler::new(code.to_string(), None, CompilerOptions::default());
        let tokens = compiler.tokenize().unwrap();
        let (ast, meta) = compiler.parse(tokens).unwrap();
        let (ast, meta) = compiler.typecheck(ast, meta).unwrap();
        let mut state = TranslateMetadata::new(meta, &compiler.options);
        let _ = ast.translate(&mut state);
        assert!(state.stmt_queue.is_empty(), "{}", code);
    }
}

fn ends_where_it_began(parts: Vec<InterpolablePart>) -> bool {
    let mut fragment = InterpolableFragment::new(parts, InterpolableRenderType::GlobalContext);
    fragment.balance_single_quotes();
    let mut literal = String::new();
    for part in fragment.parts.iter() {
        if let InterpolablePart::String(chunk) = part {
            literal.push_str(chunk);
        }
    }
    let mut in_single = false;
    let mut in_double = false;
    scan_quote_state(&literal, &mut in_single, &mut in_double);
    !in_single && !in_double
}

fn text(s: &str) -> InterpolablePart {
    InterpolablePart::String(s.to_string())
}

fn interp() -> InterpolablePart {
    InterpolablePart::Interp(RawFragment::new("${x}").to_frag())
}

#[test]
fn balanced_command_line_ends_in_the_quoting_state_in_which_it_began() {
    assert!(ends_where_it_began(vec![text("echo 'a"), interp(), text("b'")]));
    assert!(ends_where_it_began(vec![text("echo 'a"), interp()]));
    assert!(ends_where_it_began(vec![text("echo \"a"), interp(), text("b\"")]));
    assert!(ends_where_it_began(vec![text("echo 'a"), interp(), text("b"), interp(), text("c' d")]));
    assert!(ends_where_it_began(vec![text("echo \\'a"), interp(), text(" 'b' \"c\"")]));
    assert!(ends_where_it_began(vec![interp(), interp()]));
    assert!(ends_where_it_began(vec![]));
}

#[test]
fn escaped_close_is_made_up_for_by_the_next_chunk() {
    let parts = vec![text("'a\\"), interp(), text("b")];
    let mut fragment = InterpolableFragment::new(parts, InterpolableRenderType::GlobalContext);
    fragment.balance_single_quotes();
    assert_eq!(fragment.parts[0], text("'a\\'\""));
    assert_eq!(fragment.parts[2], text("\"'b"));
    assert!(ends_where_it_began(vec![text("'a\\"), interp(), text("b")]));
}

#[test]
fn quote_left_open_by_the_source_stays_open() {
    assert!(!ends_where_it_began(vec![text("echo 'a")]));
    assert!(!ends_where_it_began(vec![interp(), text("echo \"a")]));
}

fn round_trip(source: &str, region: InterpolatedRegionType, layout: InterpolableRenderType) -> String {
    escape_text(&parse_escaped_string(source.to_string(), &region), layout)
}

#[test]
fn decoding_and_encoding_a_text_gives_it_back() {
    for source in ["", "hello world", "a\\\\b", "say \\\"hi\\\"", "tab\there", "line\nbreak", "{x} 'y'", "\\\\\\\""] {
        assert_eq!(
            round_trip(source, InterpolatedRegionType::Text, InterpolableRenderType::StringLiteral),
            source
        );
    }
}

#[test]
fn decoding_and_encoding_a_command_gives_it_back() {
    for source in ["", "ls -l", "echo \"$HOME\" `date` !", "grep 'a\\.b' \\\"x\\\"", "a \\"] {
        assert_eq!(
            round_trip(source, InterpolatedRegionType::Command, InterpolableRenderType::GlobalContext),
            source
        );
    }
}

#[test]
fn protected_characters_and_short_escapes_do_not_come_back() {
    assert_eq!(
        round_trip("$", InterpolatedRegionType::Text, InterpolableRenderType::StringLiteral),
        "\\$"
    );
    assert_eq!(
        round_trip("a\\nb", InterpolatedRegionType::Text, InterpolableRenderType::StringLiteral),
        "a\nb"
    );
    assert_eq!(
        round_trip("a\\$b", InterpolatedRegionType::Command, InterpolableRenderType::GlobalContext),
        "a$b"
    );
}
