use amber::compiler::AmberCompiler;
use amber::modules::types::Type;
use amber::translate::compute::ArithOp;
use amber::translate::fragments::arithmetic::ArithmeticFragment;
use amber::translate::fragments::block::BlockFragment;
use amber::translate::fragments::fragment::FragmentKind;
use amber::translate::fragments::interpolable::{
    escape_text, InterpolableFragment, InterpolablePart, InterpolableRenderType,
};
use amber::translate::fragments::list::ListFragment;
use amber::translate::fragments::model::{variable_name, RenderContext};
use amber::translate::fragments::raw::RawFragment;
use amber::translate::fragments::subprocess::SubprocessFragment;
use amber::translate::fragments::var_expr::VarExprFragment;
use amber::translate::fragments::var_stmt::VarStmtFragment;
use amber::utils::metadata::translate::{CompilerOptions, TranslateMetadata};

fn state() -> TranslateMetadata {
    let options = CompilerOptions::default();
    let compiler = AmberCompiler::new("main { echo(\"test\") }".to_string(), None, options);
    let tokens = compiler.tokenize().unwrap();
    let (ast, meta) = compiler.parse(tokens).unwrap();
    let (_, meta) = compiler.typecheck(ast, meta).unwrap();
    TranslateMetadata::new(meta, &compiler.options)
}

fn plain() -> RenderContext {
    RenderContext { indent: 0, eval_ctx: false, variant: None }
}

fn raw(text: &str) -> FragmentKind {
    RawFragment::new(text).to_frag()
}

fn text(s: &str) -> InterpolablePart {
    InterpolablePart::String(s.to_string())
}

fn chunks(fragment: &InterpolableFragment) -> Vec<Option<String>> {
    fragment
        .parts
        .iter()
        .map(|part| match part {
            InterpolablePart::String(s) => Some(s.clone()),
            InterpolablePart::Interp(_) => None,
        })
        .collect()
}

#[test]
fn raw_fragment_renders_its_text() {
    assert_eq!(raw("ls -l").render(plain()), "ls -l");
    assert_eq!(RawFragment::from("a b".to_string()).render(plain()), "a b");
    assert_eq!(FragmentKind::Empty.render(plain()), "");
}

#[test]
fn list_joins_what_is_not_empty() {
    let list = ListFragment::new(vec![raw("a"), FragmentKind::Empty, raw("b"), raw("")]);
    assert_eq!(list.render(plain()), "ab");
    let list = ListFragment::new(vec![raw("a"), FragmentKind::Empty, raw("b"), raw("c")]);
    assert_eq!(list.with_spaces().render(plain()), "a b c");
    assert_eq!(ListFragment::new(vec![]).with_spaces().render(plain()), "");
}

#[test]
fn block_puts_each_statement_on_its_line() {
    let block = BlockFragment::new(vec![raw("a"), FragmentKind::Empty, raw("b")], false);
    assert!(!block.is_empty());
    assert_eq!(block.render(plain()), "a\nb");
    let block = BlockFragment::new(vec![raw("a"), raw("b")], true);
    assert_eq!(block.render(plain()), "    a\n    b");
    let block = BlockFragment::new(vec![raw("a")], true).with_braces(true);
    assert_eq!(block.render(plain()), "{\n    a\n}");
    assert!(BlockFragment::new(vec![], true).is_empty());
}

#[test]
fn nested_block_is_indented_once_more() {
    let inner = BlockFragment::new(vec![raw("b")], true).with_braces(true).to_frag();
    let outer = BlockFragment::new(vec![raw("a"), inner], true);
    assert_eq!(outer.render(plain()), "    a\n    {\n        b\n    }");
}

#[test]
fn block_below_the_first_level_is_not_indented() {
    let block = BlockFragment::new(vec![raw("a")], true);
    let top = RenderContext { indent: -1, eval_ctx: false, variant: None };
    assert_eq!(block.render(top), "a");
}

#[test]
fn subprocess_wraps_the_command() {
    let sub = SubprocessFragment::new(raw("ls"));
    assert_eq!(sub.render(plain()), "$(ls)");
    let quoted = InterpolableFragment::new(vec![text("echo \"a\"")], InterpolableRenderType::StringLiteral);
    let sub = SubprocessFragment::new(quoted.to_frag());
    assert_eq!(sub.render(plain()), "$(echo \"a\")");
    let eval = RenderContext { indent: 0, eval_ctx: true, variant: None };
    assert_eq!(SubprocessFragment::new(raw("ls")).render(eval), "\\$(ls)");
}

#[test]
fn arithmetic_is_put_between_double_brackets() {
    let sum = ArithmeticFragment::new(raw("1"), ArithOp::Add, raw("2"));
    assert_eq!(sum.render(plain()), "$(( 1 + 2 ))");
    let negated = ArithmeticFragment::new(FragmentKind::Empty, ArithOp::Not, raw("1"));
    assert_eq!(negated.render(plain()), "$(( ! 1 ))");
    let nested = ArithmeticFragment::new(
        ArithmeticFragment::new(raw("1"), ArithOp::Mul, raw("2")).to_frag(),
        ArithOp::Modulo,
        raw("3"),
    );
    assert_eq!(nested.render(plain()), "$(( $(( 1 * 2 )) % 3 ))");
}

#[test]
fn variable_names_carry_the_id_and_the_variant() {
    assert_eq!(variable_name("x", None, None), "x");
    assert_eq!(variable_name("x", None, Some(3)), "x");
    assert_eq!(variable_name("x", Some(7), None), "x_7");
    assert_eq!(variable_name("x", Some(7), Some(3)), "x_7_v3");
    assert_eq!(variable_name("total", Some(120), Some(0)), "total_120_v0");
}

#[test]
fn assignment_of_a_value_and_of_an_array() {
    let stmt = VarStmtFragment::new("x", Type::Int, raw("12"));
    assert_eq!(stmt.render(plain()), "x=12");
    let stmt = VarStmtFragment::new("xs", Type::array_of(Type::Int), raw("1 2 3"));
    assert_eq!(stmt.render(plain()), "xs=(1 2 3)");
    let stmt = VarStmtFragment::new("x", Type::Text, raw("\"a\"")).with_global_id(Some(4));
    let inside = RenderContext { indent: 0, eval_ctx: false, variant: Some(2) };
    assert_eq!(stmt.render(inside), "x_4_v2=\"a\"");
}

#[test]
fn reference_to_a_value_and_to_an_array() {
    let expr = VarExprFragment::new("x", Type::Int);
    assert_eq!(expr.render(plain()), "\"${x}\"");
    let expr = VarExprFragment::new("x", Type::Int).with_quotes(false);
    assert_eq!(expr.render(plain()), "${x}");
    let expr = VarExprFragment::new("xs", Type::array_of(Type::Text));
    assert_eq!(expr.render(plain()), "\"${xs[@]}\"");
    let expr = VarExprFragment::new("xs", Type::array_of(Type::Text)).with_array_to_string(true);
    assert_eq!(expr.render(plain()), "\"${xs[*]}\"");
    let expr = VarExprFragment::new("x", Type::Num).with_global_id(Some(1));
    let eval = RenderContext { indent: 0, eval_ctx: true, variant: Some(0) };
    assert_eq!(expr.render(eval), "\\\"\\${x_1_v0}\\\"");
}

#[test]
fn reference_is_made_from_its_assignment() {
    let stmt = VarStmtFragment::new("xs", Type::array_of(Type::Int), raw("1 2")).with_global_id(Some(9));
    let expr = VarExprFragment::from_stmt(&stmt);
    assert_eq!(expr.name, "xs");
    assert_eq!(expr.kind, Type::array_of(Type::Int));
    assert_eq!(expr.global_id, Some(9));
    assert_eq!(expr.render(plain()), "\"${xs_9[@]}\"");
}

#[test]
fn only_references_and_interpolables_have_quotes() {
    let expr = VarExprFragment::new("x", Type::Int).to_frag().with_quotes(false);
    assert_eq!(expr.render(plain()), "${x}");
    let lit = InterpolableFragment::new(vec![text("a")], InterpolableRenderType::StringLiteral)
        .to_frag()
        .with_quotes(false);
    assert_eq!(lit.render(plain()), "a");
    assert_eq!(raw("\"a\"").with_quotes(false).render(plain()), "\"a\"");
}

#[test]
fn new_interpolable_is_quoted() {
    let fragment = InterpolableFragment::new(
        vec![text("a"), InterpolablePart::Interp(raw("b"))],
        InterpolableRenderType::StringLiteral,
    );
    assert!(fragment.quoted);
    assert_eq!(fragment.render_type, InterpolableRenderType::StringLiteral);
    assert_eq!(fragment.parts.len(), 2);
    assert_eq!(fragment.parts[0], text("a"));
    assert_eq!(fragment.parts[1], InterpolablePart::Interp(raw("b")));
    let bare = fragment.with_quotes(false);
    assert!(!bare.quoted);
    assert_eq!(bare.parts.len(), 2);
}

#[test]
fn string_literal_is_escaped_and_quoted() {
    let fragment = InterpolableFragment::new(
        vec![text("a \"b\" $c "), InterpolablePart::Interp(raw("${x}")), text(" `d` \\ !")],
        InterpolableRenderType::StringLiteral,
    );
    assert_eq!(
        fragment.render(plain()),
        "\"a \\\"b\\\" \\$c ${x} \\`d\\` \\\\ \"'!'\"\""
    );
}

#[test]
fn string_literal_inside_eval_has_escaped_quotes() {
    let fragment = InterpolableFragment::new(vec![text("a")], InterpolableRenderType::StringLiteral);
    let eval = RenderContext { indent: 0, eval_ctx: true, variant: None };
    assert_eq!(fragment.render(eval), "\\\"a\\\"");
}

#[test]
fn command_line_is_trimmed_and_not_escaped() {
    let fragment = InterpolableFragment::new(
        vec![text("  echo \"$HOME\" "), InterpolablePart::Interp(raw("${x}")), text("  ")],
        InterpolableRenderType::GlobalContext,
    );
    assert_eq!(fragment.render(plain()), "echo \"$HOME\" ${x}");
}

#[test]
fn region_is_the_text_between_the_quotes() {
    let mut meta = state();
    let fragment = InterpolableFragment::new(
        vec![text("a\"b "), InterpolablePart::Interp(raw("${x}"))],
        InterpolableRenderType::StringLiteral,
    );
    assert_eq!(fragment.render_interpolated_region(&mut meta), "a\\\"b ${x}");
    let fragment = InterpolableFragment::new(
        vec![text(" echo '"), InterpolablePart::Interp(raw("${x}")), text("' ")],
        InterpolableRenderType::GlobalContext,
    );
    assert_eq!(fragment.render_interpolated_region(&mut meta), " echo ''\"${x}\"'' ");
}

#[test]
fn nested_interpolable_is_laid_out_as_a_command_line() {
    let inner = InterpolableFragment::new(vec![text("a\"b")], InterpolableRenderType::StringLiteral);
    let outer = InterpolableFragment::new(
        vec![text("x "), InterpolablePart::Interp(inner.to_frag())],
        InterpolableRenderType::StringLiteral,
    );
    assert_eq!(outer.render(plain()), "\"x a\"b\"");
}

#[test]
fn open_single_quote_is_closed_before_an_interpolation() {
    let mut fragment = InterpolableFragment::new(
        vec![text("echo 'a"), InterpolablePart::Interp(raw("${x}")), text("b'")],
        InterpolableRenderType::GlobalContext,
    );
    fragment.balance_single_quotes();
    assert_eq!(
        chunks(&fragment),
        vec![Some("echo 'a'\"".to_string()), None, Some("\"'b'".to_string())]
    );
    assert_eq!(fragment.parts[1], InterpolablePart::Interp(raw("${x}")));
}

#[test]
fn quote_left_open_before_the_last_interpolation_gets_a_closing_part() {
    let mut fragment = InterpolableFragment::new(
        vec![text("echo 'a"), InterpolablePart::Interp(raw("${x}"))],
        InterpolableRenderType::GlobalContext,
    );
    fragment.balance_single_quotes();
    assert_eq!(
        chunks(&fragment),
        vec![Some("echo 'a'\"".to_string()), None, Some("\"".to_string())]
    );
}

#[test]
fn balanced_chunks_stay_as_they_are() {
    let mut fragment = InterpolableFragment::new(
        vec![text("echo 'a' \"b"), InterpolablePart::Interp(raw("${x}")), text("c\" \\'")],
        InterpolableRenderType::GlobalContext,
    );
    fragment.balance_single_quotes();
    assert_eq!(
        chunks(&fragment),
        vec![Some("echo 'a' \"b".to_string()), None, Some("c\" \\'".to_string())]
    );
}

#[test]
fn single_quote_open_at_the_very_end_is_left_alone() {
    let mut fragment = InterpolableFragment::new(
        vec![InterpolablePart::Interp(raw("${x}")), text(" 'a")],
        InterpolableRenderType::GlobalContext,
    );
    fragment.balance_single_quotes();
    assert_eq!(chunks(&fragment), vec![None, Some(" 'a".to_string())]);
}

#[test]
fn escaping_for_a_string_literal_and_for_a_command_line() {
    assert_eq!(escape_text("a\"$`\\!b", InterpolableRenderType::StringLiteral), "a\\\"\\$\\`\\\\\"'!'\"b");
    assert_eq!(escape_text("a\"$`\\!b", InterpolableRenderType::GlobalContext), "a\"$`\\!b");
    assert_eq!(escape_text("", InterpolableRenderType::StringLiteral), "");
    assert_eq!(escape_text("日本 'x'", InterpolableRenderType::StringLiteral), "日本 'x'");
}

#[test]
fn subprocess_runs_a_command_and_assignment_mutates() {
    let sub = SubprocessFragment::new(raw("ls")).to_frag();
    assert!(sub.is_running_command());
    assert!(!sub.is_mutating());
    let stmt = VarStmtFragment::new("x", Type::Int, raw("1")).to_frag();
    assert!(stmt.is_mutating());
    assert!(!stmt.is_running_command());
    let stmt = VarStmtFragment::new("x", Type::Text, SubprocessFragment::new(raw("ls")).to_frag()).to_frag();
    assert!(stmt.is_mutating());
    assert!(stmt.is_running_command());
    assert!(!raw("$(ls)").is_running_command());
    assert!(!VarExprFragment::new("x", Type::Int).to_frag().is_mutating());
    assert!(!FragmentKind::Empty.is_running_command());
}

#[test]
fn running_and_mutating_are_found_inside_other_fragments() {
    let sub = SubprocessFragment::new(raw("ls")).to_frag();
    let list = ListFragment::new(vec![raw("a"), sub]).to_frag();
    assert!(list.is_running_command());
    assert!(!list.is_mutating());
    let stmt = VarStmtFragment::new("x", Type::Int, raw("1")).to_frag();
    let block = BlockFragment::new(vec![raw("a"), stmt], true).to_frag();
    assert!(block.is_mutating());
    assert!(!block.is_running_command());
    let inner = SubprocessFragment::new(VarStmtFragment::new("x", Type::Int, raw("1")).to_frag()).to_frag();
    assert!(inner.is_mutating());
    let arith = ArithmeticFragment::new(raw("1"), ArithOp::Add, SubprocessFragment::new(raw("ls")).to_frag()).to_frag();
    assert!(arith.is_running_command());
    assert!(!arith.is_mutating());
}

#[test]
fn interpolable_part_runs_what_its_fragment_runs() {
    assert!(!text("$(ls)").is_running_command());
    assert!(!text("x=1").is_mutating());
    let part = InterpolablePart::Interp(SubprocessFragment::new(raw("ls")).to_frag());
    assert!(part.is_running_command());
    assert!(!part.is_mutating());
    let fragment = InterpolableFragment::new(
        vec![text("a"), part, text("b")],
        InterpolableRenderType::GlobalContext,
    );
    assert!(fragment.any_part_holds(true));
    assert!(!fragment.any_part_holds(false));
    assert!(fragment.to_frag().is_running_command());
}

#[test]
fn to_string_renders_in_the_state_of_the_translator() {
    let mut meta = state();
    assert_eq!(raw("a").to_string(&mut meta), "a");
    let block = BlockFragment::new(vec![raw("a")], true).to_frag();
    assert_eq!(block.to_string(&mut meta), "a");
    meta.increase_indent();
    meta.increase_indent();
    let block = BlockFragment::new(vec![raw("a")], true).to_frag();
    assert_eq!(block.to_string(&mut meta), "        a");
    assert_eq!(VarExprFragment::new("x", Type::Int).to_string(&mut meta), "\"${x}\"");
}
