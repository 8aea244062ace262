use amber::compiler::AmberCompiler;
use amber::modules::command::cmd::Command;
use amber::modules::expression::binop::ge::Ge;
use amber::modules::expression::binop::{BinaryOperator, Joint, Level};
use amber::modules::expression::expr::{Expr, ExprType};
use amber::modules::expression::interpolated_region::{
    is_escaped, parse_simple_region, InterpolatedRegionType,
};
use amber::modules::expression::literal::integer::Integer;
use amber::modules::expression::literal::text::{Text, TextPart};
use amber::modules::function::invocation::FunctionInvocation;
use amber::modules::types::Type;
use amber::utils::metadata::parser::ParserMetadata;
use amber::utils::metadata::translate::CompilerOptions;

fn parser_on(code: &str) -> ParserMetadata {
    let compiler = AmberCompiler::new(code.to_string(), None, CompilerOptions::default());
    ParserMetadata::new(compiler.tokenize().unwrap(), None)
}

fn number(text: &str) -> Expr {
    Expr { value: Some(ExprType::Integer(Integer { value: text.to_string() })), kind: Type::Null }
}

fn binary(op: BinaryOperator, left: Expr, right: Expr) -> Expr {
    Expr::join(Joint::Other(op), left, right)
}

#[test]
fn nodes_know_their_type() {
    assert_eq!(Command::new().get_type(), Type::Text);
    assert_eq!(Text::new().get_type(), Type::Text);
    assert_eq!(Ge::new().get_type(), Type::Bool);
    let mut call = FunctionInvocation::new();
    assert_eq!(call.get_type(), Type::Null);
    call.kind = Type::array_of(Type::Num);
    assert_eq!(call.get_type(), Type::array_of(Type::Num));
}

#[test]
fn nodes_document_nothing() {
    let meta = parser_on("main { }");
    assert_eq!(Command::new().document(&meta), "");
    assert_eq!(Text::new().document(&meta), "");
    assert_eq!(Ge::new().document(&meta), "");
}

#[test]
fn comparison_takes_its_sides() {
    let mut node = Ge::new();
    node.set_left(number("1"));
    assert_eq!(*node.left, number("1"));
    assert_eq!(*node.right, Expr::new());
    node.set_right(number("2"));
    assert_eq!(*node.left, number("1"));
    assert_eq!(*node.right, number("2"));
}

#[test]
fn comparison_takes_its_sign_only() {
    let mut meta = parser_on(">= 1");
    let mut node = Ge::new();
    assert!(node.parse_operator(&mut meta).is_ok());
    assert_eq!(meta.get_index(), 1);
    assert!(node.parse_operator(&mut meta).is_err());
    assert_eq!(meta.get_index(), 1);
    assert!(meta.messages.is_empty());
    let mut meta = parser_on("> 1");
    assert!(node.parse_operator(&mut meta).is_err());
    assert_eq!(meta.get_index(), 0);
}

#[test]
fn operators_of_a_level() {
    assert_eq!(Level::Or.joint_of("or"), Some(Joint::Other(BinaryOperator::Or)));
    assert_eq!(Level::Or.joint_of("and"), None);
    assert_eq!(Level::And.joint_of("and"), Some(Joint::Other(BinaryOperator::And)));
    assert_eq!(Level::Comparison.joint_of(">="), Some(Joint::Ge));
    assert_eq!(Level::Comparison.joint_of(">"), Some(Joint::Gt));
    assert_eq!(Level::Comparison.joint_of("<="), Some(Joint::Other(BinaryOperator::Le)));
    assert_eq!(Level::Comparison.joint_of("<"), Some(Joint::Other(BinaryOperator::Lt)));
    assert_eq!(Level::Comparison.joint_of("=="), Some(Joint::Other(BinaryOperator::Eq)));
    assert_eq!(Level::Comparison.joint_of("!="), Some(Joint::Other(BinaryOperator::Neq)));
    assert_eq!(Level::Comparison.joint_of("="), None);
    assert_eq!(Level::Additive.joint_of("+"), Some(Joint::Add));
    assert_eq!(Level::Additive.joint_of("-"), Some(Joint::Other(BinaryOperator::Sub)));
    assert_eq!(Level::Additive.joint_of("*"), None);
    assert_eq!(Level::Multiplicative.joint_of("*"), Some(Joint::Other(BinaryOperator::Mul)));
    assert_eq!(Level::Multiplicative.joint_of("/"), Some(Joint::Other(BinaryOperator::Div)));
    assert_eq!(Level::Multiplicative.joint_of("%"), Some(Joint::Other(BinaryOperator::Modulo)));
    assert_eq!(Level::Multiplicative.joint_of("+"), None);
}

#[test]
fn operators_have_a_word_and_a_level() {
    assert_eq!(BinaryOperator::Modulo.as_str(), "%");
    assert_eq!(BinaryOperator::Neq.as_str(), "!=");
    assert_eq!(BinaryOperator::Or.level_of(), Level::Or);
    assert_eq!(BinaryOperator::Le.level_of(), Level::Comparison);
    assert_eq!(BinaryOperator::Sub.level_of(), Level::Additive);
    assert_eq!(BinaryOperator::Div.level_of(), Level::Multiplicative);
}

#[test]
fn joining_makes_the_node_of_the_operator() {
    let sum = Expr::join(Joint::Add, number("1"), number("2"));
    assert!(matches!(sum.value, Some(ExprType::Add(_))));
    let gt = Expr::join(Joint::Gt, number("1"), number("2"));
    assert!(matches!(gt.value, Some(ExprType::Gt(_))));
    let ge = Expr::join(Joint::Ge, number("1"), number("2"));
    assert!(matches!(ge.value, Some(ExprType::Ge(_))));
    let lt = Expr::join(Joint::Other(BinaryOperator::Lt), number("1"), number("2"));
    match lt.value {
        Some(ExprType::Binary(node)) => assert_eq!(node.op, BinaryOperator::Lt),
        other => panic!("a comparison was expected: {:?}", other),
    }
}

#[test]
fn chain_stops_before_an_operator_of_a_looser_level() {
    let mut meta = parser_on("1 * 2 + 3");
    let mut expr = Expr::new();
    assert!(expr.parse_chain(&mut meta, Level::Multiplicative).is_ok());
    assert_eq!(meta.get_index(), 3);
    assert_eq!(expr, binary(BinaryOperator::Mul, number("1"), number("2")));
    let mut meta = parser_on("1 * 2 + 3");
    let mut expr = Expr::new();
    assert!(expr.parse_chain(&mut meta, Level::Additive).is_ok());
    assert_eq!(meta.get_index(), 5);
    assert_eq!(
        expr,
        Expr::join(Joint::Add, binary(BinaryOperator::Mul, number("1"), number("2")), number("3"))
    );
}

#[test]
fn rest_of_a_row_stands_on_the_right() {
    let mut meta = parser_on("1 - 2 - 3");
    let mut expr = Expr::new();
    assert!(expr.parse(&mut meta).is_ok());
    assert_eq!(meta.get_index(), 5);
    assert_eq!(
        expr,
        binary(
            BinaryOperator::Sub,
            number("1"),
            binary(BinaryOperator::Sub, number("2"), number("3"))
        )
    );
}

#[test]
fn chain_leaves_an_operator_without_operand() {
    let mut meta = parser_on("1 - )");
    let mut expr = Expr::new();
    assert!(expr.parse(&mut meta).is_ok());
    assert_eq!(meta.get_index(), 1);
    assert_eq!(expr, number("1"));
    assert!(meta.messages.is_empty());
}

#[test]
fn region_types_have_their_quote() {
    assert_eq!(InterpolatedRegionType::Text.to_char(), '"');
    assert_eq!(InterpolatedRegionType::Command.to_char(), '$');
}

#[test]
fn symbol_is_escaped_by_an_odd_number_of_backslashes() {
    assert!(!is_escaped("abc", '"'));
    assert!(!is_escaped("abc\"", '"'));
    assert!(is_escaped("abc\\\"", '"'));
    assert!(!is_escaped("abc\\\\\"", '"'));
    assert!(is_escaped("abc\\\\\\\"", '"'));
    assert!(is_escaped("\\$", '$'));
    assert!(!is_escaped("\\$", '"'));
    assert!(!is_escaped("", '"'));
}

#[test]
fn simple_region_loses_its_quotes() {
    assert_eq!(
        parse_simple_region("\"hello\"", &InterpolatedRegionType::Text),
        vec![TextPart::String("hello".to_string())]
    );
    assert_eq!(
        parse_simple_region("$ls -l$", &InterpolatedRegionType::Command),
        vec![TextPart::String("ls -l".to_string())]
    );
    assert_eq!(
        parse_simple_region("\"a\\nb\\\"c\"", &InterpolatedRegionType::Text),
        vec![TextPart::String("a\nb\"c".to_string())]
    );
    assert_eq!(
        parse_simple_region("\"\"", &InterpolatedRegionType::Text),
        vec![TextPart::String("".to_string())]
    );
}
