use amber::compiler::AmberCompiler;
use amber::translate::compare::ComparisonOperator;
use amber::translate::compute::{translate_bc_sed_computation, translate_float_computation, ArithOp};
use amber::translate::fragments::fragment::FragmentKind;
use amber::translate::fragments::interpolable::{
    scan_quote_state, InterpolableFragment, InterpolableRenderType,
};
use amber::translate::fragments::raw::RawFragment;
use amber::utils::metadata::translate::{CompilerOptions, TranslateMetadata};

fn create_interpolable(render_type: InterpolableRenderType) -> InterpolableFragment {
    InterpolableFragment::new(vec![], render_type)
}

fn create_test_metadata() -> TranslateMetadata {
    let options = CompilerOptions::default();
    let compiler = AmberCompiler::new("main { echo(\"test\") }".to_string(), None, options);
    let tokens = compiler.tokenize().unwrap();
    let (ast, meta) = compiler.parse(tokens).unwrap();
    let (_, meta) = compiler.typecheck(ast, meta).unwrap();
    TranslateMetadata::new(meta, &compiler.options)
}

fn raw_frag(s: &str) -> FragmentKind {
    RawFragment::new(s).to_frag()
}

#[test]
fn test_translate_escaped_string() {
    // Test StringLiteral translation
    let i_str = create_interpolable(InterpolableRenderType::StringLiteral);
    assert_eq!(i_str.translate_escaped_string(r#"hello"#), r#"hello"#);
    assert_eq!(i_str.translate_escaped_string(r#"\"#), r#"\\"#);
    assert_eq!(i_str.translate_escaped_string(r#"""#), r#"\""#);
    assert_eq!(i_str.translate_escaped_string(r#"'"#), r#"'"#);
    assert_eq!(i_str.translate_escaped_string(r#"$"#), r#"\$"#);
    assert_eq!(i_str.translate_escaped_string(r#"\$"#), r#"\\\$"#);
    assert_eq!(i_str.translate_escaped_string(r#"{"#), r#"{"#);
    assert_eq!(i_str.translate_escaped_string(r#"`"#), r#"\`"#);
    assert_eq!(i_str.translate_escaped_string(r#"!"#), r#""'!'""#);
    assert_eq!(i_str.translate_escaped_string(r#"\ "#), r#"\\ "#);
    assert_eq!(i_str.translate_escaped_string(r#"${var}"#), r#"\${var}"#);

    // Test GlobalContext translation
    let i_glo = create_interpolable(InterpolableRenderType::GlobalContext);
    assert_eq!(i_glo.translate_escaped_string(r#"hello"#), r#"hello"#);
    assert_eq!(i_glo.translate_escaped_string(r#"\a"#), r#"\a"#);
    assert_eq!(i_glo.translate_escaped_string(r#"\"#), r#"\"#);
    assert_eq!(i_glo.translate_escaped_string(r#"\\"#), r#"\\"#);
    assert_eq!(i_glo.translate_escaped_string(r#"""#), r#"""#);
    assert_eq!(i_glo.translate_escaped_string(r#"'"#), r#"'"#);
    assert_eq!(i_glo.translate_escaped_string(r#"$"#), r#"$"#);
    assert_eq!(i_glo.translate_escaped_string(r#"\$"#), r#"\$"#);
    assert_eq!(i_glo.translate_escaped_string(r#"{"#), r#"{"#);
    assert_eq!(i_glo.translate_escaped_string(r#"!"#), r#"!"#);
    assert_eq!(
        i_glo.translate_escaped_string(r#"basename `pwd`"#),
        r#"basename `pwd`"#
    );
    assert_eq!(i_glo.translate_escaped_string(r#"\ "#), r#"\ "#);
}

#[test]
fn test_toggles_single_quote_state() {
    let mut dq = false;
    let mut sq = false;
    scan_quote_state(r#"foo"#, &mut sq, &mut dq);
    scan_quote_state(r#"foo\'bar"#, &mut sq, &mut dq);
    scan_quote_state(r#"foo'bar"#, &mut sq, &mut dq);
    // even number of backslashes before quote -> not escaped
    scan_quote_state(r#"foo\\\\'bar"#, &mut sq, &mut dq);
    scan_quote_state(r#"'"#, &mut sq, &mut dq);
    scan_quote_state(r#"'\"'"#, &mut sq, &mut dq);
    scan_quote_state(r#"'''"#, &mut sq, &mut dq);
    scan_quote_state(r#""'""#, &mut sq, &mut dq);

    sq = false;
    dq = false;
    scan_quote_state(r#" '" "#, &mut sq, &mut dq);
    assert!(sq);
    assert!(!dq);
    scan_quote_state(r#" '" "#, &mut sq, &mut dq);
    assert!(!sq);
    assert!(dq);
    scan_quote_state(r#" \"'\" "#, &mut sq, &mut dq);
    assert!(!sq);
    assert!(dq);
    scan_quote_state(r#" " "#, &mut sq, &mut dq);
    assert!(!sq);
    assert!(!dq);
    scan_quote_state(r#" ' "#, &mut sq, &mut dq);
    assert!(sq);
    assert!(!dq);
    scan_quote_state(r#" \' "#, &mut sq, &mut dq);
    assert!(sq);
    assert!(!dq);
    scan_quote_state(r#" \" "#, &mut sq, &mut dq);
    assert!(sq);
    assert!(!dq);
    scan_quote_state(r#" " "#, &mut sq, &mut dq);
    assert!(sq);
    assert!(!dq);
    scan_quote_state(r#" '"' "#, &mut sq, &mut dq);
    assert!(!sq);
    assert!(dq);
}

#[test]
fn test_comparison_operator_to_string() {
    assert_eq!(ComparisonOperator::Gt.to_string(), ">");
    assert_eq!(ComparisonOperator::Ge.to_string(), ">=");
    assert_eq!(ComparisonOperator::Lt.to_string(), "<");
    assert_eq!(ComparisonOperator::Le.to_string(), "<=");
    assert_eq!(ComparisonOperator::Eq.to_string(), "==");
}

#[test]
fn test_comparison_operator_to_arith_op() {
    assert_eq!(ComparisonOperator::Gt.to_arith_op(), ArithOp::Gt);
    assert_eq!(ComparisonOperator::Ge.to_arith_op(), ArithOp::Ge);
    assert_eq!(ComparisonOperator::Lt.to_arith_op(), ArithOp::Lt);
    assert_eq!(ComparisonOperator::Le.to_arith_op(), ArithOp::Le);
    assert_eq!(ComparisonOperator::Eq.to_arith_op(), ArithOp::Eq);
}

#[test]
fn test_translate_bc_sed_computation_add() {
    let result = translate_bc_sed_computation(ArithOp::Add, raw_frag("5"), raw_frag("3"));
    let mut meta = create_test_metadata();
    let code = result.to_string(&mut meta);

    assert!(code.contains("echo"), "should contain echo");
    assert!(code.contains("+"), "should contain + operator");
}

#[test]
fn test_translate_bc_sed_computation_sub() {
    let result = translate_bc_sed_computation(ArithOp::Sub, raw_frag("5"), raw_frag("3"));
    let mut meta = create_test_metadata();
    let code = result.to_string(&mut meta);

    assert!(code.contains("-"), "should contain - operator");
}

#[test]
fn test_translate_bc_sed_computation_mul() {
    let result = translate_bc_sed_computation(ArithOp::Mul, raw_frag("5"), raw_frag("3"));
    let mut meta = create_test_metadata();
    let code = result.to_string(&mut meta);

    assert!(code.contains("*"), "should contain * operator");
}

#[test]
fn test_translate_bc_sed_computation_div() {
    let result = translate_bc_sed_computation(ArithOp::Div, raw_frag("6"), raw_frag("3"));
    let mut meta = create_test_metadata();
    let code = result.to_string(&mut meta);

    assert!(code.contains("/"), "should contain / operator");
}

#[test]
fn test_translate_bc_sed_computation_modulo() {
    let result = translate_bc_sed_computation(ArithOp::Modulo, raw_frag("5"), raw_frag("3"));
    let mut meta = create_test_metadata();
    let code = result.to_string(&mut meta);

    assert!(code.contains("%"), "should contain % operator");
}

#[test]
fn test_translate_bc_sed_computation_gt() {
    let result = translate_bc_sed_computation(ArithOp::Gt, raw_frag("5"), raw_frag("3"));
    let mut meta = create_test_metadata();
    let code = result.to_string(&mut meta);

    assert!(code.contains(">"), "should contain > operator");
}

#[test]
fn test_translate_bc_sed_computation_ge() {
    let result = translate_bc_sed_computation(ArithOp::Ge, raw_frag("5"), raw_frag("3"));
    let mut meta = create_test_metadata();
    let code = result.to_string(&mut meta);

    assert!(code.contains(">="), "should contain >= operator");
}

#[test]
fn test_translate_bc_sed_computation_lt() {
    let result = translate_bc_sed_computation(ArithOp::Lt, raw_frag("3"), raw_frag("5"));
    let mut meta = create_test_metadata();
    let code = result.to_string(&mut meta);

    assert!(code.contains("<"), "should contain < operator");
}

#[test]
fn test_translate_bc_sed_computation_le() {
    let result = translate_bc_sed_computation(ArithOp::Le, raw_frag("3"), raw_frag("5"));
    let mut meta = create_test_metadata();
    let code = result.to_string(&mut meta);

    assert!(code.contains("<="), "should contain <= operator");
}

#[test]
fn test_translate_bc_sed_computation_eq() {
    let result = translate_bc_sed_computation(ArithOp::Eq, raw_frag("5"), raw_frag("5"));
    let mut meta = create_test_metadata();
    let code = result.to_string(&mut meta);

    assert!(code.contains("=="), "should contain == operator");
}

#[test]
fn test_translate_bc_sed_computation_neq() {
    let result = translate_bc_sed_computation(ArithOp::Neq, raw_frag("5"), raw_frag("3"));
    let mut meta = create_test_metadata();
    let code = result.to_string(&mut meta);

    assert!(code.contains("!="), "should contain != operator");
}

#[test]
fn test_translate_bc_sed_computation_neg() {
    let result = translate_bc_sed_computation(ArithOp::Neg, raw_frag("5"), raw_frag(""));
    let mut meta = create_test_metadata();
    let code = result.to_string(&mut meta);

    assert!(code.contains("-"), "should contain - operator");
}

#[test]
fn test_translate_bc_sed_computation_not() {
    let result = translate_bc_sed_computation(ArithOp::Not, raw_frag("true"), raw_frag(""));
    let mut meta = create_test_metadata();
    let code = result.to_string(&mut meta);

    assert!(code.contains("!"), "should contain ! operator");
}

#[test]
fn test_translate_bc_sed_computation_and() {
    let result = translate_bc_sed_computation(ArithOp::And, raw_frag("true"), raw_frag("true"));
    let mut meta = create_test_metadata();
    let code = result.to_string(&mut meta);

    assert!(code.contains("&&"), "should contain && operator");
}

#[test]
fn test_translate_bc_sed_computation_or() {
    let result = translate_bc_sed_computation(ArithOp::Or, raw_frag("true"), raw_frag("false"));
    let mut meta = create_test_metadata();
    let code = result.to_string(&mut meta);

    assert!(code.contains("||"), "should contain || operator");
}

#[test]
fn test_translate_float_computation_bc_sed() {
    let meta = create_test_metadata();

    let result = translate_float_computation(
        &meta,
        ArithOp::Add,
        Some(raw_frag("5")),
        Some(raw_frag("3")),
    );
    let mut meta2 = create_test_metadata();
    let code = result.to_string(&mut meta2);

    assert!(code.contains("+"), "should contain + operator");
}

#[test]
fn test_translate_float_computation_with_none() {
    let meta = create_test_metadata();

    let result = translate_float_computation(&meta, ArithOp::Add, None, None);
    let mut meta2 = create_test_metadata();
    let code = result.to_string(&mut meta2);

    assert!(code.contains("echo"), "should contain echo");
}
