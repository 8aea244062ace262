use amber::compiler::AmberCompiler;
use amber::modules::expression::binop::{typecheck_allowed_types, typecheck_sum};
use amber::modules::types::Type;
use amber::utils::metadata::translate::CompilerOptions;

fn compile(code: &str) -> Result<String, String> {
    let compiler = AmberCompiler::new(code.to_string(), None, CompilerOptions::default());
    compiler.compile().map_err(|message| message.message)
}

#[test]
fn comparison_of_int_and_num_is_a_type_error() {
    assert_eq!(
        compile("main { let a = 1 > 1.5 }").unwrap_err(),
        "Cannot perform comparison on value of type 'Int' and value of type 'Num'"
    );
    assert_eq!(
        compile("main { let a = 1.5 >= 1 }").unwrap_err(),
        "Cannot perform comparison on value of type 'Num' and value of type 'Int'"
    );
    assert!(typecheck_allowed_types("comparison", &Type::Int, &Type::Num).is_err());
    assert!(typecheck_allowed_types("comparison", &Type::Num, &Type::Int).is_err());
}

#[test]
fn comparison_of_arrays_of_int_and_num_is_a_type_error() {
    assert_eq!(
        compile("main { let a = [1] > [1.5] }").unwrap_err(),
        "Cannot perform comparison on value of type '[Int]' and value of type '[Num]'"
    );
    assert!(typecheck_allowed_types(
        "comparison",
        &Type::array_of(Type::Int),
        &Type::array_of(Type::Num)
    )
    .is_err());
}

#[test]
fn comparison_takes_two_values_of_one_comparable_type() {
    for kind in [
        Type::Int,
        Type::Num,
        Type::Text,
        Type::array_of(Type::Int),
        Type::array_of(Type::Num),
        Type::array_of(Type::Text),
    ] {
        assert_eq!(typecheck_allowed_types("comparison", &kind, &kind).unwrap(), kind);
    }
    for kind in [Type::Bool, Type::Null, Type::Generic, Type::array_of(Type::Bool)] {
        assert!(typecheck_allowed_types("comparison", &kind, &kind).is_err());
    }
}

#[test]
fn comparisons_translate_by_the_type_of_their_operands() {
    assert_eq!(compile("main { let a = 1 > 2 }").unwrap(), "a=$(( 1 > 2 ))");
    assert_eq!(compile("main { let a = 1 >= 2 }").unwrap(), "a=$(( 1 >= 2 ))");
    assert_eq!(
        compile("main { let a = 1.5 >= 2.5 }").unwrap(),
        "a=$(echo \"1.5 >= 2.5\" | bc -l | sed 's/^\\./0./')"
    );
    assert_eq!(
        compile("main { let a = \"x\" > \"y\" }").unwrap(),
        "a=$([[ \"x\" > \"y\" ]] && echo 1 || echo 0)"
    );
    assert_eq!(
        compile("main { let a = \"x\" >= \"y\" }").unwrap(),
        "a=$([[ \"x\" < \"y\" ]] && echo 0 || echo 1)"
    );
    assert_eq!(
        compile("main { let v = [1] let w = [2] let a = v > w }").unwrap(),
        "v=(1)\nw=(2)\na=$([[ \"${v[*]}\" > \"${w[*]}\" ]] && echo 1 || echo 0)"
    );
}

#[test]
fn sums_translate_by_the_type_of_their_operands() {
    assert_eq!(compile("main { let a = 1 + 2 }").unwrap(), "a=$(( 1 + 2 ))");
    assert_eq!(compile("main { echo((1 + 2) + 3) }").unwrap(), "echo $(( $(( 1 + 2 )) + 3 ))");
    assert_eq!(
        compile("main { let a = 1.5 + 2 }").unwrap(),
        "a=$(echo \"1.5 + 2\" | bc -l | sed 's/^\\./0./')"
    );
    assert_eq!(
        compile("main { let a = \"x\" + \"y\" echo(a) }").unwrap(),
        "a=\"x\"\"y\"\necho \"${a}\""
    );
    assert_eq!(
        compile("main { let v = [1] let a = v + [2] }").unwrap(),
        "v=(1)\na=(\"${v[@]}\" 2)"
    );
}

#[test]
fn sum_of_int_and_num_is_a_num() {
    assert_eq!(typecheck_sum(&Type::Int, &Type::Num).unwrap(), Type::Num);
    assert_eq!(typecheck_sum(&Type::Num, &Type::Int).unwrap(), Type::Num);
    assert_eq!(typecheck_sum(&Type::Int, &Type::Int).unwrap(), Type::Int);
    assert_eq!(typecheck_sum(&Type::Text, &Type::Text).unwrap(), Type::Text);
    assert!(typecheck_sum(&Type::Text, &Type::Int).is_err());
    assert!(typecheck_sum(&Type::Bool, &Type::Bool).is_err());
    assert_eq!(
        compile("main { let a = \"x\" + 1 }").unwrap_err(),
        "Cannot perform addition on value of type 'Text' and value of type 'Int'"
    );
}

#[test]
fn names_must_be_declared() {
    assert_eq!(compile("main { echo(nope) }").unwrap_err(), "Variable 'nope' does not exist");
    assert_eq!(compile("main { g(1) }").unwrap_err(), "Function 'g' does not exist");
    assert_eq!(
        compile("main { $ a $ failed { let x = 1 } echo(x) }").unwrap_err(),
        "Variable 'x' does not exist"
    );
    assert_eq!(
        compile("fun g() { return 1 } fun g() { return 2 }").unwrap_err(),
        "Function 'g' is already declared"
    );
    assert_eq!(
        compile("fun f() { return g() } fun g() { return 1 } main { echo(f()) }").unwrap_err(),
        "Function 'g' does not exist"
    );
}

#[test]
fn calls_must_fit_the_declaration() {
    assert_eq!(
        compile("fun g(x) { return x } main { g() }").unwrap_err(),
        "Function 'g' is called with a wrong number of arguments"
    );
    assert_eq!(
        compile("fun g(x: Int) { return x } main { echo(g(\"a\")) }").unwrap_err(),
        "Function 'g' is called with arguments of other types than declared"
    );
    assert_eq!(
        compile("fun g(ref x) { echo(x) } main { g(1) }").unwrap_err(),
        "Function 'g' takes a reference: pass a variable"
    );
    assert_eq!(
        compile("fun g(x): Text { return x } main { g(1) }").unwrap_err(),
        "Expected a result of type 'Text' but found 'Int'"
    );
    assert_eq!(
        compile("fun g(x) { return 1 return \"a\" } main { g(1) }").unwrap_err(),
        "Expected a result of type 'Int' but found 'Text'"
    );
}

#[test]
fn arrays_hold_values_of_one_plain_type() {
    assert_eq!(compile("main { let a = [[1]] }").unwrap_err(), "Arrays cannot be nested");
    assert_eq!(
        compile("main { let a = [1, \"x\"] }").unwrap_err(),
        "Expected array values of the same type"
    );
    assert_eq!(compile("main { let a = [] echo(a) }").unwrap(), "a=()\necho \"${a[@]}\"");
    assert_eq!(compile("main { let a = true echo(a) }").unwrap(), "a=1\necho \"${a}\"");
}

#[test]
fn type_names_and_relations() {
    assert_eq!(Type::array_of(Type::Int).to_string(), "[Int]");
    assert_eq!(Type::Failable(Box::new(Type::Text)).to_string(), "Text?");
    assert_eq!(Type::from_name("Num"), Some(Type::Num));
    assert_eq!(Type::from_name("Number"), None);
    assert!(Type::array_of(Type::Int).is_array());
    assert!(!Type::Int.is_array());
    assert!(Type::Int.same_as(&Type::Int));
    assert!(!Type::Int.same_as(&Type::Num));
    assert_eq!(Type::array_of(Type::Text).clone(), Type::array_of(Type::Text));
}

#[test]
fn products_bind_tighter_than_sums() {
    assert_eq!(
        compile("main { echo(1 + 2 * 3) }"),
        Ok("echo $(( 1 + $(( 2 * 3 )) ))".to_string())
    );
    assert_eq!(
        compile("main { echo(1 * 2 + 3) }"),
        Ok("echo $(( $(( 1 * 2 )) + 3 ))".to_string())
    );
}

#[test]
fn right_side_of_an_operator_is_the_rest_of_the_row() {
    assert_eq!(
        compile("main { echo(10 - 2 - 3) }"),
        Ok("echo $(( 10 - $(( 2 - 3 )) ))".to_string())
    );
    assert_eq!(
        compile("main { echo(8 / 2 * 3 % 5) }"),
        Ok("echo $(( 8 / $(( 2 * $(( 3 % 5 )) )) ))".to_string())
    );
    assert_eq!(
        compile("main { echo(1 - 2 + 3 - 4) }"),
        Ok("echo $(( 1 - $(( 2 + $(( 3 - 4 )) )) ))".to_string())
    );
    assert_eq!(
        compile("main { echo(1 + 2 + 3) }"),
        Ok("echo $(( 1 + $(( 2 + 3 )) ))".to_string())
    );
}

#[test]
fn round_brackets_hold_their_expression_together() {
    assert_eq!(
        compile("main { echo((1 - 2) - 3) }"),
        Ok("echo $(( $(( 1 - 2 )) - 3 ))".to_string())
    );
}

#[test]
fn not_binds_tighter_than_and_and_or() {
    assert_eq!(
        compile("main { echo(not true or false and true) }"),
        Ok("echo $(( $(( ! 1 )) || $(( 0 && 1 )) ))".to_string())
    );
    assert_eq!(
        compile("main { echo(true or false or true) }"),
        Ok("echo $(( 1 || $(( 0 || 1 )) ))".to_string())
    );
}

#[test]
fn a_sign_stands_before_its_operand() {
    assert_eq!(compile("main { echo(-5) }"), Ok("echo $(( - 5 ))".to_string()));
    assert_eq!(
        compile("main { echo(2 * -3) }"),
        Ok("echo $(( 2 * $(( - 3 )) ))".to_string())
    );
    assert_eq!(
        compile("main { echo(- 1.5) }"),
        Ok("echo $(echo \" - 1.5\" | bc -l | sed 's/^\\./0./')".to_string())
    );
}

#[test]
fn comparisons_of_integers_are_arithmetic() {
    assert_eq!(
        compile("main { echo(1 < 2) echo(1 <= 2) echo(1 != 2) }"),
        Ok("echo $(( 1 < 2 ))\necho $(( 1 <= 2 ))\necho $(( 1 != 2 ))".to_string())
    );
    assert_eq!(
        compile("main { echo(1 > 2) echo(2 >= 1) }"),
        Ok("echo $(( 1 > 2 ))\necho $(( 2 >= 1 ))".to_string())
    );
    assert_eq!(
        compile("main { echo(10 % 3 == 1) }"),
        Ok("echo $(( $(( 10 % 3 )) == 1 ))".to_string())
    );
    assert_eq!(compile("main { echo(true == false) }"), Ok("echo $(( 1 == 0 ))".to_string()));
}

#[test]
fn comparisons_of_texts_are_lexical() {
    assert_eq!(
        compile("main { echo(\"a\" != \"b\") }"),
        Ok("echo $([[ \"a\" == \"b\" ]] && echo 0 || echo 1)".to_string())
    );
    assert_eq!(
        compile("main { echo(\"a\" <= \"b\") }"),
        Ok("echo $([[ \"a\" > \"b\" ]] && echo 0 || echo 1)".to_string())
    );
}

#[test]
fn a_quotient_with_a_number_goes_through_the_calculator() {
    assert_eq!(
        compile("main { echo(7 / 2) echo(7.0 / 2) }"),
        Ok("echo $(( 7 / 2 ))\necho $(echo \"7.0 / 2\" | bc -l | sed 's/^\\./0./')".to_string())
    );
}

#[test]
fn operators_refuse_operands_of_other_types() {
    assert_eq!(
        compile("main { echo(1 and 2) }"),
        Err("Cannot perform and on value of type 'Int' and value of type 'Int'".to_string())
    );
    assert_eq!(
        compile("main { echo(not 1) }"),
        Err("Cannot negate a value of type 'Int'".to_string())
    );
    assert_eq!(
        compile("main { echo(-\"a\") }"),
        Err("Cannot negate a value of type 'Text'".to_string())
    );
    assert_eq!(
        compile("main { echo(\"a\" * 2) }"),
        Err("Cannot perform * on value of type 'Text' and value of type 'Int'".to_string())
    );
    assert_eq!(
        compile("main { echo(1 < 2 == true) }"),
        Err("Cannot perform == on value of type 'Int' and value of type 'Bool'".to_string())
    );
}

#[test]
fn an_operator_without_a_right_side_is_left_standing() {
    assert_eq!(
        compile("main { let x = 1 - 2 echo(x) }"),
        Ok("x=$(( 1 - 2 ))\necho \"${x}\"".to_string())
    );
    assert!(compile("main { echo(1 + ) }").is_err());
}
