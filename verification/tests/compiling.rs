use amber::compiler::AmberCompiler;
use amber::modules::expression::expr::ExprType;
use amber::modules::model::MessageType;
use amber::modules::statement::stmt::Statement;
use amber::modules::types::Type;
use amber::utils::metadata::translate::{CompilerOptions, TranslateMetadata};

#[test]
fn test_translate_sudo_preamble() {
    let code = r#"
main {
    echo("test")
}
"#;
    let options = CompilerOptions::default();
    let compiler = AmberCompiler::new(code.to_string(), None, options);
    let tokens = compiler.tokenize().expect("tokenize failed");
    let (ast, meta) = compiler.parse(tokens).expect("parse failed");
    let (ast, meta) = compiler.typecheck(ast, meta).expect("typecheck failed");
    let mut translate_meta = TranslateMetadata::new(meta, &compiler.options);
    let ast = ast.translate(&mut translate_meta);
    let result = ast.to_string(&mut translate_meta);
    assert!(
        result.contains("echo \"test\""),
        "Output should contain bash code"
    );
}

#[test]
fn test_translate_with_sudo() {
    let code = r#"
main {
    sudo $ echo "test" $?
}
"#;
    let options = CompilerOptions::default();
    let compiler = AmberCompiler::new(code.to_string(), None, options);
    let tokens = compiler.tokenize().expect("tokenize failed");
    let (ast, meta) = compiler.parse(tokens).expect("parse failed");
    let (ast, meta) = compiler.typecheck(ast, meta).expect("typecheck failed");
    let mut translate_meta = TranslateMetadata::new(meta, &compiler.options);
    let ast = ast.translate(&mut translate_meta);
    let result = ast.to_string(&mut translate_meta);
    assert!(result.contains("sudo"), "Output should contain sudo");
}

#[test]
fn test_parse_with_debug_flags() {
    let code = r#"main { echo("test") }"#;
    let options = CompilerOptions {
        debug_time: true,
        debug_parser: true,
        ..Default::default()
    };
    let compiler = AmberCompiler::new(code.to_string(), None, options);
    let tokens = compiler.tokenize().expect("tokenize failed");
    let result = compiler.parse(tokens);

    assert!(result.is_ok(), "Translate should succeed with debug flags");
}

#[test]
fn test_translate_with_debug_parser() {
    let code = r#"main { echo("test") }"#;
    let options = CompilerOptions {
        debug_parser: true,
        ..Default::default()
    };
    let compiler = AmberCompiler::new(code.to_string(), None, options);
    let tokens = compiler.tokenize().expect("tokenize failed");
    let result = compiler.parse(tokens);

    assert!(result.is_ok(), "Parse should succeed with debug parser");
}

#[test]
fn test_typecheck_with_debug_time() {
    let code = r#"main { echo("test") }"#;
    let options = CompilerOptions {
        debug_time: true,
        ..Default::default()
    };
    let compiler = AmberCompiler::new(code.to_string(), None, options);

    let tokens = compiler.tokenize().expect("tokenize failed");
    let (block, meta) = compiler.parse(tokens).expect("parse failed");

    let result = compiler.typecheck(block, meta);

    assert!(result.is_ok(), "Typecheck should succeed with debug time");
}

#[test]
fn test_parse_with_debug_time() {
    let code = r#"main { echo("test") }"#;
    let options = CompilerOptions {
        debug_time: true,
        ..Default::default()
    };
    let compiler = AmberCompiler::new(code.to_string(), None, options);

    let tokens = compiler.tokenize().expect("tokenize failed");
    let result = compiler.parse(tokens);

    assert!(result.is_ok(), "Parse should succeed with debug time");
}

#[test]
fn test_tokenize_error_singleline_missing_close() {
    let code = r#"main { echo "hello }"#;
    let options = CompilerOptions::default();
    let compiler = AmberCompiler::new(code.to_string(), None, options);
    let tokens = compiler.tokenize();
    assert!(tokens.is_err(), "Should error on unclosed string");
}

#[test]
fn test_tokenize_error_unclosed_comment() {
    let code = r#"main { echo "hello" // comment without closing
"#;
    let options = CompilerOptions::default();
    let compiler = AmberCompiler::new(code.to_string(), None, options);
    let tokens = compiler.tokenize();
    assert!(tokens.is_err(), "Should error on unclosed comment");
}

/// The compiling half of an evaluation: the script for the code, or the
/// message of the compiler. Running the script is the driver's part.
fn test_eval(compiler: &AmberCompiler) -> Result<String, String> {
    compiler.compile().map_err(|message| message.message)
}

#[test]
fn test_test_eval() {
    let code = r#"
main {
    echo("test")
}
"#;
    let options = CompilerOptions::default();
    let compiler = AmberCompiler::new(code.to_string(), None, options);
    let result = test_eval(&compiler);
    assert!(result.is_ok(), "test_eval should succeed");
    assert!(
        result.unwrap().contains("test"),
        "Output should contain 'test'"
    );
}

#[test]
fn test_test_eval_with_error() {
    let code = r#"
main {
    this_is_not_valid_amber
}
"#;
    let options = CompilerOptions::default();
    let compiler = AmberCompiler::new(code.to_string(), None, options);
    let result = test_eval(&compiler);
    assert!(result.is_err(), "test_eval should error on invalid code");
}

fn compile(code: &str) -> Result<String, String> {
    let compiler = AmberCompiler::new(code.to_string(), None, CompilerOptions::default());
    match compiler.compile() {
        Ok(text) => Ok(text),
        Err(message) => Err(match message.comment {
            Some(comment) => format!("{} ({})", message.message, comment),
            None => message.message,
        }),
    }
}

#[test]
fn compiles_echo_of_text() {
    assert_eq!(compile("main { echo(\"test\") }").unwrap(), "echo \"test\"");
}

#[test]
fn compiles_command_with_sudo_and_propagation() {
    let out = compile("main { sudo $ echo \"x\" $? }").unwrap();
    assert!(out.contains("sudo"));
    assert_eq!(
        out,
        "__sudo=$([ \"$(id -u)\" -ne 0 ] && command -v sudo >/dev/null 2>&1 && printf sudo)\n\
         ${__sudo} echo \"x\"\n\
         __status=$?\n\
         if [ \"${__status}\" != 0 ]; then\n    exit \"${__status}\"\nfi"
    );
}

#[test]
fn compiles_command_with_failed_block() {
    let out = compile("main { $ echo \"a\" $ failed { echo(\"fail\") } }").unwrap();
    assert_eq!(
        out,
        "echo \"a\"\n__status=$?\nif [ \"${__status}\" != 0 ]; then\n    echo \"fail\"\nfi"
    );
}

#[test]
fn compiles_command_used_as_value() {
    let out = compile(
        "main { let x = $ cat {\"file\"} $ failed(code) { echo(code) } echo(x) }",
    )
    .unwrap();
    assert_eq!(
        out,
        "command_0=$(cat file)\n__status=$?\ncode=\"${__status}\"\n\
         if [ \"${__status}\" != 0 ]; then\n    echo \"${code}\"\nfi\n\
         x=\"${command_0}\"\necho \"${x}\""
    );
}

#[test]
fn compiles_function_with_number_argument() {
    let out = compile("fun f(x: Num): Num { return x + 1 } main { echo(f(1.5)) }").unwrap();
    assert!(out.contains("f__0_v0"));
    assert!(out.contains("bc"));
    assert_eq!(
        out,
        "f__0_v0() {\n    x_0_v0=$1\n    \
         __AMBER_FUN_f0_v0=$(echo \"${x_0_v0} + 1\" | bc -l | sed 's/^\\./0./')\n    \
         return 0\n}\nf__0_v0 1.5\necho \"${__AMBER_FUN_f0_v0}\""
    );
}

#[test]
fn compiles_array_variable() {
    let out = compile("main { let a = [1,2,3]; echo(a) }").unwrap();
    assert!(out.contains("a=(1 2 3)"));
    assert!(out.contains("\"${a[@]}\""));
    assert_eq!(out, "a=(1 2 3)\necho \"${a[@]}\"");
}

#[test]
fn compiles_text_with_interpolation() {
    let out = compile("main { let name = \"x\" echo(\"hello {name}\") }").unwrap();
    assert_eq!(out, "name=\"x\"\necho \"hello ${name}\"");
}

#[test]
fn compiling_its_own_empty_output_changes_nothing() {
    let first = compile("main { }").unwrap();
    assert_eq!(first, "");
    let second = compile(&first).unwrap();
    assert_eq!(second, first);
}

#[test]
fn empty_handler_block_parses_with_a_warning() {
    for (code, text) in [
        ("main { $ echo \"a\" $ failed { } }", "Empty failed block"),
        ("main { $ echo \"a\" $ succeeded { } }", "Empty succeeded block"),
        ("main { $ echo \"a\" $ then(code) { } }", "Empty then block"),
        ("main { $ echo \"a\" $ exited(code) { } }", "Empty then block"),
    ] {
        let compiler = AmberCompiler::new(code.to_string(), None, CompilerOptions::default());
        let tokens = compiler.tokenize().unwrap();
        let (_, meta) = compiler.parse(tokens).expect("an empty block parses");
        assert_eq!(meta.messages.len(), 1, "{}", code);
        assert_eq!(meta.messages[0].kind, MessageType::Warning);
        assert_eq!(meta.messages[0].message, text);
        assert_eq!(
            meta.messages[0].comment.as_deref(),
            Some("You should use 'trust' modifier to run commands without handling errors")
        );
    }
    assert_eq!(
        compile("main { $ echo \"a\" $ failed { } }").unwrap(),
        "echo \"a\"\n__status=$?"
    );
}

#[test]
fn command_without_handler_is_a_parse_error() {
    let compiler = AmberCompiler::new(
        "main { $ echo \"a\" $ }".to_string(),
        None,
        CompilerOptions::default(),
    );
    let tokens = compiler.tokenize().unwrap();
    let message = compiler.parse(tokens).unwrap_err();
    assert_eq!(message.kind, MessageType::Error);
    assert_eq!(message.message, "Every command statement must handle execution result");
    assert_eq!(
        message.comment.as_deref(),
        Some("You can use '?' to propagate failure, 'failed' block to handle failure, 'succeeded' block to handle success, 'then' block to handle both, or 'trust' modifier to ignore results")
    );
    assert_eq!(message.position.from, 2);
}

#[test]
fn trusted_command_needs_no_handler() {
    assert_eq!(compile("main { trust $ echo \"a\" $ }").unwrap(), "echo \"a\"");
}

#[test]
fn trust_with_propagation_is_a_type_error() {
    let compiler = AmberCompiler::new(
        "main { trust $ echo \"a\" $? }".to_string(),
        None,
        CompilerOptions::default(),
    );
    let tokens = compiler.tokenize().unwrap();
    let (ast, meta) = compiler.parse(tokens).expect("the parser accepts it");
    let message = compiler.typecheck(ast, meta).unwrap_err();
    assert_eq!(
        message.message,
        "The '?' operator cannot be used together with the 'trust' modifier"
    );
}

#[test]
fn second_handler_is_a_parse_error() {
    assert_eq!(
        compile("main { $ echo \"a\" $ failed { echo(1) } succeeded { echo(2) } }").unwrap_err(),
        "Cannot use both 'failed' and 'succeeded' blocks for the same command (Use either '{keyword}' to handle both success and failure, 'failed' or 'succeeded' blocks, but not both)"
    );
    assert_eq!(
        compile("main { $ echo \"a\" $ exited(c) { echo(1) } failed { echo(2) } }").unwrap_err(),
        "Cannot use both 'exited' and 'failed' blocks for the same command (Use either '{keyword}' to handle both success and failure, 'failed' or 'succeeded' blocks, but not both)"
    );
}

#[test]
fn handler_without_parameter_name_is_an_error() {
    assert_eq!(
        compile("main { $ echo \"a\" $ then() { echo(1) } }").unwrap_err(),
        "Parameter name cannot be empty"
    );
    assert_eq!(
        compile("main { $ echo \"a\" $ then { echo(1) } }").unwrap_err(),
        "Failed to parse then block"
    );
}

#[test]
fn handlers_translate_to_branches_on_the_status() {
    assert_eq!(
        compile("main { $ echo \"a\" $ succeeded { echo(\"ok\") } }").unwrap(),
        "echo \"a\"\n__status=$?\nif [ \"${__status}\" = 0 ]; then\n    echo \"ok\"\nfi"
    );
    assert_eq!(
        compile("main { $ echo \"a\" $ exited(code) { echo(code) } }").unwrap(),
        "echo \"a\"\n__status=$?\ncode=\"${__status}\"\necho \"${code}\""
    );
    assert_eq!(
        compile("main { $ echo \"a\" $ then(code) { echo(code) } }").unwrap(),
        "echo \"a\"\n__status=$?\ncode=\"${__status}\"\necho \"${code}\""
    );
    assert_eq!(
        compile("main { silent $ echo \"a\" $? }").unwrap(),
        "echo \"a\" >/dev/null 2>&1\n__status=$?\nif [ \"${__status}\" != 0 ]; then\n    exit \"${__status}\"\nfi"
    );
}

#[test]
fn command_keeps_interpolations_out_of_single_quotes() {
    assert_eq!(
        compile("main { let s = \"x\"; $ echo '{s}' 'y' $? }").unwrap(),
        "s=\"x\"\necho ''\"${s}\"'' 'y'\n__status=$?\nif [ \"${__status}\" != 0 ]; then\n    exit \"${__status}\"\nfi"
    );
}

#[test]
fn text_is_escaped_for_double_quotes() {
    assert_eq!(
        compile("main { echo(\"a\\\"b {1 + 2} !\") }").unwrap(),
        "echo \"a\\\"b $(( 1 + 2 )) \"'!'\"\""
    );
}

#[test]
fn generic_function_gets_one_variant_per_argument_types() {
    let out = compile(
        "fun g(x) { return x } main { echo(g(1)) echo(g(\"a\")) echo(g(2)) }",
    )
    .unwrap();
    assert_eq!(
        out,
        "g__0_v0() {\n    x_0_v0=$1\n    __AMBER_FUN_g0_v0=\"${x_0_v0}\"\n    return 0\n}\n\
         g__0_v1() {\n    x_1_v1=$1\n    __AMBER_FUN_g0_v1=\"${x_1_v1}\"\n    return 0\n}\n\
         g__0_v0 1\necho \"${__AMBER_FUN_g0_v0}\"\n\
         g__0_v1 \"a\"\necho \"${__AMBER_FUN_g0_v1}\"\n\
         g__0_v0 2\necho \"${__AMBER_FUN_g0_v0}\""
    );
}

#[test]
fn call_is_linked_to_a_cached_variant_with_its_argument_types() {
    let compiler = AmberCompiler::new(
        "fun g(x) { return x } main { echo(g(1)) echo(g(\"a\")) echo(g(2)) }".to_string(),
        None,
        CompilerOptions::default(),
    );
    let tokens = compiler.tokenize().unwrap();
    let (ast, meta) = compiler.parse(tokens).unwrap();
    let (ast, meta) = compiler.typecheck(ast, meta).unwrap();
    assert_eq!(meta.fun_cache.funs.len(), 1);
    let variants = &meta.fun_cache.funs[0];
    assert_eq!(variants.len(), 2);
    assert_eq!(variants[0].variant_id, 0);
    assert_eq!(variants[0].args, vec![Type::Int]);
    assert_eq!(variants[0].returns, Type::Int);
    assert_eq!(variants[1].variant_id, 1);
    assert_eq!(variants[1].args, vec![Type::Text]);
    assert_eq!(variants[1].returns, Type::Text);
    let main = match &ast.block.statements[1] {
        Statement::Main(main) => main,
        other => panic!("expected main, found {:?}", other),
    };
    let mut linked = vec![];
    for statement in &main.block.statements {
        if let Statement::Echo(echo) = statement {
            if let Some(ExprType::Parentheses(inner)) = &echo.value.value {
                if let Some(ExprType::FunctionInvocation(call)) = &inner.value.value {
                    let kinds: Vec<Type> = call.args.iter().map(|arg| arg.kind.clone()).collect();
                    assert_eq!(variants[call.variant_id].args, kinds);
                    linked.push((call.id, call.variant_id));
                }
            }
        }
    }
    assert_eq!(linked, vec![(0, 0), (0, 1), (0, 0)]);
}

#[test]
fn parameters_are_bound_to_what_the_shell_hands_over() {
    assert_eq!(
        compile("fun g(ref x) { echo(x) } main { let v = 1 g(v) }").unwrap(),
        "g__0_v0() {\n    declare -n x_0_v0=$1\n    echo \"${x_0_v0}\"\n}\nv=1\ng__0_v0 v"
    );
    assert_eq!(
        compile("fun g(a: [Int]) { echo(a) } main { let v = [1,2] g(v) }").unwrap(),
        "g__0_v0() {\n    a_0_v0=(\"${!1}\")\n    echo \"${a_0_v0[@]}\"\n}\nv=(1 2)\ng__0_v0 v[@]"
    );
}

#[test]
fn comments_are_left_out() {
    assert_eq!(
        compile("// nothing here\nmain { echo(\"x\") // trailing\n }").unwrap(),
        "echo \"x\""
    );
}

#[test]
fn misplaced_statements_are_errors() {
    assert_eq!(compile("main { return 1 }").unwrap_err(), "Return statement outside of function");
    assert_eq!(
        compile("main { main { } }").unwrap_err(),
        "Main block can only stand at the top of a file"
    );
    assert_eq!(
        compile("main { fun f() { } }").unwrap_err(),
        "Functions can only be declared at the top of a file"
    );
    assert_eq!(
        compile("main { let 1a = 2 }").unwrap_err(),
        "Expected '<name> = <expression>' after 'let'"
    );
    assert_eq!(compile("main { echo }").unwrap_err(), "Expected expression after 'echo'");
    assert_eq!(compile("main { ) }").unwrap_err(), "Unexpected token");
    assert_eq!(compile("main").unwrap_err(), "Expected a block after 'main'");
    assert_eq!(compile("fun (").unwrap_err(), "Failed to parse function declaration");
}

#[test]
fn tokenizer_reports_what_was_left_open() {
    let compiler = AmberCompiler::new(
        "main { echo \"hello }".to_string(),
        None,
        CompilerOptions::default(),
    );
    let message = compiler.tokenize().unwrap_err();
    assert_eq!(message.message, "Unclosed string literal");
}
