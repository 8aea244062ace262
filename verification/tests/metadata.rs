use amber::compiler::AmberCompiler;
use amber::modules::block::Block;
use amber::modules::types::Type;
use amber::translate::fragments::fragment::FragmentKind;
use amber::translate::fragments::raw::RawFragment;
use amber::translate::fragments::var_stmt::VarStmtFragment;
use amber::utils::function_interface::FunctionInterface;
use amber::utils::metadata::translate::{CompilerOptions, TranslateMetadata};

fn state(options: CompilerOptions) -> TranslateMetadata {
    let compiler = AmberCompiler::new("main { echo(\"test\") }".to_string(), None, options);
    let tokens = compiler.tokenize().unwrap();
    let (ast, meta) = compiler.parse(tokens).unwrap();
    let (_, meta) = compiler.typecheck(ast, meta).unwrap();
    TranslateMetadata::new(meta, &compiler.options)
}

fn interface(arg_types: Vec<Type>) -> FunctionInterface {
    FunctionInterface {
        id: None,
        name: "sum".to_string(),
        arg_names: arg_types.iter().enumerate().map(|(i, _)| format!("a{}", i)).collect(),
        arg_refs: arg_types.iter().map(|_| false).collect(),
        arg_types,
        returns: Type::Num,
        is_public: true,
    }
}

#[test]
fn new_state_starts_above_the_first_level() {
    let meta = state(CompilerOptions::default());
    assert_eq!(meta.indent, -1);
    assert_eq!(meta.value_id, 0);
    assert!(meta.stmt_queue.is_empty());
    assert!(!meta.eval_ctx);
    assert!(!meta.silenced);
    assert!(!meta.sudoed);
    assert!(!meta.minify);
    assert!(meta.fun_meta.is_none());
    let meta = state(CompilerOptions { minify: true, ..CompilerOptions::default() });
    assert!(meta.minify);
}

#[test]
fn indentation_is_four_spaces_for_each_level() {
    let mut meta = state(CompilerOptions::default());
    assert_eq!(TranslateMetadata::single_indent(), "    ");
    assert_eq!(meta.gen_indent(), "");
    meta.increase_indent();
    assert_eq!(meta.indent, 0);
    assert_eq!(meta.gen_indent(), "");
    meta.increase_indent();
    assert_eq!(meta.gen_indent(), "    ");
    meta.increase_indent();
    assert_eq!(meta.gen_indent(), "        ");
    meta.decrease_indent();
    meta.decrease_indent();
    assert_eq!(meta.indent, 0);
    assert_eq!(meta.gen_indent(), "");
}

#[test]
fn value_ids_grow_by_one() {
    let mut meta = state(CompilerOptions::default());
    assert_eq!(meta.gen_value_id(), 0);
    assert_eq!(meta.gen_value_id(), 1);
    assert_eq!(meta.gen_value_id(), 2);
    assert_eq!(meta.value_id, 3);
}

#[test]
fn value_id_stops_at_the_largest_number() {
    let mut meta = state(CompilerOptions::default());
    meta.value_id = usize::MAX - 1;
    assert_eq!(meta.gen_value_id(), usize::MAX - 1);
    assert_eq!(meta.gen_value_id(), usize::MAX);
    assert_eq!(meta.gen_value_id(), usize::MAX);
}

#[test]
fn silenced_commands_get_a_redirection() {
    let mut meta = state(CompilerOptions::default());
    assert_eq!(meta.gen_silent(), FragmentKind::Empty);
    meta.silenced = true;
    assert_eq!(meta.gen_silent(), RawFragment::new(">/dev/null 2>&1").to_frag());
}

#[test]
fn sudo_prefix_queues_the_probe_once_for_each_use() {
    let mut meta = state(CompilerOptions::default());
    assert_eq!(meta.gen_sudo_prefix(), FragmentKind::Empty);
    assert!(meta.stmt_queue.is_empty());
    meta.sudoed = true;
    let prefix = meta.gen_sudo_prefix();
    assert_eq!(prefix.to_string(&mut meta), "${__sudo}");
    assert_eq!(meta.stmt_queue.len(), 1);
    let queued = meta.stmt_queue.pop_front().unwrap();
    assert_eq!(
        queued.to_string(&mut meta),
        "__sudo=$([ \"$(id -u)\" -ne 0 ] && command -v sudo >/dev/null 2>&1 && printf sudo)"
    );
}

#[test]
fn quote_and_dollar_are_escaped_inside_eval() {
    let mut meta = state(CompilerOptions::default());
    assert_eq!(meta.gen_quote(), "\"");
    assert_eq!(meta.gen_dollar(), "$");
    meta.eval_ctx = true;
    assert_eq!(meta.gen_quote(), "\\\"");
    assert_eq!(meta.gen_dollar(), "\\$");
}

#[test]
fn ephemeral_variable_is_queued_and_referred_to() {
    let mut meta = state(CompilerOptions::default());
    let stmt = VarStmtFragment::new("__status", Type::Int, RawFragment::new("$?").to_frag())
        .with_global_id(Some(3));
    let expr = meta.push_ephemeral_variable(stmt);
    assert_eq!(expr.name, "__status");
    assert_eq!(expr.kind, Type::Int);
    assert_eq!(expr.global_id, Some(3));
    assert!(expr.quoted);
    assert_eq!(meta.stmt_queue.len(), 1);
    match meta.stmt_queue.pop_front().unwrap() {
        FragmentKind::VarStmt(queued) => {
            assert!(queued.ephemeral);
            assert_eq!(queued.name, "__status");
            assert_eq!(queued.global_id, Some(3));
        }
        other => panic!("an assignment was expected: {:?}", other),
    }
}

#[test]
fn queue_hands_out_in_the_order_of_arrival() {
    let mut meta = state(CompilerOptions::default());
    meta.enqueue(RawFragment::new("first").to_frag());
    meta.enqueue(RawFragment::new("second").to_frag());
    let mut out = vec![RawFragment::new("zero").to_frag()];
    meta.drain_into(&mut out);
    assert!(meta.stmt_queue.is_empty());
    assert_eq!(
        out,
        vec![
            RawFragment::new("zero").to_frag(),
            RawFragment::new("first").to_frag(),
            RawFragment::new("second").to_frag(),
        ]
    );
}

#[test]
fn interface_becomes_a_declaration_with_the_id() {
    let decl = interface(vec![Type::Int, Type::Text]).to_fun_declaration(5);
    assert_eq!(decl.id, 5);
    assert_eq!(decl.name, "sum");
    assert_eq!(decl.arg_names, vec!["a0".to_string(), "a1".to_string()]);
    assert_eq!(decl.arg_types, vec![Type::Int, Type::Text]);
    assert_eq!(decl.arg_refs, vec![false, false]);
    assert_eq!(decl.returns, Type::Num);
    assert!(decl.is_public);
    assert!(decl.is_args_typed);
}

#[test]
fn arguments_with_a_generic_do_not_count_as_typed() {
    assert!(!interface(vec![Type::Int, Type::Generic]).to_fun_declaration(0).is_args_typed);
    assert!(!interface(vec![Type::Generic]).to_fun_declaration(0).is_args_typed);
    assert!(interface(vec![]).to_fun_declaration(0).is_args_typed);
    assert!(interface(vec![Type::array_of(Type::Generic)]).to_fun_declaration(0).is_args_typed);
}

#[test]
fn interface_becomes_the_first_variant() {
    let instance = interface(vec![Type::Int]).to_fun_instance(Block::new());
    assert_eq!(instance.variant_id, 0);
    assert_eq!(instance.args, vec![Type::Int]);
    assert_eq!(instance.returns, Type::Num);
    assert_eq!(instance.block, Block::new());
}

#[test]
fn modifiers_hold_for_one_command_only() {
    let mut meta = state(CompilerOptions::default());
    let (prefix, redirection) = meta.gen_modifiers(true, false);
    assert_eq!(prefix, FragmentKind::Empty);
    assert_eq!(redirection, RawFragment::new(">/dev/null 2>&1").to_frag());
    assert!(!meta.silenced);
    assert!(!meta.sudoed);
    assert!(meta.stmt_queue.is_empty());
    let (prefix, redirection) = meta.gen_modifiers(false, true);
    assert_eq!(prefix.to_string(&mut meta), "${__sudo}");
    assert_eq!(redirection, FragmentKind::Empty);
    assert!(!meta.silenced);
    assert!(!meta.sudoed);
    assert_eq!(meta.stmt_queue.len(), 1);
    let (_, redirection) = meta.gen_modifiers(false, false);
    assert_eq!(redirection, FragmentKind::Empty);
    assert_eq!(meta.stmt_queue.len(), 1);
    meta.silenced = true;
    let (_, redirection) = meta.gen_modifiers(false, false);
    assert_eq!(redirection, RawFragment::new(">/dev/null 2>&1").to_frag());
    assert!(meta.silenced);
}
