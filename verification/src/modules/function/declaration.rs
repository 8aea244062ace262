//! The declaration of a function.

use crate::modules::block::Block;
use crate::modules::grammar;
use crate::modules::model::BlockV;
use crate::modules::model::DeclarationV;
use crate::modules::model::FailureV;
use crate::modules::types::Type;
use crate::text::views;
use crate::translate::fragments::block::BlockFragment;
use crate::translate::fragments::fragment::FragmentKind;
use crate::translate::fragments::fragment::no_frags;
use crate::translate::fragments::fragment::push_frag;
use crate::translate::fragments::model::FragmentV;
use crate::translate::fragments::model::RenderContext;
use crate::translate::fragments::raw::RawFragment;
use crate::translate::fragments::var_stmt::VarStmtFragment;
use crate::translate::lowering;
use crate::utils::context::Context;
use crate::utils::function_cache::FunctionCache;
use crate::utils::function_cache::FunctionInstance;
use crate::utils::function_interface::FunctionInterface;
use crate::utils::function_metadata::FunctionMetadata;
use crate::utils::metadata::parser::Failure;
use crate::utils::metadata::parser::ParserMetadata;
use crate::utils::metadata::parser::SyntaxResult;
use crate::utils::metadata::parser::commit;
use crate::utils::metadata::parser::parsed_as;
use crate::utils::metadata::parser::token;
use crate::utils::metadata::parser::variable;
use crate::utils::metadata::translate::TranslateMetadata;
use crate::utils::metadata::translate::TranslateV;
use crate::utils::metadata::translate::same_setting;
use std::collections::VecDeque;
use vstd::prelude::*;
use vstd::std_specs::vecdeque::VecDequeAdditionalSpecFns;

verus! {

/// A function as the source declares it. Checking fills in its id.
#[derive(Debug, PartialEq, Eq)]
pub struct FunctionDeclaration {
    pub name: String,
    pub arg_names: Vec<String>,
    pub arg_types: Vec<Type>,
    pub arg_refs: Vec<bool>,
    pub returns: Type,
    pub is_public: bool,
    pub body: Block,
    pub body_start: usize,
    pub id: usize,
}

impl FunctionDeclaration {
    /// The view of the declaration.
    pub open spec fn model(self) -> DeclarationV
        decreases self,
    {
        DeclarationV {
            name: self.name@,
            arg_names: views(self.arg_names@),
            arg_types: self.arg_types@,
            arg_refs: self.arg_refs@,
            returns: self.returns,
            is_public: self.is_public,
            body: self.body.model(),
            body_start: self.body_start,
            id: self.id,
        }
    }

    /// A declaration that was not parsed yet: it has no name, no
    /// parameters and an empty body, and gives back whatever its body
    /// does.
    pub fn new() -> (r: Self)
        ensures
            r.model() == (DeclarationV {
                name: Seq::empty(),
                arg_names: Seq::empty(),
                arg_types: Seq::empty(),
                arg_refs: Seq::empty(),
                returns: Type::Generic,
                is_public: false,
                body: BlockV { statements: Seq::empty() },
                body_start: 0,
                id: 0,
            }),
    {
        let r = FunctionDeclaration {
            name: String::new(),
            arg_names: Vec::new(),
            arg_types: Vec::new(),
            arg_refs: Vec::new(),
            returns: Type::Generic,
            is_public: false,
            body: Block::new(),
            body_start: 0,
            id: 0,
        };
        assert(r.model().name =~= Seq::empty());
        assert(r.model().arg_names =~= Seq::empty());
        assert(r.model().arg_types =~= Seq::empty());
        assert(r.model().arg_refs =~= Seq::empty());
        r
    }
}

impl View for FunctionDeclaration {
    type V = DeclarationV;

    open spec fn view(&self) -> DeclarationV {
        self.model()
    }
}


/// Parses a type: one of the five plain names, or a type between square
/// brackets.
pub fn parse_type(meta: &mut ParserMetadata) -> (r: Result<Type, Failure>)
    requires
        old(meta).wf(),
    ensures
        final(meta).wf(),
        final(meta).tokens == old(meta).tokens,
        final(meta).index >= old(meta).index,
        crate::utils::metadata::parser::same_tables(*old(meta), *final(meta)),
        final(meta)@ == grammar::type_parsed(old(meta).words(), old(meta)@).1,
        match r {
            Ok(kind) => grammar::type_parsed(old(meta).words(), old(meta)@).0 == Ok::<Type, FailureV>(
                kind,
            ),
            Err(failure) => grammar::type_parsed(old(meta).words(), old(meta)@).0 == Err::<
                Type,
                FailureV,
            >(failure@),
        },
        r is Ok ==> final(meta).index > old(meta).index,
    decreases grammar::remaining(old(meta).words(), old(meta)@),
{
    let (plain, opens) = match meta.current_word() {
        None => {
            return Err(meta.quiet());
        },
        Some(word) => (Type::from_name(word), word.eq("[")),
    };
    match plain {
        Some(kind) => {
            let _ = meta.take_word();
            Ok(kind)
        },
        None => {
            if opens {
                let _ = meta.take_word();
                let inner = match parse_type(meta) {
                    Ok(kind) => kind,
                    Err(failure) => {
                        return Err(failure);
                    },
                };
                match token(meta, "]") {
                    Ok(_) => Ok(Type::array_of(inner)),
                    Err(failure) => Err(failure),
                }
            } else {
                Err(meta.quiet())
            }
        },
    }
}

impl FunctionDeclaration {
    /// Parses the parameters of a function up to the closing bracket.
    fn parse_params(&mut self, meta: &mut ParserMetadata) -> (r: SyntaxResult)
        requires
            old(meta).wf(),
        ensures
            parsed_as(
                *old(meta),
                *final(meta),
                r,
                (views(final(self).arg_names@), final(self).arg_types@, final(self).arg_refs@),
                grammar::params_parsed(
                    old(meta).words(),
                    old(meta)@,
                    (Seq::empty(), Seq::empty(), Seq::empty()),
                ),
            ),
            r is Ok ==> final(meta).index > old(meta).index,
            final(self).name == old(self).name,
            final(self).is_public == old(self).is_public,
    {
        reveal(grammar::params_parsed);
        let ghost words = meta.words();
        let ghost goal = grammar::params_parsed(
            words,
            meta@,
            (Seq::empty(), Seq::empty(), Seq::empty()),
        );
        let mut names: Vec<String> = Vec::new();
        let mut types: Vec<Type> = Vec::new();
        let mut refs: Vec<bool> = Vec::new();
        assert(views(names@) =~= Seq::<Seq<char>>::empty());
        loop
            invariant
                meta.wf(),
                meta.tokens == old(meta).tokens,
                crate::utils::metadata::parser::same_tables(*old(meta), *meta),
                words == old(meta).words(),
                meta.index >= old(meta).index,
                *self == *old(self),
                goal == grammar::params_parsed(
                    words,
                    old(meta)@,
                    (Seq::empty(), Seq::empty(), Seq::empty()),
                ),
                goal == grammar::params_parsed(words, meta@, (views(names@), types@, refs@)),
            decreases meta.tokens@.len() - meta.index,
        {
            reveal(grammar::params_parsed);
            if token(meta, ")").is_ok() {
                self.arg_names = names;
                self.arg_types = types;
                self.arg_refs = refs;
                return Ok(());
            }
            let by_ref = token(meta, "ref").is_ok();
            let name = match variable(meta) {
                Ok(name) => name,
                Err(failure) => {
                    return Err(failure);
                },
            };
            let kind = if token(meta, ":").is_ok() {
                match parse_type(meta) {
                    Ok(kind) => kind,
                    Err(failure) => {
                        return Err(failure);
                    },
                }
            } else {
                Type::Generic
            };
            let ghost before = views(names@);
            names.push(name);
            types.push(kind);
            refs.push(by_ref);
            assert(views(names@) =~= before.push(name@));
            if token(meta, ")").is_ok() {
                self.arg_names = names;
                self.arg_types = types;
                self.arg_refs = refs;
                return Ok(());
            }
            match token(meta, ",") {
                Ok(_) => {},
                Err(failure) => {
                    return Err(failure);
                },
            }
        }
    }

    /// Parses what follows `fun`: the name, the parameters, an optional
    /// return type, and the body.
    fn parse_body(&mut self, meta: &mut ParserMetadata, is_public: bool) -> (r: SyntaxResult)
        requires
            old(meta).wf(),
        ensures
            parsed_as(
                *old(meta),
                *final(meta),
                r,
                final(self).model(),
                grammar::declaration_body(old(meta).words(), old(meta)@, is_public),
            ),
            r is Ok ==> final(meta).index > old(meta).index,
        decreases grammar::remaining(old(meta).words(), old(meta)@), 178nat,
    {
        reveal(grammar::declaration_body);
        reveal(grammar::block_parsed);
        let name = match variable(meta) {
            Ok(name) => name,
            Err(failure) => {
                return Err(failure);
            },
        };
        match token(meta, "(") {
            Ok(_) => {},
            Err(failure) => {
                return Err(failure);
            },
        }
        match self.parse_params(meta) {
            Ok(()) => {},
            Err(failure) => {
                return Err(failure);
            },
        }
        let result_type = if token(meta, ":").is_ok() {
            match parse_type(meta) {
                Ok(kind) => kind,
                Err(failure) => {
                    return Err(failure);
                },
            }
        } else {
            Type::Generic
        };
        let start = meta.mark();
        let mut body = Block::new();
        match body.parse(meta) {
            Ok(()) => {},
            Err(failure) => {
                meta.rewind(&start);
                return Err(failure);
            },
        }
        self.name = name;
        self.returns = result_type;
        self.is_public = is_public;
        self.body = body;
        self.body_start = start.index;
        self.id = 0;
        Ok(())
    }

    /// Parses the declaration of a function: an optional `pub`, `fun`, the
    /// name, the parameters, an optional return type, and the body. A
    /// function is declared at the top of a file only; after `fun` every
    /// failure is loud.
    pub fn parse(&mut self, meta: &mut ParserMetadata) -> (r: SyntaxResult)
        requires
            old(meta).wf(),
        ensures
            parsed_as(
                *old(meta),
                *final(meta),
                r,
                final(self).model(),
                grammar::declaration_parsed(old(meta).words(), old(meta)@),
            ),
            r is Ok ==> final(meta).index > old(meta).index,
        decreases grammar::remaining(old(meta).words(), old(meta)@), 179nat,
    {
        reveal(grammar::declaration_parsed);
        reveal(grammar::declaration_body);
        let position = meta.here();
        let is_public = token(meta, "pub").is_ok();
        match token(meta, "fun") {
            Ok(_) => {},
            Err(failure) => {
                return Err(failure);
            },
        }
        let saved = meta.context;
        if saved.is_fun_ctx || saved.is_main_ctx {
            return Err(
                Failure::error(
                    position,
                    "Functions can only be declared at the top of a file",
                    None,
                ),
            );
        }
        meta.set_context(
            Context {
                is_loop_ctx: saved.is_loop_ctx,
                is_fun_ctx: true,
                is_trust_ctx: saved.is_trust_ctx,
                is_main_ctx: saved.is_main_ctx,
            },
        );
        let outcome = self.parse_body(meta, is_public);
        meta.set_context(saved);
        commit(outcome, "Failed to parse function declaration")
    }
}


/// A copy of a list of strings.
pub fn copy_strings(items: &Vec<String>) -> (r: Vec<String>)
    ensures
        views(r@) == views(items@),
{
    let mut out: Vec<String> = Vec::new();
    let mut i: usize = 0;
    while i < items.len()
        invariant
            i <= items.len(),
            out@.len() == i,
            forall|j: int| 0 <= j < i ==> (#[trigger] out@[j])@ == items@[j]@,
        decreases items.len() - i,
    {
        out.push(items[i].clone());
        i = i + 1;
    }
    assert(views(out@) =~= views(items@));
    out
}

impl FunctionDeclaration {
    /// Checks the declaration: the name must be new. The function gets the
    /// next free id and becomes visible; its body is checked when the
    /// function is called.
    pub fn checked(&self, meta: &mut ParserMetadata) -> (r: Result<FunctionDeclaration, Failure>)
        requires
            crate::utils::metadata::parser::fit_for_checking(*old(meta)),
        ensures
            ({
                let step = crate::modules::typing::declaration_checked(self.model(), old(meta)@);
                &&& final(meta).wf()
                &&& final(meta).tokens == old(meta).tokens
                &&& final(meta)@ == step.1
                &&& crate::modules::typing::typing_wf(final(meta)@)
                &&& match r {
                    Ok(node) => step.0 == Ok::<DeclarationV, FailureV>(node.model()),
                    Err(failure) => step.0 == Err::<DeclarationV, FailureV>(failure@),
                }
            }),
    {
        let count = meta.fun_decls.len();
        if meta.find_fun_among(self.name.as_str(), count).is_some() {
            let mut message = String::from_str("Function '");
            message.append(self.name.as_str());
            message.append("' is already declared");
            return Err(crate::utils::metadata::parser::fault(message.as_str()));
        }
        if meta.visible != count || count >= usize::MAX {
            return Err(
                crate::utils::metadata::parser::fault(
                    "Functions can only be declared at the top of a file",
                ),
            );
        }
        let id = count;
        let interface = FunctionInterface {
            id: Some(id),
            name: self.name.clone(),
            arg_names: copy_strings(&self.arg_names),
            arg_types: crate::modules::types::copy_types(&self.arg_types),
            arg_refs: crate::modules::function::invocation::copy_flags(&self.arg_refs),
            returns: self.returns.clone(),
            is_public: self.is_public,
        };
        let decl = interface.to_fun_declaration(id);
        let ghost before = meta@;
        meta.fun_decls.push(decl);
        meta.fun_starts.push(self.body_start);
        meta.fun_cache.add_declaration();
        meta.visible = id + 1;
        assert(ParserMetadata::decl_models(meta.fun_decls@) =~= before.fun_decls.push(decl@));
        Ok(
            FunctionDeclaration {
                name: self.name.clone(),
                arg_names: copy_strings(&self.arg_names),
                arg_types: crate::modules::types::copy_types(&self.arg_types),
                arg_refs: crate::modules::function::invocation::copy_flags(&self.arg_refs),
                returns: self.returns.clone(),
                is_public: self.is_public,
                body: Block::new(),
                body_start: self.body_start,
                id,
            },
        )
    }
}


/// The global id of the parameter at position `i`.
fn param_id(first: usize, i: usize) -> (r: usize)
    ensures
        r == lowering::param_id(first, i as int),
{
    if i <= usize::MAX - first {
        first + i
    } else {
        usize::MAX
    }
}

/// The value that the shell hands to the parameter at position `i`.
fn param_value(kind: &Type, i: usize) -> (r: FragmentKind)
    requires
        i < usize::MAX,
    ensures
        r@ == lowering::param_value(*kind, i as int),
{
    let number = crate::text::number_text(i + 1);
    if kind.is_array() {
        RawFragment::from(crate::text::concat3("\"${!", number.as_str(), "}\"")).to_frag()
    } else {
        RawFragment::from(crate::text::concat2("$", number.as_str())).to_frag()
    }
}

impl FunctionDeclaration {
    /// The definition of the variant `instance` of this function as shell
    /// text: the name of the variant, and between braces the binding of
    /// the parameters and the statements of the body.
    pub fn translate_variant(&self, instance: &FunctionInstance, meta: &mut TranslateMetadata) -> (r:
        String)
        ensures
            ({
                let text = lowering::variant_text(
                    self.name@,
                    views(self.arg_names@),
                    self.arg_refs@,
                    self.id,
                    instance@,
                    old(meta)@,
                );
                &&& r@ == text.0
                &&& final(meta)@ == text.1
            }),
            same_setting(*old(meta), *final(meta)),
    {
        let ghost names = views(self.arg_names@);
        let ghost outer_models = meta@.queue;
        let ghost start = meta@;
        let mut outer: VecDeque<FragmentKind> = VecDeque::new();
        std::mem::swap(&mut meta.stmt_queue, &mut outer);
        let mut fun = Some(
            FunctionMetadata {
                name: self.name.clone(),
                id: self.id,
                variant_id: instance.variant_id,
                returns: instance.returns.clone(),
            },
        );
        std::mem::swap(&mut meta.fun_meta, &mut fun);
        assert(meta@.queue =~= Seq::<FragmentV>::empty());
        assert(meta@ == lowering::inside(start, self.name@, self.id, instance@));
        let mut statements = no_frags();
        let mut i: usize = 0;
        while i < self.arg_names.len() && i < instance.args.len()
            invariant
                names == views(self.arg_names@),
                i <= self.arg_names.len(),
                lowering::params_bound(names, self.arg_refs@, instance@, 0, Seq::empty())
                    == lowering::params_bound(
                    names,
                    self.arg_refs@,
                    instance@,
                    i as int,
                    FragmentKind::models_of(statements),
                ),
            decreases self.arg_names.len() - i,
        {
            assert(names[i as int] == self.arg_names@[i as int]@);
            let id = param_id(instance.first_var_id, i);
            let binding = if i < self.arg_refs.len() && self.arg_refs[i] {
                let mut text = String::from_str("declare -n ");
                let name = crate::translate::fragments::model::variable_name(
                    self.arg_names[i].as_str(),
                    Some(id),
                    Some(instance.variant_id),
                );
                text.append(name.as_str());
                text.append("=$");
                let number = crate::text::number_text(i + 1);
                text.append(number.as_str());
                RawFragment::from(text).to_frag()
            } else {
                VarStmtFragment::new(
                    self.arg_names[i].as_str(),
                    instance.args[i].clone(),
                    param_value(&instance.args[i], i),
                ).with_global_id(Some(id)).to_frag()
            };
            push_frag(&mut statements, binding);
            i = i + 1;
        }
        Block::translate_all(&instance.block.statements, meta, &mut statements);
        let ghost inner = meta@;
        std::mem::swap(&mut meta.fun_meta, &mut fun);
        std::mem::swap(&mut meta.stmt_queue, &mut outer);
        assert(meta@ == (TranslateV { queue: start.queue, fun: start.fun, ..inner }));
        let block = BlockFragment::new(statements, true).with_braces(true);
        let context = RenderContext {
            indent: 0,
            eval_ctx: meta.eval_ctx,
            variant: Some(instance.variant_id),
        };
        let body = block.render(context);
        let name = crate::modules::function::invocation::function_name(
            self.name.as_str(),
            self.id,
            instance.variant_id,
        );
        crate::text::concat3(name.as_str(), "() ", body.as_str())
    }

    /// The definitions of the variants of this function that `cache`
    /// holds, in the order of their ids, added to `out`.
    pub fn translate_variants(
        &self,
        cache: &FunctionCache,
        meta: &mut TranslateMetadata,
        out: &mut Vec<FragmentKind>,
    )
        requires
            self.id < cache@.len(),
        ensures
            same_setting(*old(meta), *final(meta)),
            (FragmentKind::models_of(*final(out)), final(meta)@) == lowering::variants_translated(
                self.name@,
                views(self.arg_names@),
                self.arg_refs@,
                self.id,
                cache@[self.id as int],
                old(meta)@,
                0,
                FragmentKind::models_of(*old(out)),
            ),
    {
        let ghost names = views(self.arg_names@);
        let ghost instances = cache@[self.id as int];
        let ghost goal = lowering::variants_translated(
            self.name@,
            names,
            self.arg_refs@,
            self.id,
            instances,
            meta@,
            0,
            FragmentKind::models_of(*out),
        );
        assert(cache@.len() == cache.funs@.len());
        let variants = &cache.funs[self.id];
        assert(instances == FunctionCache::variants(*variants));
        let mut i: usize = 0;
        while i < variants.len()
            invariant
                i <= variants.len(),
                names == views(self.arg_names@),
                instances == FunctionCache::variants(*variants),
                same_setting(*old(meta), *meta),
                goal == lowering::variants_translated(
                    self.name@,
                    names,
                    self.arg_refs@,
                    self.id,
                    instances,
                    old(meta)@,
                    0,
                    FragmentKind::models_of(*old(out)),
                ),
                goal == lowering::variants_translated(
                    self.name@,
                    names,
                    self.arg_refs@,
                    self.id,
                    instances,
                    meta@,
                    i as int,
                    FragmentKind::models_of(*out),
                ),
            decreases variants.len() - i,
        {
            assert(instances[i as int] == variants@[i as int]@);
            let text = self.translate_variant(&variants[i], meta);
            push_frag(out, RawFragment::from(text).to_frag());
            i = i + 1;
        }
    }
}

} // verus!
