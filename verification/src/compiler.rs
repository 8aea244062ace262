//! The compiler: from source text to shell text.

use crate::modules::block::Block;
use crate::modules::grammar;
use crate::modules::model::FailureV;
use crate::modules::model::MessageType;
use crate::modules::model::MessageV;
use crate::modules::model::PositionInfo;
use crate::modules::model::StatementV;
use crate::modules::model::loud;
use crate::modules::statement::stmt::Statement;
use crate::modules::typing;
use crate::translate::fragments::block::BlockFragment;
use crate::translate::fragments::fragment::FragmentKind;
use crate::translate::fragments::fragment::no_frags;
use crate::translate::fragments::model::FragmentV;
use crate::translate::lowering;
use crate::utils::function_cache::FunctionCache;
use crate::utils::metadata::parser::Failure;
use crate::utils::metadata::parser::Message;
use crate::utils::metadata::parser::ParserMetadata;
use crate::utils::metadata::parser::Token;
use crate::utils::metadata::parser::token_views;
use crate::utils::metadata::parser::words_in;
use crate::utils::metadata::parser::words_of;
use crate::utils::metadata::translate::CompilerOptions;
use crate::utils::metadata::translate::TranslateMetadata;
use crate::utils::metadata::translate::same_setting;
use vstd::prelude::*;

verus! {

/// A whole file of the source language.
#[derive(Debug, PartialEq, Eq)]
pub struct Program {
    pub block: Block,
}

/// The message that reports `failure` to the user: that of a loud failure,
/// and a syntax error at the place of a quiet one.
pub open spec fn reported(failure: FailureV) -> MessageV {
    match failure {
        FailureV::Loud(message) => message,
        FailureV::Quiet(position) => crate::modules::model::error_message(
            position,
            "Syntax error"@,
            None,
        ),
    }
}

/// The message that reports `failure` to the user.
pub fn report(failure: Failure) -> (r: Message)
    ensures
        r@ == reported(failure@),
{
    match failure {
        Failure::Loud(message) => message,
        Failure::Quiet(position) => Message::new_err(position, "Syntax error"),
    }
}

impl Program {
    /// Translates the file to a block of shell code. The declaration of a
    /// function gives the definitions of the variants that the cache holds
    /// of it; every other statement is translated, with what it queued in
    /// front of it. If the queue is empty at the start, it is empty after
    /// every statement, and so at the end.
    pub fn translate(&self, meta: &mut TranslateMetadata) -> (r: FragmentKind)
        ensures
            same_setting(*old(meta), *final(meta)),
            old(meta)@.queue.len() == 0 ==> final(meta)@.queue.len() == 0,
            ({
                let lowered = lowering::program_translated(
                    self.block.model().statements,
                    old(meta).fun_cache@,
                    old(meta)@,
                    0,
                    Seq::empty(),
                );
                &&& final(meta)@ == lowered.1
                &&& r@ == (FragmentV::Block {
                    statements: lowered.0,
                    increase_indent: true,
                    braces: false,
                })
            }),
    {
        let ghost all = Statement::models_of(self.block.statements);
        let ghost cache_models = meta.fun_cache@;
        let ghost goal = lowering::program_translated(all, cache_models, meta@, 0, Seq::empty());
        let mut cache = FunctionCache::new();
        std::mem::swap(&mut meta.fun_cache, &mut cache);
        let ghost held = *meta;
        let mut out = no_frags();
        let mut i: usize = 0;
        while i < self.block.statements.len()
            invariant
                i <= self.block.statements.len(),
                all == Statement::models_of(self.block.statements),
                cache_models == cache@,
                same_setting(held, *meta),
                old(meta)@.queue.len() == 0 ==> meta@.queue.len() == 0,
                goal == lowering::program_translated(
                    all,
                    cache_models,
                    meta@,
                    i as int,
                    FragmentKind::models_of(out),
                ),
            decreases self.block.statements.len() - i,
        {
            assert(all[i as int] == self.block.statements[i as int].model());
            match &self.block.statements[i] {
                Statement::FunctionDeclaration(decl) => {
                    assert(cache@.len() == cache.funs@.len());
                    if decl.id < cache.funs.len() {
                        proof {
                            lemma_variants_keep_queue(
                                decl.name@,
                                crate::text::views(decl.arg_names@),
                                decl.arg_refs@,
                                decl.id,
                                cache@[decl.id as int],
                                meta@,
                                0,
                                FragmentKind::models_of(out),
                            );
                        }
                        decl.translate_variants(&cache, meta, &mut out);
                    }
                },
                other => {
                    other.translate_into(meta, &mut out);
                },
            }
            i = i + 1;
        }
        std::mem::swap(&mut meta.fun_cache, &mut cache);
        BlockFragment::new(out, true).to_frag()
    }
}

/// The definitions of the variants of a function leave the queue as it
/// was.
pub proof fn lemma_variants_keep_queue(
    name: Seq<char>,
    names: Seq<Seq<char>>,
    refs: Seq<bool>,
    id: usize,
    instances: Seq<crate::modules::model::InstanceV>,
    t: crate::utils::metadata::translate::TranslateV,
    i: int,
    acc: Seq<FragmentV>,
)
    requires
        0 <= i,
    ensures
        lowering::variants_translated(name, names, refs, id, instances, t, i, acc).1.queue
            == t.queue,
    decreases instances.len() - i,
{
    if i < instances.len() {
        let text = lowering::variant_text(name, names, refs, id, instances[i], t);
        lemma_variants_keep_queue(
            name,
            names,
            refs,
            id,
            instances,
            text.1,
            i + 1,
            acc.push(FragmentV::Raw(text.0)),
        );
    }
}


/// The state in which parsing starts.
pub open spec fn parse_start() -> crate::modules::model::MetaV {
    crate::modules::model::MetaV {
        index: 0,
        context: crate::utils::context::Context::top(),
        messages: Seq::empty(),
        scopes: seq![Seq::<crate::utils::context::VariableV>::empty()],
        fun_decls: Seq::empty(),
        fun_starts: Seq::empty(),
        fun_cache: Seq::empty(),
        var_id: 0,
        fun_ret_type: None,
        visible: 0,
    }
}

/// The state in which translation starts.
pub open spec fn translate_start() -> crate::utils::metadata::translate::TranslateV {
    crate::utils::metadata::translate::TranslateV {
        queue: Seq::empty(),
        value_id: 0,
        eval_ctx: false,
        silenced: false,
        sudoed: false,
        indent: -1i64,
        fun: None,
    }
}

/// The shell text for the checked statements `statements` of a file, with
/// the variants `cache` of its functions.
pub open spec fn emitted(
    statements: Seq<StatementV>,
    cache: Seq<Seq<crate::modules::model::InstanceV>>,
) -> Seq<char> {
    (FragmentV::Block {
        statements: lowering::program_translated(
            statements,
            cache,
            translate_start(),
            0,
            Seq::empty(),
        ).0,
        increase_indent: true,
        braces: false,
    }).rendered(
        crate::translate::fragments::model::RenderContext {
            indent: -1i64,
            eval_ctx: false,
            variant: None,
        },
    )
}

/// What the compiler makes of a list of words: the shell text, or the
/// message of the first failure of the parser or of the type checker.
pub open spec fn compiled(words: Seq<Seq<char>>) -> Result<Seq<char>, MessageV> {
    let parsed = grammar::global_parsed(words, parse_start());
    match parsed.0 {
        Err(failure) => Err(reported(failure)),
        Ok(block) => {
            let checked = typing::global_checked(words, block.statements, parsed.1, 0, Seq::empty());
            match checked.0 {
                Err(failure) => Err(reported(failure)),
                Ok(statements) => Ok(emitted(statements, checked.1.fun_cache)),
            }
        },
    }
}

/// What compiling the source text `code` gives: the shell text that its
/// tokens compile to, or the message of the first failure of the lexer, the
/// parser or the type checker.
pub open spec fn compiled_source(code: Seq<char>) -> Result<Seq<char>, MessageV> {
    match crate::rules::source_tokens(code) {
        Ok(tokens) => compiled(words_in(tokens)),
        Err(message) => Err(message),
    }
}

/// The compiler for one piece of source text.
#[derive(Debug)]
pub struct AmberCompiler {
    pub code: String,
    pub path: Option<String>,
    pub options: CompilerOptions,
}

impl AmberCompiler {
    /// The compiler for `code`, which was read from `path` if one is
    /// given.
    pub fn new(code: String, path: Option<String>, options: CompilerOptions) -> (r: Self)
        ensures
            r.code == code,
            r.path == path,
            r.options == options,
    {
        AmberCompiler { code, path, options }
    }

    /// Splits the source text into tokens under the rules of the source
    /// language, and leaves the comments out: the result is
    /// [`crate::rules::source_tokens`] of the text.
    pub fn tokenize(&self) -> (r: Result<Vec<Token>, Message>)
        ensures
            crate::rules::tokens_as(r, crate::rules::source_tokens(self.code@)),
            match r {
                Ok(tokens) => forall|i: int|
                    0 <= i < tokens@.len() ==> !crate::rules::is_comment(
                        (#[trigger] tokens@[i]).word@,
                    ),
                Err(message) => message@.kind == MessageType::Error,
            },
    {
        crate::rules::tokenize(self.code.as_str())
    }

    /// Parses the tokens of a file. Gives the syntax tree and the state of
    /// the parser, or the message of the failure.
    pub fn parse(&self, tokens: Vec<Token>) -> (r: Result<(Program, ParserMetadata), Message>)
        ensures
            ({
                let step = grammar::global_parsed(words_of(tokens@), parse_start());
                match r {
                    Ok(found) => {
                        &&& step.0 == Ok::<crate::modules::model::BlockV, FailureV>(
                            found.0.block.model(),
                        )
                        &&& found.1@ == step.1
                        &&& found.1.tokens == tokens
                        &&& crate::utils::metadata::parser::fit_for_checking(found.1)
                    },
                    Err(message) => step.0 matches Err(failure) && message@ == reported(failure),
                }
            }),
    {
        let path = match &self.path {
            Some(path) => Some(path.clone()),
            None => None,
        };
        let mut meta = ParserMetadata::new(tokens, path);
        let mut block = Block::new();
        match block.parse_global(&mut meta) {
            Ok(()) => Ok((Program { block }, meta)),
            Err(failure) => Err(report(failure)),
        }
    }

    /// Checks a parsed file. Gives the checked syntax tree and the state of
    /// the type checker, which holds the variants of the functions, or the
    /// message of the failure. A state that is not fit for checking is a
    /// failure too.
    pub fn typecheck(&self, program: Program, meta: ParserMetadata) -> (r: Result<
        (Program, ParserMetadata),
        Message,
    >)
        ensures
            !crate::utils::metadata::parser::fit_for_checking(meta) ==> r is Err,
            crate::utils::metadata::parser::fit_for_checking(meta) ==> ({
                let step = typing::global_checked(
                    meta.words(),
                    program.block.model().statements,
                    meta@,
                    0,
                    Seq::empty(),
                );
                match r {
                    Ok(found) => {
                        &&& step.0 == Ok::<Seq<StatementV>, FailureV>(
                            found.0.block.model().statements,
                        )
                        &&& found.1@ == step.1
                        &&& found.1.tokens == meta.tokens
                    },
                    Err(message) => step.0 matches Err(failure) && message@ == reported(failure),
                }
            }),
    {
        let mut meta = meta;
        if !meta.is_fit() {
            return Err(
                Message::new_err(
                    PositionInfo { from: 0, to: 0 },
                    "The state of the parser is not fit for checking",
                ),
            );
        }
        match program.block.checked_global(&mut meta) {
            Ok(block) => Ok((Program { block }, meta)),
            Err(failure) => Err(report(failure)),
        }
    }

    /// Translates a checked file and renders the result: the shell text
    /// without header and footer.
    pub fn translate(&self, program: &Program, meta: ParserMetadata) -> (r: String)
        ensures
            r@ == emitted(program.block.model().statements, meta.fun_cache@),
    {
        let mut state = TranslateMetadata::new(meta, &self.options);
        let fragment = program.translate(&mut state);
        fragment.to_string(&mut state)
    }

    /// Compiles a list of tokens: parses, checks, translates and renders.
    pub fn compile_tokens(&self, tokens: Vec<Token>) -> (r: Result<String, Message>)
        ensures
            match r {
                Ok(text) => compiled(words_of(tokens@)) == Ok::<Seq<char>, MessageV>(text@),
                Err(message) => compiled(words_of(tokens@)) == Err::<Seq<char>, MessageV>(message@),
            },
    {
        let (program, meta) = match self.parse(tokens) {
            Ok(found) => found,
            Err(message) => {
                return Err(message);
            },
        };
        let (program, meta) = match self.typecheck(program, meta) {
            Ok(found) => found,
            Err(message) => {
                return Err(message);
            },
        };
        Ok(self.translate(&program, meta))
    }

    /// Compiles the source text to shell text, without header and footer:
    /// the result is [`compiled_source`] of the text.
    pub fn compile(&self) -> (r: Result<String, Message>)
        ensures
            match r {
                Ok(text) => compiled_source(self.code@) == Ok::<Seq<char>, MessageV>(text@),
                Err(message) => compiled_source(self.code@) == Err::<Seq<char>, MessageV>(message@),
            },
    {
        match self.tokenize() {
            Ok(tokens) => {
                assert(words_of(tokens@) =~= words_in(token_views(tokens@)));
                self.compile_tokens(tokens)
            },
            Err(message) => Err(message),
        }
    }
}

} // verus!
