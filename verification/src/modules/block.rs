//! Blocks of statements.

use crate::modules::grammar;
use crate::modules::model::BlockV;
use crate::modules::model::FailureV;
use crate::modules::model::StatementV;
use crate::modules::statement::stmt::Statement;
use crate::modules::typing;
use crate::translate::fragments::block::BlockFragment;
use crate::translate::fragments::fragment::FragmentKind;
use crate::translate::fragments::fragment::no_frags;
use crate::translate::fragments::model::FragmentV;
use crate::translate::lowering;
use crate::utils::metadata::parser::Failure;
use crate::utils::metadata::parser::ParserMetadata;
use crate::utils::metadata::parser::SyntaxResult;
use crate::utils::metadata::parser::checked_to;
use crate::utils::metadata::parser::fit_for_checking;
use crate::utils::metadata::parser::parsed_as;
use crate::utils::metadata::parser::token;
use crate::utils::metadata::translate::TranslateMetadata;
use crate::utils::metadata::translate::same_setting;
use std::collections::VecDeque;
use vstd::prelude::*;
use vstd::std_specs::vecdeque::VecDequeAdditionalSpecFns;

verus! {

/// Statements between braces, or the statements of a whole file.
#[derive(Debug, PartialEq, Eq)]
pub struct Block {
    pub statements: Vec<Statement>,
}

impl Block {
    /// The view of the block.
    pub open spec fn model(self) -> BlockV
        decreases self,
    {
        BlockV { statements: Statement::models_of(self.statements) }
    }

    /// The block without statements.
    pub fn new() -> (r: Self)
        ensures
            r.statements@ == Seq::<Statement>::empty(),
            r.model() == (BlockV { statements: Seq::empty() }),
    {
        let r = Block { statements: Vec::new() };
        assert(Statement::models_of(r.statements) =~= Seq::<StatementV>::empty());
        r
    }

    /// Whether the block holds no statement.
    pub fn is_empty(&self) -> (r: bool)
        ensures
            r == (self.model().statements.len() == 0),
    {
        self.statements.len() == 0
    }
}

impl View for Block {
    type V = BlockV;

    open spec fn view(&self) -> BlockV {
        self.model()
    }
}


impl Block {
    /// Parses statements up to the closing brace (`braced`) or the end of
    /// the tokens. Semicolons between statements are skipped; a token that
    /// starts no statement is a loud failure.
    pub fn parse_statements(meta: &mut ParserMetadata, braced: bool) -> (r: Result<
        Vec<Statement>,
        Failure,
    >)
        requires
            old(meta).wf(),
        ensures
            final(meta).wf(),
            final(meta).tokens == old(meta).tokens,
            final(meta).index >= old(meta).index,
            crate::utils::metadata::parser::same_tables(*old(meta), *final(meta)),
            final(meta)@ == grammar::statements_parsed(
                old(meta).words(),
                old(meta)@,
                braced,
                Seq::empty(),
            ).1,
            match r {
                Ok(statements) => grammar::statements_parsed(
                    old(meta).words(),
                    old(meta)@,
                    braced,
                    Seq::empty(),
                ).0 == Ok::<Seq<StatementV>, FailureV>(Statement::models_of(statements)),
                Err(failure) => grammar::statements_parsed(
                    old(meta).words(),
                    old(meta)@,
                    braced,
                    Seq::empty(),
                ).0 == Err::<Seq<StatementV>, FailureV>(failure@),
            },
        decreases grammar::remaining(old(meta).words(), old(meta)@), 190nat,
    {
        reveal(grammar::statements_parsed);
        reveal(grammar::statement_parsed);
        let ghost words = meta.words();
        let ghost goal = grammar::statements_parsed(words, meta@, braced, Seq::empty());
        let mut statements: Vec<Statement> = Vec::new();
        assert(Statement::models_of(statements) =~= Seq::<StatementV>::empty());
        loop
            invariant
                meta.wf(),
                meta.tokens == old(meta).tokens,
                crate::utils::metadata::parser::same_tables(*old(meta), *meta),
                words == old(meta).words(),
                meta.index >= old(meta).index,
                goal == grammar::statements_parsed(words, old(meta)@, braced, Seq::empty()),
                goal == grammar::statements_parsed(
                    words,
                    meta@,
                    braced,
                    Statement::models_of(statements),
                ),
            decreases meta.tokens@.len() - meta.index,
        {
            reveal(grammar::statements_parsed);
            reveal(grammar::statement_parsed);
            let (separator, closer) = match meta.current_word() {
                None => {
                    if braced {
                        return Err(meta.quiet());
                    } else {
                        return Ok(statements);
                    }
                },
                Some(word) => (word.eq(";"), word.eq("}")),
            };
            if separator {
                let _ = meta.take_word();
            } else if braced && closer {
                let _ = meta.take_word();
                return Ok(statements);
            } else {
                let start = meta.mark();
                match Statement::parse(meta) {
                    Ok(statement) => {
                        let ghost before = Statement::models_of(statements);
                        statements.push(statement);
                        assert(Statement::models_of(statements) =~= before.push(statement.model()));
                    },
                    Err(failure) => {
                        meta.rewind(&start);
                        return match failure {
                            Failure::Quiet(position) => Err(
                                Failure::error(position, "Unexpected token", None),
                            ),
                            other => Err(other),
                        };
                    },
                }
            }
        }
    }

    /// Parses statements between braces.
    pub fn parse(&mut self, meta: &mut ParserMetadata) -> (r: SyntaxResult)
        requires
            old(meta).wf(),
        ensures
            parsed_as(
                *old(meta),
                *final(meta),
                r,
                final(self).model(),
                grammar::block_parsed(old(meta).words(), old(meta)@),
            ),
            r is Ok ==> final(meta).index > old(meta).index,
        decreases grammar::remaining(old(meta).words(), old(meta)@), 56nat,
    {
        reveal(grammar::block_parsed);
        reveal(grammar::statements_parsed);
        match token(meta, "{") {
            Ok(_) => {},
            Err(failure) => {
                return Err(failure);
            },
        }
        match Self::parse_statements(meta, true) {
            Ok(statements) => {
                self.statements = statements;
                Ok(())
            },
            Err(failure) => Err(failure),
        }
    }

    /// Parses the statements of a whole file.
    pub fn parse_global(&mut self, meta: &mut ParserMetadata) -> (r: SyntaxResult)
        requires
            old(meta).wf(),
        ensures
            parsed_as(
                *old(meta),
                *final(meta),
                r,
                final(self).model(),
                grammar::global_parsed(old(meta).words(), old(meta)@),
            ),
    {
        reveal(grammar::statements_parsed);
        match Self::parse_statements(meta, false) {
            Ok(statements) => {
                self.statements = statements;
                Ok(())
            },
            Err(failure) => Err(failure),
        }
    }
}


impl Block {
    /// Checks the statements of `items` one after the other.
    pub fn checked_all(items: &Vec<Statement>, meta: &mut ParserMetadata) -> (r: Result<
        Vec<Statement>,
        Failure,
    >)
        requires
            fit_for_checking(*old(meta)),
        ensures
            ({
                let step = typing::statements_checked(
                    old(meta).words(),
                    Statement::models_of(*items),
                    old(meta)@,
                    0,
                    Seq::empty(),
                );
                &&& checked_to(*old(meta), *final(meta), step.1)
                &&& match r {
                    Ok(found) => step.0 == Ok::<Seq<StatementV>, FailureV>(
                        Statement::models_of(found),
                    ),
                    Err(failure) => step.0 == Err::<Seq<StatementV>, FailureV>(failure@),
                }
            }),
        decreases typing::rank(old(meta)@), items, items.len(),
    {
        let ghost words = meta.words();
        let ghost all = Statement::models_of(*items);
        let ghost goal = typing::statements_checked(words, all, meta@, 0, Seq::empty());
        let mut out: Vec<Statement> = Vec::new();
        assert(Statement::models_of(out) =~= Seq::<StatementV>::empty());
        let mut i: usize = 0;
        while i < items.len()
            invariant
                i <= items.len(),
                words == old(meta).words(),
                all == Statement::models_of(*items),
                fit_for_checking(*meta),
                meta.tokens == old(meta).tokens,
                meta.visible == old(meta).visible,
                meta@.scopes.len() == old(meta)@.scopes.len(),
                meta@.fun_decls.len() == old(meta)@.fun_decls.len(),
                goal == typing::statements_checked(words, all, old(meta)@, 0, Seq::empty()),
                goal == typing::statements_checked(
                    words,
                    all,
                    meta@,
                    i as int,
                    Statement::models_of(out),
                ),
            decreases items.len() - i,
        {
            reveal(typing::statements_checked);
            reveal(typing::statement_checked);
            assert(all[i as int] == items[i as int].model());
            match items[i].checked(meta) {
                Ok(found) => {
                    let ghost before = Statement::models_of(out);
                    out.push(found);
                    assert(Statement::models_of(out) =~= before.push(found.model()));
                },
                Err(failure) => {
                    return Err(failure);
                },
            }
            i = i + 1;
        }
        reveal(typing::statements_checked);
        reveal(typing::statement_checked);
        Ok(out)
    }

    /// Checks the statements of the block in a scope of their own.
    pub fn checked(&self, meta: &mut ParserMetadata) -> (r: Result<Block, Failure>)
        requires
            fit_for_checking(*old(meta)),
        ensures
            ({
                let step = typing::block_checked(old(meta).words(), self.model(), old(meta)@);
                &&& checked_to(*old(meta), *final(meta), step.1)
                &&& match r {
                    Ok(node) => step.0 == Ok::<BlockV, FailureV>(node.model()),
                    Err(failure) => step.0 == Err::<BlockV, FailureV>(failure@),
                }
            }),
        decreases typing::rank(old(meta)@), self, 1nat,
    {
        reveal(typing::block_checked);
        reveal(typing::statements_checked);
        meta.push_scope();
        let outcome = Self::checked_all(&self.statements, meta);
        meta.pop_scope();
        match outcome {
            Ok(statements) => Ok(Block { statements }),
            Err(failure) => Err(failure),
        }
    }

    /// Checks the statements of a whole file in the scope of the file.
    /// Functions are declared here, and become visible to what follows.
    pub fn checked_global(&self, meta: &mut ParserMetadata) -> (r: Result<Block, Failure>)
        requires
            fit_for_checking(*old(meta)),
        ensures
            ({
                let step = typing::global_checked(
                    old(meta).words(),
                    self.model().statements,
                    old(meta)@,
                    0,
                    Seq::empty(),
                );
                &&& final(meta).wf()
                &&& final(meta).tokens == old(meta).tokens
                &&& final(meta)@ == step.1
                &&& typing::typing_wf(final(meta)@)
                &&& match r {
                    Ok(found) => step.0 == Ok::<Seq<StatementV>, FailureV>(
                        found.model().statements,
                    ),
                    Err(failure) => step.0 == Err::<Seq<StatementV>, FailureV>(failure@),
                }
            }),
    {
        let ghost words = meta.words();
        let ghost all = Statement::models_of(self.statements);
        let ghost goal = typing::global_checked(words, all, meta@, 0, Seq::empty());
        let mut out: Vec<Statement> = Vec::new();
        assert(Statement::models_of(out) =~= Seq::<StatementV>::empty());
        let mut i: usize = 0;
        while i < self.statements.len()
            invariant
                i <= self.statements.len(),
                words == old(meta).words(),
                all == Statement::models_of(self.statements),
                fit_for_checking(*meta),
                meta.tokens == old(meta).tokens,
                goal == typing::global_checked(words, all, old(meta)@, 0, Seq::empty()),
                goal == typing::global_checked(words, all, meta@, i as int, Statement::models_of(out)),
            decreases self.statements.len() - i,
        {
            assert(all[i as int] == self.statements[i as int].model());
            let outcome = match &self.statements[i] {
                Statement::FunctionDeclaration(decl) => match decl.checked(meta) {
                    Ok(found) => Ok(Statement::FunctionDeclaration(found)),
                    Err(failure) => Err(failure),
                },
                other => other.checked(meta),
            };
            match outcome {
                Ok(found) => {
                    let ghost before = Statement::models_of(out);
                    out.push(found);
                    assert(Statement::models_of(out) =~= before.push(found.model()));
                },
                Err(failure) => {
                    return Err(failure);
                },
            }
            i = i + 1;
        }
        Ok(Block { statements: out })
    }
}


impl Block {
    /// Translates the statements of `items` one after the other into
    /// `out`. After each statement what it queued is emitted in front of
    /// it, and the queue is empty.
    pub fn translate_all(
        items: &Vec<Statement>,
        meta: &mut TranslateMetadata,
        out: &mut Vec<FragmentKind>,
    )
        requires
            old(meta)@.queue.len() == 0,
        ensures
            same_setting(*old(meta), *final(meta)),
            final(meta)@.queue.len() == 0,
            (FragmentKind::models_of(*final(out)), final(meta)@)
                == lowering::statements_translated(
                Statement::models_of(*items),
                old(meta)@,
                0,
                FragmentKind::models_of(*old(out)),
            ),
        decreases items, items.len(),
    {
        let ghost all = Statement::models_of(*items);
        let ghost goal = lowering::statements_translated(
            all,
            meta@,
            0,
            FragmentKind::models_of(*out),
        );
        let mut i: usize = 0;
        while i < items.len()
            invariant
                i <= items.len(),
                all == Statement::models_of(*items),
                same_setting(*old(meta), *meta),
                meta@.queue.len() == 0,
                goal == lowering::statements_translated(
                    all,
                    old(meta)@,
                    0,
                    FragmentKind::models_of(*old(out)),
                ),
                goal == lowering::statements_translated(
                    all,
                    meta@,
                    i as int,
                    FragmentKind::models_of(*out),
                ),
            decreases items.len() - i,
        {
            reveal(lowering::statements_translated);
            reveal(lowering::statement_translated);
            assert(all[i as int] == items[i as int].model());
            items[i].translate_into(meta, out);
            i = i + 1;
        }
        reveal(lowering::statements_translated);
    }

    /// Translates the block. The statements have a queue of their own; when
    /// the block is done, the queue is what it was before.
    pub fn translate(&self, meta: &mut TranslateMetadata) -> (r: FragmentKind)
        ensures
            same_setting(*old(meta), *final(meta)),
            (r@, final(meta)@) == lowering::block_translated(self.model(), old(meta)@, true),
            final(meta)@.queue == old(meta)@.queue,
        decreases self, 2nat,
    {
        self.translate_block(meta, true)
    }

    /// Translates the block to a block of shell code that indents its
    /// statements (`increase_indent`) or leaves them at the level of its
    /// surroundings. The statements have a queue of their own; when the
    /// block is done, the queue is what it was before.
    pub fn translate_block(&self, meta: &mut TranslateMetadata, increase_indent: bool) -> (r:
        FragmentKind)
        ensures
            same_setting(*old(meta), *final(meta)),
            final(meta)@.queue == old(meta)@.queue,
            (r@, final(meta)@) == lowering::block_translated(
                self.model(),
                old(meta)@,
                increase_indent,
            ),
        decreases self, 1nat,
    {
        reveal(lowering::block_translated);
        reveal(lowering::statements_translated);
        let ghost outer_models = meta@.queue;
        let mut outer: VecDeque<FragmentKind> = VecDeque::new();
        std::mem::swap(&mut meta.stmt_queue, &mut outer);
        assert(meta@.queue =~= Seq::<FragmentV>::empty());
        assert(meta@ == old(meta)@.with_queue(Seq::empty()));
        let mut statements = no_frags();
        Self::translate_all(&self.statements, meta, &mut statements);
        let ghost inner = meta@;
        std::mem::swap(&mut meta.stmt_queue, &mut outer);
        assert(meta@ == inner.with_queue(outer_models));
        BlockFragment::new(statements, increase_indent).to_frag()
    }
}

} // verus!
