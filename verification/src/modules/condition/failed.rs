//! The handler of the failure of a command.

use crate::modules::block::Block;
use crate::modules::condition::then::branch;
use crate::modules::condition::then::branch_head;
use crate::modules::condition::then::is_hollow;
use crate::modules::condition::then::parse_handler_body;
use crate::modules::condition::then::plain_block;
use crate::modules::condition::then::status_expr;
use crate::modules::condition::then::status_stmt;
use crate::modules::grammar;
use crate::modules::model::BlockV;
use crate::modules::model::FailureV;
use crate::modules::model::HandlerV;
use crate::modules::types::Type;
use crate::modules::typing;
use crate::translate::fragments::block::BlockFragment;
use crate::translate::fragments::fragment::FragmentKind;
use crate::translate::fragments::fragment::frags1;
use crate::translate::fragments::fragment::frags2;
use crate::translate::fragments::fragment::frags4;
use crate::translate::fragments::fragment::list_of;
use crate::translate::fragments::fragment::raw;
use crate::translate::lowering;
use crate::utils::metadata::parser::Failure;
use crate::utils::metadata::parser::ParserMetadata;
use crate::utils::metadata::parser::SyntaxResult;
use crate::utils::metadata::parser::at_word;
use crate::utils::metadata::parser::checked_to;
use crate::utils::metadata::parser::commit;
use crate::utils::metadata::parser::fit_for_checking;
use crate::utils::metadata::parser::parsed_as;
use crate::utils::metadata::translate::TranslateMetadata;
use crate::utils::metadata::translate::same_setting;
use vstd::prelude::*;

verus! {

/// The block after `failed`, which runs if the command exits with another status than zero; or the mark `?`, which passes the failure on.
#[derive(Debug, PartialEq, Eq)]
pub struct Failed {
    pub is_parsed: bool,
    pub is_question_mark: bool,
    pub block: Box<Block>,
    pub param_name: String,
    pub param_global_id: Option<usize>,
}

impl Failed {
    /// The view of the handler.
    pub open spec fn model(self) -> HandlerV
        decreases self,
    {
        HandlerV {
            is_parsed: self.is_parsed,
            is_question_mark: self.is_question_mark,
            block: self.block.model(),
            param_name: self.param_name@,
            param_global_id: self.param_global_id,
        }
    }

    /// A handler that was not parsed.
    pub fn new() -> (r: Self)
        ensures
            r.model() == crate::modules::model::no_handler(),
    {
        let block = Block::new();
        Failed {
            is_parsed: false,
            is_question_mark: false,
            block: Box::new(block),
            param_name: String::new(),
            param_global_id: None,
        }
    }
}


impl Failed {
    /// Parses `?`, or `failed`, an optional parameter and the block. After
    /// the keyword every failure is loud.
    pub fn parse(&mut self, meta: &mut ParserMetadata) -> (r: SyntaxResult)
        requires
            old(meta).wf(),
        ensures
            parsed_as(
                *old(meta),
                *final(meta),
                r,
                final(self).model(),
                grammar::failed_parsed(old(meta).words(), old(meta)@),
            ),
            r is Ok ==> final(meta).index > old(meta).index,
        decreases grammar::remaining(old(meta).words(), old(meta)@), 59nat,
    {
        reveal(grammar::failed_parsed);
        reveal(grammar::handler_body);
        if at_word(meta, "?") {
            let _ = meta.take_word();
            self.is_parsed = true;
            self.is_question_mark = true;
            self.block = Box::new(Block::new());
            self.param_name = String::new();
            self.param_global_id = None;
            Ok(())
        } else if at_word(meta, "failed") {
            let _ = meta.take_word();
            match commit(parse_handler_body(meta, false, "failed"), "Failed to parse failed block") {
                Ok(found) => {
                    self.is_parsed = true;
                    self.is_question_mark = false;
                    self.param_name = found.0;
                    self.block = Box::new(found.1);
                    self.param_global_id = None;
                    Ok(())
                },
                Err(failure) => Err(failure),
            }
        } else {
            Err(meta.quiet())
        }
    }
}


impl Failed {
    /// A copy of the handler without its block.
    fn unchecked(&self) -> (r: Failed)
        ensures
            r.model() == (HandlerV { block: BlockV { statements: Seq::empty() }, ..self.model() }),
    {
        let r = Failed {
            is_parsed: self.is_parsed,
                    is_question_mark: self.is_question_mark,
            block: Box::new(Block::new()),
            param_name: self.param_name.clone(),
            param_global_id: self.param_global_id,
        };
        r
    }

    /// Checks the block of the handler in a scope of its own, in which the
    /// parameter, if there is one, is an `Int`.
    pub fn checked(&self, meta: &mut ParserMetadata) -> (r: Result<Failed, Failure>)
        requires
            fit_for_checking(*old(meta)),
        ensures
            ({
                let step = typing::handler_checked(old(meta).words(), self.model(), old(meta)@);
                &&& checked_to(*old(meta), *final(meta), step.1)
                &&& match r {
                    Ok(node) => step.0 == Ok::<HandlerV, FailureV>(node.model()),
                    Err(failure) => step.0 == Err::<HandlerV, FailureV>(failure@),
                }
            }),
        decreases typing::rank(old(meta)@), self, 1nat,
    {
        reveal(typing::handler_checked);
        reveal(typing::block_checked);
        if !self.is_parsed || self.is_question_mark {
            return Ok(self.unchecked());
        }
        meta.push_scope();
        let id = if self.param_name.as_str().unicode_len() > 0 {
            match meta.add_var(self.param_name.as_str(), Type::Int, false) {
                Ok(id) => id,
                Err(failure) => {
                    meta.pop_scope();
                    return Err(failure);
                },
            }
        } else {
            None
        };
        let outcome = self.block.checked(meta);
        meta.pop_scope();
        match outcome {
            Ok(block) => Ok(
                Failed {
                    is_parsed: self.is_parsed,
                    is_question_mark: self.is_question_mark,
                    block: Box::new(block),
                    param_name: self.param_name.clone(),
                    param_global_id: id,
                },
            ),
            Err(failure) => Err(failure),
        }
    }
}


impl Failed {
    /// Translates the handler: nothing if it was not parsed. The mark `?`
    /// ends the function, or the script, with the exit status if that is
    /// not zero; a `failed` block runs if the exit status is not zero.
    pub fn translate(&self, meta: &mut TranslateMetadata) -> (r: FragmentKind)
        ensures
            same_setting(*old(meta), *final(meta)),
            (r@, final(meta)@) == lowering::failed_translated(self.model(), old(meta)@),
        decreases self, 1nat,
    {
        reveal(lowering::failed_translated);
        reveal(lowering::block_translated);
        if !self.is_parsed {
            FragmentKind::Empty
        } else if self.is_question_mark {
            let word = if meta.fun_meta.is_some() {
                raw("return ")
            } else {
                raw("exit ")
            };
            let leave = list_of(frags2(word, status_expr()), false);
            plain_block(
                frags4(
                    status_stmt(),
                    branch_head("!="),
                    BlockFragment::new(frags1(leave), true).to_frag(),
                    raw("fi"),
                ),
            )
        } else {
            let block = self.block.translate(meta);
            if is_hollow(&block) {
                status_stmt()
            } else {
                branch(self.param_name.as_str(), self.param_global_id, "!=", block)
            }
        }
    }
}

} // verus!
