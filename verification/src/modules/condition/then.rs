//! The handler of both outcomes of a command.

use crate::modules::block::Block;
use crate::modules::grammar;
use crate::modules::model::BlockV;
use crate::modules::model::FailureV;
use crate::modules::model::HandlerV;
use crate::modules::model::PositionInfo;
use crate::modules::model::Step;
use crate::modules::types::Type;
use crate::modules::typing;
use crate::translate::fragments::block::BlockFragment;
use crate::translate::fragments::fragment::FragmentKind;
use crate::translate::fragments::fragment::frags1;
use crate::translate::fragments::fragment::frags2;
use crate::translate::fragments::fragment::frags3;
use crate::translate::fragments::fragment::list_of;
use crate::translate::fragments::fragment::raw;
use crate::translate::fragments::model::FragmentV;
use crate::translate::fragments::raw::RawFragment;
use crate::translate::fragments::var_expr::VarExprFragment;
use crate::translate::fragments::var_stmt::VarStmtFragment;
use crate::translate::lowering;
use crate::utils::metadata::parser::Failure;
use crate::utils::metadata::parser::Message;
use crate::utils::metadata::parser::ParserMetadata;
use crate::utils::metadata::parser::SyntaxResult;
use crate::utils::metadata::parser::at_word;
use crate::utils::metadata::parser::checked_to;
use crate::utils::metadata::parser::commit;
use crate::utils::metadata::parser::fit_for_checking;
use crate::utils::metadata::parser::parsed_as;
use crate::utils::metadata::parser::token;
use crate::utils::metadata::parser::variable;
use crate::utils::metadata::translate::TranslateMetadata;
use crate::utils::metadata::translate::same_setting;
use vstd::prelude::*;

verus! {

/// The block after `exited` (or `then`): it runs whatever the exit status of the command is, and binds the status to its parameter.
#[derive(Debug, PartialEq, Eq)]
pub struct Then {
    pub is_parsed: bool,
    pub block: Box<Block>,
    pub param_name: String,
    pub param_global_id: Option<usize>,
}

impl Then {
    /// The view of the handler.
    pub open spec fn model(self) -> HandlerV
        decreases self,
    {
        HandlerV {
            is_parsed: self.is_parsed,
            is_question_mark: false,
            block: self.block.model(),
            param_name: self.param_name@,
            param_global_id: self.param_global_id,
        }
    }

    /// A handler that was not parsed.
    pub fn new() -> (r: Self)
        ensures
            r.model() == crate::modules::model::no_handler(),
    {
        let block = Block::new();
        Then {
            is_parsed: false,
            block: Box::new(block),
            param_name: String::new(),
            param_global_id: None,
        }
    }
}


/// A step of the parser that hands out a handler did what `step` says.
pub open spec fn handler_as(
    before: ParserMetadata,
    after: ParserMetadata,
    r: Result<(String, Block), Failure>,
    step: Step<HandlerV>,
) -> bool {
    &&& after.wf()
    &&& after.tokens == before.tokens
    &&& after.index >= before.index
    &&& crate::utils::metadata::parser::same_tables(before, after)
    &&& after@ == step.1
    &&& match r {
        Ok(found) => step.0 == Ok::<HandlerV, FailureV>(
            HandlerV {
                is_parsed: true,
                is_question_mark: false,
                block: found.1.model(),
                param_name: found.0@,
                param_global_id: None,
            },
        ),
        Err(failure) => step.0 == Err::<HandlerV, FailureV>(failure@),
    }
}

/// Parses the block of a handler whose parameter is `param_name`, and logs
/// a warning if the block is empty.
pub fn parse_handler_block(meta: &mut ParserMetadata, param_name: String, name: &str) -> (r: Result<
    (String, Block),
    Failure,
>)
    requires
        old(meta).wf(),
    ensures
        handler_as(
            *old(meta),
            *final(meta),
            r,
            grammar::handler_block(old(meta).words(), old(meta)@, param_name@, name@),
        ),
    decreases grammar::remaining(old(meta).words(), old(meta)@), 57nat,
{
    reveal(grammar::handler_block);
    reveal(grammar::block_parsed);
    let start = meta.mark();
    let mut block = Block::new();
    match block.parse(meta) {
        Ok(()) => {},
        Err(failure) => {
            meta.rewind(&start);
            return Err(failure);
        },
    }
    if block.is_empty() {
        let mut text = String::from_str("Empty ");
        text.append(name);
        text.append(" block");
        let message = Message::new_warn(meta.here(), text.as_str()).comment(
            "You should use 'trust' modifier to run commands without handling errors",
        );
        meta.add_message(message);
    }
    Ok((param_name, block))
}

/// Parses what follows the keyword of a handler: the parameter between
/// round brackets, which only `required` demands, and the block.
pub fn parse_handler_body(meta: &mut ParserMetadata, required: bool, name: &str) -> (r: Result<
    (String, Block),
    Failure,
>)
    requires
        old(meta).wf(),
    ensures
        handler_as(
            *old(meta),
            *final(meta),
            r,
            grammar::handler_body(old(meta).words(), old(meta)@, required, name@),
        ),
    decreases grammar::remaining(old(meta).words(), old(meta)@), 58nat,
{
    reveal(grammar::handler_body);
    reveal(grammar::handler_block);
    let opened = token(meta, "(").is_ok();
    if !opened && required {
        return Err(meta.quiet());
    }
    if opened {
        let from = meta.get_index();
        if token(meta, ")").is_ok() {
            return Err(
                Failure::error(
                    PositionInfo { from, to: meta.get_index() },
                    "Parameter name cannot be empty",
                    None,
                ),
            );
        }
        let param_name = match variable(meta) {
            Ok(name) => name,
            Err(failure) => {
                return Err(failure);
            },
        };
        match token(meta, ")") {
            Ok(_) => {},
            Err(failure) => {
                return Err(failure);
            },
        }
        parse_handler_block(meta, param_name, name)
    } else {
        parse_handler_block(meta, String::new(), name)
    }
}

impl Then {
    /// Parses `then` or `exited`, the parameter and the block. After the
    /// keyword every failure is loud.
    pub fn parse(&mut self, meta: &mut ParserMetadata) -> (r: SyntaxResult)
        requires
            old(meta).wf(),
        ensures
            parsed_as(
                *old(meta),
                *final(meta),
                r,
                final(self).model(),
                grammar::then_parsed(old(meta).words(), old(meta)@),
            ),
            r is Ok ==> final(meta).index > old(meta).index,
        decreases grammar::remaining(old(meta).words(), old(meta)@), 59nat,
    {
        reveal(grammar::then_parsed);
        reveal(grammar::handler_body);
        if at_word(meta, "then") || at_word(meta, "exited") {
            let _ = meta.take_word();
            match commit(parse_handler_body(meta, true, "then"), "Failed to parse then block") {
                Ok(found) => {
                    self.is_parsed = true;
                    self.param_name = found.0;
                    self.block = Box::new(found.1);
                    self.param_global_id = None;
                    Ok(())
                },
                Err(failure) => Err(failure),
            }
        } else {
            Err(meta.quiet())
        }
    }
}


impl Then {
    /// A copy of the handler without its block.
    fn unchecked(&self) -> (r: Then)
        ensures
            r.model() == (HandlerV { block: BlockV { statements: Seq::empty() }, ..self.model() }),
    {
        let r = Then {
            is_parsed: self.is_parsed,
            block: Box::new(Block::new()),
            param_name: self.param_name.clone(),
            param_global_id: self.param_global_id,
        };
        r
    }

    /// Checks the block of the handler in a scope of its own, in which the
    /// parameter, if there is one, is an `Int`.
    pub fn checked(&self, meta: &mut ParserMetadata) -> (r: Result<Then, Failure>)
        requires
            fit_for_checking(*old(meta)),
        ensures
            ({
                let step = typing::handler_checked(old(meta).words(), self.model(), old(meta)@);
                &&& checked_to(*old(meta), *final(meta), step.1)
                &&& match r {
                    Ok(node) => step.0 == Ok::<HandlerV, FailureV>(node.model()),
                    Err(failure) => step.0 == Err::<HandlerV, FailureV>(failure@),
                }
            }),
        decreases typing::rank(old(meta)@), self, 1nat,
    {
        reveal(typing::handler_checked);
        reveal(typing::block_checked);
        if !self.is_parsed {
            return Ok(self.unchecked());
        }
        meta.push_scope();
        let id = if self.param_name.as_str().unicode_len() > 0 {
            match meta.add_var(self.param_name.as_str(), Type::Int, false) {
                Ok(id) => id,
                Err(failure) => {
                    meta.pop_scope();
                    return Err(failure);
                },
            }
        } else {
            None
        };
        let outcome = self.block.checked(meta);
        meta.pop_scope();
        match outcome {
            Ok(block) => Ok(
                Then {
                    is_parsed: self.is_parsed,
                    block: Box::new(block),
                    param_name: self.param_name.clone(),
                    param_global_id: id,
                },
            ),
            Err(failure) => Err(failure),
        }
    }
}


/// The assignment that keeps the exit status of the last command.
pub fn status_stmt() -> (r: FragmentKind)
    ensures
        r@ == lowering::status_stmt(),
{
    VarStmtFragment::new("__status", Type::Int, raw("$?")).to_frag()
}

/// The reference to the kept exit status.
pub fn status_expr() -> (r: FragmentKind)
    ensures
        r@ == lowering::status_expr(),
{
    VarExprFragment::new("__status", Type::Int).to_frag()
}

/// The assignment of the kept exit status to the parameter `name`.
pub fn param_stmt(name: &str, global_id: Option<usize>) -> (r: FragmentKind)
    ensures
        r@ == (FragmentV::VarStmt {
            name: name@,
            kind: Type::Int,
            value: Box::new(lowering::status_expr()),
            global_id,
            ephemeral: false,
        }),
{
    VarStmtFragment::new(name, Type::Int, status_expr()).with_global_id(global_id).to_frag()
}

/// Whether a translated block holds no statement.
pub fn is_hollow(block: &FragmentKind) -> (r: bool)
    ensures
        r == lowering::is_hollow(block@),
{
    match block {
        FragmentKind::Empty => true,
        FragmentKind::Block(inner) => {
            assert(FragmentKind::models_of(inner.statements).len() == inner.statements@.len());
            inner.statements.len() == 0
        },
        _ => false,
    }
}

/// The line that opens the branch on the kept exit status.
pub fn branch_head(test: &str) -> (r: FragmentKind)
    ensures
        r@ == lowering::branch_head(test@),
{
    let tail = crate::text::concat3(" ", test, " 0 ]; then");
    let pieces = frags3(raw("if [ "), status_expr(), RawFragment::from(tail).to_frag());
    list_of(pieces, false)
}

/// The statements `statements` as a block that does not indent.
pub fn plain_block(statements: Vec<FragmentKind>) -> (r: FragmentKind)
    ensures
        r@ == lowering::plain_block(FragmentKind::models_of(statements)),
{
    BlockFragment::new(statements, false).to_frag()
}

/// The block of a handler that runs if the kept exit status compares to
/// zero as `test` says. The status is bound to the parameter `name` if the
/// name is not empty.
pub fn branch(name: &str, global_id: Option<usize>, test: &str, block: FragmentKind) -> (r:
    FragmentKind)
    ensures
        r@ == lowering::plain_block(
            (if name@.len() > 0 {
                seq![
                    lowering::status_stmt(),
                    FragmentV::VarStmt {
                        name: name@,
                        kind: Type::Int,
                        value: Box::new(lowering::status_expr()),
                        global_id,
                        ephemeral: false,
                    },
                ]
            } else {
                seq![lowering::status_stmt()]
            }) + seq![lowering::branch_head(test@), block@, FragmentV::Raw("fi"@)],
        ),
{
    let mut statements = if name.unicode_len() > 0 {
        frags2(status_stmt(), param_stmt(name, global_id))
    } else {
        frags1(status_stmt())
    };
    crate::translate::fragments::fragment::append_frags(
        &mut statements,
        frags3(branch_head(test), block, raw("fi")),
    );
    plain_block(statements)
}

impl Then {
    /// Translates the handler: nothing if it was not parsed; else the exit
    /// status is kept, and, unless the block is hollow, bound to the
    /// parameter and followed by the block.
    pub fn translate(&self, meta: &mut TranslateMetadata) -> (r: FragmentKind)
        ensures
            same_setting(*old(meta), *final(meta)),
            (r@, final(meta)@) == lowering::exited_translated(self.model(), old(meta)@),
        decreases self, 1nat,
    {
        reveal(lowering::exited_translated);
        reveal(lowering::block_translated);
        if self.is_parsed {
            let block = self.block.translate_block(meta, false);
            if is_hollow(&block) {
                status_stmt()
            } else {
                plain_block(
                    frags3(
                        status_stmt(),
                        param_stmt(self.param_name.as_str(), self.param_global_id),
                        block,
                    ),
                )
            }
        } else {
            FragmentKind::Empty
        }
    }
}

} // verus!
