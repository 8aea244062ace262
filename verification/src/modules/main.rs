//! The `main` block.

use crate::modules::block::Block;
use crate::modules::grammar;
use crate::utils::context::Context;
use crate::utils::metadata::parser::Failure;
use crate::utils::metadata::parser::ParserMetadata;
use crate::utils::metadata::parser::SyntaxResult;
use crate::utils::metadata::parser::commit;
use crate::utils::metadata::parser::parsed_as;
use crate::utils::metadata::parser::token;
use vstd::prelude::*;

verus! {

/// The block that runs when the script is started.
#[derive(Debug, PartialEq, Eq)]
pub struct Main {
    pub block: Block,
}

impl Main {
    /// A block that was not parsed yet.
    pub fn new() -> (r: Self)
        ensures
            r.block.statements@ == Seq::<crate::modules::statement::stmt::Statement>::empty(),
    {
        Main { block: Block::new() }
    }
}


impl Main {
    /// Parses `main` and a block. The main block stands at the top of a
    /// file only; after `main` every failure is loud.
    pub fn parse(&mut self, meta: &mut ParserMetadata) -> (r: SyntaxResult)
        requires
            old(meta).wf(),
        ensures
            parsed_as(
                *old(meta),
                *final(meta),
                r,
                final(self).block.model(),
                grammar::main_parsed(old(meta).words(), old(meta)@),
            ),
            r is Ok ==> final(meta).index > old(meta).index,
        decreases grammar::remaining(old(meta).words(), old(meta)@), 179nat,
    {
        reveal(grammar::main_parsed);
        reveal(grammar::block_parsed);
        let position = meta.here();
        match token(meta, "main") {
            Ok(_) => {},
            Err(failure) => {
                return Err(failure);
            },
        }
        let saved = meta.context;
        if saved.is_fun_ctx || saved.is_main_ctx {
            return Err(
                Failure::error(position, "Main block can only stand at the top of a file", None),
            );
        }
        meta.set_context(
            Context {
                is_loop_ctx: saved.is_loop_ctx,
                is_fun_ctx: saved.is_fun_ctx,
                is_trust_ctx: saved.is_trust_ctx,
                is_main_ctx: true,
            },
        );
        let start = meta.mark();
        let mut block = Block::new();
        let outcome = block.parse(meta);
        if outcome.is_err() {
            meta.rewind(&start);
        }
        meta.set_context(saved);
        match commit(outcome, "Expected a block after 'main'") {
            Ok(()) => {
                self.block = block;
                Ok(())
            },
            Err(failure) => Err(failure),
        }
    }
}

} // verus!
