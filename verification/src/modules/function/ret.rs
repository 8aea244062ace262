//! The `return` statement.

use crate::modules::builtin::echo::parse_keyword_expr;
use crate::modules::expression::expr::Expr;
use crate::modules::grammar;
use crate::utils::metadata::parser::Failure;
use crate::utils::metadata::parser::ParserMetadata;
use crate::utils::metadata::parser::SyntaxResult;
use crate::utils::metadata::parser::at_word;
use crate::utils::metadata::parser::parsed_as;
use vstd::prelude::*;

verus! {

/// The statement that ends a function with a value.
#[derive(Debug, PartialEq, Eq)]
pub struct Return {
    pub expr: Expr,
}

impl Return {
    /// A statement that was not parsed yet.
    pub fn new() -> (r: Self)
        ensures
            r.expr.model() == crate::modules::model::no_expr(),
    {
        Return { expr: Expr::new() }
    }
}


impl Return {
    /// Parses `return` and an expression. Outside of a function the
    /// statement is a loud failure.
    pub fn parse(&mut self, meta: &mut ParserMetadata) -> (r: SyntaxResult)
        requires
            old(meta).wf(),
        ensures
            parsed_as(
                *old(meta),
                *final(meta),
                r,
                final(self).expr.model(),
                grammar::return_parsed(old(meta).words(), old(meta)@),
            ),
            r is Ok ==> final(meta).index > old(meta).index,
        decreases grammar::remaining(old(meta).words(), old(meta)@), 179nat,
    {
        reveal(grammar::return_parsed);
        reveal(grammar::keyword_expr_parsed);
        if at_word(meta, "return") && !meta.context.is_fun_ctx {
            let position = meta.here();
            let _ = meta.take_word();
            return Err(Failure::error(position, "Return statement outside of function", None));
        }
        match parse_keyword_expr(meta, "return") {
            Ok(expr) => {
                self.expr = expr;
                Ok(())
            },
            Err(failure) => Err(failure),
        }
    }
}

} // verus!
