//! The `echo` statement.

use crate::modules::expression::expr::Expr;
use crate::modules::grammar;
use crate::modules::model::ExprV;
use crate::modules::model::FailureV;
use crate::modules::model::Step;
use crate::utils::metadata::parser::Failure;
use crate::utils::metadata::parser::ParserMetadata;
use crate::utils::metadata::parser::SyntaxResult;
use crate::utils::metadata::parser::commit;
use crate::utils::metadata::parser::parsed_as;
use crate::utils::metadata::parser::token;
use vstd::prelude::*;

verus! {

/// The statement that prints the value of an expression.
#[derive(Debug, PartialEq, Eq)]
pub struct Echo {
    pub value: Expr,
}

impl Echo {
    /// A statement that was not parsed yet.
    pub fn new() -> (r: Self)
        ensures
            r.value.model() == crate::modules::model::no_expr(),
    {
        Echo { value: Expr::new() }
    }
}


/// A step of the parser that hands out an expression did what `step` says.
pub open spec fn expr_as(
    before: ParserMetadata,
    after: ParserMetadata,
    r: Result<Expr, Failure>,
    step: Step<ExprV>,
) -> bool {
    &&& after.wf()
    &&& after.tokens == before.tokens
    &&& after.index >= before.index
    &&& crate::utils::metadata::parser::same_tables(before, after)
    &&& after@ == step.1
    &&& match r {
        Ok(expr) => step.0 == Ok::<ExprV, FailureV>(expr.model()),
        Err(failure) => step.0 == Err::<ExprV, FailureV>(failure@),
    }
}

/// Parses the word `keyword` and an expression. After the keyword every
/// failure is loud.
pub fn parse_keyword_expr(meta: &mut ParserMetadata, keyword: &str) -> (r: Result<Expr, Failure>)
    requires
        old(meta).wf(),
    ensures
        expr_as(
            *old(meta),
            *final(meta),
            r,
            grammar::keyword_expr_parsed(old(meta).words(), old(meta)@, keyword@),
        ),
        r is Ok ==> final(meta).index > old(meta).index,
    decreases grammar::remaining(old(meta).words(), old(meta)@), 178nat,
{
    reveal(grammar::keyword_expr_parsed);
    match token(meta, keyword) {
        Ok(_) => {},
        Err(failure) => {
            return Err(failure);
        },
    }
    let start = meta.mark();
    let mut expr = Expr::new();
    let outcome = expr.parse(meta);
    let mut message = String::from_str("Expected expression after '");
    message.append(keyword);
    message.append("'");
    match outcome {
        Ok(()) => Ok(expr),
        Err(failure) => {
            meta.rewind(&start);
            commit(Err(failure), message.as_str())
        },
    }
}

impl Echo {
    /// Parses `echo` and an expression.
    pub fn parse(&mut self, meta: &mut ParserMetadata) -> (r: SyntaxResult)
        requires
            old(meta).wf(),
        ensures
            parsed_as(
                *old(meta),
                *final(meta),
                r,
                final(self).value.model(),
                grammar::keyword_expr_parsed(old(meta).words(), old(meta)@, "echo"@),
            ),
            r is Ok ==> final(meta).index > old(meta).index,
        decreases grammar::remaining(old(meta).words(), old(meta)@), 179nat,
    {
        match parse_keyword_expr(meta, "echo") {
            Ok(expr) => {
                self.value = expr;
                Ok(())
            },
            Err(failure) => Err(failure),
        }
    }
}

} // verus!
