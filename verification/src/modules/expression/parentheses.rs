//! An expression between round brackets.

use crate::modules::expression::expr::Expr;
use crate::modules::grammar;
use crate::utils::metadata::parser::ParserMetadata;
use crate::utils::metadata::parser::SyntaxResult;
use crate::utils::metadata::parser::parsed_as;
use crate::utils::metadata::parser::token;
use vstd::prelude::*;

verus! {

/// An expression between round brackets.
#[derive(Debug, PartialEq, Eq)]
pub struct Parentheses {
    pub value: Box<Expr>,
}

impl Parentheses {
    /// A node that was not parsed yet.
    pub fn new() -> (r: Self)
        ensures
            r.value.model() == crate::modules::model::no_expr(),
    {
        Parentheses { value: Box::new(Expr::new()) }
    }
}


impl Parentheses {
    /// Parses an expression between round brackets.
    pub fn parse(&mut self, meta: &mut ParserMetadata) -> (r: SyntaxResult)
        requires
            old(meta).wf(),
        ensures
            parsed_as(
                *old(meta),
                *final(meta),
                r,
                final(self).value.model(),
                grammar::parentheses_parsed(old(meta).words(), old(meta)@),
            ),
            r is Ok ==> final(meta).index > old(meta).index,
        decreases grammar::remaining(old(meta).words(), old(meta)@), 80nat,
    {
        reveal(grammar::parentheses_parsed);
        match token(meta, "(") {
            Ok(_) => {},
            Err(failure) => {
                return Err(failure);
            },
        }
        let start = meta.mark();
        let mut inner = Expr::new();
        match inner.parse(meta) {
            Ok(()) => {},
            Err(failure) => {
                meta.rewind(&start);
                return Err(failure);
            },
        }
        match token(meta, ")") {
            Ok(_) => {},
            Err(failure) => {
                return Err(failure);
            },
        }
        self.value = Box::new(inner);
        Ok(())
    }
}

} // verus!
