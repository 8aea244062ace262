//! The declaration of a variable.

use crate::modules::expression::expr::Expr;
use crate::modules::grammar;
use crate::utils::metadata::parser::ParserMetadata;
use crate::utils::metadata::parser::SyntaxResult;
use crate::utils::metadata::parser::commit;
use crate::utils::metadata::parser::parsed_as;
use crate::utils::metadata::parser::token;
use crate::utils::metadata::parser::variable;
use vstd::prelude::*;

verus! {

/// The statement `let name = expr`. Checking fills in the global id.
#[derive(Debug, PartialEq, Eq)]
pub struct VariableInit {
    pub name: String,
    pub expr: Expr,
    pub global_id: Option<usize>,
}

impl VariableInit {
    /// A statement that was not parsed yet.
    pub fn new() -> (r: Self)
        ensures
            r.name@ == Seq::<char>::empty(),
            r.expr.model() == crate::modules::model::no_expr(),
            r.global_id is None,
    {
        VariableInit { name: String::new(), expr: Expr::new(), global_id: None }
    }
}


impl VariableInit {
    /// Parses what follows `let`: the name, `=`, and the expression.
    fn parse_body(&mut self, meta: &mut ParserMetadata) -> (r: SyntaxResult)
        requires
            old(meta).wf(),
        ensures
            parsed_as(
                *old(meta),
                *final(meta),
                r,
                (final(self).name@, final(self).expr.model()),
                grammar::init_body(old(meta).words(), old(meta)@),
            ),
            r is Ok ==> final(meta).index > old(meta).index,
            r is Ok ==> final(self).global_id is None,
        decreases grammar::remaining(old(meta).words(), old(meta)@), 178nat,
    {
        reveal(grammar::init_body);
        let name = match variable(meta) {
            Ok(name) => name,
            Err(failure) => {
                return Err(failure);
            },
        };
        match token(meta, "=") {
            Ok(_) => {},
            Err(failure) => {
                return Err(failure);
            },
        }
        let start = meta.mark();
        let mut expr = Expr::new();
        match expr.parse(meta) {
            Ok(()) => {},
            Err(failure) => {
                meta.rewind(&start);
                return Err(failure);
            },
        }
        self.name = name;
        self.expr = expr;
        self.global_id = None;
        Ok(())
    }

    /// Parses `let name = expression`. After `let` every failure is loud.
    pub fn parse(&mut self, meta: &mut ParserMetadata) -> (r: SyntaxResult)
        requires
            old(meta).wf(),
        ensures
            parsed_as(
                *old(meta),
                *final(meta),
                r,
                (final(self).name@, final(self).expr.model()),
                grammar::init_parsed(old(meta).words(), old(meta)@),
            ),
            r is Ok ==> final(meta).index > old(meta).index,
            r is Ok ==> final(self).global_id is None,
        decreases grammar::remaining(old(meta).words(), old(meta)@), 179nat,
    {
        reveal(grammar::init_parsed);
        reveal(grammar::init_body);
        match token(meta, "let") {
            Ok(_) => {},
            Err(failure) => {
                return Err(failure);
            },
        }
        commit(self.parse_body(meta), "Expected '<name> = <expression>' after 'let'")
    }
}

} // verus!
