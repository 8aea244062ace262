//! Array literals.

use crate::modules::expression::expr::Expr;
use crate::modules::grammar;
use crate::modules::model::ExprV;
use crate::modules::model::FailureV;
use crate::modules::types::Type;
use crate::modules::typing;
use crate::utils::metadata::parser::Failure;
use crate::utils::metadata::parser::ParserMetadata;
use crate::utils::metadata::parser::SyntaxResult;
use crate::utils::metadata::parser::checked_to;
use crate::utils::metadata::parser::fault;
use crate::utils::metadata::parser::fit_for_checking;
use crate::utils::metadata::parser::parsed_as;
use crate::utils::metadata::parser::token;
use vstd::prelude::*;

verus! {

/// An array written in the source. `kind` is the type of the array once it
/// is checked.
#[derive(Debug, PartialEq, Eq)]
pub struct Array {
    pub exprs: Vec<Expr>,
    pub kind: Type,
}

impl Array {
    /// A literal that was not parsed yet.
    pub fn new() -> (r: Self)
        ensures
            r.exprs@ == Seq::<Expr>::empty(),
            r.kind == Type::Null,
    {
        Array { exprs: Vec::new(), kind: Type::Null }
    }
}


impl Array {
    /// Parses expressions between square brackets.
    pub fn parse(&mut self, meta: &mut ParserMetadata) -> (r: SyntaxResult)
        requires
            old(meta).wf(),
        ensures
            parsed_as(
                *old(meta),
                *final(meta),
                r,
                Expr::models_of(final(self).exprs),
                grammar::array_parsed(old(meta).words(), old(meta)@),
            ),
            r is Ok ==> final(meta).index > old(meta).index,
            r is Ok ==> final(self).kind == Type::Null,
        decreases grammar::remaining(old(meta).words(), old(meta)@), 80nat,
    {
        reveal(grammar::array_parsed);
        reveal(grammar::items_parsed);
        match token(meta, "[") {
            Ok(_) => {},
            Err(failure) => {
                return Err(failure);
            },
        }
        match Expr::parse_items(meta, "]") {
            Ok(exprs) => {
                self.exprs = exprs;
                self.kind = Type::Null;
                Ok(())
            },
            Err(failure) => Err(failure),
        }
    }
}


/// The type of an array of the checked expressions `exprs`.
pub fn array_kind(exprs: &Vec<Expr>) -> (r: Result<Type, Failure>)
    ensures
        match r {
            Ok(kind) => typing::array_kind(Expr::models_of(*exprs)) == Ok::<Type, FailureV>(kind),
            Err(failure) => typing::array_kind(Expr::models_of(*exprs)) == Err::<Type, FailureV>(
                failure@,
            ),
        },
{
    let ghost all = Expr::models_of(*exprs);
    if exprs.len() == 0 {
        return Ok(Type::array_of(Type::Generic));
    }
    assert(all[0] == exprs[0].model());
    if exprs[0].kind.is_array() {
        return Err(fault("Arrays cannot be nested"));
    }
    let mut i: usize = 0;
    while i < exprs.len()
        invariant
            i <= exprs.len(),
            exprs.len() > 0,
            all == Expr::models_of(*exprs),
            !(all[0].kind is Array),
            forall|j: int| 0 <= j < i ==> (#[trigger] all[j]).kind == all[0].kind,
        decreases exprs.len() - i,
    {
        assert(all[i as int] == exprs[i as int].model());
        assert(all[0] == exprs[0].model());
        if !exprs[i].kind.same_as(&exprs[0].kind) {
            assert(all[i as int].kind != all[0].kind);
            return Err(fault("Expected array values of the same type"));
        }
        i = i + 1;
    }
    Ok(Type::array_of(exprs[0].kind.clone()))
}

impl Array {
    /// Checks the items of the array: all of them must have one type, which
    /// is no array. The array gets the type of arrays of such items.
    pub fn checked(&self, meta: &mut ParserMetadata) -> (r: Result<Array, Failure>)
        requires
            fit_for_checking(*old(meta)),
        ensures
            ({
                let step = typing::list_checked(
                    old(meta).words(),
                    Expr::models_of(self.exprs),
                    old(meta)@,
                    0,
                    Seq::empty(),
                );
                &&& checked_to(*old(meta), *final(meta), step.1)
                &&& match r {
                    Ok(found) => step.0 == Ok::<Seq<ExprV>, FailureV>(Expr::models_of(found.exprs))
                        && typing::array_kind(Expr::models_of(found.exprs)) == Ok::<Type, FailureV>(
                        found.kind,
                    ),
                    Err(failure) => match step.0 {
                        Ok(items) => typing::array_kind(items) == Err::<Type, FailureV>(failure@),
                        Err(other) => other == failure@,
                    },
                }
            }),
        decreases typing::rank(old(meta)@), self, 0nat,
    {
        let exprs = match Expr::checked_all(&self.exprs, meta) {
            Ok(found) => found,
            Err(failure) => {
                return Err(failure);
            },
        };
        match array_kind(&exprs) {
            Ok(kind) => Ok(Array { exprs, kind }),
            Err(failure) => Err(failure),
        }
    }
}

} // verus!
