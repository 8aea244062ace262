//! Whether the left expression is greater than the right one.

use crate::modules::expression::binop::typecheck_allowed_types;
use crate::modules::expression::expr::Expr;
use crate::modules::grammar;
use crate::modules::model::ExprTypeV;
use crate::modules::model::ExprV;
use crate::modules::model::FailureV;
use crate::modules::typing;
use crate::translate::fragments::fragment::FragmentKind;
use crate::translate::lowering;
use crate::utils::metadata::parser::Failure;
use crate::utils::metadata::parser::ParserMetadata;
use crate::utils::metadata::parser::SyntaxResult;
use crate::utils::metadata::parser::checked_to;
use crate::utils::metadata::parser::fit_for_checking;
use crate::utils::metadata::parser::parsed_as;
use crate::utils::metadata::parser::token;
use crate::utils::metadata::translate::TranslateMetadata;
use crate::utils::metadata::translate::same_setting;
use vstd::prelude::*;

verus! {

/// Whether the left expression is greater than the right one.
#[derive(Debug, PartialEq, Eq)]
pub struct Gt {
    pub left: Box<Expr>,
    pub right: Box<Expr>,
}

impl Gt {
    /// A node that was not parsed yet.
    pub fn new() -> (r: Self)
        ensures
            r.left.model() == crate::modules::model::no_expr(),
            r.right.model() == crate::modules::model::no_expr(),
    {
        Gt { left: Box::new(Expr::new()), right: Box::new(Expr::new()) }
    }
}


impl Gt {
    /// Parses `left > right`: a sum, the sign, and a comparison.
    pub fn parse(&mut self, meta: &mut ParserMetadata) -> (r: SyntaxResult)
        requires
            old(meta).wf(),
        ensures
            parsed_as(
                *old(meta),
                *final(meta),
                r,
                (final(self).left.model(), final(self).right.model()),
                grammar::gt_parsed(old(meta).words(), old(meta)@),
            ),
            r is Ok ==> final(meta).index > old(meta).index,
    {
        let start = meta.mark();
        let mut left = Expr::new();
        match left.parse_additive(meta) {
            Ok(()) => {},
            Err(failure) => {
                meta.rewind(&start);
                return Err(failure);
            },
        }
        match token(meta, ">") {
            Ok(_) => {},
            Err(failure) => {
                return Err(failure);
            },
        }
        let middle = meta.mark();
        let mut right = Expr::new();
        match right.parse_comparison(meta) {
            Ok(()) => {},
            Err(failure) => {
                meta.rewind(&middle);
                return Err(failure);
            },
        }
        self.left = Box::new(left);
        self.right = Box::new(right);
        Ok(())
    }
}


impl Gt {
    /// Checks the two operands: they must have the same type, a number, a
    /// text, or an array of one of these. `node` is the view of this
    /// operator as a node.
    pub fn checked(&self, meta: &mut ParserMetadata, Ghost(node): Ghost<ExprTypeV>) -> (r: Result<
        Gt,
        Failure,
    >)
        requires
            fit_for_checking(*old(meta)),
            node == ExprTypeV::Gt(Box::new(self.left.model()), Box::new(self.right.model())),
        ensures
            ({
                let step = typing::operands_checked(
                    old(meta).words(),
                    node,
                    old(meta)@,
                    "comparison"@,
                );
                &&& checked_to(*old(meta), *final(meta), step.1)
                &&& match r {
                    Ok(found) => step.0 == Ok::<(ExprV, ExprV), FailureV>(
                        (found.left.model(), found.right.model()),
                    ),
                    Err(failure) => step.0 == Err::<(ExprV, ExprV), FailureV>(failure@),
                }
            }),
        decreases typing::rank(old(meta)@), self, 0nat,
    {
        reveal(typing::operands_checked);
        reveal(typing::expr_checked);
        let left = match self.left.checked(meta) {
            Ok(found) => found,
            Err(failure) => {
                return Err(failure);
            },
        };
        let right = match self.right.checked(meta) {
            Ok(found) => found,
            Err(failure) => {
                return Err(failure);
            },
        };
        match typecheck_allowed_types("comparison", &left.kind, &right.kind) {
            Ok(_) => Ok(Gt { left: Box::new(left), right: Box::new(right) }),
            Err(failure) => Err(failure),
        }
    }
}


impl Gt {
    /// Translates the operator: both operands are translated, and combined
    /// in the way that fits the type of the left operand.
    pub fn translate(&self, meta: &mut TranslateMetadata) -> (r: FragmentKind)
        ensures
            same_setting(*old(meta), *final(meta)),
            ({
                let l = lowering::expr_translated(self.left.model(), old(meta)@);
                let r2 = lowering::expr_translated(self.right.model(), l.1);
                &&& final(meta)@ == r2.1
                &&& r@ == lowering::comparison(
                    crate::translate::compare::ComparisonOperator::Gt,
                    self.left.kind,
                    l.0,
                    r2.0,
                )
            }),
        decreases self, 0nat,
    {
        let left = self.left.translate(meta);
        let right = self.right.translate(meta);
        crate::translate::compare::translate_comparison(
            meta,
            crate::translate::compare::ComparisonOperator::Gt,
            &self.left.kind,
            left,
            right,
        )
    }
}

} // verus!
