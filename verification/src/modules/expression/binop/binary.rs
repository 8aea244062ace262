//! The operators with two operands that have no node of their own.

use crate::modules::expression::binop::BinaryOperator;
use crate::modules::expression::binop::Level;
use crate::modules::expression::binop::typecheck_binary;
use crate::modules::expression::expr::Expr;
use crate::modules::grammar;
use crate::modules::model::ExprTypeV;
use crate::modules::model::ExprV;
use crate::modules::model::FailureV;
use crate::modules::typing;
use crate::translate::fragments::fragment::FragmentKind;
use crate::translate::lowering;
use crate::utils::metadata::parser::Failure;
use crate::utils::metadata::parser::ParserMetadata;
use crate::utils::metadata::parser::SyntaxResult;
use crate::utils::metadata::parser::checked_to;
use crate::utils::metadata::parser::fit_for_checking;
use crate::utils::metadata::parser::parsed_as;
use crate::utils::metadata::parser::token;
use crate::utils::metadata::translate::TranslateMetadata;
use crate::utils::metadata::translate::same_setting;
use vstd::prelude::*;

verus! {

/// `left op right` for one of the operators `or`, `and`, `<`, `<=`, `==`,
/// `!=`, `-`, `*`, `/` and `%`.
#[derive(Debug, PartialEq, Eq)]
pub struct Binary {
    pub op: BinaryOperator,
    pub left: Box<Expr>,
    pub right: Box<Expr>,
}

impl Binary {
    /// A node for the operator `op` that was not parsed yet.
    pub fn new(op: BinaryOperator) -> (r: Self)
        ensures
            r.op == op,
    {
        Binary { op, left: Box::new(Expr::new()), right: Box::new(Expr::new()) }
    }

    /// Parses `left op right` for the operator of this node: the left side
    /// is what binds tighter than the operator, the right side what binds
    /// as tight as the operator.
    pub fn parse(&mut self, meta: &mut ParserMetadata) -> (r: SyntaxResult)
        requires
            old(meta).wf(),
        ensures
            parsed_as(
                *old(meta),
                *final(meta),
                r,
                (final(self).left.model(), final(self).right.model()),
                grammar::binary_parsed(old(meta).words(), old(meta)@, old(self).op),
            ),
            final(self).op == old(self).op,
            r is Ok ==> final(meta).index > old(meta).index,
    {
        let op = self.op;
        let level = op.level_of();
        let start = meta.mark();
        let mut left = Expr::new();
        let outcome = match level {
            Level::Or => left.parse_and(meta),
            Level::And => left.parse_not(meta),
            Level::Comparison => left.parse_additive(meta),
            Level::Additive => left.parse_multiplicative(meta),
            Level::Multiplicative => left.parse_unary(meta),
        };
        match outcome {
            Ok(()) => {},
            Err(failure) => {
                meta.rewind(&start);
                return Err(failure);
            },
        }
        match token(meta, op.as_str()) {
            Ok(_) => {},
            Err(failure) => {
                return Err(failure);
            },
        }
        let middle = meta.mark();
        let mut right = Expr::new();
        match right.parse_chain(meta, level) {
            Ok(()) => {},
            Err(failure) => {
                meta.rewind(&middle);
                return Err(failure);
            },
        }
        self.left = Box::new(left);
        self.right = Box::new(right);
        Ok(())
    }

    /// Checks the two operands: their types must fit the operator. `node`
    /// is the view of this operator as a node.
    pub fn checked(&self, meta: &mut ParserMetadata, Ghost(node): Ghost<ExprTypeV>) -> (r: Result<
        Binary,
        Failure,
    >)
        requires
            fit_for_checking(*old(meta)),
            node == (ExprTypeV::Binary {
                op: self.op,
                left: Box::new(self.left.model()),
                right: Box::new(self.right.model()),
            }),
        ensures
            ({
                let step = typing::operands_checked(
                    old(meta).words(),
                    node,
                    old(meta)@,
                    self.op.word(),
                );
                &&& checked_to(*old(meta), *final(meta), step.1)
                &&& match r {
                    Ok(found) => step.0 == Ok::<(ExprV, ExprV), FailureV>(
                        (found.left.model(), found.right.model()),
                    ) && found.op == self.op,
                    Err(failure) => step.0 == Err::<(ExprV, ExprV), FailureV>(failure@),
                }
            }),
        decreases typing::rank(old(meta)@), self, 0nat,
    {
        reveal(typing::operands_checked);
        reveal(typing::expr_checked);
        let left = match self.left.checked(meta) {
            Ok(found) => found,
            Err(failure) => {
                return Err(failure);
            },
        };
        let right = match self.right.checked(meta) {
            Ok(found) => found,
            Err(failure) => {
                return Err(failure);
            },
        };
        match typecheck_binary(self.op, &left.kind, &right.kind) {
            Ok(_) => Ok(Binary { op: self.op, left: Box::new(left), right: Box::new(right) }),
            Err(failure) => Err(failure),
        }
    }

    /// Translates the operator: both operands are translated, and combined
    /// in the way that fits the operator and the types of the operands.
    pub fn translate(&self, meta: &mut TranslateMetadata) -> (r: FragmentKind)
        ensures
            same_setting(*old(meta), *final(meta)),
            ({
                let l = lowering::expr_translated(self.left.model(), old(meta)@);
                let r2 = lowering::expr_translated(self.right.model(), l.1);
                &&& final(meta)@ == r2.1
                &&& r@ == lowering::binary(self.op, self.left.kind, self.right.kind, l.0, r2.0)
            }),
        decreases self, 0nat,
    {
        let left = self.left.translate(meta);
        let right = self.right.translate(meta);
        crate::translate::compute::translate_binary(
            meta,
            self.op,
            &self.left.kind,
            &self.right.kind,
            left,
            right,
        )
    }
}

} // verus!
