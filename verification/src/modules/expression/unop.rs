//! The operators with one operand.

use crate::modules::expression::binop::UnaryOperator;
use crate::modules::expression::expr::Expr;
use crate::modules::model::ExprV;
use crate::modules::model::FailureV;
use crate::modules::types::Type;
use crate::modules::typing;
use crate::translate::fragments::fragment::FragmentKind;
use crate::translate::lowering;
use crate::utils::metadata::parser::Failure;
use crate::utils::metadata::parser::ParserMetadata;
use crate::utils::metadata::parser::checked_to;
use crate::utils::metadata::parser::fault;
use crate::utils::metadata::parser::fit_for_checking;
use crate::utils::metadata::translate::TranslateMetadata;
use crate::utils::metadata::translate::same_setting;
use vstd::prelude::*;

verus! {

/// `not operand`, or `- operand`.
#[derive(Debug, PartialEq, Eq)]
pub struct Unary {
    pub sign: UnaryOperator,
    pub operand: Box<Expr>,
}

/// The type of the value of `sign operand`.
pub fn typecheck_unary(sign: UnaryOperator, operand: &Type) -> (r: Result<Type, Failure>)
    ensures
        match r {
            Ok(kind) => typing::unary_kind(sign, *operand) == Ok::<Type, FailureV>(kind),
            Err(failure) => typing::unary_kind(sign, *operand) == Err::<Type, FailureV>(failure@),
        },
{
    let fits = match sign {
        UnaryOperator::Not => match operand {
            Type::Bool => true,
            _ => false,
        },
        UnaryOperator::Neg => match operand {
            Type::Int => true,
            Type::Num => true,
            _ => false,
        },
    };
    if fits {
        Ok(operand.clone())
    } else {
        let name = operand.to_string();
        let message = crate::text::concat3("Cannot negate a value of type '", name.as_str(), "'");
        Err(fault(message.as_str()))
    }
}

impl Unary {
    /// Checks the operand: `not` takes a `Bool`, and `-` a number. Gives
    /// the checked node and the type of its value.
    pub fn checked(&self, meta: &mut ParserMetadata) -> (r: Result<(Unary, Type), Failure>)
        requires
            fit_for_checking(*old(meta)),
        ensures
            ({
                let step = typing::expr_checked(old(meta).words(), self.operand.model(), old(meta)@);
                &&& checked_to(*old(meta), *final(meta), step.1)
                &&& match r {
                    Ok(found) => step.0 == Ok::<ExprV, FailureV>(found.0.operand.model())
                        && found.0.sign == self.sign && typing::unary_kind(
                        self.sign,
                        found.0.operand.kind,
                    ) == Ok::<Type, FailureV>(found.1),
                    Err(failure) => match step.0 {
                        Ok(operand) => typing::unary_kind(self.sign, operand.kind) == Err::<
                            Type,
                            FailureV,
                        >(failure@),
                        Err(other) => other == failure@,
                    },
                }
            }),
        decreases typing::rank(old(meta)@), self, 0nat,
    {
        let operand = match self.operand.checked(meta) {
            Ok(found) => found,
            Err(failure) => {
                return Err(failure);
            },
        };
        match typecheck_unary(self.sign, &operand.kind) {
            Ok(kind) => Ok((Unary { sign: self.sign, operand: Box::new(operand) }, kind)),
            Err(failure) => Err(failure),
        }
    }

    /// Translates the operator with its operand.
    pub fn translate(&self, meta: &mut TranslateMetadata) -> (r: FragmentKind)
        ensures
            same_setting(*old(meta), *final(meta)),
            ({
                let x = lowering::expr_translated(self.operand.model(), old(meta)@);
                &&& final(meta)@ == x.1
                &&& r@ == lowering::unary(self.sign, self.operand.kind, x.0)
            }),
        decreases self, 0nat,
    {
        let operand = self.operand.translate(meta);
        crate::translate::compute::translate_unary(meta, self.sign, &self.operand.kind, operand)
    }
}

} // verus!
