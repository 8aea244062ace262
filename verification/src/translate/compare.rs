//! Comparison: the operators, and the lowering of comparisons of texts.

use crate::modules::types::Type;
use crate::text::owned;
use crate::translate::compute::ArithOp;
use crate::translate::fragments::arithmetic::ArithmeticFragment;
use crate::translate::fragments::fragment::FragmentKind;
use crate::translate::fragments::fragment::frags5;
use crate::translate::fragments::fragment::list_of;
use crate::translate::fragments::fragment::raw;
use crate::translate::fragments::raw::RawFragment;
use crate::translate::fragments::subprocess::SubprocessFragment;
use crate::translate::lowering;
use crate::utils::metadata::translate::TranslateMetadata;
use vstd::prelude::*;

verus! {

/// An operator that compares two values.
#[derive(Debug, Clone, Copy, PartialEq, Eq, Structural)]
pub enum ComparisonOperator {
    Gt,
    Ge,
    Lt,
    Le,
    Eq,
    Neq,
}

impl ComparisonOperator {
    /// The operator as the source language writes it.
    pub open spec fn symbol(self) -> Seq<char> {
        match self {
            ComparisonOperator::Gt => ">"@,
            ComparisonOperator::Ge => ">="@,
            ComparisonOperator::Lt => "<"@,
            ComparisonOperator::Le => "<="@,
            ComparisonOperator::Eq => "=="@,
            ComparisonOperator::Neq => "!="@,
        }
    }

    /// The operator of shell arithmetic that compares in the same way.
    pub open spec fn arith(self) -> ArithOp {
        match self {
            ComparisonOperator::Gt => ArithOp::Gt,
            ComparisonOperator::Ge => ArithOp::Ge,
            ComparisonOperator::Lt => ArithOp::Lt,
            ComparisonOperator::Le => ArithOp::Le,
            ComparisonOperator::Eq => ArithOp::Eq,
            ComparisonOperator::Neq => ArithOp::Neq,
        }
    }

    /// The operator of `[[ ]]` that decides the comparison of two texts, and
    /// whether its answer is to be turned around: the shell has no `>=`
    /// and no `<=` for texts.
    pub open spec fn lexical(self) -> (Seq<char>, bool) {
        match self {
            ComparisonOperator::Gt => (">"@, false),
            ComparisonOperator::Ge => ("<"@, true),
            ComparisonOperator::Lt => ("<"@, false),
            ComparisonOperator::Le => (">"@, true),
            ComparisonOperator::Eq => ("=="@, false),
            ComparisonOperator::Neq => ("=="@, true),
        }
    }

    /// The operator as the source language writes it.
    pub fn to_string(&self) -> (r: String)
        ensures
            r@ == self.symbol(),
    {
        match self {
            ComparisonOperator::Gt => owned(">"),
            ComparisonOperator::Ge => owned(">="),
            ComparisonOperator::Lt => owned("<"),
            ComparisonOperator::Le => owned("<="),
            ComparisonOperator::Eq => owned("=="),
            ComparisonOperator::Neq => owned("!="),
        }
    }

    /// The operator of shell arithmetic that compares in the same way.
    pub fn to_arith_op(&self) -> (r: ArithOp)
        ensures
            r == self.arith(),
    {
        match self {
            ComparisonOperator::Gt => ArithOp::Gt,
            ComparisonOperator::Ge => ArithOp::Ge,
            ComparisonOperator::Lt => ArithOp::Lt,
            ComparisonOperator::Le => ArithOp::Le,
            ComparisonOperator::Eq => ArithOp::Eq,
            ComparisonOperator::Neq => ArithOp::Neq,
        }
    }

    /// The operator of `[[ ]]` that decides the comparison of two texts.
    pub fn lexical_operator(&self) -> (r: &'static str)
        ensures
            r@ == self.lexical().0,
    {
        match self {
            ComparisonOperator::Gt => ">",
            ComparisonOperator::Ge => "<",
            ComparisonOperator::Lt => "<",
            ComparisonOperator::Le => ">",
            ComparisonOperator::Eq => "==",
            ComparisonOperator::Neq => "==",
        }
    }

    /// Whether the answer of the lexical operator is to be turned around.
    pub fn is_negated(&self) -> (r: bool)
        ensures
            r == self.lexical().1,
    {
        match self {
            ComparisonOperator::Ge => true,
            ComparisonOperator::Le => true,
            ComparisonOperator::Neq => true,
            _ => false,
        }
    }
}


/// The fragment that stands for an array when it is compared as a text.
pub fn as_one_word(frag: FragmentKind) -> (r: FragmentKind)
    ensures
        r@ == lowering::as_one_word(frag@),
{
    match frag {
        FragmentKind::VarExpr(expr) => expr.with_array_to_string(true).to_frag(),
        other => other,
    }
}

/// The fragment that compares two texts:
/// `$([[ LEFT OP RIGHT ]] && echo 1 || echo 0)`.
pub fn translate_lexical_comparison(
    operator: ComparisonOperator,
    left: FragmentKind,
    right: FragmentKind,
) -> (r: FragmentKind)
    ensures
        r@ == lowering::lexical(operator, left@, right@),
{
    let sign = crate::text::concat3(" ", operator.lexical_operator(), " ");
    let answer = if operator.is_negated() {
        raw(" ]] && echo 0 || echo 1")
    } else {
        raw(" ]] && echo 1 || echo 0")
    };
    let pieces = frags5(raw("[[ "), left, RawFragment::from(sign).to_frag(), right, answer);
    SubprocessFragment::new(list_of(pieces, false)).to_frag()
}

/// The fragment that compares two arrays as one word each.
pub fn translate_array_lexical_comparison(
    operator: ComparisonOperator,
    left: FragmentKind,
    right: FragmentKind,
) -> (r: FragmentKind)
    ensures
        r@ == lowering::lexical(
            operator,
            lowering::as_one_word(left@),
            lowering::as_one_word(right@),
        ),
{
    translate_lexical_comparison(operator, as_one_word(left), as_one_word(right))
}

/// The fragment for the comparison of two values of type `kind`.
pub fn translate_comparison(
    meta: &TranslateMetadata,
    operator: ComparisonOperator,
    kind: &Type,
    left: FragmentKind,
    right: FragmentKind,
) -> (r: FragmentKind)
    ensures
        r@ == lowering::comparison(operator, *kind, left@, right@),
{
    match kind {
        Type::Int => ArithmeticFragment::new(
            left.with_quotes(false),
            operator.to_arith_op(),
            right.with_quotes(false),
        ).to_frag(),
        Type::Bool => ArithmeticFragment::new(
            left.with_quotes(false),
            operator.to_arith_op(),
            right.with_quotes(false),
        ).to_frag(),
        Type::Num => crate::translate::compute::translate_float_computation(
            meta,
            operator.to_arith_op(),
            Some(left),
            Some(right),
        ),
        Type::Text => translate_lexical_comparison(operator, left, right),
        Type::Array(_) => translate_array_lexical_comparison(operator, left, right),
        _ => FragmentKind::Empty,
    }
}

} // verus!
