//! Arithmetic: the operators, and the lowering of computations on numbers
//! with a fraction to a pipeline of `bc` and `sed`.

use crate::modules::expression::binop::BinaryOperator;
use crate::modules::expression::binop::UnaryOperator;
use crate::modules::types::Type;
use crate::text::owned;
use crate::translate::compare::ComparisonOperator;
use crate::translate::fragments::arithmetic::ArithmeticFragment;
use crate::translate::fragments::fragment::FragmentKind;
use crate::translate::fragments::fragment::frags2;
use crate::translate::fragments::fragment::frags5;
use crate::translate::fragments::fragment::list_of;
use crate::translate::fragments::fragment::raw;
use crate::translate::fragments::model::FragmentV;
use crate::translate::fragments::raw::RawFragment;
use crate::translate::fragments::subprocess::SubprocessFragment;
use crate::translate::lowering;
use crate::utils::metadata::translate::TranslateMetadata;
use vstd::prelude::*;

verus! {

/// An operator of shell arithmetic.
#[derive(Debug, Clone, Copy, PartialEq, Eq, Structural)]
pub enum ArithOp {
    Add,
    Sub,
    Mul,
    Div,
    Modulo,
    Neg,
    Gt,
    Ge,
    Lt,
    Le,
    Eq,
    Neq,
    Not,
    And,
    Or,
}

/// How computations on numbers with a fraction are carried out.
#[derive(Debug, Clone, Copy, PartialEq, Eq, Structural)]
pub enum ArithType {
    /// By a pipeline of `bc` and `sed`.
    BcSed,
}

impl ArithOp {
    /// The operator as the shell and `bc` write it.
    pub open spec fn symbol(self) -> Seq<char> {
        match self {
            ArithOp::Add => "+"@,
            ArithOp::Sub => "-"@,
            ArithOp::Mul => "*"@,
            ArithOp::Div => "/"@,
            ArithOp::Modulo => "%"@,
            ArithOp::Neg => "-"@,
            ArithOp::Gt => ">"@,
            ArithOp::Ge => ">="@,
            ArithOp::Lt => "<"@,
            ArithOp::Le => "<="@,
            ArithOp::Eq => "=="@,
            ArithOp::Neq => "!="@,
            ArithOp::Not => "!"@,
            ArithOp::And => "&&"@,
            ArithOp::Or => "||"@,
        }
    }

    /// The operator as the shell and `bc` write it.
    pub fn as_str(&self) -> (r: &'static str)
        ensures
            r@ == self.symbol(),
    {
        match self {
            ArithOp::Add => "+",
            ArithOp::Sub => "-",
            ArithOp::Mul => "*",
            ArithOp::Div => "/",
            ArithOp::Modulo => "%",
            ArithOp::Neg => "-",
            ArithOp::Gt => ">",
            ArithOp::Ge => ">=",
            ArithOp::Lt => "<",
            ArithOp::Le => "<=",
            ArithOp::Eq => "==",
            ArithOp::Neq => "!=",
            ArithOp::Not => "!",
            ArithOp::And => "&&",
            ArithOp::Or => "||",
        }
    }

    /// The operator as the shell and `bc` write it.
    pub fn to_string(&self) -> (r: String)
        ensures
            r@ == self.symbol(),
    {
        owned(self.as_str())
    }
}


/// The fragment that computes `left operator right` with `bc`:
/// `$(echo "LEFT OP RIGHT" | bc -l | sed 's/^\./0./')`, the operands
/// without quotes of their own.
pub fn translate_bc_sed_computation(operator: ArithOp, left: FragmentKind, right: FragmentKind) -> (r:
    FragmentKind)
    ensures
        r@ == lowering::bc_sed(operator, left@, right@),
{
    let sign = crate::text::concat3(" ", operator.as_str(), " ");
    let pieces = frags5(
        raw("echo \""),
        left.with_quotes(false),
        RawFragment::from(sign).to_frag(),
        right.with_quotes(false),
        raw("\" | bc -l | sed 's/^\\./0./'"),
    );
    SubprocessFragment::new(list_of(pieces, false)).to_frag()
}

/// The fragment that computes `left operator right` on numbers with a
/// fraction, in the way that the state asks for. An operand that is left
/// out counts as the empty fragment.
pub fn translate_float_computation(
    meta: &TranslateMetadata,
    operator: ArithOp,
    left: Option<FragmentKind>,
    right: Option<FragmentKind>,
) -> (r: FragmentKind)
    ensures
        r@ == lowering::bc_sed(
            operator,
            match left {
                Some(frag) => frag@,
                None => FragmentV::Empty,
            },
            match right {
                Some(frag) => frag@,
                None => FragmentV::Empty,
            },
        ),
{
    let l = match left {
        Some(frag) => frag,
        None => FragmentKind::Empty,
    };
    let r = match right {
        Some(frag) => frag,
        None => FragmentKind::Empty,
    };
    match meta.arith_module {
        ArithType::BcSed => translate_bc_sed_computation(operator, l, r),
    }
}

/// The fragment for the sum of two values of type `kind`.
pub fn translate_sum(meta: &TranslateMetadata, kind: &Type, left: FragmentKind, right: FragmentKind) -> (r:
    FragmentKind)
    ensures
        r@ == lowering::sum(*kind, left@, right@),
{
    match kind {
        Type::Int => ArithmeticFragment::new(
            left.with_quotes(false),
            ArithOp::Add,
            right.with_quotes(false),
        ).to_frag(),
        Type::Num => translate_float_computation(meta, ArithOp::Add, Some(left), Some(right)),
        Type::Text => list_of(frags2(left, right), false),
        Type::Array(_) => list_of(frags2(left, right), true),
        _ => FragmentKind::Empty,
    }
}


/// The fragment that computes `left op right` on two numbers, one of which
/// has the type `kind`.
pub fn translate_arithmetic(
    meta: &TranslateMetadata,
    op: ArithOp,
    kind: &Type,
    left: FragmentKind,
    right: FragmentKind,
) -> (r: FragmentKind)
    ensures
        r@ == lowering::arithmetic(op, *kind, left@, right@),
{
    match kind {
        Type::Int => ArithmeticFragment::new(
            left.with_quotes(false),
            op,
            right.with_quotes(false),
        ).to_frag(),
        Type::Num => translate_float_computation(meta, op, Some(left), Some(right)),
        _ => FragmentKind::Empty,
    }
}

/// The fragment for `left op right` for an operator without a node of its
/// own.
pub fn translate_binary(
    meta: &TranslateMetadata,
    op: BinaryOperator,
    left_kind: &Type,
    right_kind: &Type,
    left: FragmentKind,
    right: FragmentKind,
) -> (r: FragmentKind)
    ensures
        r@ == lowering::binary(op, *left_kind, *right_kind, left@, right@),
{
    match op {
        BinaryOperator::Or => ArithmeticFragment::new(
            left.with_quotes(false),
            ArithOp::Or,
            right.with_quotes(false),
        ).to_frag(),
        BinaryOperator::And => ArithmeticFragment::new(
            left.with_quotes(false),
            ArithOp::And,
            right.with_quotes(false),
        ).to_frag(),
        BinaryOperator::Lt => crate::translate::compare::translate_comparison(
            meta,
            ComparisonOperator::Lt,
            left_kind,
            left,
            right,
        ),
        BinaryOperator::Le => crate::translate::compare::translate_comparison(
            meta,
            ComparisonOperator::Le,
            left_kind,
            left,
            right,
        ),
        BinaryOperator::Eq => crate::translate::compare::translate_comparison(
            meta,
            ComparisonOperator::Eq,
            left_kind,
            left,
            right,
        ),
        BinaryOperator::Neq => crate::translate::compare::translate_comparison(
            meta,
            ComparisonOperator::Neq,
            left_kind,
            left,
            right,
        ),
        BinaryOperator::Sub => {
            let kind = crate::modules::expression::binop::promoted(left_kind, right_kind);
            translate_arithmetic(meta, ArithOp::Sub, &kind, left, right)
        },
        BinaryOperator::Mul => {
            let kind = crate::modules::expression::binop::promoted(left_kind, right_kind);
            translate_arithmetic(meta, ArithOp::Mul, &kind, left, right)
        },
        BinaryOperator::Div => {
            let kind = crate::modules::expression::binop::promoted(left_kind, right_kind);
            translate_arithmetic(meta, ArithOp::Div, &kind, left, right)
        },
        BinaryOperator::Modulo => {
            let kind = crate::modules::expression::binop::promoted(left_kind, right_kind);
            translate_arithmetic(meta, ArithOp::Modulo, &kind, left, right)
        },
    }
}

/// The fragment for `sign operand`.
pub fn translate_unary(
    meta: &TranslateMetadata,
    sign: UnaryOperator,
    kind: &Type,
    operand: FragmentKind,
) -> (r: FragmentKind)
    ensures
        r@ == lowering::unary(sign, *kind, operand@),
{
    match sign {
        UnaryOperator::Not => ArithmeticFragment::new(
            FragmentKind::Empty,
            ArithOp::Not,
            operand.with_quotes(false),
        ).to_frag(),
        UnaryOperator::Neg => translate_arithmetic(
            meta,
            ArithOp::Neg,
            kind,
            FragmentKind::Empty,
            operand,
        ),
    }
}

} // verus!
