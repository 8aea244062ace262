//! Operators with two operands.

pub mod add;
pub mod binary;
pub mod ge;
pub mod gt;

use crate::modules::types::Type;
use crate::modules::typing;
use crate::utils::metadata::parser::Failure;
use crate::utils::metadata::parser::fault;
use vstd::prelude::*;

verus! {

/// An operator with two operands that has no node of its own.
#[derive(Debug, Clone, Copy, PartialEq, Eq, Structural)]
pub enum BinaryOperator {
    Or,
    And,
    Lt,
    Le,
    Eq,
    Neq,
    Sub,
    Mul,
    Div,
    Modulo,
}

/// A group of operators with two operands that bind equally tight, from
/// loose to tight.
#[derive(Debug, Clone, Copy, PartialEq, Eq, Structural)]
pub enum Level {
    Or,
    And,
    Comparison,
    Additive,
    Multiplicative,
}

/// An operator with two operands: one of the three that have a node of
/// their own, or another one.
#[derive(Debug, Clone, Copy, PartialEq, Eq, Structural)]
pub enum Joint {
    Add,
    Gt,
    Ge,
    Other(BinaryOperator),
}

impl Level {
    /// The place of the level in the order that makes parsing end.
    pub open spec fn rank(self) -> nat {
        match self {
            Level::Or => 160,
            Level::And => 150,
            Level::Comparison => 130,
            Level::Additive => 120,
            Level::Multiplicative => 110,
        }
    }

    /// The operator of this level that the word `word` stands for, if it
    /// stands for one.
    pub open spec fn joint(self, word: Seq<char>) -> Option<Joint> {
        match self {
            Level::Or => if word == "or"@ {
                Some(Joint::Other(BinaryOperator::Or))
            } else {
                None
            },
            Level::And => if word == "and"@ {
                Some(Joint::Other(BinaryOperator::And))
            } else {
                None
            },
            Level::Comparison => if word == ">="@ {
                Some(Joint::Ge)
            } else if word == ">"@ {
                Some(Joint::Gt)
            } else if word == "<="@ {
                Some(Joint::Other(BinaryOperator::Le))
            } else if word == "<"@ {
                Some(Joint::Other(BinaryOperator::Lt))
            } else if word == "=="@ {
                Some(Joint::Other(BinaryOperator::Eq))
            } else if word == "!="@ {
                Some(Joint::Other(BinaryOperator::Neq))
            } else {
                None
            },
            Level::Additive => if word == "+"@ {
                Some(Joint::Add)
            } else if word == "-"@ {
                Some(Joint::Other(BinaryOperator::Sub))
            } else {
                None
            },
            Level::Multiplicative => if word == "*"@ {
                Some(Joint::Other(BinaryOperator::Mul))
            } else if word == "/"@ {
                Some(Joint::Other(BinaryOperator::Div))
            } else if word == "%"@ {
                Some(Joint::Other(BinaryOperator::Modulo))
            } else {
                None
            },
        }
    }

    /// The operator of this level that `word` stands for, if it stands for
    /// one.
    pub fn joint_of(&self, word: &str) -> (r: Option<Joint>)
        ensures
            r == self.joint(word@),
    {
        match self {
            Level::Or => if word.eq("or") {
                Some(Joint::Other(BinaryOperator::Or))
            } else {
                None
            },
            Level::And => if word.eq("and") {
                Some(Joint::Other(BinaryOperator::And))
            } else {
                None
            },
            Level::Comparison => if word.eq(">=") {
                Some(Joint::Ge)
            } else if word.eq(">") {
                Some(Joint::Gt)
            } else if word.eq("<=") {
                Some(Joint::Other(BinaryOperator::Le))
            } else if word.eq("<") {
                Some(Joint::Other(BinaryOperator::Lt))
            } else if word.eq("==") {
                Some(Joint::Other(BinaryOperator::Eq))
            } else if word.eq("!=") {
                Some(Joint::Other(BinaryOperator::Neq))
            } else {
                None
            },
            Level::Additive => if word.eq("+") {
                Some(Joint::Add)
            } else if word.eq("-") {
                Some(Joint::Other(BinaryOperator::Sub))
            } else {
                None
            },
            Level::Multiplicative => if word.eq("*") {
                Some(Joint::Other(BinaryOperator::Mul))
            } else if word.eq("/") {
                Some(Joint::Other(BinaryOperator::Div))
            } else if word.eq("%") {
                Some(Joint::Other(BinaryOperator::Modulo))
            } else {
                None
            },
        }
    }
}

/// An operator with one operand.
#[derive(Debug, Clone, Copy, PartialEq, Eq, Structural)]
pub enum UnaryOperator {
    Not,
    Neg,
}

impl BinaryOperator {
    /// The operator as the source language writes it.
    pub open spec fn word(self) -> Seq<char> {
        match self {
            BinaryOperator::Or => "or"@,
            BinaryOperator::And => "and"@,
            BinaryOperator::Lt => "<"@,
            BinaryOperator::Le => "<="@,
            BinaryOperator::Eq => "=="@,
            BinaryOperator::Neq => "!="@,
            BinaryOperator::Sub => "-"@,
            BinaryOperator::Mul => "*"@,
            BinaryOperator::Div => "/"@,
            BinaryOperator::Modulo => "%"@,
        }
    }

    /// The operator as the source language writes it.
    pub fn as_str(&self) -> (r: &'static str)
        ensures
            r@ == self.word(),
    {
        match self {
            BinaryOperator::Or => "or",
            BinaryOperator::And => "and",
            BinaryOperator::Lt => "<",
            BinaryOperator::Le => "<=",
            BinaryOperator::Eq => "==",
            BinaryOperator::Neq => "!=",
            BinaryOperator::Sub => "-",
            BinaryOperator::Mul => "*",
            BinaryOperator::Div => "/",
            BinaryOperator::Modulo => "%",
        }
    }

    /// The level of the operator.
    pub open spec fn level(self) -> Level {
        match self {
            BinaryOperator::Or => Level::Or,
            BinaryOperator::And => Level::And,
            BinaryOperator::Lt => Level::Comparison,
            BinaryOperator::Le => Level::Comparison,
            BinaryOperator::Eq => Level::Comparison,
            BinaryOperator::Neq => Level::Comparison,
            BinaryOperator::Sub => Level::Additive,
            BinaryOperator::Mul => Level::Multiplicative,
            BinaryOperator::Div => Level::Multiplicative,
            BinaryOperator::Modulo => Level::Multiplicative,
        }
    }

    /// The level of the operator.
    pub fn level_of(&self) -> (r: Level)
        ensures
            r == self.level(),
    {
        match self {
            BinaryOperator::Or => Level::Or,
            BinaryOperator::And => Level::And,
            BinaryOperator::Lt => Level::Comparison,
            BinaryOperator::Le => Level::Comparison,
            BinaryOperator::Eq => Level::Comparison,
            BinaryOperator::Neq => Level::Comparison,
            BinaryOperator::Sub => Level::Additive,
            BinaryOperator::Mul => Level::Multiplicative,
            BinaryOperator::Div => Level::Multiplicative,
            BinaryOperator::Modulo => Level::Multiplicative,
        }
    }
}

/// Whether a value of this type can be compared and added.
pub fn is_operand(kind: &Type) -> (r: bool)
    ensures
        r == typing::is_operand(*kind),
{
    match kind {
        Type::Num => true,
        Type::Int => true,
        Type::Text => true,
        Type::Array(inner) => match **inner {
            Type::Num => true,
            Type::Int => true,
            Type::Text => true,
            _ => false,
        },
        _ => false,
    }
}

/// The type that both operands of `operator` have. The operands must have
/// the same type, and one that the operator takes: a number, a text, or an
/// array of one of these.
pub fn typecheck_allowed_types(operator: &str, left: &Type, right: &Type) -> (r: Result<
    Type,
    Failure,
>)
    ensures
        match r {
            Ok(kind) => typing::operand_kind(operator@, *left, *right) == Ok::<
                Type,
                crate::modules::model::FailureV,
            >(kind),
            Err(failure) => typing::operand_kind(operator@, *left, *right) == Err::<
                Type,
                crate::modules::model::FailureV,
            >(failure@),
        },
{
    if is_operand(left) && is_operand(right) && left.same_as(right) {
        Ok(left.clone())
    } else {
        Err(operand_failure(operator, left, right))
    }
}

/// The failure for operands that do not fit the operator.
pub fn operand_failure(operator: &str, left: &Type, right: &Type) -> (r: Failure)
    ensures
        r@ == typing::fault(typing::operand_message(operator@, *left, *right)),
{
    let mut message = String::from_str("Cannot perform ");
    message.append(operator);
    message.append(" on value of type '");
    let l = left.to_string();
    message.append(l.as_str());
    message.append("' and value of type '");
    let r = right.to_string();
    message.append(r.as_str());
    message.append("'");
    fault(message.as_str())
}

/// The type of the sum of two values: the type of both if they have the
/// same type and the type can be added, and `Num` for an `Int` and a `Num`.
pub fn typecheck_sum(left: &Type, right: &Type) -> (r: Result<Type, Failure>)
    ensures
        match r {
            Ok(kind) => typing::sum_kind(*left, *right) == Ok::<
                Type,
                crate::modules::model::FailureV,
            >(kind),
            Err(failure) => typing::sum_kind(*left, *right) == Err::<
                Type,
                crate::modules::model::FailureV,
            >(failure@),
        },
{
    let mixed = match (left, right) {
        (Type::Int, Type::Num) => true,
        (Type::Num, Type::Int) => true,
        _ => false,
    };
    if is_operand(left) && left.same_as(right) {
        Ok(left.clone())
    } else if mixed {
        Ok(Type::Num)
    } else {
        Err(operand_failure("addition", left, right))
    }
}

/// The type of the value of `left op right` for an operator without a node
/// of its own, if the operands fit the operator.
pub fn typecheck_binary(op: BinaryOperator, left: &Type, right: &Type) -> (r: Result<
    Type,
    Failure,
>)
    ensures
        match r {
            Ok(kind) => typing::binary_kind(op, *left, *right) == Ok::<
                Type,
                crate::modules::model::FailureV,
            >(kind),
            Err(failure) => typing::binary_kind(op, *left, *right) == Err::<
                Type,
                crate::modules::model::FailureV,
            >(failure@),
        },
{
    let left_bool = match left {
        Type::Bool => true,
        _ => false,
    };
    let right_bool = match right {
        Type::Bool => true,
        _ => false,
    };
    let left_number = match left {
        Type::Int => true,
        Type::Num => true,
        _ => false,
    };
    let right_number = match right {
        Type::Int => true,
        Type::Num => true,
        _ => false,
    };
    let fits = match op {
        BinaryOperator::Or => left_bool && right_bool,
        BinaryOperator::And => left_bool && right_bool,
        BinaryOperator::Lt => is_operand(left) && left.same_as(right),
        BinaryOperator::Le => is_operand(left) && left.same_as(right),
        BinaryOperator::Eq => (is_operand(left) || left_bool) && left.same_as(right),
        BinaryOperator::Neq => (is_operand(left) || left_bool) && left.same_as(right),
        _ => left_number && right_number,
    };
    if fits {
        Ok(
            match op {
                BinaryOperator::Sub => promoted(left, right),
                BinaryOperator::Mul => promoted(left, right),
                BinaryOperator::Div => promoted(left, right),
                BinaryOperator::Modulo => promoted(left, right),
                _ => Type::Bool,
            },
        )
    } else {
        Err(operand_failure(op.as_str(), left, right))
    }
}

/// The type of a sum whose operands have the types `left` and `right`.
pub fn promoted(left: &Type, right: &Type) -> (r: Type)
    ensures
        r == typing::promoted(*left, *right),
{
    match right {
        Type::Num => Type::Num,
        _ => left.clone(),
    }
}

} // verus!
