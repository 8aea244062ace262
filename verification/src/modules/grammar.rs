//! The grammar of the source language, as functions from a list of words and
//! a parser state to an outcome and the state after it.
//!
//! The parser of each production is proved to compute the function of the
//! same name in this file. A production that calls another one through
//! [`syntax`] puts the cursor back where it was if the other one fails.

use crate::modules::command::modifier::CommandModifier;
use crate::modules::expression::binop::BinaryOperator;
use crate::modules::expression::binop::Joint;
use crate::modules::expression::binop::Level;
use crate::modules::expression::binop::UnaryOperator;
use crate::modules::expression::interpolated_region::InterpolatedRegionType;
use crate::modules::expression::interpolated_region::decoded;
use crate::modules::expression::interpolated_region::escaped_end;
use crate::modules::expression::interpolated_region::simple_region;
use crate::modules::model::BlockV;
use crate::modules::model::CommandV;
use crate::modules::model::DeclarationV;
use crate::modules::model::ExprTypeV;
use crate::modules::model::ExprV;
use crate::modules::model::FailureV;
use crate::modules::model::HandlerV;
use crate::modules::model::InvocationV;
use crate::modules::model::MessageType;
use crate::modules::model::MessageV;
use crate::modules::model::MetaV;
use crate::modules::model::PositionInfo;
use crate::modules::model::StatementV;
use crate::modules::model::Step;
use crate::modules::model::TextPartV;
use crate::modules::model::loud;
use crate::modules::model::no_handler;
use crate::modules::model::position_at;
use crate::modules::types::Type;
use crate::text::alphabetic;
use crate::text::alphanumeric;
use crate::text::ends_with_char;
use crate::text::starts_with_char;
use crate::utils::context::Context;
use vstd::prelude::*;

verus! {

/// The number of words from the cursor on.
pub open spec fn remaining(words: Seq<Seq<char>>, m: MetaV) -> nat {
    if 0 <= m.index <= words.len() {
        (words.len() - m.index) as nat
    } else {
        0
    }
}

/// The cursor of `after` stands behind that of `before`, and not behind the
/// end of the words.
pub open spec fn progressed(words: Seq<Seq<char>>, before: MetaV, after: MetaV) -> bool {
    0 <= before.index < after.index <= words.len()
}

/// The cursor of `after` does not stand before that of `before`, nor behind
/// the end of the words.
pub open spec fn kept(words: Seq<Seq<char>>, before: MetaV, after: MetaV) -> bool {
    0 <= before.index <= after.index <= words.len()
}

/// The word under the cursor, if there is one.
pub open spec fn word_at(words: Seq<Seq<char>>, m: MetaV) -> Option<Seq<char>> {
    if 0 <= m.index < words.len() {
        Some(words[m.index])
    } else {
        None
    }
}

/// Takes the word under the cursor if it is `expected`.
pub open spec fn token(words: Seq<Seq<char>>, m: MetaV, expected: Seq<char>) -> Step<Seq<char>> {
    if word_at(words, m) == Some(expected) {
        (Ok(expected), m.advanced())
    } else {
        (Err(m.quiet()), m)
    }
}

/// Whether `word` can name a variable: it starts with a letter or an
/// underscore, and goes on with letters, digits and underscores.
#[verifier::opaque]
pub open spec fn is_variable_name(word: Seq<char>) -> bool {
    forall|i: int|
        0 <= i < word.len() ==> #[trigger] word[i] == '_' || (if i == 0 {
            alphabetic(word[i])
        } else {
            alphanumeric(word[i])
        })
}

/// Takes the word under the cursor if it can name a variable.
pub open spec fn variable(words: Seq<Seq<char>>, m: MetaV) -> Step<Seq<char>> {
    match word_at(words, m) {
        Some(word) => if is_variable_name(word) {
            (Ok(word), m.advanced())
        } else {
            (Err(m.quiet()), m)
        },
        None => (Err(m.quiet()), m),
    }
}

/// The first `count` of `messages`, or all of them if there are fewer.
pub open spec fn kept_messages(messages: Seq<MessageV>, count: nat) -> Seq<MessageV> {
    if count <= messages.len() {
        messages.take(count as int)
    } else {
        messages
    }
}

/// The state `m` put back to where `start` stood: the cursor of `start`, and
/// as many messages as `start` had.
pub open spec fn rewound(m: MetaV, start: MetaV) -> MetaV {
    MetaV { index: start.index, messages: kept_messages(m.messages, start.messages.len()), ..m }
}

/// The outcome of a production that was tried from the state `start`: on
/// failure the cursor goes back to where it was, and the messages that the
/// attempt logged are dropped.
pub open spec fn syntax<T>(step: Step<T>, start: MetaV) -> Step<T> {
    match step.0 {
        Ok(_) => step,
        Err(_) => (step.0, rewound(step.1, start)),
    }
}

/// The outcome of a production to which the parser has committed: a quiet
/// failure becomes the loud failure `message` at the same place.
pub open spec fn committed<T>(step: Step<T>, message: Seq<char>) -> Step<T> {
    match step.0 {
        Err(FailureV::Quiet(position)) => (Err(loud(position, message, None)), step.1),
        _ => step,
    }
}

/// Whether a step settles the matter: it parsed, or it failed loudly.
pub open spec fn decided<T>(step: Step<T>) -> bool {
    !(step.0 matches Err(FailureV::Quiet(_)))
}

/// The step with another value in place of its result.
pub open spec fn replaced<T, U>(step: Step<T>, value: U) -> Step<U> {
    match step.0 {
        Ok(_) => (Ok(value), step.1),
        Err(failure) => (Err(failure), step.1),
    }
}

/// An expression that was parsed and not checked yet.
pub open spec fn fresh(node: ExprTypeV) -> ExprV {
    ExprV { value: Some(node), kind: Type::Null }
}

/// Whether `word` is a non-empty row of decimal digits.
#[verifier::opaque]
pub open spec fn is_digits(word: Seq<char>) -> bool {
    word.len() > 0 && forall|i: int| 0 <= i < word.len() ==> '0' <= #[trigger] word[i] <= '9'
}

/// A type: one of the five plain names, or a type between square brackets
/// for an array.
pub open spec fn type_parsed(words: Seq<Seq<char>>, m: MetaV) -> Step<Type>
    decreases remaining(words, m),
{
    match word_at(words, m) {
        None => (Err(m.quiet()), m),
        Some(word) => match Type::named(word) {
            Some(kind) => (Ok(kind), m.advanced()),
            None => if word == "["@ {
                let inner = type_parsed(words, m.advanced());
                match inner.0 {
                    Err(failure) => (Err(failure), inner.1),
                    Ok(kind) => replaced(token(words, inner.1, "]"@), Type::Array(Box::new(kind))),
                }
            } else {
                (Err(m.quiet()), m)
            },
        },
    }
}

/// The literal `true` or `false`.
pub open spec fn bool_parsed(words: Seq<Seq<char>>, m: MetaV) -> Step<bool> {
    if word_at(words, m) == Some("true"@) {
        (Ok(true), m.advanced())
    } else if word_at(words, m) == Some("false"@) {
        (Ok(false), m.advanced())
    } else {
        (Err(m.quiet()), m)
    }
}

/// A row of digits.
pub open spec fn integer_parsed(words: Seq<Seq<char>>, m: MetaV) -> Step<Seq<char>> {
    match word_at(words, m) {
        Some(word) => if is_digits(word) {
            (Ok(word), m.advanced())
        } else {
            (Err(m.quiet()), m)
        },
        None => (Err(m.quiet()), m),
    }
}

/// Digits, a dot, and digits.
pub open spec fn number_parsed(words: Seq<Seq<char>>, m: MetaV) -> Step<Seq<char>> {
    let whole = integer_parsed(words, m);
    match whole.0 {
        Err(failure) => (Err(failure), whole.1),
        Ok(a) => {
            let dot = token(words, whole.1, "."@);
            match dot.0 {
                Err(failure) => (Err(failure), dot.1),
                Ok(_) => {
                    let fraction = integer_parsed(words, dot.1);
                    replaced(fraction, a + "."@ + words[dot.1.index])
                },
            }
        },
    }
}

/// The expression that the operator `joint` makes of two operands.
pub open spec fn joined(joint: Joint, left: ExprV, right: ExprV) -> ExprV {
    match joint {
        Joint::Add => fresh(ExprTypeV::Add(Box::new(left), Box::new(right))),
        Joint::Gt => fresh(ExprTypeV::Gt(Box::new(left), Box::new(right))),
        Joint::Ge => fresh(ExprTypeV::Ge(Box::new(left), Box::new(right))),
        Joint::Other(op) => fresh(ExprTypeV::Binary { op, left: Box::new(left), right: Box::new(right) }),
    }
}

/// The operator of the level `level` under the cursor, if one stands there.
pub open spec fn joint_at(words: Seq<Seq<char>>, m: MetaV, level: Level) -> Option<Joint> {
    match word_at(words, m) {
        Some(word) => level.joint(word),
        None => None,
    }
}

/// An operand of the level `level`, and behind it, if an operator of the
/// level follows, the operator and what this production takes: the left
/// side of an operator is what binds tighter than the level, its right
/// side the rest of the row. An operator that no operand follows is left
/// where it stands.
///
/// The levels bind in this order, from loose to tight: `or`; `and`; `not`;
/// the comparisons; `+` and `-`; `*`, `/` and `%`; the sign `-`.
#[verifier::opaque]
pub open spec fn chain_parsed(words: Seq<Seq<char>>, m: MetaV, level: Level) -> Step<ExprV>
    decreases remaining(words, m), level.rank(),
{
    let left = match level {
        Level::Or => chain_parsed(words, m, Level::And),
        Level::And => not_parsed(words, m),
        Level::Comparison => chain_parsed(words, m, Level::Additive),
        Level::Additive => chain_parsed(words, m, Level::Multiplicative),
        Level::Multiplicative => unary_parsed(words, m),
    };
    match left.0 {
        Err(_) => left,
        Ok(l) => match joint_at(words, left.1, level) {
            None => left,
            Some(joint) => if progressed(words, m, left.1.advanced()) {
                let right = syntax(
                    chain_parsed(words, left.1.advanced(), level),
                    left.1.advanced(),
                );
                match right.0 {
                    Ok(r) => (Ok(joined(joint, l, r)), right.1),
                    Err(FailureV::Quiet(_)) => (Ok(l), rewound(right.1, left.1)),
                    Err(failure) => (Err(failure), right.1),
                }
            } else {
                left
            },
        },
    }
}

/// An expression.
pub open spec fn expr_parsed(words: Seq<Seq<char>>, m: MetaV) -> Step<ExprV>
    decreases remaining(words, m), 165nat,
{
    chain_parsed(words, m, Level::Or)
}

/// `left and right`, or what binds tighter.
pub open spec fn and_parsed(words: Seq<Seq<char>>, m: MetaV) -> Step<ExprV> {
    chain_parsed(words, m, Level::And)
}

/// A comparison, or what binds tighter.
pub open spec fn comparison_parsed(words: Seq<Seq<char>>, m: MetaV) -> Step<ExprV> {
    chain_parsed(words, m, Level::Comparison)
}

/// A sum or a difference, or what binds tighter.
pub open spec fn additive_parsed(words: Seq<Seq<char>>, m: MetaV) -> Step<ExprV> {
    chain_parsed(words, m, Level::Additive)
}

/// A product, a quotient or a remainder, or what binds tighter.
pub open spec fn multiplicative_parsed(words: Seq<Seq<char>>, m: MetaV) -> Step<ExprV> {
    chain_parsed(words, m, Level::Multiplicative)
}

/// `not` in front of what this production takes, or a comparison.
#[verifier::opaque]
pub open spec fn not_parsed(words: Seq<Seq<char>>, m: MetaV) -> Step<ExprV>
    decreases remaining(words, m), 140nat,
{
    if word_at(words, m) == Some("not"@) {
        let operand = syntax(not_parsed(words, m.advanced()), m.advanced());
        match operand.0 {
            Ok(inner) => (
                Ok(fresh(ExprTypeV::Unary { sign: UnaryOperator::Not, operand: Box::new(inner) })),
                operand.1,
            ),
            Err(failure) => (Err(failure), operand.1),
        }
    } else {
        chain_parsed(words, m, Level::Comparison)
    }
}

/// The sign `-` in front of what this production takes, or an operand.
#[verifier::opaque]
pub open spec fn unary_parsed(words: Seq<Seq<char>>, m: MetaV) -> Step<ExprV>
    decreases remaining(words, m), 100nat,
{
    if word_at(words, m) == Some("-"@) {
        let operand = syntax(unary_parsed(words, m.advanced()), m.advanced());
        match operand.0 {
            Ok(inner) => (
                Ok(fresh(ExprTypeV::Unary { sign: UnaryOperator::Neg, operand: Box::new(inner) })),
                operand.1,
            ),
            Err(failure) => (Err(failure), operand.1),
        }
    } else {
        primary_parsed(words, m)
    }
}

/// `left op right` for an operator without a node of its own, as a
/// production by itself: the left side is what binds tighter than the
/// operator, the right side what binds as tight as the operator.
pub open spec fn binary_parsed(words: Seq<Seq<char>>, m: MetaV, op: BinaryOperator) -> Step<
    (ExprV, ExprV),
> {
    let left = syntax(
        match op.level() {
            Level::Or => and_parsed(words, m),
            Level::And => not_parsed(words, m),
            Level::Comparison => additive_parsed(words, m),
            Level::Additive => multiplicative_parsed(words, m),
            Level::Multiplicative => unary_parsed(words, m),
        },
        m,
    );
    match left.0 {
        Err(failure) => (Err(failure), left.1),
        Ok(l) => {
            let sign = token(words, left.1, op.word());
            match sign.0 {
                Err(failure) => (Err(failure), sign.1),
                Ok(_) => {
                    let right = syntax(chain_parsed(words, sign.1, op.level()), sign.1);
                    match right.0 {
                        Err(failure) => (Err(failure), right.1),
                        Ok(r) => (Ok((l, r)), right.1),
                    }
                },
            }
        },
    }
}

/// `left >= right`: the left side is a sum or what binds tighter, the right
/// side a comparison.
pub open spec fn ge_parsed(words: Seq<Seq<char>>, m: MetaV) -> Step<(ExprV, ExprV)> {
    let left = syntax(additive_parsed(words, m), m);
    match left.0 {
        Err(failure) => (Err(failure), left.1),
        Ok(l) => {
            let op = token(words, left.1, ">="@);
            match op.0 {
                Err(failure) => (Err(failure), op.1),
                Ok(_) => {
                    let right = syntax(comparison_parsed(words, op.1), op.1);
                    match right.0 {
                        Err(failure) => (Err(failure), right.1),
                        Ok(r) => (Ok((l, r)), right.1),
                    }
                },
            }
        },
    }
}

/// `left > right`: the left side is a sum or what binds tighter, the right
/// side a comparison.
pub open spec fn gt_parsed(words: Seq<Seq<char>>, m: MetaV) -> Step<(ExprV, ExprV)> {
    let left = syntax(additive_parsed(words, m), m);
    match left.0 {
        Err(failure) => (Err(failure), left.1),
        Ok(l) => {
            let op = token(words, left.1, ">"@);
            match op.0 {
                Err(failure) => (Err(failure), op.1),
                Ok(_) => {
                    let right = syntax(comparison_parsed(words, op.1), op.1);
                    match right.0 {
                        Err(failure) => (Err(failure), right.1),
                        Ok(r) => (Ok((l, r)), right.1),
                    }
                },
            }
        },
    }
}

/// `left + right`: the left side is a product or what binds tighter, the
/// right side a sum.
pub open spec fn add_parsed(words: Seq<Seq<char>>, m: MetaV) -> Step<(ExprV, ExprV)> {
    let left = syntax(multiplicative_parsed(words, m), m);
    match left.0 {
        Err(failure) => (Err(failure), left.1),
        Ok(l) => {
            let op = token(words, left.1, "+"@);
            match op.0 {
                Err(failure) => (Err(failure), op.1),
                Ok(_) => {
                    let right = syntax(additive_parsed(words, op.1), op.1);
                    match right.0 {
                        Err(failure) => (Err(failure), right.1),
                        Ok(r) => (Ok((l, r)), right.1),
                    }
                },
            }
        },
    }
}

/// An operand: the first that parses of an expression in round brackets, a
/// truth value, a number, an integer, a text, an array, a command, a call
/// and a variable.
#[verifier::opaque]
pub open spec fn primary_parsed(words: Seq<Seq<char>>, m: MetaV) -> Step<ExprV>
    decreases remaining(words, m), 90nat,
{
    let a = syntax(parentheses_parsed(words, m), m);
    if decided(a) {
        match a.0 {
            Ok(inner) => (Ok(fresh(ExprTypeV::Parentheses(Box::new(inner)))), a.1),
            Err(failure) => (Err(failure), a.1),
        }
    } else {
        let b = syntax(bool_parsed(words, a.1), m);
        if decided(b) {
            match b.0 {
                Ok(value) => (Ok(fresh(ExprTypeV::Bool(value))), b.1),
                Err(failure) => (Err(failure), b.1),
            }
        } else {
            let c = syntax(number_parsed(words, b.1), m);
            if decided(c) {
                match c.0 {
                    Ok(value) => (Ok(fresh(ExprTypeV::Number(value))), c.1),
                    Err(failure) => (Err(failure), c.1),
                }
            } else {
                let d = syntax(integer_parsed(words, c.1), m);
                if decided(d) {
                    match d.0 {
                        Ok(value) => (Ok(fresh(ExprTypeV::Integer(value))), d.1),
                        Err(failure) => (Err(failure), d.1),
                    }
                } else {
                    primary_rest(words, d.1.at(m.index))
                }
            }
        }
    }
}

/// The operands that [`primary_parsed`] tries after the plain literals.
#[verifier::opaque]
pub open spec fn primary_rest(words: Seq<Seq<char>>, m: MetaV) -> Step<ExprV>
    decreases remaining(words, m), 89nat,
{
    let e = syntax(region_parsed(words, m, InterpolatedRegionType::Text), m);
    if decided(e) {
        match e.0 {
            Ok(parts) => (Ok(fresh(ExprTypeV::Text(parts))), e.1),
            Err(failure) => (Err(failure), e.1),
        }
    } else {
        let f = syntax(array_parsed(words, e.1.at(m.index)), m);
        if decided(f) {
            match f.0 {
                Ok(exprs) => (Ok(fresh(ExprTypeV::Array { exprs, kind: Type::Null })), f.1),
                Err(failure) => (Err(failure), f.1),
            }
        } else {
            primary_last(words, f.1.at(m.index))
        }
    }
}

/// The operands that [`primary_rest`] tries last: a command, a call and a
/// variable.
#[verifier::opaque]
pub open spec fn primary_last(words: Seq<Seq<char>>, m: MetaV) -> Step<ExprV>
    decreases remaining(words, m), 88nat,
{
    let g = syntax(command_parsed(words, m), m);
    if decided(g) {
        match g.0 {
            Ok(command) => (Ok(fresh(ExprTypeV::Command(command))), g.1),
            Err(failure) => (Err(failure), g.1),
        }
    } else {
        primary_name(words, g.1.at(m.index))
    }
}

/// The operands that start with a name: a call, and a variable.
#[verifier::opaque]
pub open spec fn primary_name(words: Seq<Seq<char>>, m: MetaV) -> Step<ExprV>
    decreases remaining(words, m), 87nat,
{
    let h = syntax(invocation_parsed(words, m), m);
    if decided(h) {
        match h.0 {
            Ok(call) => (Ok(fresh(ExprTypeV::FunctionInvocation(call))), h.1),
            Err(failure) => (Err(failure), h.1),
        }
    } else {
        let v = variable(words, h.1.at(m.index));
        match v.0 {
            Ok(name) => (
                Ok(
                    fresh(
                        ExprTypeV::VariableGet {
                            name,
                            kind: Type::Null,
                            global_id: None,
                            is_ref: false,
                        },
                    ),
                ),
                v.1,
            ),
            Err(failure) => (Err(failure), v.1),
        }
    }
}

/// An expression between round brackets.
#[verifier::opaque]
pub open spec fn parentheses_parsed(words: Seq<Seq<char>>, m: MetaV) -> Step<ExprV>
    decreases remaining(words, m), 80nat,
{
    let open = token(words, m, "("@);
    match open.0 {
        Err(failure) => (Err(failure), open.1),
        Ok(_) => {
            let inner = syntax(expr_parsed(words, open.1), open.1);
            match inner.0 {
                Err(failure) => (Err(failure), inner.1),
                Ok(expr) => replaced(token(words, inner.1, ")"@), expr),
            }
        },
    }
}

/// The expressions of a list up to the word `closer`, separated by commas;
/// a comma may stand before the closer. `acc` holds the expressions parsed
/// so far.
#[verifier::opaque]
pub open spec fn items_parsed(
    words: Seq<Seq<char>>,
    m: MetaV,
    closer: Seq<char>,
    acc: Seq<ExprV>,
) -> Step<Seq<ExprV>>
    decreases remaining(words, m), 170nat,
{
    let close = token(words, m, closer);
    if close.0 is Ok {
        (Ok(acc), close.1)
    } else {
        let item = syntax(expr_parsed(words, m), m);
        match item.0 {
            Err(failure) => (Err(failure), item.1),
            Ok(expr) => {
                let close = token(words, item.1, closer);
                if close.0 is Ok {
                    (Ok(acc.push(expr)), close.1)
                } else {
                    let comma = token(words, item.1, ","@);
                    match comma.0 {
                        Err(failure) => (Err(failure), comma.1),
                        Ok(_) => if progressed(words, m, comma.1) {
                            items_parsed(words, comma.1, closer, acc.push(expr))
                        } else {
                            (Err(comma.1.quiet()), comma.1)
                        },
                    }
                }
            },
        }
    }
}

/// An array: expressions between square brackets.
#[verifier::opaque]
pub open spec fn array_parsed(words: Seq<Seq<char>>, m: MetaV) -> Step<Seq<ExprV>>
    decreases remaining(words, m), 80nat,
{
    let open = token(words, m, "["@);
    match open.0 {
        Err(failure) => (Err(failure), open.1),
        Ok(_) => items_parsed(words, open.1, "]"@, Seq::empty()),
    }
}

/// A call: the name of a function, and arguments between round brackets.
#[verifier::opaque]
pub open spec fn invocation_parsed(words: Seq<Seq<char>>, m: MetaV) -> Step<InvocationV>
    decreases remaining(words, m), 80nat,
{
    let name = variable(words, m);
    match name.0 {
        Err(failure) => (Err(failure), name.1),
        Ok(n) => {
            let open = token(words, name.1, "("@);
            match open.0 {
                Err(failure) => (Err(failure), open.1),
                Ok(_) => {
                    let args = items_parsed(words, open.1, ")"@, Seq::empty());
                    match args.0 {
                        Err(failure) => (Err(failure), args.1),
                        Ok(exprs) => (
                            Ok(
                                InvocationV {
                                    name: n,
                                    args: exprs,
                                    refs: Seq::empty(),
                                    kind: Type::Null,
                                    variant_id: 0,
                                    id: 0,
                                },
                            ),
                            args.1,
                        ),
                    }
                },
            }
        },
    }
}

/// Whether `word` holds a whole region: it starts and ends with the
/// delimiter, holds more than the delimiter, and its last character is not
/// escaped.
pub open spec fn is_whole_region(word: Seq<char>, letter: char) -> bool {
    starts_with_char(word, letter) && ends_with_char(word, letter) && word.len() > 1
        && !escaped_end(word, letter)
}

/// A text or a command. A region without interpolations stands in one word;
/// the other regions start with a word that opens with the delimiter.
#[verifier::opaque]
pub open spec fn region_parsed(words: Seq<Seq<char>>, m: MetaV, region: InterpolatedRegionType)
    -> Step<Seq<TextPartV>>
    decreases remaining(words, m), 70nat,
{
    match word_at(words, m) {
        None => (Err(m.quiet()), m),
        Some(word) => if is_whole_region(word, region.delimiter()) {
            (Ok(simple_region(word, region)), m.advanced())
        } else if starts_with_char(word, region.delimiter()) {
            complex_parsed(
                words,
                m.advanced(),
                region.delimiter(),
                region,
                false,
                seq![TextPartV::String(decoded(word.skip(1), region))],
            )
        } else {
            (Err(m.quiet()), m)
        },
    }
}

/// The rest of a region with interpolations. The words `{` and `}` switch
/// between expressions and literal words; a literal word that ends with the
/// delimiter `letter`, not escaped, closes the region. `acc` holds the parts
/// so far.
#[verifier::opaque]
pub open spec fn complex_parsed(
    words: Seq<Seq<char>>,
    m: MetaV,
    letter: char,
    region: InterpolatedRegionType,
    is_interp: bool,
    acc: Seq<TextPartV>,
) -> Step<Seq<TextPartV>>
    decreases remaining(words, m), 170nat,
{
    match word_at(words, m) {
        None => (Err(m.quiet()), m),
        Some(word) => if word == "{"@ {
            complex_parsed(words, m.advanced(), letter, region, true, acc)
        } else if word == "}"@ {
            complex_parsed(words, m.advanced(), letter, region, false, acc)
        } else if is_interp {
            let inner = syntax(expr_parsed(words, m), m);
            match inner.0 {
                Err(failure) => (Err(failure), inner.1),
                Ok(expr) => if progressed(words, m, inner.1) {
                    complex_parsed(
                        words,
                        inner.1,
                        letter,
                        region,
                        true,
                        acc.push(TextPartV::Expr(Box::new(expr))),
                    )
                } else {
                    (Err(inner.1.quiet()), inner.1)
                },
            }
        } else if ends_with_char(word, letter) && !escaped_end(word, letter) {
            (Ok(acc.push(TextPartV::String(decoded(word.drop_last(), region)))), m.advanced())
        } else {
            complex_parsed(
                words,
                m.advanced(),
                letter,
                region,
                false,
                acc.push(TextPartV::String(decoded(word, region))),
            )
        },
    }
}

/// The modifiers in front of a command, added to `acc`.
pub open spec fn modifier_parsed(words: Seq<Seq<char>>, m: MetaV, acc: CommandModifier) -> (
    CommandModifier,
    MetaV,
)
    decreases remaining(words, m),
{
    if word_at(words, m) == Some("silent"@) {
        modifier_parsed(words, m.advanced(), CommandModifier { is_silent: true, ..acc })
    } else if word_at(words, m) == Some("sudo"@) {
        modifier_parsed(words, m.advanced(), CommandModifier { is_sudo: true, ..acc })
    } else if word_at(words, m) == Some("trust"@) {
        modifier_parsed(words, m.advanced(), CommandModifier { is_trust: true, ..acc })
    } else {
        (acc, m)
    }
}

/// The hint of the error that a command without handler gets.
pub open spec fn unhandled_comment() -> Seq<char> {
    "You can use '?' to propagate failure, 'failed' block to handle failure, 'succeeded' block to handle success, 'then' block to handle both, or 'trust' modifier to ignore results"@
}

/// The hint of the error that a second handler gets.
pub open spec fn second_handler_comment() -> Seq<char> {
    "Use either '{keyword}' to handle both success and failure, 'failed' or 'succeeded' blocks, but not both"@
}

/// The message of the error that a second handler gets.
pub open spec fn second_handler_message(keyword: Seq<char>, word: Seq<char>) -> Seq<char> {
    "Cannot use both '"@ + keyword + "' and '"@ + word + "' blocks for the same command"@
}

/// Whether `word` opens the handler of a block.
pub open spec fn is_handler_keyword(word: Seq<char>) -> bool {
    word == "failed"@ || word == "succeeded"@ || word == "then"@ || word == "exited"@
}

/// After a handler: a second handler is a loud failure, and its keyword is
/// taken.
pub open spec fn single_handler(words: Seq<Seq<char>>, m: MetaV, keyword: Seq<char>) -> Step<()> {
    match word_at(words, m) {
        Some(word) => if is_handler_keyword(word) {
            (
                Err(
                    loud(
                        m.here(),
                        second_handler_message(keyword, word),
                        Some(second_handler_comment()),
                    ),
                ),
                m.advanced(),
            )
        } else {
            (Ok(()), m)
        },
        None => (Ok(()), m),
    }
}

/// A command: modifiers, the region between dollar signs, and the handler
/// of its outcome. The modifier `trust`, or a surrounding that is trusted,
/// makes the handler optional.
#[verifier::opaque]
pub open spec fn command_parsed(words: Seq<Seq<char>>, m: MetaV) -> Step<CommandV>
    decreases remaining(words, m), 80nat,
{
    let (modifier, m1) = modifier_parsed(words, m, CommandModifier::none());
    let trusted = m1.context.is_trust_ctx || modifier.is_trust;
    let inside = m1.within(Context { is_trust_ctx: trusted, ..m1.context });
    let region = if kept(words, m, m1) {
        region_parsed(words, inside, InterpolatedRegionType::Command)
    } else {
        (Err(m1.quiet()), inside)
    };
    match region.0 {
        Err(failure) => (Err(failure), region.1.within(m1.context)),
        Ok(parts) => if progressed(words, m, region.1) {
            let handlers = handlers_parsed(words, region.1, trusted, position_at(m1.index));
            match handlers.0 {
                Err(failure) => (Err(failure), handlers.1.within(m1.context)),
                Ok(h) => (
                    Ok(
                        CommandV {
                            parts,
                            modifier,
                            is_trusted: trusted,
                            failed: h.0,
                            succeeded: h.1,
                            exited: h.2,
                        },
                    ),
                    handlers.1.within(m1.context),
                ),
            }
        } else {
            (Err(region.1.quiet()), region.1.within(m1.context))
        },
    }
}

/// The handler of a command: an `exited` (or `then`) block, a `succeeded`
/// block, a `failed` block or `?`, and no second one. Without a handler the
/// command must be trusted.
#[verifier::opaque]
pub open spec fn handlers_parsed(
    words: Seq<Seq<char>>,
    m: MetaV,
    trusted: bool,
    command: PositionInfo,
) -> Step<(HandlerV, HandlerV, HandlerV)>
    decreases remaining(words, m), 60nat,
{
    let keyword = match word_at(words, m) {
        Some(word) => word,
        None => Seq::empty(),
    };
    let exited = syntax(then_parsed(words, m), m);
    if decided(exited) {
        match exited.0 {
            Err(failure) => (Err(failure), exited.1),
            Ok(handler) => replaced(
                single_handler(words, exited.1, keyword),
                (no_handler(), no_handler(), handler),
            ),
        }
    } else {
        let succeeded = syntax(succeeded_parsed(words, exited.1.at(m.index)), m);
        if decided(succeeded) {
            match succeeded.0 {
                Err(failure) => (Err(failure), succeeded.1),
                Ok(handler) => replaced(
                    single_handler(words, succeeded.1, keyword),
                    (no_handler(), handler, no_handler()),
                ),
            }
        } else {
            let failed = syntax(failed_parsed(words, succeeded.1.at(m.index)), m);
            match failed.0 {
                Ok(handler) => replaced(
                    single_handler(words, failed.1, keyword),
                    (handler, no_handler(), no_handler()),
                ),
                Err(FailureV::Quiet(_)) => if trusted {
                    (Ok((no_handler(), no_handler(), no_handler())), failed.1)
                } else {
                    (
                        Err(
                            loud(
                                command,
                                "Every command statement must handle execution result"@,
                                Some(unhandled_comment()),
                            ),
                        ),
                        failed.1,
                    )
                },
                Err(failure) => (Err(failure), failed.1),
            }
        }
    }
}

/// The warning that an empty handler block gets.
pub open spec fn empty_block_warning(at: int, name: Seq<char>) -> MessageV {
    MessageV {
        kind: MessageType::Warning,
        position: position_at(at),
        message: "Empty "@ + name + " block"@,
        comment: Some("You should use 'trust' modifier to run commands without handling errors"@),
    }
}

/// What follows the keyword of a handler: the parameter between round
/// brackets, which only `required` demands, and the block. An empty block
/// is logged with a warning.
#[verifier::opaque]
pub open spec fn handler_body(words: Seq<Seq<char>>, m: MetaV, required: bool, name: Seq<char>)
    -> Step<HandlerV>
    decreases remaining(words, m), 58nat,
{
    let open = token(words, m, "("@);
    if open.0 is Err && required {
        (Err(m.quiet()), m)
    } else if open.0 is Ok {
        let close = token(words, open.1, ")"@);
        if close.0 is Ok {
            (
                Err(
                    loud(
                        PositionInfo { from: open.1.index as usize, to: close.1.index as usize },
                        "Parameter name cannot be empty"@,
                        None,
                    ),
                ),
                close.1,
            )
        } else {
            let param = variable(words, open.1);
            match param.0 {
                Err(failure) => (Err(failure), param.1),
                Ok(param_name) => {
                    let close = token(words, param.1, ")"@);
                    match close.0 {
                        Err(failure) => (Err(failure), close.1),
                        Ok(_) => handler_block(words, close.1, param_name, name),
                    }
                },
            }
        }
    } else {
        handler_block(words, m, Seq::empty(), name)
    }
}

/// The block of a handler whose parameter is `param_name`.
#[verifier::opaque]
pub open spec fn handler_block(
    words: Seq<Seq<char>>,
    m: MetaV,
    param_name: Seq<char>,
    name: Seq<char>,
) -> Step<HandlerV>
    decreases remaining(words, m), 57nat,
{
    let block = syntax(block_parsed(words, m), m);
    match block.0 {
        Err(failure) => (Err(failure), block.1),
        Ok(b) => (
            Ok(
                HandlerV {
                    is_parsed: true,
                    is_question_mark: false,
                    block: b,
                    param_name,
                    param_global_id: None,
                },
            ),
            if b.statements.len() == 0 {
                block.1.with_message(empty_block_warning(block.1.index, name))
            } else {
                block.1
            },
        ),
    }
}

/// The handler of both outcomes: `then` or `exited`, a parameter and a
/// block. After the keyword every failure is loud.
#[verifier::opaque]
pub open spec fn then_parsed(words: Seq<Seq<char>>, m: MetaV) -> Step<HandlerV>
    decreases remaining(words, m), 59nat,
{
    if word_at(words, m) == Some("then"@) || word_at(words, m) == Some("exited"@) {
        committed(handler_body(words, m.advanced(), true, "then"@), "Failed to parse then block"@)
    } else {
        (Err(m.quiet()), m)
    }
}

/// The handler of success: `succeeded`, an optional parameter and a block.
#[verifier::opaque]
pub open spec fn succeeded_parsed(words: Seq<Seq<char>>, m: MetaV) -> Step<HandlerV>
    decreases remaining(words, m), 59nat,
{
    if word_at(words, m) == Some("succeeded"@) {
        committed(
            handler_body(words, m.advanced(), false, "succeeded"@),
            "Failed to parse succeeded block"@,
        )
    } else {
        (Err(m.quiet()), m)
    }
}

/// The handler of failure: `?`, or `failed`, an optional parameter and a
/// block.
#[verifier::opaque]
pub open spec fn failed_parsed(words: Seq<Seq<char>>, m: MetaV) -> Step<HandlerV>
    decreases remaining(words, m), 59nat,
{
    if word_at(words, m) == Some("?"@) {
        (Ok(HandlerV { is_parsed: true, is_question_mark: true, ..no_handler() }), m.advanced())
    } else if word_at(words, m) == Some("failed"@) {
        committed(
            handler_body(words, m.advanced(), false, "failed"@),
            "Failed to parse failed block"@,
        )
    } else {
        (Err(m.quiet()), m)
    }
}

/// A block: statements between braces.
#[verifier::opaque]
pub open spec fn block_parsed(words: Seq<Seq<char>>, m: MetaV) -> Step<BlockV>
    decreases remaining(words, m), 56nat,
{
    let open = token(words, m, "{"@);
    match open.0 {
        Err(failure) => (Err(failure), open.1),
        Ok(_) => {
            let body = statements_parsed(words, open.1, true, Seq::empty());
            match body.0 {
                Err(failure) => (Err(failure), body.1),
                Ok(statements) => (Ok(BlockV { statements }), body.1),
            }
        },
    }
}

/// The statements of a whole file.
pub open spec fn global_parsed(words: Seq<Seq<char>>, m: MetaV) -> Step<BlockV> {
    let body = statements_parsed(words, m, false, Seq::empty());
    match body.0 {
        Err(failure) => (Err(failure), body.1),
        Ok(statements) => (Ok(BlockV { statements }), body.1),
    }
}

/// Statements up to the closing brace (`braced`) or the end of the words.
/// Semicolons between statements are skipped. A word that starts no
/// statement is a loud failure. `acc` holds the statements so far.
#[verifier::opaque]
pub open spec fn statements_parsed(
    words: Seq<Seq<char>>,
    m: MetaV,
    braced: bool,
    acc: Seq<StatementV>,
) -> Step<Seq<StatementV>>
    decreases remaining(words, m), 190nat,
{
    match word_at(words, m) {
        None => if braced {
            (Err(m.quiet()), m)
        } else {
            (Ok(acc), m)
        },
        Some(word) => if word == ";"@ {
            statements_parsed(words, m.advanced(), braced, acc)
        } else if braced && word == "}"@ {
            (Ok(acc), m.advanced())
        } else {
            let statement = syntax(statement_parsed(words, m), m);
            match statement.0 {
                Ok(s) => if progressed(words, m, statement.1) {
                    statements_parsed(words, statement.1, braced, acc.push(s))
                } else {
                    (Err(statement.1.quiet()), statement.1)
                },
                Err(FailureV::Quiet(position)) => (
                    Err(loud(position, "Unexpected token"@, None)),
                    statement.1,
                ),
                Err(failure) => (Err(failure), statement.1),
            }
        },
    }
}

/// A statement: the first that parses of a function declaration, the main
/// block, a variable declaration, `echo`, `return` and an expression.
#[verifier::opaque]
pub open spec fn statement_parsed(words: Seq<Seq<char>>, m: MetaV) -> Step<StatementV>
    decreases remaining(words, m), 180nat,
{
    let a = syntax(declaration_parsed(words, m), m);
    if decided(a) {
        match a.0 {
            Ok(decl) => (Ok(StatementV::FunctionDeclaration(decl)), a.1),
            Err(failure) => (Err(failure), a.1),
        }
    } else {
        let b = syntax(main_parsed(words, a.1.at(m.index)), m);
        if decided(b) {
            match b.0 {
                Ok(block) => (Ok(StatementV::Main(block)), b.1),
                Err(failure) => (Err(failure), b.1),
            }
        } else {
            let c = syntax(init_parsed(words, b.1.at(m.index)), m);
            if decided(c) {
                match c.0 {
                    Ok(init) => (
                        Ok(StatementV::VariableInit { name: init.0, expr: init.1, global_id: None }),
                        c.1,
                    ),
                    Err(failure) => (Err(failure), c.1),
                }
            } else {
                let d = syntax(keyword_expr_parsed(words, c.1.at(m.index), "echo"@), m);
                if decided(d) {
                    match d.0 {
                        Ok(expr) => (Ok(StatementV::Echo(expr)), d.1),
                        Err(failure) => (Err(failure), d.1),
                    }
                } else {
                    let e = syntax(return_parsed(words, d.1.at(m.index)), m);
                    if decided(e) {
                        match e.0 {
                            Ok(expr) => (Ok(StatementV::Return(expr)), e.1),
                            Err(failure) => (Err(failure), e.1),
                        }
                    } else {
                        let f = expr_parsed(words, e.1.at(m.index));
                        match f.0 {
                            Ok(expr) => (Ok(StatementV::Expr(expr)), f.1),
                            Err(failure) => (Err(failure), f.1),
                        }
                    }
                }
            }
        }
    }
}

/// The word `keyword` and an expression. After the keyword every failure is
/// loud.
#[verifier::opaque]
pub open spec fn keyword_expr_parsed(words: Seq<Seq<char>>, m: MetaV, keyword: Seq<char>) -> Step<
    ExprV,
>
    decreases remaining(words, m), 178nat,
{
    let key = token(words, m, keyword);
    match key.0 {
        Err(failure) => (Err(failure), key.1),
        Ok(_) => committed(
            syntax(expr_parsed(words, key.1), key.1),
            "Expected expression after '"@ + keyword + "'"@,
        ),
    }
}

/// `return` and an expression, inside the body of a function only.
#[verifier::opaque]
pub open spec fn return_parsed(words: Seq<Seq<char>>, m: MetaV) -> Step<ExprV>
    decreases remaining(words, m), 179nat,
{
    if word_at(words, m) == Some("return"@) && !m.context.is_fun_ctx {
        (Err(loud(m.here(), "Return statement outside of function"@, None)), m.advanced())
    } else {
        keyword_expr_parsed(words, m, "return"@)
    }
}

/// `let name = expression`. After `let` every failure is loud.
#[verifier::opaque]
pub open spec fn init_parsed(words: Seq<Seq<char>>, m: MetaV) -> Step<(Seq<char>, ExprV)>
    decreases remaining(words, m), 179nat,
{
    let key = token(words, m, "let"@);
    match key.0 {
        Err(failure) => (Err(failure), key.1),
        Ok(_) => committed(init_body(words, key.1), "Expected '<name> = <expression>' after 'let'"@),
    }
}

/// What follows `let`.
#[verifier::opaque]
pub open spec fn init_body(words: Seq<Seq<char>>, m: MetaV) -> Step<(Seq<char>, ExprV)>
    decreases remaining(words, m), 178nat,
{
    let name = variable(words, m);
    match name.0 {
        Err(failure) => (Err(failure), name.1),
        Ok(n) => {
            let eq = token(words, name.1, "="@);
            match eq.0 {
                Err(failure) => (Err(failure), eq.1),
                Ok(_) => {
                    let value = syntax(expr_parsed(words, eq.1), eq.1);
                    match value.0 {
                        Err(failure) => (Err(failure), value.1),
                        Ok(expr) => (Ok((n, expr)), value.1),
                    }
                },
            }
        },
    }
}

/// Whether the context is that of the top of a file.
pub open spec fn at_top(context: Context) -> bool {
    !context.is_fun_ctx && !context.is_main_ctx
}

/// `main` and a block, at the top of a file only. After `main` every
/// failure is loud.
#[verifier::opaque]
pub open spec fn main_parsed(words: Seq<Seq<char>>, m: MetaV) -> Step<BlockV>
    decreases remaining(words, m), 179nat,
{
    let key = token(words, m, "main"@);
    match key.0 {
        Err(failure) => (Err(failure), key.1),
        Ok(_) => if !at_top(m.context) {
            (Err(loud(m.here(), "Main block can only stand at the top of a file"@, None)), key.1)
        } else {
            let inside = key.1.within(Context { is_main_ctx: true, ..m.context });
            let block = committed(
                syntax(block_parsed(words, inside), inside),
                "Expected a block after 'main'"@,
            );
            (block.0, block.1.within(m.context))
        },
    }
}

/// The parameters of a function up to the closing bracket: for each an
/// optional `ref`, the name, and an optional type after a colon. The three
/// lists of `acc` hold the names, types and reference marks so far; a
/// parameter without type gets `Generic`.
#[verifier::opaque]
pub open spec fn params_parsed(
    words: Seq<Seq<char>>,
    m: MetaV,
    acc: (Seq<Seq<char>>, Seq<Type>, Seq<bool>),
) -> Step<(Seq<Seq<char>>, Seq<Type>, Seq<bool>)>
    decreases remaining(words, m), 177nat,
{
    let close = token(words, m, ")"@);
    if close.0 is Ok {
        (Ok(acc), close.1)
    } else {
        let by_ref = token(words, m, "ref"@);
        let name = variable(words, by_ref.1);
        match name.0 {
            Err(failure) => (Err(failure), name.1),
            Ok(n) => {
                let colon = token(words, name.1, ":"@);
                let kind = if colon.0 is Ok {
                    type_parsed(words, colon.1)
                } else {
                    (Ok(Type::Generic), colon.1)
                };
                match kind.0 {
                    Err(failure) => (Err(failure), kind.1),
                    Ok(k) => {
                        let more = (acc.0.push(n), acc.1.push(k), acc.2.push(by_ref.0 is Ok));
                        let close = token(words, kind.1, ")"@);
                        if close.0 is Ok {
                            (Ok(more), close.1)
                        } else {
                            let comma = token(words, kind.1, ","@);
                            match comma.0 {
                                Err(failure) => (Err(failure), comma.1),
                                Ok(_) => if progressed(words, m, comma.1) {
                                    params_parsed(words, comma.1, more)
                                } else {
                                    (Err(comma.1.quiet()), comma.1)
                                },
                            }
                        }
                    },
                }
            },
        }
    }
}

/// What follows `fun`: the name, the parameters, an optional return type
/// after a colon, and the body. Without a return type the declaration gets
/// `Generic`, and checking finds the type.
#[verifier::opaque]
pub open spec fn declaration_body(words: Seq<Seq<char>>, m: MetaV, is_public: bool) -> Step<
    DeclarationV,
>
    decreases remaining(words, m), 178nat,
{
    let name = variable(words, m);
    match name.0 {
        Err(failure) => (Err(failure), name.1),
        Ok(n) => {
            let open = token(words, name.1, "("@);
            match open.0 {
                Err(failure) => (Err(failure), open.1),
                Ok(_) => {
                    let params = params_parsed(
                        words,
                        open.1,
                        (Seq::empty(), Seq::empty(), Seq::empty()),
                    );
                    match params.0 {
                        Err(failure) => (Err(failure), params.1),
                        Ok(p) => {
                            let colon = token(words, params.1, ":"@);
                            let result_type = if colon.0 is Ok {
                                type_parsed(words, colon.1)
                            } else {
                                (Ok(Type::Generic), colon.1)
                            };
                            match result_type.0 {
                                Err(failure) => (Err(failure), result_type.1),
                                Ok(r) => if progressed(words, m, result_type.1) {
                                    let body = syntax(
                                        block_parsed(words, result_type.1),
                                        result_type.1,
                                    );
                                    match body.0 {
                                        Err(failure) => (Err(failure), body.1),
                                        Ok(b) => (
                                            Ok(
                                                DeclarationV {
                                                    name: n,
                                                    arg_names: p.0,
                                                    arg_types: p.1,
                                                    arg_refs: p.2,
                                                    returns: r,
                                                    is_public,
                                                    body: b,
                                                    body_start: result_type.1.index as usize,
                                                    id: 0,
                                                },
                                            ),
                                            body.1,
                                        ),
                                    }
                                } else {
                                    (Err(result_type.1.quiet()), result_type.1)
                                },
                            }
                        },
                    }
                },
            }
        },
    }
}

/// The declaration of a function: an optional `pub`, `fun`, and what
/// [`declaration_body`] says, at the top of a file only. After `fun` every
/// failure is loud.
#[verifier::opaque]
pub open spec fn declaration_parsed(words: Seq<Seq<char>>, m: MetaV) -> Step<DeclarationV>
    decreases remaining(words, m), 179nat,
{
    let public = token(words, m, "pub"@);
    let key = token(words, public.1, "fun"@);
    match key.0 {
        Err(failure) => (Err(failure), key.1),
        Ok(_) => if !at_top(m.context) {
            (
                Err(loud(m.here(), "Functions can only be declared at the top of a file"@, None)),
                key.1,
            )
        } else {
            let inside = key.1.within(Context { is_fun_ctx: true, ..m.context });
            let decl = committed(
                declaration_body(words, inside, public.0 is Ok),
                "Failed to parse function declaration"@,
            );
            (decl.0, decl.1.within(m.context))
        },
    }
}

} // verus!
