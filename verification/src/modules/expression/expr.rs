//! Expressions.

use crate::modules::command::cmd::Command;
use crate::modules::expression::binop::BinaryOperator;
use crate::modules::expression::binop::Joint;
use crate::modules::expression::binop::Level;
use crate::modules::expression::binop::UnaryOperator;
use crate::modules::expression::binop::add::Add;
use crate::modules::expression::binop::binary::Binary;
use crate::modules::expression::binop::ge::Ge;
use crate::modules::expression::binop::gt::Gt;
use crate::modules::expression::literal::array::Array;
use crate::modules::expression::literal::bool::Bool;
use crate::modules::expression::literal::integer::Integer;
use crate::modules::expression::literal::number::Number;
use crate::modules::expression::literal::text::Text;
use crate::modules::expression::literal::text::TextPart;
use crate::modules::expression::parentheses::Parentheses;
use crate::modules::expression::unop::Unary;
use crate::modules::function::invocation::FunctionInvocation;
use crate::modules::grammar;
use crate::modules::model::ExprTypeV;
use crate::modules::model::ExprV;
use crate::modules::model::FailureV;
use crate::modules::model::no_expr;
use crate::modules::types::Type;
use crate::modules::typing;
use crate::modules::variable::get::VariableGet;
use crate::translate::fragments::fragment::FragmentKind;
use crate::translate::fragments::fragment::list_of;
use crate::translate::fragments::fragment::no_frags;
use crate::translate::fragments::fragment::push_frag;
use crate::translate::fragments::fragment::raw;
use crate::translate::fragments::raw::RawFragment;
use crate::translate::fragments::var_expr::VarExprFragment;
use crate::translate::lowering;
use crate::utils::metadata::parser::Failure;
use crate::utils::metadata::parser::ParserMetadata;
use crate::utils::metadata::parser::SyntaxResult;
use crate::utils::metadata::parser::checked_to;
use crate::utils::metadata::parser::fault;
use crate::utils::metadata::parser::fit_for_checking;
use crate::utils::metadata::parser::parsed_as;
use crate::utils::metadata::parser::token;
use crate::utils::metadata::parser::variable;
use crate::utils::metadata::translate::TranslateMetadata;
use crate::utils::metadata::translate::same_setting;
use vstd::prelude::*;

verus! {

/// The node of an expression.
#[derive(Debug, PartialEq, Eq)]
pub enum ExprType {
    Bool(Bool),
    Integer(Integer),
    Number(Number),
    Text(Text),
    Array(Array),
    VariableGet(VariableGet),
    Parentheses(Parentheses),
    Command(Command),
    FunctionInvocation(FunctionInvocation),
    Add(Add),
    Gt(Gt),
    Ge(Ge),
    Binary(Binary),
    Unary(Unary),
}

/// An expression: its node, and its type once it is checked.
#[derive(Debug, PartialEq, Eq)]
pub struct Expr {
    pub value: Option<ExprType>,
    pub kind: Type,
}

impl ExprType {
    /// The view of the node.
    pub open spec fn model(self) -> ExprTypeV
        decreases self,
    {
        match self {
            ExprType::Bool(b) => ExprTypeV::Bool(b.value),
            ExprType::Integer(i) => ExprTypeV::Integer(i.value@),
            ExprType::Number(n) => ExprTypeV::Number(n.value@),
            ExprType::Text(t) => ExprTypeV::Text(TextPart::models_of(t.parts)),
            ExprType::Array(a) => ExprTypeV::Array { exprs: Expr::models_of(a.exprs), kind: a.kind },
            ExprType::VariableGet(v) => ExprTypeV::VariableGet {
                name: v.name@,
                kind: v.kind,
                global_id: v.global_id,
                is_ref: v.is_ref,
            },
            ExprType::Parentheses(p) => ExprTypeV::Parentheses(Box::new(p.value.model())),
            ExprType::Command(c) => ExprTypeV::Command(c.model()),
            ExprType::FunctionInvocation(f) => ExprTypeV::FunctionInvocation(f.model()),
            ExprType::Add(a) => ExprTypeV::Add(Box::new(a.left.model()), Box::new(a.right.model())),
            ExprType::Gt(a) => ExprTypeV::Gt(Box::new(a.left.model()), Box::new(a.right.model())),
            ExprType::Ge(a) => ExprTypeV::Ge(Box::new(a.left.model()), Box::new(a.right.model())),
            ExprType::Binary(b) => ExprTypeV::Binary {
                op: b.op,
                left: Box::new(b.left.model()),
                right: Box::new(b.right.model()),
            },
            ExprType::Unary(u) => ExprTypeV::Unary {
                sign: u.sign,
                operand: Box::new(u.operand.model()),
            },
        }
    }
}

impl Expr {
    /// The view of the expression.
    pub open spec fn model(self) -> ExprV
        decreases self,
    {
        ExprV {
            value: match self.value {
                Some(node) => Some(node.model()),
                None => None,
            },
            kind: self.kind,
        }
    }

    /// The views of the expressions of a vector.
    pub open spec fn models_of(exprs: Vec<Expr>) -> Seq<ExprV>
        decreases exprs,
    {
        Seq::new(
            exprs.len() as nat,
            |i: int|
                if 0 <= i < exprs.len() {
                    exprs[i].model()
                } else {
                    no_expr()
                },
        )
    }

    /// An expression that was not parsed yet.
    pub fn new() -> (r: Self)
        ensures
            r.model() == no_expr(),
    {
        Expr { value: None, kind: Type::Null }
    }
}

impl View for Expr {
    type V = ExprV;

    open spec fn view(&self) -> ExprV {
        self.model()
    }
}


impl Expr {
    /// The expression that the operator `joint` makes of two operands.
    pub fn join(joint: Joint, left: Expr, right: Expr) -> (r: Expr)
        ensures
            r.model() == grammar::joined(joint, left.model(), right.model()),
    {
        match joint {
            Joint::Add => Expr {
                value: Some(ExprType::Add(Add { left: Box::new(left), right: Box::new(right) })),
                kind: Type::Null,
            },
            Joint::Gt => Expr {
                value: Some(ExprType::Gt(Gt { left: Box::new(left), right: Box::new(right) })),
                kind: Type::Null,
            },
            Joint::Ge => Expr {
                value: Some(ExprType::Ge(Ge { left: Box::new(left), right: Box::new(right) })),
                kind: Type::Null,
            },
            Joint::Other(op) => Expr {
                value: Some(
                    ExprType::Binary(Binary { op, left: Box::new(left), right: Box::new(right) }),
                ),
                kind: Type::Null,
            },
        }
    }

    /// Parses an operand of the level `level` and, where an operator of the
    /// level follows it, the operator and the rest of the row. An operator
    /// that no operand follows is left where it stands.
    pub fn parse_chain(&mut self, meta: &mut ParserMetadata, level: Level) -> (r: SyntaxResult)
        requires
            old(meta).wf(),
        ensures
            parsed_as(
                *old(meta),
                *final(meta),
                r,
                final(self).model(),
                grammar::chain_parsed(old(meta).words(), old(meta)@, level),
            ),
            r is Ok ==> final(meta).index > old(meta).index,
        decreases grammar::remaining(old(meta).words(), old(meta)@), level.rank(),
    {
        reveal(grammar::chain_parsed);
        reveal(grammar::not_parsed);
        reveal(grammar::unary_parsed);
        let mut left = Expr::new();
        let outcome = match level {
            Level::Or => left.parse_chain(meta, Level::And),
            Level::And => left.parse_not(meta),
            Level::Comparison => left.parse_chain(meta, Level::Additive),
            Level::Additive => left.parse_chain(meta, Level::Multiplicative),
            Level::Multiplicative => left.parse_unary(meta),
        };
        match outcome {
            Ok(()) => {},
            Err(failure) => {
                return Err(failure);
            },
        }
        let joint = match meta.current_word() {
            Some(word) => level.joint_of(word),
            None => None,
        };
        match joint {
            None => {
                *self = left;
                Ok(())
            },
            Some(joint) => {
                let before = meta.mark();
                let _ = meta.take_word();
                let behind = meta.mark();
                let mut right = Expr::new();
                match right.parse_chain(meta, level) {
                    Ok(()) => {
                        *self = Expr::join(joint, left, right);
                        Ok(())
                    },
                    Err(failure) => {
                        meta.rewind(&behind);
                        if failure.is_loud() {
                            Err(failure)
                        } else {
                            meta.rewind(&before);
                            *self = left;
                            Ok(())
                        }
                    },
                }
            },
        }
    }

    /// Parses an expression.
    pub fn parse(&mut self, meta: &mut ParserMetadata) -> (r: SyntaxResult)
        requires
            old(meta).wf(),
        ensures
            parsed_as(
                *old(meta),
                *final(meta),
                r,
                final(self).model(),
                grammar::expr_parsed(old(meta).words(), old(meta)@),
            ),
            r is Ok ==> final(meta).index > old(meta).index,
        decreases grammar::remaining(old(meta).words(), old(meta)@), 165nat,
    {
        reveal(grammar::chain_parsed);
        self.parse_chain(meta, Level::Or)
    }

    /// Parses `left and right`, or what binds tighter.
    pub fn parse_and(&mut self, meta: &mut ParserMetadata) -> (r: SyntaxResult)
        requires
            old(meta).wf(),
        ensures
            parsed_as(
                *old(meta),
                *final(meta),
                r,
                final(self).model(),
                grammar::and_parsed(old(meta).words(), old(meta)@),
            ),
            r is Ok ==> final(meta).index > old(meta).index,
    {
        self.parse_chain(meta, Level::And)
    }

    /// Parses `not` in front of an expression, or a comparison.
    pub fn parse_not(&mut self, meta: &mut ParserMetadata) -> (r: SyntaxResult)
        requires
            old(meta).wf(),
        ensures
            parsed_as(
                *old(meta),
                *final(meta),
                r,
                final(self).model(),
                grammar::not_parsed(old(meta).words(), old(meta)@),
            ),
            r is Ok ==> final(meta).index > old(meta).index,
        decreases grammar::remaining(old(meta).words(), old(meta)@), 140nat,
    {
        reveal(grammar::not_parsed);
        reveal(grammar::chain_parsed);
        if crate::utils::metadata::parser::at_word(meta, "not") {
            let _ = meta.take_word();
            let inner = meta.mark();
            let mut operand = Expr::new();
            match operand.parse_not(meta) {
                Ok(()) => {
                    self.value = Some(
                        ExprType::Unary(Unary { sign: UnaryOperator::Not, operand: Box::new(operand) }),
                    );
                    self.kind = Type::Null;
                    Ok(())
                },
                Err(failure) => {
                    meta.rewind(&inner);
                    Err(failure)
                },
            }
        } else {
            self.parse_chain(meta, Level::Comparison)
        }
    }

    /// Parses a comparison, or what binds tighter.
    pub fn parse_comparison(&mut self, meta: &mut ParserMetadata) -> (r: SyntaxResult)
        requires
            old(meta).wf(),
        ensures
            parsed_as(
                *old(meta),
                *final(meta),
                r,
                final(self).model(),
                grammar::comparison_parsed(old(meta).words(), old(meta)@),
            ),
            r is Ok ==> final(meta).index > old(meta).index,
    {
        self.parse_chain(meta, Level::Comparison)
    }

    /// Parses a sum or a difference, or what binds tighter.
    pub fn parse_additive(&mut self, meta: &mut ParserMetadata) -> (r: SyntaxResult)
        requires
            old(meta).wf(),
        ensures
            parsed_as(
                *old(meta),
                *final(meta),
                r,
                final(self).model(),
                grammar::additive_parsed(old(meta).words(), old(meta)@),
            ),
            r is Ok ==> final(meta).index > old(meta).index,
    {
        self.parse_chain(meta, Level::Additive)
    }

    /// Parses a product, a quotient or a remainder, or what binds tighter.
    pub fn parse_multiplicative(&mut self, meta: &mut ParserMetadata) -> (r: SyntaxResult)
        requires
            old(meta).wf(),
        ensures
            parsed_as(
                *old(meta),
                *final(meta),
                r,
                final(self).model(),
                grammar::multiplicative_parsed(old(meta).words(), old(meta)@),
            ),
            r is Ok ==> final(meta).index > old(meta).index,
    {
        self.parse_chain(meta, Level::Multiplicative)
    }

    /// Parses the sign `-` in front of an expression, or an operand.
    pub fn parse_unary(&mut self, meta: &mut ParserMetadata) -> (r: SyntaxResult)
        requires
            old(meta).wf(),
        ensures
            parsed_as(
                *old(meta),
                *final(meta),
                r,
                final(self).model(),
                grammar::unary_parsed(old(meta).words(), old(meta)@),
            ),
            r is Ok ==> final(meta).index > old(meta).index,
        decreases grammar::remaining(old(meta).words(), old(meta)@), 100nat,
    {
        reveal(grammar::unary_parsed);
        reveal(grammar::primary_parsed);
        if crate::utils::metadata::parser::at_word(meta, "-") {
            let _ = meta.take_word();
            let inner = meta.mark();
            let mut operand = Expr::new();
            match operand.parse_unary(meta) {
                Ok(()) => {
                    self.value = Some(
                        ExprType::Unary(Unary { sign: UnaryOperator::Neg, operand: Box::new(operand) }),
                    );
                    self.kind = Type::Null;
                    Ok(())
                },
                Err(failure) => {
                    meta.rewind(&inner);
                    Err(failure)
                },
            }
        } else {
            self.parse_primary(meta)
        }
    }

    /// Parses an operand.
    pub fn parse_primary(&mut self, meta: &mut ParserMetadata) -> (r: SyntaxResult)
        requires
            old(meta).wf(),
        ensures
            parsed_as(
                *old(meta),
                *final(meta),
                r,
                final(self).model(),
                grammar::primary_parsed(old(meta).words(), old(meta)@),
            ),
            r is Ok ==> final(meta).index > old(meta).index,
        decreases grammar::remaining(old(meta).words(), old(meta)@), 90nat,
    {
        reveal(grammar::primary_parsed);
        reveal(grammar::parentheses_parsed);
        reveal(grammar::primary_rest);
        let start = meta.mark();
        let mut node = Parentheses::new();
        match node.parse(meta) {
            Ok(()) => {
                self.value = Some(ExprType::Parentheses(node));
                self.kind = Type::Null;
                return Ok(());
            },
            Err(failure) => {
                meta.rewind(&start);
                if failure.is_loud() {
                    return Err(failure);
                }
            },
        }
        let mut node = Bool::new();
        match node.parse(meta) {
            Ok(()) => {
                self.value = Some(ExprType::Bool(node));
                self.kind = Type::Null;
                return Ok(());
            },
            Err(failure) => {
                meta.rewind(&start);
                if failure.is_loud() {
                    return Err(failure);
                }
            },
        }
        let mut node = Number::new();
        match node.parse(meta) {
            Ok(()) => {
                self.value = Some(ExprType::Number(node));
                self.kind = Type::Null;
                return Ok(());
            },
            Err(failure) => {
                meta.rewind(&start);
                if failure.is_loud() {
                    return Err(failure);
                }
            },
        }
        let mut node = Integer::new();
        match node.parse(meta) {
            Ok(()) => {
                self.value = Some(ExprType::Integer(node));
                self.kind = Type::Null;
                return Ok(());
            },
            Err(failure) => {
                meta.rewind(&start);
                if failure.is_loud() {
                    return Err(failure);
                }
            },
        }
        self.parse_primary_rest(meta)
    }

    /// Parses an operand that is no plain literal.
    pub fn parse_primary_rest(&mut self, meta: &mut ParserMetadata) -> (r: SyntaxResult)
        requires
            old(meta).wf(),
        ensures
            parsed_as(
                *old(meta),
                *final(meta),
                r,
                final(self).model(),
                grammar::primary_rest(old(meta).words(), old(meta)@),
            ),
            r is Ok ==> final(meta).index > old(meta).index,
        decreases grammar::remaining(old(meta).words(), old(meta)@), 89nat,
    {
        reveal(grammar::primary_rest);
        reveal(grammar::region_parsed);
        reveal(grammar::array_parsed);
        reveal(grammar::primary_last);
        let start = meta.mark();
        let mut node = Text::new();
        match node.parse(meta) {
            Ok(()) => {
                self.value = Some(ExprType::Text(node));
                self.kind = Type::Null;
                return Ok(());
            },
            Err(failure) => {
                meta.rewind(&start);
                if failure.is_loud() {
                    return Err(failure);
                }
            },
        }
        let mut node = Array::new();
        match node.parse(meta) {
            Ok(()) => {
                self.value = Some(ExprType::Array(node));
                self.kind = Type::Null;
                return Ok(());
            },
            Err(failure) => {
                meta.rewind(&start);
                if failure.is_loud() {
                    return Err(failure);
                }
            },
        }
        self.parse_primary_last(meta)
    }

    /// Parses a command, a call or a variable.
    pub fn parse_primary_last(&mut self, meta: &mut ParserMetadata) -> (r: SyntaxResult)
        requires
            old(meta).wf(),
        ensures
            parsed_as(
                *old(meta),
                *final(meta),
                r,
                final(self).model(),
                grammar::primary_last(old(meta).words(), old(meta)@),
            ),
            r is Ok ==> final(meta).index > old(meta).index,
        decreases grammar::remaining(old(meta).words(), old(meta)@), 88nat,
    {
        reveal(grammar::primary_last);
        reveal(grammar::command_parsed);
        reveal(grammar::primary_name);
        let start = meta.mark();
        let mut node = Command::new();
        match node.parse(meta) {
            Ok(()) => {
                self.value = Some(ExprType::Command(node));
                self.kind = Type::Null;
                return Ok(());
            },
            Err(failure) => {
                meta.rewind(&start);
                if failure.is_loud() {
                    return Err(failure);
                }
            },
        }
        self.parse_primary_name(meta)
    }

    /// Parses a call or a variable.
    pub fn parse_primary_name(&mut self, meta: &mut ParserMetadata) -> (r: SyntaxResult)
        requires
            old(meta).wf(),
        ensures
            parsed_as(
                *old(meta),
                *final(meta),
                r,
                final(self).model(),
                grammar::primary_name(old(meta).words(), old(meta)@),
            ),
            r is Ok ==> final(meta).index > old(meta).index,
        decreases grammar::remaining(old(meta).words(), old(meta)@), 87nat,
    {
        reveal(grammar::primary_name);
        let start = meta.mark();
        let mut node = FunctionInvocation::new();
        match node.parse(meta) {
            Ok(()) => {
                self.value = Some(ExprType::FunctionInvocation(node));
                self.kind = Type::Null;
                return Ok(());
            },
            Err(failure) => {
                meta.rewind(&start);
                if failure.is_loud() {
                    return Err(failure);
                }
            },
        }
        let mut node = VariableGet::new();
        match node.parse(meta) {
            Ok(()) => {
                self.value = Some(ExprType::VariableGet(node));
                self.kind = Type::Null;
                Ok(())
            },
            Err(failure) => Err(failure),
        }
    }

    /// Parses the expressions of a list up to the word `closer`. Commas
    /// separate the expressions, and one may stand before the closer.
    pub fn parse_items(meta: &mut ParserMetadata, closer: &str) -> (r: Result<Vec<Expr>, Failure>)
        requires
            old(meta).wf(),
        ensures
            final(meta).wf(),
            final(meta).tokens == old(meta).tokens,
            final(meta).index >= old(meta).index,
            crate::utils::metadata::parser::same_tables(*old(meta), *final(meta)),
            final(meta)@ == grammar::items_parsed(
                old(meta).words(),
                old(meta)@,
                closer@,
                Seq::empty(),
            ).1,
            match r {
                Ok(exprs) => grammar::items_parsed(
                    old(meta).words(),
                    old(meta)@,
                    closer@,
                    Seq::empty(),
                ).0 == Ok::<Seq<ExprV>, FailureV>(Expr::models_of(exprs)),
                Err(failure) => grammar::items_parsed(
                    old(meta).words(),
                    old(meta)@,
                    closer@,
                    Seq::empty(),
                ).0 == Err::<Seq<ExprV>, FailureV>(failure@),
            },
            r is Ok ==> final(meta).index > old(meta).index,
        decreases grammar::remaining(old(meta).words(), old(meta)@), 170nat,
    {
        reveal(grammar::items_parsed);
        let ghost words = meta.words();
        let ghost goal = grammar::items_parsed(words, meta@, closer@, Seq::empty());
        let ghost first = meta.index;
        let mut items: Vec<Expr> = Vec::new();
        assert(Expr::models_of(items) =~= Seq::<ExprV>::empty());
        loop
            invariant
                meta.wf(),
                meta.tokens == old(meta).tokens,
                crate::utils::metadata::parser::same_tables(*old(meta), *meta),
                words == old(meta).words(),
                meta.index >= first,
                first == old(meta).index,
                goal == grammar::items_parsed(words, old(meta)@, closer@, Seq::empty()),
                goal == grammar::items_parsed(words, meta@, closer@, Expr::models_of(items)),
            decreases meta.tokens@.len() - meta.index,
        {
            reveal(grammar::items_parsed);
            match token(meta, closer) {
                Ok(_) => {
                    return Ok(items);
                },
                Err(_) => {},
            }
            let start = meta.mark();
            let mut item = Expr::new();
            match item.parse(meta) {
                Ok(()) => {},
                Err(failure) => {
                    meta.rewind(&start);
                    return Err(failure);
                },
            }
            let ghost before = Expr::models_of(items);
            items.push(item);
            assert(Expr::models_of(items) =~= before.push(item.model()));
            match token(meta, closer) {
                Ok(_) => {
                    return Ok(items);
                },
                Err(_) => {},
            }
            match token(meta, ",") {
                Ok(_) => {},
                Err(failure) => {
                    return Err(failure);
                },
            }
        }
    }
}


impl ExprType {
    /// Checks the node and gives the checked node with its type.
    pub fn checked(&self, meta: &mut ParserMetadata) -> (r: Result<(ExprType, Type), Failure>)
        requires
            fit_for_checking(*old(meta)),
        ensures
            ({
                let step = typing::node_checked(old(meta).words(), self.model(), old(meta)@);
                &&& checked_to(*old(meta), *final(meta), step.1)
                &&& match r {
                    Ok(found) => step.0 == Ok::<(ExprTypeV, Type), FailureV>(
                        (found.0.model(), found.1),
                    ),
                    Err(failure) => step.0 == Err::<(ExprTypeV, Type), FailureV>(failure@),
                }
            }),
        decreases typing::rank(old(meta)@), self, 1nat,
    {
        reveal(typing::node_checked);
        reveal(typing::parts_checked);
        reveal(typing::list_checked);
        reveal(typing::expr_checked);
        reveal(typing::command_checked);
        reveal(typing::invocation_checked);
        reveal(typing::operands_checked);
        match self {
            ExprType::Bool(node) => Ok((ExprType::Bool(Bool { value: node.value }), Type::Bool)),
            ExprType::Integer(node) => Ok(
                (ExprType::Integer(Integer { value: node.value.clone() }), Type::Int),
            ),
            ExprType::Number(node) => Ok(
                (ExprType::Number(Number { value: node.value.clone() }), Type::Num),
            ),
            ExprType::Text(node) => match node.checked(meta) {
                Ok(found) => Ok((ExprType::Text(found), Type::Text)),
                Err(failure) => Err(failure),
            },
            ExprType::Array(node) => match node.checked(meta) {
                Ok(found) => {
                    let kind = found.kind.clone();
                    Ok((ExprType::Array(found), kind))
                },
                Err(failure) => Err(failure),
            },
            ExprType::VariableGet(node) => match node.checked(meta) {
                Ok(found) => {
                    let kind = found.kind.clone();
                    Ok((ExprType::VariableGet(found), kind))
                },
                Err(failure) => Err(failure),
            },
            ExprType::Parentheses(node) => match node.value.checked(meta) {
                Ok(found) => {
                    let kind = found.kind.clone();
                    Ok((ExprType::Parentheses(Parentheses { value: Box::new(found) }), kind))
                },
                Err(failure) => Err(failure),
            },
            ExprType::Command(node) => match node.checked(meta) {
                Ok(found) => Ok((ExprType::Command(found), Type::Text)),
                Err(failure) => Err(failure),
            },
            ExprType::FunctionInvocation(node) => match node.checked(meta) {
                Ok(found) => {
                    let kind = found.kind.clone();
                    Ok((ExprType::FunctionInvocation(found), kind))
                },
                Err(failure) => Err(failure),
            },
            ExprType::Add(node) => match node.checked(meta, Ghost(self.model())) {
                Ok(found) => {
                    let kind = crate::modules::expression::binop::promoted(
                        &found.left.kind,
                        &found.right.kind,
                    );
                    Ok((ExprType::Add(found), kind))
                },
                Err(failure) => Err(failure),
            },
            ExprType::Gt(node) => match node.checked(meta, Ghost(self.model())) {
                Ok(found) => Ok((ExprType::Gt(found), Type::Bool)),
                Err(failure) => Err(failure),
            },
            ExprType::Ge(node) => match node.checked(meta, Ghost(self.model())) {
                Ok(found) => Ok((ExprType::Ge(found), Type::Bool)),
                Err(failure) => Err(failure),
            },
            ExprType::Binary(node) => match node.checked(meta, Ghost(self.model())) {
                Ok(found) => {
                    let kind = match found.op {
                        BinaryOperator::Sub => crate::modules::expression::binop::promoted(
                            &found.left.kind,
                            &found.right.kind,
                        ),
                        BinaryOperator::Mul => crate::modules::expression::binop::promoted(
                            &found.left.kind,
                            &found.right.kind,
                        ),
                        BinaryOperator::Div => crate::modules::expression::binop::promoted(
                            &found.left.kind,
                            &found.right.kind,
                        ),
                        BinaryOperator::Modulo => crate::modules::expression::binop::promoted(
                            &found.left.kind,
                            &found.right.kind,
                        ),
                        _ => Type::Bool,
                    };
                    Ok((ExprType::Binary(found), kind))
                },
                Err(failure) => Err(failure),
            },
            ExprType::Unary(node) => match node.checked(meta) {
                Ok(found) => Ok((ExprType::Unary(found.0), found.1)),
                Err(failure) => Err(failure),
            },
        }
    }
}

impl Expr {
    /// Checks the expression and gives the checked expression, which knows
    /// its type.
    pub fn checked(&self, meta: &mut ParserMetadata) -> (r: Result<Expr, Failure>)
        requires
            fit_for_checking(*old(meta)),
        ensures
            ({
                let step = typing::expr_checked(old(meta).words(), self.model(), old(meta)@);
                &&& checked_to(*old(meta), *final(meta), step.1)
                &&& match r {
                    Ok(node) => step.0 == Ok::<ExprV, FailureV>(node.model()),
                    Err(failure) => step.0 == Err::<ExprV, FailureV>(failure@),
                }
            }),
        decreases typing::rank(old(meta)@), self, 2nat,
    {
        reveal(typing::expr_checked);
        reveal(typing::node_checked);
        match &self.value {
            None => Err(fault("Cannot check an expression that was not parsed")),
            Some(node) => match node.checked(meta) {
                Ok(found) => Ok(Expr { value: Some(found.0), kind: found.1 }),
                Err(failure) => Err(failure),
            },
        }
    }

    /// Checks the expression in place: fills in its type and that of every
    /// expression in it.
    pub fn typecheck(&mut self, meta: &mut ParserMetadata) -> (r: SyntaxResult)
        requires
            fit_for_checking(*old(meta)),
        ensures
            ({
                let step = typing::expr_checked(old(meta).words(), old(self).model(), old(meta)@);
                &&& checked_to(*old(meta), *final(meta), step.1)
                &&& match r {
                    Ok(()) => step.0 == Ok::<ExprV, FailureV>(final(self).model()),
                    Err(failure) => step.0 == Err::<ExprV, FailureV>(failure@),
                }
            }),
    {
        match self.checked(meta) {
            Ok(found) => {
                *self = found;
                Ok(())
            },
            Err(failure) => Err(failure),
        }
    }

    /// Checks the expressions of `items` one after the other.
    pub fn checked_all(items: &Vec<Expr>, meta: &mut ParserMetadata) -> (r: Result<
        Vec<Expr>,
        Failure,
    >)
        requires
            fit_for_checking(*old(meta)),
        ensures
            ({
                let step = typing::list_checked(
                    old(meta).words(),
                    Expr::models_of(*items),
                    old(meta)@,
                    0,
                    Seq::empty(),
                );
                &&& checked_to(*old(meta), *final(meta), step.1)
                &&& match r {
                    Ok(found) => step.0 == Ok::<Seq<ExprV>, FailureV>(Expr::models_of(found)),
                    Err(failure) => step.0 == Err::<Seq<ExprV>, FailureV>(failure@),
                }
            }),
        decreases typing::rank(old(meta)@), items, items.len(),
    {
        let ghost words = meta.words();
        let ghost all = Expr::models_of(*items);
        let ghost goal = typing::list_checked(words, all, meta@, 0, Seq::empty());
        let mut out: Vec<Expr> = Vec::new();
        assert(Expr::models_of(out) =~= Seq::<ExprV>::empty());
        let mut i: usize = 0;
        while i < items.len()
            invariant
                i <= items.len(),
                words == old(meta).words(),
                all == Expr::models_of(*items),
                fit_for_checking(*meta),
                meta.tokens == old(meta).tokens,
                meta.visible == old(meta).visible,
                meta@.scopes.len() == old(meta)@.scopes.len(),
                meta@.fun_decls.len() == old(meta)@.fun_decls.len(),
                goal == typing::list_checked(words, all, old(meta)@, 0, Seq::empty()),
                goal == typing::list_checked(words, all, meta@, i as int, Expr::models_of(out)),
            decreases items.len() - i,
        {
            reveal(typing::list_checked);
            reveal(typing::expr_checked);
            assert(all[i as int] == items[i as int].model());
            match items[i].checked(meta) {
                Ok(found) => {
                    let ghost before = Expr::models_of(out);
                    out.push(found);
                    assert(Expr::models_of(out) =~= before.push(found.model()));
                },
                Err(failure) => {
                    return Err(failure);
                },
            }
            i = i + 1;
        }
        reveal(typing::list_checked);
        reveal(typing::expr_checked);
        Ok(out)
    }
}


impl ExprType {
    /// Translates the node.
    pub fn translate(&self, meta: &mut TranslateMetadata) -> (r: FragmentKind)
        ensures
            same_setting(*old(meta), *final(meta)),
            (r@, final(meta)@) == lowering::node_translated(self.model(), old(meta)@),
        decreases self, 1nat,
    {
        reveal(lowering::node_translated);
        reveal(lowering::parts_translated);
        reveal(lowering::list_translated);
        reveal(lowering::expr_translated);
        reveal(lowering::command_translated);
        reveal(lowering::invocation_translated);
        match self {
            ExprType::Bool(node) => if node.value {
                raw("1")
            } else {
                raw("0")
            },
            ExprType::Integer(node) => RawFragment::from(node.value.clone()).to_frag(),
            ExprType::Number(node) => RawFragment::from(node.value.clone()).to_frag(),
            ExprType::Text(node) => node.translate(meta),
            ExprType::Array(node) => {
                let items = Expr::translate_all(&node.exprs, meta);
                list_of(items, true)
            },
            ExprType::VariableGet(node) => VarExprFragment::new(
                node.name.as_str(),
                node.kind.clone(),
            ).with_global_id(node.global_id).to_frag(),
            ExprType::Parentheses(node) => node.value.translate(meta),
            ExprType::Command(node) => node.translate(meta),
            ExprType::FunctionInvocation(node) => node.translate(meta),
            ExprType::Add(node) => node.translate(meta),
            ExprType::Gt(node) => node.translate(meta),
            ExprType::Ge(node) => node.translate(meta),
            ExprType::Binary(node) => node.translate(meta),
            ExprType::Unary(node) => node.translate(meta),
        }
    }
}

impl Expr {
    /// Translates the expression to the fragment that stands for its
    /// value. What must run before is queued.
    pub fn translate(&self, meta: &mut TranslateMetadata) -> (r: FragmentKind)
        ensures
            same_setting(*old(meta), *final(meta)),
            (r@, final(meta)@) == lowering::expr_translated(self.model(), old(meta)@),
        decreases self, 2nat,
    {
        reveal(lowering::expr_translated);
        reveal(lowering::node_translated);
        match &self.value {
            None => FragmentKind::Empty,
            Some(node) => node.translate(meta),
        }
    }

    /// Translates the expressions of `items` one after the other.
    pub fn translate_all(items: &Vec<Expr>, meta: &mut TranslateMetadata) -> (r: Vec<FragmentKind>)
        ensures
            same_setting(*old(meta), *final(meta)),
            (FragmentKind::models_of(r), final(meta)@) == lowering::list_translated(
                Expr::models_of(*items),
                old(meta)@,
                0,
                Seq::empty(),
            ),
        decreases items, items.len(),
    {
        let ghost all = Expr::models_of(*items);
        let ghost goal = lowering::list_translated(all, meta@, 0, Seq::empty());
        let mut out = no_frags();
        let mut i: usize = 0;
        while i < items.len()
            invariant
                i <= items.len(),
                all == Expr::models_of(*items),
                same_setting(*old(meta), *meta),
                goal == lowering::list_translated(all, old(meta)@, 0, Seq::empty()),
                goal == lowering::list_translated(
                    all,
                    meta@,
                    i as int,
                    FragmentKind::models_of(out),
                ),
            decreases items.len() - i,
        {
            reveal(lowering::list_translated);
            reveal(lowering::expr_translated);
            assert(all[i as int] == items[i as int].model());
            let frag = items[i].translate(meta);
            push_frag(&mut out, frag);
            i = i + 1;
        }
        reveal(lowering::list_translated);
        out
    }
}

} // verus!
