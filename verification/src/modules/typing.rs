//! The rules of type checking, as functions from a node of the syntax tree
//! and a type checker state to the checked node and the state after it.
//!
//! Checking fills in what parsing left open: the type of every expression,
//! the global id of every variable, and for every call the declaration and
//! the variant that fits its arguments. The type checker of each node is proved
//! to compute the function of the same name in this file.

use crate::modules::expression::binop::BinaryOperator;
use crate::modules::expression::binop::UnaryOperator;
use crate::modules::grammar;
use crate::modules::model::BlockV;
use crate::modules::model::CommandV;
use crate::modules::model::DeclarationV;
use crate::modules::model::ExprTypeV;
use crate::modules::model::ExprV;
use crate::modules::model::FailureV;
use crate::modules::model::HandlerV;
use crate::modules::model::InstanceV;
use crate::modules::model::InvocationV;
use crate::modules::model::MetaV;
use crate::modules::model::StatementV;
use crate::modules::model::Step;
use crate::modules::model::TextPartV;
use crate::modules::model::loud;
use crate::modules::model::position_at;
use crate::modules::types::Type;
use crate::utils::context::Context;
use crate::utils::context::FunctionDeclV;
use crate::utils::context::VariableV;
use crate::utils::context::all_typed;
use vstd::prelude::*;

verus! {

/// The loud failure of the type checker with the error `message`.
pub open spec fn fault(message: Seq<char>) -> FailureV {
    loud(position_at(0), message, None)
}

/// The state is fit for checking: there is a scope, each declared function
/// has a body and a list of variants, and no more functions are visible than
/// are declared.
pub open spec fn typing_wf(m: MetaV) -> bool {
    &&& m.scopes.len() >= 1
    &&& m.fun_cache.len() == m.fun_decls.len()
    &&& m.fun_starts.len() == m.fun_decls.len()
    &&& m.visible <= m.fun_decls.len()
}

/// The last of the first `n` variables of `frame` with the name `name`.
pub open spec fn find_in_frame(frame: Seq<VariableV>, name: Seq<char>, n: int) -> Option<VariableV>
    decreases n,
{
    if n <= 0 || n > frame.len() {
        None
    } else if frame[n - 1].name == name {
        Some(frame[n - 1])
    } else {
        find_in_frame(frame, name, n - 1)
    }
}

/// The variable `name` as the innermost of the first `n` scopes declares it.
pub open spec fn find_in_scopes(scopes: Seq<Seq<VariableV>>, name: Seq<char>, n: int) -> Option<
    VariableV,
>
    decreases n,
{
    if n <= 0 || n > scopes.len() {
        None
    } else {
        match find_in_frame(scopes[n - 1], name, scopes[n - 1].len() as int) {
            Some(found) => Some(found),
            None => find_in_scopes(scopes, name, n - 1),
        }
    }
}

/// The variable `name` as it is visible in the state `m`.
pub open spec fn find_var(m: MetaV, name: Seq<char>) -> Option<VariableV> {
    find_in_scopes(m.scopes, name, m.scopes.len() as int)
}

/// The state with one more scope, which is empty.
pub open spec fn pushed(m: MetaV) -> MetaV {
    MetaV { scopes: m.scopes.push(Seq::empty()), ..m }
}

/// The state without its innermost scope.
pub open spec fn popped(m: MetaV) -> MetaV {
    MetaV {
        scopes: if m.scopes.len() > 0 {
            m.scopes.drop_last()
        } else {
            m.scopes
        },
        ..m
    }
}

/// The scopes with `var` added to the innermost one.
pub open spec fn with_var(scopes: Seq<Seq<VariableV>>, var: VariableV) -> Seq<Seq<VariableV>> {
    scopes.update(scopes.len() - 1, scopes[scopes.len() - 1].push(var))
}

/// Declares the variable `name` in the innermost scope and gives its global
/// id. Inside a function the variable gets the next free id, which keeps
/// the variables of its variants apart; elsewhere it gets none, and the
/// shell knows it under its own name. So two variables of one name outside
/// of functions, such as a variable of `main` and the parameter of a
/// handler inside `main`, are one variable of the shell.
pub open spec fn declared(m: MetaV, name: Seq<char>, kind: Type, is_ref: bool) -> Step<
    Option<usize>,
> {
    if m.scopes.len() == 0 {
        (Err(fault("No scope to declare a variable in"@)), m)
    } else if m.context.is_fun_ctx {
        if m.var_id == usize::MAX {
            (Err(fault("Too many variables"@)), m)
        } else {
            (
                Ok(Some(m.var_id)),
                MetaV {
                    scopes: with_var(
                        m.scopes,
                        VariableV { name, kind, global_id: Some(m.var_id), is_ref },
                    ),
                    var_id: (m.var_id + 1) as usize,
                    ..m
                },
            )
        }
    } else {
        (
            Ok(None),
            MetaV {
                scopes: with_var(m.scopes, VariableV { name, kind, global_id: None, is_ref }),
                ..m
            },
        )
    }
}

/// The id of the last of the first `n` declarations with the name `name`.
pub open spec fn find_fun(decls: Seq<FunctionDeclV>, name: Seq<char>, n: int) -> Option<int>
    decreases n,
{
    if n <= 0 || n > decls.len() {
        None
    } else if decls[n - 1].name == name {
        Some(n - 1)
    } else {
        find_fun(decls, name, n - 1)
    }
}

/// The id of the first variant from `from` on whose argument types are
/// `args`.
pub open spec fn find_variant(instances: Seq<InstanceV>, args: Seq<Type>, from: int) -> Option<int>
    decreases instances.len() - from,
{
    if from < 0 || from >= instances.len() {
        None
    } else if instances[from].args == args {
        Some(from)
    } else {
        find_variant(instances, args, from + 1)
    }
}

/// The types of a list of checked expressions.
pub open spec fn kinds_of(exprs: Seq<ExprV>) -> Seq<Type> {
    Seq::new(exprs.len(), |i: int| exprs[i].kind)
}

/// Whether a value of this type can be compared and added: a number, a
/// text, or an array of one of these.
pub open spec fn is_operand(kind: Type) -> bool {
    kind == Type::Num || kind == Type::Int || kind == Type::Text || kind == Type::Array(
        Box::new(Type::Num),
    ) || kind == Type::Array(Box::new(Type::Int)) || kind == Type::Array(Box::new(Type::Text))
}

/// The message for operands that do not fit the operator.
pub open spec fn operand_message(operator: Seq<char>, left: Type, right: Type) -> Seq<char> {
    "Cannot perform "@ + operator + " on value of type '"@ + left.name()
        + "' and value of type '"@ + right.name() + "'"@
}

/// The type that both operands of `operator` have. The two types must be
/// the same, and fit for the operator: see [`is_operand`]. So an `Int` is
/// never compared with a `Num`, nor an array of one with an array of the
/// other.
pub open spec fn operand_kind(operator: Seq<char>, left: Type, right: Type) -> Result<
    Type,
    FailureV,
> {
    if is_operand(left) && is_operand(right) && left == right {
        Ok(left)
    } else {
        Err(fault(operand_message(operator, left, right)))
    }
}

/// The type of a sum whose operands have the types `left` and `right`:
/// `Num` if one of them is `Num`, and `left` otherwise.
pub open spec fn promoted(left: Type, right: Type) -> Type {
    if right == Type::Num {
        Type::Num
    } else {
        left
    }
}

/// The type of the sum of two values: the type of both if they have the
/// same type and the type can be added; `Num` for an `Int` and a `Num`,
/// whichever comes first.
pub open spec fn sum_kind(left: Type, right: Type) -> Result<Type, FailureV> {
    if is_operand(left) && left == right {
        Ok(left)
    } else if (left == Type::Int && right == Type::Num) || (left == Type::Num && right
        == Type::Int) {
        Ok(Type::Num)
    } else {
        Err(fault(operand_message("addition"@, left, right)))
    }
}

/// Whether `kind` is `Int` or `Num`.
pub open spec fn is_number(kind: Type) -> bool {
    kind == Type::Int || kind == Type::Num
}

/// The type of the value of `left op right` for an operator without a node
/// of its own. `or` and `and` take two `Bool` and give a `Bool`; `<` and
/// `<=` take what `>` takes and give a `Bool`; `==` and `!=` take two values
/// of one type, which can be compared or is `Bool`, and give a `Bool`; `-`,
/// `*`, `/` and `%` take two numbers and give an `Int` for two `Int` and a
/// `Num` otherwise.
pub open spec fn binary_kind(op: BinaryOperator, left: Type, right: Type) -> Result<
    Type,
    FailureV,
> {
    let fits = match op {
        BinaryOperator::Or => left == Type::Bool && right == Type::Bool,
        BinaryOperator::And => left == Type::Bool && right == Type::Bool,
        BinaryOperator::Lt => is_operand(left) && left == right,
        BinaryOperator::Le => is_operand(left) && left == right,
        BinaryOperator::Eq => (is_operand(left) || left == Type::Bool) && left == right,
        BinaryOperator::Neq => (is_operand(left) || left == Type::Bool) && left == right,
        _ => is_number(left) && is_number(right),
    };
    if fits {
        Ok(binary_type(op, left, right))
    } else {
        Err(fault(operand_message(op.word(), left, right)))
    }
}

/// The type of the value of `left op right` where the operands fit.
pub open spec fn binary_type(op: BinaryOperator, left: Type, right: Type) -> Type {
    match op {
        BinaryOperator::Sub => promoted(left, right),
        BinaryOperator::Mul => promoted(left, right),
        BinaryOperator::Div => promoted(left, right),
        BinaryOperator::Modulo => promoted(left, right),
        _ => Type::Bool,
    }
}

/// The type of the value of `sign operand`: `not` takes a `Bool`, and `-` a
/// number; both give the type that they take.
pub open spec fn unary_kind(sign: UnaryOperator, operand: Type) -> Result<Type, FailureV> {
    match sign {
        UnaryOperator::Not => if operand == Type::Bool {
            Ok(Type::Bool)
        } else {
            Err(fault("Cannot negate a value of type '"@ + operand.name() + "'"@))
        },
        UnaryOperator::Neg => if is_number(operand) {
            Ok(operand)
        } else {
            Err(fault("Cannot negate a value of type '"@ + operand.name() + "'"@))
        },
    }
}

/// The type that the operands of the operator node `node` give: that of a
/// sum for a sum, that of both operands for `>` and `>=`, and what
/// [`binary_kind`] says for the other operators.
pub open spec fn operands_kind(node: ExprTypeV, operator: Seq<char>, left: Type, right: Type)
    -> Result<Type, FailureV> {
    match node {
        ExprTypeV::Add(_, _) => sum_kind(left, right),
        ExprTypeV::Binary { op, .. } => binary_kind(op, left, right),
        _ => operand_kind(operator, left, right),
    }
}

/// The type of an array of the checked expressions `exprs`: all of them
/// must have the type of the first, which is no array. The empty array has
/// items of type `Generic`.
pub open spec fn array_kind(exprs: Seq<ExprV>) -> Result<Type, FailureV> {
    if exprs.len() == 0 {
        Ok(Type::Array(Box::new(Type::Generic)))
    } else if exprs[0].kind is Array {
        Err(fault("Arrays cannot be nested"@))
    } else if forall|i: int| 0 <= i < exprs.len() ==> (#[trigger] exprs[i]).kind == exprs[0].kind {
        Ok(Type::Array(Box::new(exprs[0].kind)))
    } else {
        Err(fault("Expected array values of the same type"@))
    }
}

/// Whether every argument that is passed by reference is a plain variable.
pub open spec fn refs_fit(refs: Seq<bool>, args: Seq<ExprV>) -> bool {
    forall|i: int|
        0 <= i < args.len() && i < refs.len() && refs[i] ==> (#[trigger] args[i]).value matches Some(
            ExprTypeV::VariableGet { .. },
        )
}

/// The rank of the state in the order that makes checking end: checking the
/// body of a function lowers it.
pub open spec fn rank(m: MetaV) -> nat {
    (2 * m.visible + 1) as nat
}

/// An expression: its node is checked, and the expression gets the type of
/// the node.
#[verifier::opaque]
pub open spec fn expr_checked(words: Seq<Seq<char>>, e: ExprV, m: MetaV) -> Step<ExprV>
    decreases rank(m), e, 2nat,
{
    match e.value {
        None => (Err(fault("Cannot check an expression that was not parsed"@)), m),
        Some(node) => {
            let checked = node_checked(words, node, m);
            match checked.0 {
                Ok(found) => (Ok(ExprV { value: Some(found.0), kind: found.1 }), checked.1),
                Err(failure) => (Err(failure), checked.1),
            }
        },
    }
}

/// The node of an expression, and its type: `Bool`, `Int`, `Num` and `Text`
/// for the literals and the command, the type of its declaration for a
/// variable, the type of the inner expression for round brackets, the type
/// of the variant for a call, the type of the operands for a sum, and `Bool`
/// for a comparison.
#[verifier::opaque]
pub open spec fn node_checked(words: Seq<Seq<char>>, node: ExprTypeV, m: MetaV) -> Step<
    (ExprTypeV, Type),
>
    decreases rank(m), node, 1nat,
{
    match node {
        ExprTypeV::Bool(_) => (Ok((node, Type::Bool)), m),
        ExprTypeV::Integer(_) => (Ok((node, Type::Int)), m),
        ExprTypeV::Number(_) => (Ok((node, Type::Num)), m),
        ExprTypeV::Text(parts) => {
            let checked = parts_checked(words, parts, m, 0, Seq::empty());
            match checked.0 {
                Ok(found) => (Ok((ExprTypeV::Text(found), Type::Text)), checked.1),
                Err(failure) => (Err(failure), checked.1),
            }
        },
        ExprTypeV::Array { exprs, kind } => {
            let checked = list_checked(words, exprs, m, 0, Seq::empty());
            match checked.0 {
                Ok(found) => match array_kind(found) {
                    Ok(kind) => (Ok((ExprTypeV::Array { exprs: found, kind }, kind)), checked.1),
                    Err(failure) => (Err(failure), checked.1),
                },
                Err(failure) => (Err(failure), checked.1),
            }
        },
        ExprTypeV::VariableGet { name, .. } => match find_var(m, name) {
            Some(var) => (
                Ok(
                    (
                        ExprTypeV::VariableGet {
                            name,
                            kind: var.kind,
                            global_id: var.global_id,
                            is_ref: var.is_ref,
                        },
                        var.kind,
                    ),
                ),
                m,
            ),
            None => (Err(fault("Variable '"@ + name + "' does not exist"@)), m),
        },
        ExprTypeV::Parentheses(inner) => {
            let checked = expr_checked(words, *inner, m);
            match checked.0 {
                Ok(found) => (
                    Ok((ExprTypeV::Parentheses(Box::new(found)), found.kind)),
                    checked.1,
                ),
                Err(failure) => (Err(failure), checked.1),
            }
        },
        ExprTypeV::Command(command) => {
            let checked = command_checked(words, command, m);
            match checked.0 {
                Ok(found) => (Ok((ExprTypeV::Command(found), Type::Text)), checked.1),
                Err(failure) => (Err(failure), checked.1),
            }
        },
        ExprTypeV::FunctionInvocation(call) => {
            let checked = invocation_checked(words, call, m);
            match checked.0 {
                Ok(found) => (Ok((ExprTypeV::FunctionInvocation(found), found.kind)), checked.1),
                Err(failure) => (Err(failure), checked.1),
            }
        },
        ExprTypeV::Add(left, right) => {
            let checked = operands_checked(words, node, m, "addition"@);
            match checked.0 {
                Ok(found) => (
                    Ok(
                        (
                            ExprTypeV::Add(Box::new(found.0), Box::new(found.1)),
                            promoted(found.0.kind, found.1.kind),
                        ),
                    ),
                    checked.1,
                ),
                Err(failure) => (Err(failure), checked.1),
            }
        },
        ExprTypeV::Gt(left, right) => {
            let checked = operands_checked(words, node, m, "comparison"@);
            match checked.0 {
                Ok(found) => (
                    Ok((ExprTypeV::Gt(Box::new(found.0), Box::new(found.1)), Type::Bool)),
                    checked.1,
                ),
                Err(failure) => (Err(failure), checked.1),
            }
        },
        ExprTypeV::Ge(left, right) => {
            let checked = operands_checked(words, node, m, "comparison"@);
            match checked.0 {
                Ok(found) => (
                    Ok((ExprTypeV::Ge(Box::new(found.0), Box::new(found.1)), Type::Bool)),
                    checked.1,
                ),
                Err(failure) => (Err(failure), checked.1),
            }
        },
        ExprTypeV::Binary { op, left, right } => {
            let checked = operands_checked(words, node, m, op.word());
            match checked.0 {
                Ok(found) => (
                    Ok(
                        (
                            ExprTypeV::Binary {
                                op,
                                left: Box::new(found.0),
                                right: Box::new(found.1),
                            },
                            binary_type(op, found.0.kind, found.1.kind),
                        ),
                    ),
                    checked.1,
                ),
                Err(failure) => (Err(failure), checked.1),
            }
        },
        ExprTypeV::Unary { sign, operand } => {
            let checked = expr_checked(words, *operand, m);
            match checked.0 {
                Ok(found) => match unary_kind(sign, found.kind) {
                    Ok(kind) => (
                        Ok((ExprTypeV::Unary { sign, operand: Box::new(found) }, kind)),
                        checked.1,
                    ),
                    Err(failure) => (Err(failure), checked.1),
                },
                Err(failure) => (Err(failure), checked.1),
            }
        },
    }
}

/// The two operands of the operator node `node`, checked; their types must
/// fit the operator: see [`operands_kind`].
#[verifier::opaque]
pub open spec fn operands_checked(
    words: Seq<Seq<char>>,
    node: ExprTypeV,
    m: MetaV,
    operator: Seq<char>,
) -> Step<(ExprV, ExprV)>
    decreases rank(m), node, 0nat,
{
    match node {
        ExprTypeV::Add(left, right) | ExprTypeV::Gt(left, right) | ExprTypeV::Ge(left, right)
        | ExprTypeV::Binary { left, right, .. } => {
            let l = expr_checked(words, *left, m);
            match l.0 {
                Err(failure) => (Err(failure), l.1),
                Ok(a) => if rank(l.1) == rank(m) {
                    let r = expr_checked(words, *right, l.1);
                    match r.0 {
                        Err(failure) => (Err(failure), r.1),
                        Ok(b) => match operands_kind(node, operator, a.kind, b.kind) {
                            Ok(_) => (Ok((a, b)), r.1),
                            Err(failure) => (Err(failure), r.1),
                        },
                    }
                } else {
                    (Err(fault("The type checker lost its place"@)), l.1)
                },
            }
        },
        _ => (Err(fault("Not an operator"@)), m),
    }
}

/// Whether the node is one of the comparisons `>`, `>=`, `<` and `<=`.
pub open spec fn is_ordering(node: ExprTypeV) -> bool {
    match node {
        ExprTypeV::Gt(_, _) => true,
        ExprTypeV::Ge(_, _) => true,
        ExprTypeV::Binary { op, .. } => op == BinaryOperator::Lt || op == BinaryOperator::Le,
        _ => false,
    }
}

/// A comparison that checks has two operands of one type, which is a
/// number, a text, or an array of one of these. So a value of type `Int` is
/// never compared with a value of type `Num`, nor an array of the one with
/// an array of the other: such a comparison is a type error.
pub proof fn lemma_compared_values_have_one_type(
    words: Seq<Seq<char>>,
    node: ExprTypeV,
    m: MetaV,
    operator: Seq<char>,
)
    requires
        is_ordering(node),
    ensures
        operands_checked(words, node, m, operator).0 matches Ok(sides) ==> sides.0.kind
            == sides.1.kind && is_operand(sides.0.kind),
{
    reveal(operands_checked);
}

/// The parts of a text or command from position `i` on, checked one after
/// the other. `acc` holds the checked parts so far.
#[verifier::opaque]
pub open spec fn parts_checked(
    words: Seq<Seq<char>>,
    parts: Seq<TextPartV>,
    m: MetaV,
    i: int,
    acc: Seq<TextPartV>,
) -> Step<Seq<TextPartV>>
    decreases rank(m), parts, parts.len() - i,
{
    if i < 0 || i >= parts.len() {
        (Ok(acc), m)
    } else {
        match parts[i] {
            TextPartV::String(_) => parts_checked(words, parts, m, i + 1, acc.push(parts[i])),
            TextPartV::Expr(expr) => {
                let checked = expr_checked(words, *expr, m);
                match checked.0 {
                    Err(failure) => (Err(failure), checked.1),
                    Ok(found) => if rank(checked.1) == rank(m) {
                        parts_checked(
                            words,
                            parts,
                            checked.1,
                            i + 1,
                            acc.push(TextPartV::Expr(Box::new(found))),
                        )
                    } else {
                        (Err(fault("The type checker lost its place"@)), checked.1)
                    },
                }
            },
        }
    }
}

/// The expressions of a list from position `i` on, checked one after the
/// other. `acc` holds the checked expressions so far.
#[verifier::opaque]
pub open spec fn list_checked(
    words: Seq<Seq<char>>,
    items: Seq<ExprV>,
    m: MetaV,
    i: int,
    acc: Seq<ExprV>,
) -> Step<Seq<ExprV>>
    decreases rank(m), items, items.len() - i,
{
    if i < 0 || i >= items.len() {
        (Ok(acc), m)
    } else {
        let checked = expr_checked(words, items[i], m);
        match checked.0 {
            Err(failure) => (Err(failure), checked.1),
            Ok(found) => if rank(checked.1) == rank(m) {
                list_checked(words, items, checked.1, i + 1, acc.push(found))
            } else {
                (Err(fault("The type checker lost its place"@)), checked.1)
            },
        }
    }
}

/// The message of the error that a trusted command with `?` gets.
pub open spec fn trust_conflict_message() -> Seq<char> {
    "The '?' operator cannot be used together with the 'trust' modifier"@
}

/// A command: its parts and its handlers are checked. The modifier `trust`
/// and the mark `?` on the same command are an error.
#[verifier::opaque]
pub open spec fn command_checked(words: Seq<Seq<char>>, command: CommandV, m: MetaV) -> Step<
    CommandV,
>
    decreases rank(m), command, 1nat,
{
    let parts = parts_checked(words, command.parts, m, 0, Seq::empty());
    match parts.0 {
        Err(failure) => (Err(failure), parts.1),
        Ok(p) => if command.modifier.is_trust && command.is_propagating() {
            (Err(fault(trust_conflict_message())), parts.1)
        } else if rank(parts.1) != rank(m) {
            (Err(fault("The type checker lost its place"@)), parts.1)
        } else {
            let failed = handler_checked(words, command.failed, parts.1);
            match failed.0 {
                Err(failure) => (Err(failure), failed.1),
                Ok(f) => if rank(failed.1) != rank(m) {
                    (Err(fault("The type checker lost its place"@)), failed.1)
                } else {
                    let succeeded = handler_checked(words, command.succeeded, failed.1);
                    match succeeded.0 {
                        Err(failure) => (Err(failure), succeeded.1),
                        Ok(s) => if rank(succeeded.1) != rank(m) {
                            (Err(fault("The type checker lost its place"@)), succeeded.1)
                        } else {
                            let exited = handler_checked(words, command.exited, succeeded.1);
                            match exited.0 {
                                Err(failure) => (Err(failure), exited.1),
                                Ok(e) => (
                                    Ok(
                                        CommandV {
                                            parts: p,
                                            failed: f,
                                            succeeded: s,
                                            exited: e,
                                            ..command
                                        },
                                    ),
                                    exited.1,
                                ),
                            }
                        },
                    }
                },
            }
        },
    }
}

/// A handler: its block is checked in a scope of its own, in which the
/// parameter, if there is one, is an `Int`. A handler that was not parsed,
/// and the mark `?`, have no block.
#[verifier::opaque]
pub open spec fn handler_checked(words: Seq<Seq<char>>, handler: HandlerV, m: MetaV) -> Step<
    HandlerV,
>
    decreases rank(m), handler, 1nat,
{
    if !handler.is_parsed || handler.is_question_mark {
        (Ok(HandlerV { block: BlockV { statements: Seq::empty() }, ..handler }), m)
    } else {
        let param = if handler.param_name.len() > 0 {
            declared(pushed(m), handler.param_name, Type::Int, false)
        } else {
            (Ok(None), pushed(m))
        };
        match param.0 {
            Err(failure) => (Err(failure), popped(param.1)),
            Ok(id) => if rank(param.1) != rank(m) {
                (Err(fault("The type checker lost its place"@)), popped(param.1))
            } else {
                let block = block_checked(words, handler.block, param.1);
                match block.0 {
                    Err(failure) => (Err(failure), popped(block.1)),
                    Ok(b) => (
                        Ok(HandlerV { block: b, param_global_id: id, ..handler }),
                        popped(block.1),
                    ),
                }
            },
        }
    }
}

/// A block: its statements are checked in a scope of their own.
#[verifier::opaque]
pub open spec fn block_checked(words: Seq<Seq<char>>, block: BlockV, m: MetaV) -> Step<BlockV>
    decreases rank(m), block, 1nat,
{
    let checked = statements_checked(words, block.statements, pushed(m), 0, Seq::empty());
    match checked.0 {
        Ok(statements) => (Ok(BlockV { statements }), popped(checked.1)),
        Err(failure) => (Err(failure), popped(checked.1)),
    }
}

/// The statements of a block from position `i` on, checked one after the
/// other. `acc` holds the checked statements so far.
#[verifier::opaque]
pub open spec fn statements_checked(
    words: Seq<Seq<char>>,
    items: Seq<StatementV>,
    m: MetaV,
    i: int,
    acc: Seq<StatementV>,
) -> Step<Seq<StatementV>>
    decreases rank(m), items, items.len() - i,
{
    if i < 0 || i >= items.len() {
        (Ok(acc), m)
    } else {
        let checked = statement_checked(words, items[i], m);
        match checked.0 {
            Err(failure) => (Err(failure), checked.1),
            Ok(found) => if rank(checked.1) == rank(m) {
                statements_checked(words, items, checked.1, i + 1, acc.push(found))
            } else {
                (Err(fault("The type checker lost its place"@)), checked.1)
            },
        }
    }
}

/// The message of the error that a second type of result gets.
pub open spec fn return_message(expected: Type, found: Type) -> Seq<char> {
    "Expected a result of type '"@ + expected.name() + "' but found '"@ + found.name() + "'"@
}

/// A statement. A declared variable gets the type of its expression. The
/// first `return` of a function without declared type of result fixes that
/// type, and every `return` must have it. A function is declared at the top
/// of a file only.
#[verifier::opaque]
pub open spec fn statement_checked(words: Seq<Seq<char>>, statement: StatementV, m: MetaV) -> Step<
    StatementV,
>
    decreases rank(m), statement, 1nat,
{
    match statement {
        StatementV::VariableInit { name, expr, .. } => {
            let value = expr_checked(words, expr, m);
            match value.0 {
                Err(failure) => (Err(failure), value.1),
                Ok(found) => {
                    let var = declared(value.1, name, found.kind, false);
                    match var.0 {
                        Err(failure) => (Err(failure), var.1),
                        Ok(id) => (
                            Ok(StatementV::VariableInit { name, expr: found, global_id: id }),
                            var.1,
                        ),
                    }
                },
            }
        },
        StatementV::Echo(expr) => {
            let value = expr_checked(words, expr, m);
            match value.0 {
                Err(failure) => (Err(failure), value.1),
                Ok(found) => (Ok(StatementV::Echo(found)), value.1),
            }
        },
        StatementV::Return(expr) => {
            let value = expr_checked(words, expr, m);
            match value.0 {
                Err(failure) => (Err(failure), value.1),
                Ok(found) => match value.1.fun_ret_type {
                    None => (
                        Ok(StatementV::Return(found)),
                        MetaV { fun_ret_type: Some(found.kind), ..value.1 },
                    ),
                    Some(expected) => if expected == found.kind {
                        (Ok(StatementV::Return(found)), value.1)
                    } else {
                        (Err(fault(return_message(expected, found.kind))), value.1)
                    },
                },
            }
        },
        StatementV::Expr(expr) => {
            let value = expr_checked(words, expr, m);
            match value.0 {
                Err(failure) => (Err(failure), value.1),
                Ok(found) => (Ok(StatementV::Expr(found)), value.1),
            }
        },
        StatementV::Main(block) => {
            let inside = m.within(Context { is_main_ctx: true, ..m.context });
            let checked = block_checked(words, block, inside);
            match checked.0 {
                Err(failure) => (Err(failure), checked.1.within(m.context)),
                Ok(found) => (Ok(StatementV::Main(found)), checked.1.within(m.context)),
            }
        },
        StatementV::FunctionDeclaration(_) => (
            Err(fault("Functions can only be declared at the top of a file"@)),
            m,
        ),
    }
}

/// A call: the arguments are checked; the function must be declared and
/// visible, take as many arguments as are given, get a plain variable
/// wherever it takes a reference, and, if all its parameters have a type,
/// get arguments of just these types. The call is linked to the variant of
/// the function whose argument types are those of the arguments: the first
/// such variant in the cache, or a new one.
#[verifier::opaque]
pub open spec fn invocation_checked(words: Seq<Seq<char>>, call: InvocationV, m: MetaV) -> Step<
    InvocationV,
>
    decreases rank(m), call, 1nat,
{
    let args = list_checked(words, call.args, m, 0, Seq::empty());
    match args.0 {
        Err(failure) => (Err(failure), args.1),
        Ok(found) => match find_fun(args.1.fun_decls, call.name, args.1.visible as int) {
            None => (Err(fault("Function '"@ + call.name + "' does not exist"@)), args.1),
            Some(id) => {
                let decl = args.1.fun_decls[id];
                let kinds = kinds_of(found);
                if found.len() != decl.arg_names.len() || found.len() != decl.arg_types.len() {
                    (
                        Err(
                            fault(
                                "Function '"@ + call.name
                                    + "' is called with a wrong number of arguments"@,
                            ),
                        ),
                        args.1,
                    )
                } else if !refs_fit(decl.arg_refs, found) {
                    (
                        Err(
                            fault(
                                "Function '"@ + call.name
                                    + "' takes a reference: pass a variable"@,
                            ),
                        ),
                        args.1,
                    )
                } else if decl.is_args_typed && kinds != decl.arg_types {
                    (
                        Err(
                            fault(
                                "Function '"@ + call.name
                                    + "' is called with arguments of other types than declared"@,
                            ),
                        ),
                        args.1,
                    )
                } else if rank(args.1) != rank(m) || !typing_wf(args.1) || !(0 <= id
                    < args.1.visible) {
                    (Err(fault("The type checker lost its place"@)), args.1)
                } else {
                    match find_variant(args.1.fun_cache[id], kinds, 0) {
                        Some(variant) => (
                            Ok(
                                InvocationV {
                                    name: call.name,
                                    args: found,
                                    refs: decl.arg_refs,
                                    kind: args.1.fun_cache[id][variant].returns,
                                    variant_id: variant as usize,
                                    id: id as usize,
                                },
                            ),
                            args.1,
                        ),
                        None => {
                            let variant = instantiated(words, args.1, id, kinds);
                            match variant.0 {
                                Err(failure) => (Err(failure), variant.1),
                                Ok(v) => (
                                    Ok(
                                        InvocationV {
                                            name: call.name,
                                            args: found,
                                            refs: decl.arg_refs,
                                            kind: v.0,
                                            variant_id: v.1,
                                            id: id as usize,
                                        },
                                    ),
                                    variant.1,
                                ),
                            }
                        },
                    }
                }
            },
        },
    }
}

/// The state `inner` with the place of `outer`: its cursor, context, scopes,
/// type of result and visible functions.
pub open spec fn restored(inner: MetaV, outer: MetaV) -> MetaV {
    MetaV {
        index: outer.index,
        context: outer.context,
        scopes: outer.scopes,
        fun_ret_type: outer.fun_ret_type,
        visible: outer.visible,
        ..inner
    }
}

/// The state in which the body of the function `id` is parsed and checked:
/// the cursor at the start of the body, the context of a function, one empty
/// scope, the declared type of the result if there is one, and only the
/// functions declared before this one visible.
pub open spec fn entered(m: MetaV, id: int) -> MetaV {
    MetaV {
        index: m.fun_starts[id] as int,
        context: Context {
            is_loop_ctx: false,
            is_fun_ctx: true,
            is_trust_ctx: false,
            is_main_ctx: false,
        },
        scopes: seq![Seq::empty()],
        fun_ret_type: if m.fun_decls[id].returns == Type::Generic {
            None
        } else {
            Some(m.fun_decls[id].returns)
        },
        visible: id as usize,
        ..m
    }
}

/// Declares the parameters from position `i` on with the types `kinds`.
pub open spec fn params_declared(
    m: MetaV,
    names: Seq<Seq<char>>,
    kinds: Seq<Type>,
    refs: Seq<bool>,
    i: int,
) -> Step<()>
    decreases names.len() - i,
{
    if i < 0 || i >= names.len() || i >= kinds.len() || i >= refs.len() {
        (Ok(()), m)
    } else {
        let var = declared(m, names[i], kinds[i], refs[i]);
        match var.0 {
            Err(failure) => (Err(failure), var.1),
            Ok(_) => params_declared(var.1, names, kinds, refs, i + 1),
        }
    }
}

/// A new variant of the function `id` for arguments of the types `kinds`:
/// the body is parsed anew and checked with the parameters declared with
/// these types; the variant gets the next free id of the function, and the
/// declared type of result, or else the type of the first `return`, or
/// `Null`. Gives the type of result and the id of the variant.
#[verifier::opaque]
pub open spec fn instantiated(words: Seq<Seq<char>>, m: MetaV, id: int, kinds: Seq<Type>) -> Step<
    (Type, usize),
>
    decreases 2 * id + 2,
{
    if !(0 <= id < m.visible && typing_wf(m) && m.fun_starts[id] <= words.len()) {
        (Err(fault("No such function"@)), m)
    } else {
        let decl = m.fun_decls[id];
        let parsed = grammar::block_parsed(words, entered(m, id));
        match parsed.0 {
            Err(failure) => (Err(failure), restored(parsed.1, m)),
            Ok(body) => {
                let params = params_declared(parsed.1, decl.arg_names, kinds, decl.arg_refs, 0);
                match params.0 {
                    Err(failure) => (Err(failure), restored(params.1, m)),
                    Ok(_) => if params.1.visible != id {
                        (Err(fault("The type checker lost its place"@)), restored(params.1, m))
                    } else {
                        let checked = block_checked(words, body, params.1);
                        match checked.0 {
                            Err(failure) => (Err(failure), restored(checked.1, m)),
                            Ok(block) => if !(id < checked.1.fun_cache.len()
                                && checked.1.fun_cache[id].len() < usize::MAX) {
                                (Err(fault("Too many variants"@)), restored(checked.1, m))
                            } else {
                                let result_type = if decl.returns == Type::Generic {
                                    match checked.1.fun_ret_type {
                                        Some(kind) => kind,
                                        None => Type::Null,
                                    }
                                } else {
                                    decl.returns
                                };
                                let variant = checked.1.fun_cache[id].len() as usize;
                                let instance = InstanceV {
                                    variant_id: variant,
                                    args: kinds,
                                    returns: result_type,
                                    block,
                                    first_var_id: parsed.1.var_id,
                                };
                                (
                                    Ok((result_type, variant)),
                                    MetaV {
                                        fun_cache: checked.1.fun_cache.update(
                                            id,
                                            checked.1.fun_cache[id].push(instance),
                                        ),
                                        ..restored(checked.1, m)
                                    },
                                )
                            },
                        }
                    },
                }
            },
        }
    }
}

/// The declaration of a function: its name must be new. The function gets
/// the next free id and becomes visible; its body is checked when it is
/// called, so the checked declaration holds no body.
pub open spec fn declaration_checked(d: DeclarationV, m: MetaV) -> Step<DeclarationV> {
    if find_fun(m.fun_decls, d.name, m.fun_decls.len() as int) is Some {
        (Err(fault("Function '"@ + d.name + "' is already declared"@)), m)
    } else if m.visible != m.fun_decls.len() || m.fun_decls.len() >= usize::MAX {
        (Err(fault("Functions can only be declared at the top of a file"@)), m)
    } else {
        let id = m.fun_decls.len() as usize;
        let decl = FunctionDeclV {
            name: d.name,
            arg_names: d.arg_names,
            arg_types: d.arg_types,
            arg_refs: d.arg_refs,
            returns: d.returns,
            is_args_typed: all_typed(d.arg_types),
            is_public: d.is_public,
            id,
        };
        (
            Ok(DeclarationV { id, body: BlockV { statements: Seq::empty() }, ..d }),
            MetaV {
                fun_decls: m.fun_decls.push(decl),
                fun_starts: m.fun_starts.push(d.body_start),
                fun_cache: m.fun_cache.push(Seq::empty()),
                visible: (id + 1) as usize,
                ..m
            },
        )
    }
}

/// The statements of a file from position `i` on, checked one after the
/// other in the scope of the file. `acc` holds the checked statements so
/// far.
pub open spec fn global_checked(
    words: Seq<Seq<char>>,
    items: Seq<StatementV>,
    m: MetaV,
    i: int,
    acc: Seq<StatementV>,
) -> Step<Seq<StatementV>>
    decreases items.len() - i,
{
    if i < 0 || i >= items.len() {
        (Ok(acc), m)
    } else {
        let checked = match items[i] {
            StatementV::FunctionDeclaration(d) => {
                let declared = declaration_checked(d, m);
                match declared.0 {
                    Ok(found) => (Ok(StatementV::FunctionDeclaration(found)), declared.1),
                    Err(failure) => (Err(failure), declared.1),
                }
            },
            _ => statement_checked(words, items[i], m),
        };
        match checked.0 {
            Err(failure) => (Err(failure), checked.1),
            Ok(found) => global_checked(words, items, checked.1, i + 1, acc.push(found)),
        }
    }
}

} // verus!
