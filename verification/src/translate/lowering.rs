//! The rules of translation, as functions from a checked node of the syntax
//! tree and a translator state to a fragment and the state after it.
//!
//! The translator of each node is proved to compute the function of the
//! same name in this file.

use crate::modules::expression::binop::BinaryOperator;
use crate::modules::expression::binop::UnaryOperator;
use crate::modules::model::BlockV;
use crate::modules::model::CommandV;
use crate::modules::model::ExprTypeV;
use crate::modules::model::ExprV;
use crate::modules::model::HandlerV;
use crate::modules::model::InstanceV;
use crate::modules::model::InvocationV;
use crate::modules::model::StatementV;
use crate::modules::model::TextPartV;
use crate::modules::types::Type;
use crate::text::decimal;
use crate::translate::compare::ComparisonOperator;
use crate::translate::compute::ArithOp;
use crate::translate::fragments::model::FragmentV;
use crate::translate::fragments::model::PartV;
use crate::translate::fragments::model::RenderContext;
use crate::translate::fragments::model::var_name;
use crate::translate::fragments::quoting::InterpolableRenderType;
use crate::utils::metadata::translate::FunV;
use crate::utils::metadata::translate::TranslateV;
use crate::utils::metadata::translate::sudo_expr;
use crate::utils::metadata::translate::sudo_stmt;
use vstd::prelude::*;

verus! {

/// What a step of translation gives: the fragment, and the state.
pub type Lowered = (FragmentV, TranslateV);

/// The fragments `values` with one space between them.
pub open spec fn spaced(values: Seq<FragmentV>) -> FragmentV {
    FragmentV::List { values, separator: " "@ }
}

/// The fragments `values` with nothing between them.
pub open spec fn glued(values: Seq<FragmentV>) -> FragmentV {
    FragmentV::List { values, separator: Seq::empty() }
}

/// The computation of `left operator right` with `bc`:
/// `$(echo "LEFT OP RIGHT" | bc -l | sed 's/^\./0./')`, the operands without
/// quotes of their own.
pub open spec fn bc_sed(operator: ArithOp, left: FragmentV, right: FragmentV) -> FragmentV {
    FragmentV::Subprocess(
        Box::new(
            glued(
                seq![
                    FragmentV::Raw("echo \""@),
                    left.with_quotes(false),
                    FragmentV::Raw(" "@ + operator.symbol() + " "@),
                    right.with_quotes(false),
                    FragmentV::Raw("\" | bc -l | sed 's/^\\./0./'"@),
                ],
            ),
        ),
    )
}

/// The value that stands for an array when it is compared as a text: a
/// reference to a variable gives its items as one word.
pub open spec fn as_one_word(frag: FragmentV) -> FragmentV {
    match frag {
        FragmentV::VarExpr { name, kind, global_id, quoted, array_to_string } => FragmentV::VarExpr {
            name,
            kind,
            global_id,
            quoted,
            array_to_string: true,
        },
        _ => frag,
    }
}

/// The comparison of two texts: `$([[ LEFT OP RIGHT ]] && echo 1 || echo 0)`,
/// with the two answers exchanged where the operator is turned around.
pub open spec fn lexical(operator: ComparisonOperator, left: FragmentV, right: FragmentV)
    -> FragmentV {
    FragmentV::Subprocess(
        Box::new(
            glued(
                seq![
                    FragmentV::Raw("[[ "@),
                    left,
                    FragmentV::Raw(" "@ + operator.lexical().0 + " "@),
                    right,
                    FragmentV::Raw(
                        if operator.lexical().1 {
                            " ]] && echo 0 || echo 1"@
                        } else {
                            " ]] && echo 1 || echo 0"@
                        },
                    ),
                ],
            ),
        ),
    )
}

/// The sum of two values of type `kind`: shell arithmetic for `Int`, `bc`
/// for `Num`, the two texts side by side for `Text`, and the items of both
/// for arrays.
pub open spec fn sum(kind: Type, left: FragmentV, right: FragmentV) -> FragmentV {
    match kind {
        Type::Int => FragmentV::Arithmetic {
            op: ArithOp::Add,
            left: Box::new(left.with_quotes(false)),
            right: Box::new(right.with_quotes(false)),
        },
        Type::Num => bc_sed(ArithOp::Add, left, right),
        Type::Text => glued(seq![left, right]),
        Type::Array(_) => spaced(seq![left, right]),
        _ => FragmentV::Empty,
    }
}

/// The comparison of two values of type `kind`: shell arithmetic for `Int`
/// and `Bool`, `bc` for `Num`, and the comparison of texts for `Text` and
/// for arrays, which are compared as one word each.
pub open spec fn comparison(
    operator: ComparisonOperator,
    kind: Type,
    left: FragmentV,
    right: FragmentV,
) -> FragmentV {
    match kind {
        Type::Int => FragmentV::Arithmetic {
            op: operator.arith(),
            left: Box::new(left.with_quotes(false)),
            right: Box::new(right.with_quotes(false)),
        },
        Type::Bool => FragmentV::Arithmetic {
            op: operator.arith(),
            left: Box::new(left.with_quotes(false)),
            right: Box::new(right.with_quotes(false)),
        },
        Type::Num => bc_sed(operator.arith(), left, right),
        Type::Text => lexical(operator, left, right),
        Type::Array(_) => lexical(operator, as_one_word(left), as_one_word(right)),
        _ => FragmentV::Empty,
    }
}

/// The computation of `left op right` on two numbers, one of which has the
/// type `kind`: shell arithmetic for `Int`, and `bc` for `Num`.
pub open spec fn arithmetic(op: ArithOp, kind: Type, left: FragmentV, right: FragmentV)
    -> FragmentV {
    match kind {
        Type::Int => FragmentV::Arithmetic {
            op,
            left: Box::new(left.with_quotes(false)),
            right: Box::new(right.with_quotes(false)),
        },
        Type::Num => bc_sed(op, left, right),
        _ => FragmentV::Empty,
    }
}

/// The value of `left op right` for an operator without a node of its own:
/// `or` and `and` are shell arithmetic; `<`, `<=`, `==` and `!=` compare as
/// [`comparison`] says; `-`, `*`, `/` and `%` compute as [`arithmetic`]
/// says, with `bc` if one operand is a `Num`.
pub open spec fn binary(
    op: BinaryOperator,
    left_kind: Type,
    right_kind: Type,
    left: FragmentV,
    right: FragmentV,
) -> FragmentV {
    match op {
        BinaryOperator::Or => FragmentV::Arithmetic {
            op: ArithOp::Or,
            left: Box::new(left.with_quotes(false)),
            right: Box::new(right.with_quotes(false)),
        },
        BinaryOperator::And => FragmentV::Arithmetic {
            op: ArithOp::And,
            left: Box::new(left.with_quotes(false)),
            right: Box::new(right.with_quotes(false)),
        },
        BinaryOperator::Lt => comparison(ComparisonOperator::Lt, left_kind, left, right),
        BinaryOperator::Le => comparison(ComparisonOperator::Le, left_kind, left, right),
        BinaryOperator::Eq => comparison(ComparisonOperator::Eq, left_kind, left, right),
        BinaryOperator::Neq => comparison(ComparisonOperator::Neq, left_kind, left, right),
        BinaryOperator::Sub => arithmetic(
            ArithOp::Sub,
            crate::modules::typing::promoted(left_kind, right_kind),
            left,
            right,
        ),
        BinaryOperator::Mul => arithmetic(
            ArithOp::Mul,
            crate::modules::typing::promoted(left_kind, right_kind),
            left,
            right,
        ),
        BinaryOperator::Div => arithmetic(
            ArithOp::Div,
            crate::modules::typing::promoted(left_kind, right_kind),
            left,
            right,
        ),
        BinaryOperator::Modulo => arithmetic(
            ArithOp::Modulo,
            crate::modules::typing::promoted(left_kind, right_kind),
            left,
            right,
        ),
    }
}

/// The value of `sign operand`: `not` is shell arithmetic, and `-` computes
/// as [`arithmetic`] says, without a left operand.
pub open spec fn unary(sign: UnaryOperator, kind: Type, operand: FragmentV) -> FragmentV {
    match sign {
        UnaryOperator::Not => FragmentV::Arithmetic {
            op: ArithOp::Not,
            left: Box::new(FragmentV::Empty),
            right: Box::new(operand.with_quotes(false)),
        },
        UnaryOperator::Neg => arithmetic(ArithOp::Neg, kind, FragmentV::Empty, operand),
    }
}

/// The name that the shell sees for the variant `variant` of the function
/// `name` with the id `id`.
pub open spec fn fun_name(name: Seq<char>, id: usize, variant: usize) -> Seq<char> {
    name + "__"@ + decimal(id as nat) + "_v"@ + decimal(variant as nat)
}

/// The name of the variable that holds the result of that variant.
pub open spec fn ret_name(name: Seq<char>, id: usize, variant: usize) -> Seq<char> {
    "__AMBER_FUN_"@ + name + decimal(id as nat) + "_v"@ + decimal(variant as nat)
}

/// The part that stands for a translated expression inside a text or
/// command: without quotes, and an array variable as one word.
pub open spec fn interpolated(frag: FragmentV) -> FragmentV {
    match frag.with_quotes(false) {
        FragmentV::VarExpr { name, kind, global_id, quoted, array_to_string } => FragmentV::VarExpr {
            name,
            kind,
            global_id,
            quoted,
            array_to_string: if kind is Array {
                true
            } else {
                array_to_string
            },
        },
        other => other,
    }
}

/// The assignment that keeps the exit status of the last command.
pub open spec fn status_stmt() -> FragmentV {
    FragmentV::VarStmt {
        name: "__status"@,
        kind: Type::Int,
        value: Box::new(FragmentV::Raw("$?"@)),
        global_id: None,
        ephemeral: false,
    }
}

/// The reference to the kept exit status.
pub open spec fn status_expr() -> FragmentV {
    FragmentV::VarExpr {
        name: "__status"@,
        kind: Type::Int,
        global_id: None,
        quoted: true,
        array_to_string: false,
    }
}

/// Whether a translated block holds no statement.
pub open spec fn is_hollow(block: FragmentV) -> bool {
    match block {
        FragmentV::Empty => true,
        FragmentV::Block { statements, .. } => statements.len() == 0,
        _ => false,
    }
}

/// The assignment of the kept exit status to the parameter of a handler.
pub open spec fn param_stmt(handler: HandlerV) -> FragmentV {
    FragmentV::VarStmt {
        name: handler.param_name,
        kind: Type::Int,
        value: Box::new(status_expr()),
        global_id: handler.param_global_id,
        ephemeral: false,
    }
}

/// The statements that keep the exit status, and bind it to the parameter
/// of the handler if there is one.
pub open spec fn status_head(handler: HandlerV) -> Seq<FragmentV> {
    if handler.param_name.len() > 0 {
        seq![status_stmt(), param_stmt(handler)]
    } else {
        seq![status_stmt()]
    }
}

/// The line that opens the branch on the kept exit status: `test` is the
/// comparison with zero.
pub open spec fn branch_head(test: Seq<char>) -> FragmentV {
    glued(
        seq![
            FragmentV::Raw("if [ "@),
            status_expr(),
            FragmentV::Raw(" "@ + test + " 0 ]; then"@),
        ],
    )
}

/// The statements of a block that are not queued.
pub open spec fn plain_block(statements: Seq<FragmentV>) -> FragmentV {
    FragmentV::Block { statements, increase_indent: false, braces: false }
}

/// An expression.
#[verifier::opaque]
pub open spec fn expr_translated(e: ExprV, t: TranslateV) -> Lowered
    decreases e, 2nat,
{
    match e.value {
        None => (FragmentV::Empty, t),
        Some(node) => node_translated(node, t),
    }
}

/// The node of an expression: a literal gives its text, a text an
/// interpolable string literal, an array the list of its items, a variable
/// a quoted reference, and round brackets what they hold.
#[verifier::opaque]
pub open spec fn node_translated(node: ExprTypeV, t: TranslateV) -> Lowered
    decreases node, 1nat,
{
    match node {
        ExprTypeV::Bool(value) => (
            FragmentV::Raw(
                if value {
                    "1"@
                } else {
                    "0"@
                },
            ),
            t,
        ),
        ExprTypeV::Integer(value) => (FragmentV::Raw(value), t),
        ExprTypeV::Number(value) => (FragmentV::Raw(value), t),
        ExprTypeV::Text(parts) => {
            let lowered = parts_translated(parts, t, 0, Seq::empty());
            (
                FragmentV::Interpolable {
                    parts: lowered.0,
                    render_type: InterpolableRenderType::StringLiteral,
                    quoted: true,
                },
                lowered.1,
            )
        },
        ExprTypeV::Array { exprs, .. } => {
            let lowered = list_translated(exprs, t, 0, Seq::empty());
            (spaced(lowered.0), lowered.1)
        },
        ExprTypeV::VariableGet { name, kind, global_id, .. } => (
            FragmentV::VarExpr { name, kind, global_id, quoted: true, array_to_string: false },
            t,
        ),
        ExprTypeV::Parentheses(inner) => expr_translated(*inner, t),
        ExprTypeV::Command(command) => command_translated(command, t, false),
        ExprTypeV::FunctionInvocation(call) => invocation_translated(call, t),
        ExprTypeV::Add(left, right) => {
            let l = expr_translated(*left, t);
            let r = expr_translated(*right, l.1);
            (sum(crate::modules::typing::promoted(left.kind, right.kind), l.0, r.0), r.1)
        },
        ExprTypeV::Gt(left, right) => {
            let l = expr_translated(*left, t);
            let r = expr_translated(*right, l.1);
            (comparison(ComparisonOperator::Gt, left.kind, l.0, r.0), r.1)
        },
        ExprTypeV::Ge(left, right) => {
            let l = expr_translated(*left, t);
            let r = expr_translated(*right, l.1);
            (comparison(ComparisonOperator::Ge, left.kind, l.0, r.0), r.1)
        },
        ExprTypeV::Binary { op, left, right } => {
            let l = expr_translated(*left, t);
            let r = expr_translated(*right, l.1);
            (binary(op, left.kind, right.kind, l.0, r.0), r.1)
        },
        ExprTypeV::Unary { sign, operand } => {
            let x = expr_translated(*operand, t);
            (unary(sign, operand.kind, x.0), x.1)
        },
    }
}

/// The parts of a text or command from position `i` on: a literal part
/// stays, and an expression is translated and interpolated. `acc` holds the
/// parts so far.
#[verifier::opaque]
pub open spec fn parts_translated(parts: Seq<TextPartV>, t: TranslateV, i: int, acc: Seq<PartV>)
    -> (Seq<PartV>, TranslateV)
    decreases parts, parts.len() - i,
{
    if i < 0 || i >= parts.len() {
        (acc, t)
    } else {
        match parts[i] {
            TextPartV::String(text) => parts_translated(
                parts,
                t,
                i + 1,
                acc.push(PartV::Text(text)),
            ),
            TextPartV::Expr(expr) => {
                let lowered = expr_translated(*expr, t);
                parts_translated(
                    parts,
                    lowered.1,
                    i + 1,
                    acc.push(PartV::Interp(interpolated(lowered.0))),
                )
            },
        }
    }
}

/// The expressions of a list from position `i` on, translated one after the
/// other. `acc` holds the fragments so far.
#[verifier::opaque]
pub open spec fn list_translated(items: Seq<ExprV>, t: TranslateV, i: int, acc: Seq<FragmentV>)
    -> (Seq<FragmentV>, TranslateV)
    decreases items, items.len() - i,
{
    if i < 0 || i >= items.len() {
        (acc, t)
    } else {
        let lowered = expr_translated(items[i], t);
        list_translated(items, lowered.1, i + 1, acc.push(lowered.0))
    }
}

/// The argument of a call as the shell passes it: a reference and an array
/// variable by the name of the variable, every other value as it is.
pub open spec fn passed(arg: ExprV, by_ref: bool, frag: FragmentV, variant: Option<usize>)
    -> FragmentV {
    match frag {
        FragmentV::VarExpr { name, kind, global_id, .. } => if by_ref {
            FragmentV::Raw(var_name(name, global_id, variant))
        } else if kind is Array {
            FragmentV::Raw(var_name(name, global_id, variant) + "[@]"@)
        } else {
            frag
        },
        _ => frag,
    }
}

/// The arguments of a call from position `i` on. `acc` holds the fragments
/// so far.
#[verifier::opaque]
pub open spec fn args_translated(
    items: Seq<ExprV>,
    refs: Seq<bool>,
    t: TranslateV,
    i: int,
    acc: Seq<FragmentV>,
) -> (Seq<FragmentV>, TranslateV)
    decreases items, items.len() - i,
{
    if i < 0 || i >= items.len() {
        (acc, t)
    } else {
        let lowered = expr_translated(items[i], t);
        let by_ref = i < refs.len() && refs[i];
        args_translated(
            items,
            refs,
            lowered.1,
            i + 1,
            acc.push(passed(items[i], by_ref, lowered.0, t.variant())),
        )
    }
}

/// A call: the call itself is queued as a statement, the name of the
/// variant followed by the arguments, and the value of the call is the
/// variable in which the variant leaves its result.
#[verifier::opaque]
pub open spec fn invocation_translated(call: InvocationV, t: TranslateV) -> Lowered
    decreases call, 1nat,
{
    let args = args_translated(call.args, call.refs, t, 0, Seq::empty());
    let statement = spaced(
        seq![FragmentV::Raw(fun_name(call.name, call.id, call.variant_id))] + args.0,
    );
    (
        FragmentV::VarExpr {
            name: ret_name(call.name, call.id, call.variant_id),
            kind: call.kind,
            global_id: None,
            quoted: true,
            array_to_string: false,
        },
        args.1.queued(statement),
    )
}

/// A command. Its line is the `sudo` prefix if commands run with `sudo`,
/// the command line, and the redirection if commands are silenced. As a
/// statement the command gives its line, or queues the line and gives the
/// handler. As an expression it gives the substitution of its line, or
/// queues the assignment of the substitution to a fresh variable and the
/// handler, and gives the reference to that variable.
#[verifier::opaque]
pub open spec fn command_translated(command: CommandV, t: TranslateV, is_statement: bool) -> Lowered
    decreases command, 1nat,
{
    let parts = parts_translated(command.parts, t, 0, Seq::empty());
    let failed = failed_translated(command.failed, parts.1);
    let succeeded = succeeded_translated(command.succeeded, failed.1);
    let exited = exited_translated(command.exited, succeeded.1);
    let t1 = exited.1;
    let silenced = command.modifier.is_silent || t1.silenced;
    let sudoed = command.modifier.is_sudo || t1.sudoed;
    let core = FragmentV::Interpolable {
        parts: parts.0,
        render_type: InterpolableRenderType::GlobalContext,
        quoted: true,
    };
    let silent = if silenced {
        FragmentV::Raw(">/dev/null 2>&1"@)
    } else {
        FragmentV::Empty
    };
    let prefix = if sudoed {
        sudo_expr()
    } else {
        FragmentV::Empty
    };
    let t2 = if sudoed {
        t1.queued(sudo_stmt())
    } else {
        t1
    };
    let line = spaced(seq![prefix, core, silent]);
    let handler = if command.exited.is_parsed {
        exited.0
    } else if command.failed.is_parsed {
        failed.0
    } else if command.succeeded.is_parsed {
        succeeded.0
    } else {
        FragmentV::Empty
    };
    if is_statement {
        if handler is Empty {
            (line, t2)
        } else {
            (handler, t2.queued(line))
        }
    } else if handler is Empty {
        (FragmentV::Subprocess(Box::new(line)), t2)
    } else {
        let id = t2.value_id;
        let capture = FragmentV::VarStmt {
            name: "command"@,
            kind: Type::Text,
            value: Box::new(FragmentV::Subprocess(Box::new(line))),
            global_id: Some(id),
            ephemeral: true,
        };
        (
            FragmentV::VarExpr {
                name: "command"@,
                kind: Type::Text,
                global_id: Some(id),
                quoted: true,
                array_to_string: false,
            },
            t2.next_value().queued(capture).queued(handler),
        )
    }
}

/// The handler of both outcomes: nothing if it was not parsed; else the
/// exit status is kept, and, unless the block is hollow, bound to the
/// parameter and followed by the block.
#[verifier::opaque]
pub open spec fn exited_translated(handler: HandlerV, t: TranslateV) -> Lowered
    decreases handler, 1nat,
{
    if !handler.is_parsed {
        (FragmentV::Empty, t)
    } else {
        let block = block_translated(handler.block, t, false);
        if is_hollow(block.0) {
            (status_stmt(), block.1)
        } else {
            (plain_block(seq![status_stmt(), param_stmt(handler), block.0]), block.1)
        }
    }
}

/// The handler of failure: nothing if it was not parsed. The mark `?` ends
/// the function, or the script, with the exit status if that is not zero.
/// A `failed` block runs if the exit status is not zero.
#[verifier::opaque]
pub open spec fn failed_translated(handler: HandlerV, t: TranslateV) -> Lowered
    decreases handler, 1nat,
{
    if !handler.is_parsed {
        (FragmentV::Empty, t)
    } else if handler.is_question_mark {
        let leave = glued(
            seq![
                FragmentV::Raw(
                    if t.fun is Some {
                        "return "@
                    } else {
                        "exit "@
                    },
                ),
                status_expr(),
            ],
        );
        (
            plain_block(
                seq![
                    status_stmt(),
                    branch_head("!="@),
                    FragmentV::Block {
                        statements: seq![leave],
                        increase_indent: true,
                        braces: false,
                    },
                    FragmentV::Raw("fi"@),
                ],
            ),
            t,
        )
    } else {
        let block = block_translated(handler.block, t, true);
        if is_hollow(block.0) {
            (status_stmt(), block.1)
        } else {
            (
                plain_block(
                    status_head(handler) + seq![
                        branch_head("!="@),
                        block.0,
                        FragmentV::Raw("fi"@),
                    ],
                ),
                block.1,
            )
        }
    }
}

/// The handler of success: nothing if it was not parsed; else the block
/// runs if the exit status is zero.
#[verifier::opaque]
pub open spec fn succeeded_translated(handler: HandlerV, t: TranslateV) -> Lowered
    decreases handler, 1nat,
{
    if !handler.is_parsed {
        (FragmentV::Empty, t)
    } else {
        let block = block_translated(handler.block, t, true);
        if is_hollow(block.0) {
            (status_stmt(), block.1)
        } else {
            (
                plain_block(
                    status_head(handler) + seq![
                        branch_head("="@),
                        block.0,
                        FragmentV::Raw("fi"@),
                    ],
                ),
                block.1,
            )
        }
    }
}

/// A block: its statements are translated with a queue of their own, which
/// is emptied after every statement; the queue of the surroundings is as
/// before. `increase_indent` says whether the statements stand one level
/// deeper than the surroundings.
#[verifier::opaque]
pub open spec fn block_translated(block: BlockV, t: TranslateV, increase_indent: bool) -> Lowered
    decreases block, 1nat,
{
    let lowered = statements_translated(
        block.statements,
        t.with_queue(Seq::empty()),
        0,
        Seq::empty(),
    );
    (
        FragmentV::Block { statements: lowered.0, increase_indent, braces: false },
        lowered.1.with_queue(t.queue),
    )
}

/// The statements of a block from position `i` on. After each statement
/// what it queued is emitted in front of it, and the queue is empty. `acc`
/// holds the fragments so far.
#[verifier::opaque]
pub open spec fn statements_translated(
    items: Seq<StatementV>,
    t: TranslateV,
    i: int,
    acc: Seq<FragmentV>,
) -> (Seq<FragmentV>, TranslateV)
    decreases items, items.len() - i,
{
    if i < 0 || i >= items.len() {
        (acc, t)
    } else {
        let lowered = statement_translated(items[i], t);
        statements_translated(
            items,
            lowered.1.with_queue(Seq::empty()),
            i + 1,
            (acc + lowered.1.queue).push(lowered.0),
        )
    }
}

/// A statement. The main block gives its statements at the level of its
/// surroundings. A declaration of a variable gives an assignment; `echo`
/// the word `echo` and the value; `return` the assignment of the value to
/// the variable of the result and `return 0`; a command what
/// [`command_translated`] says of a statement; every other expression
/// nothing but what it queues. The declaration of a function gives nothing
/// here: its variants are emitted at the top of the script.
#[verifier::opaque]
pub open spec fn statement_translated(statement: StatementV, t: TranslateV) -> Lowered
    decreases statement, 1nat,
{
    match statement {
        StatementV::VariableInit { name, expr, global_id } => {
            let value = expr_translated(expr, t);
            (
                FragmentV::VarStmt {
                    name,
                    kind: expr.kind,
                    value: Box::new(value.0),
                    global_id,
                    ephemeral: false,
                },
                value.1,
            )
        },
        StatementV::Echo(expr) => {
            let value = expr_translated(expr, t);
            (spaced(seq![FragmentV::Raw("echo"@), value.0]), value.1)
        },
        StatementV::Return(expr) => {
            let value = expr_translated(expr, t);
            match value.1.fun {
                Some(fun) => (
                    plain_block(
                        seq![
                            FragmentV::VarStmt {
                                name: ret_name(fun.name, fun.id, fun.variant_id),
                                kind: expr.kind,
                                value: Box::new(value.0),
                                global_id: None,
                                ephemeral: false,
                            },
                            FragmentV::Raw("return 0"@),
                        ],
                    ),
                    value.1,
                ),
                None => (FragmentV::Raw("return 0"@), value.1),
            }
        },
        StatementV::Expr(expr) => match expr.value {
            Some(ExprTypeV::Command(command)) => command_translated(command, t, true),
            _ => {
                let value = expr_translated(expr, t);
                (FragmentV::Empty, value.1)
            },
        },
        StatementV::Main(block) => block_translated(block, t, false),
        StatementV::FunctionDeclaration(_) => (FragmentV::Empty, t),
    }
}

/// The value that the shell hands to the parameter at position `i`: an
/// array comes by the name of its variable.
pub open spec fn param_value(kind: Type, i: int) -> FragmentV {
    if kind is Array {
        FragmentV::Raw("\"${!"@ + decimal((i + 1) as nat) + "}\""@)
    } else {
        FragmentV::Raw("$"@ + decimal((i + 1) as nat))
    }
}

/// The global id of the parameter at position `i`: the ids follow that of
/// the first parameter, up to the largest number.
pub open spec fn param_id(first: usize, i: int) -> usize {
    if first + i <= usize::MAX {
        (first + i) as usize
    } else {
        usize::MAX
    }
}

/// The statement that binds the parameter at position `i` to what the
/// shell hands over: an assignment, or for a reference the declaration of a
/// name for the variable that the caller passed.
pub open spec fn param_bound(name: Seq<char>, by_ref: bool, instance: InstanceV, i: int)
    -> FragmentV {
    if by_ref {
        FragmentV::Raw(
            "declare -n "@ + var_name(
                name,
                Some(param_id(instance.first_var_id, i)),
                Some(instance.variant_id),
            ) + "=$"@ + decimal((i + 1) as nat),
        )
    } else {
        FragmentV::VarStmt {
            name,
            kind: instance.args[i],
            value: Box::new(param_value(instance.args[i], i)),
            global_id: Some(param_id(instance.first_var_id, i)),
            ephemeral: false,
        }
    }
}

/// The statements that bind the parameters from position `i` on, added to
/// `acc`.
pub open spec fn params_bound(
    names: Seq<Seq<char>>,
    refs: Seq<bool>,
    instance: InstanceV,
    i: int,
    acc: Seq<FragmentV>,
) -> Seq<FragmentV>
    decreases names.len() - i,
{
    if i < 0 || i >= names.len() || i >= instance.args.len() {
        acc
    } else {
        params_bound(
            names,
            refs,
            instance,
            i + 1,
            acc.push(param_bound(names[i], i < refs.len() && refs[i], instance, i)),
        )
    }
}

/// The state in which the body of a variant is translated.
pub open spec fn inside(t: TranslateV, name: Seq<char>, id: usize, instance: InstanceV)
    -> TranslateV {
    TranslateV {
        queue: Seq::empty(),
        fun: Some(FunV { name, id, variant_id: instance.variant_id, returns: instance.returns }),
        ..t
    }
}

/// The context in which the body of that variant is rendered: at the top
/// level.
pub open spec fn body_context(t: TranslateV, instance: InstanceV) -> RenderContext {
    RenderContext { indent: 0, eval_ctx: t.eval_ctx, variant: Some(instance.variant_id) }
}

/// The definition of one variant of a function as shell text: the name of
/// the variant, and between braces the binding of the parameters and the
/// statements of the body.
pub open spec fn variant_text(
    name: Seq<char>,
    names: Seq<Seq<char>>,
    refs: Seq<bool>,
    id: usize,
    instance: InstanceV,
    t: TranslateV,
) -> (Seq<char>, TranslateV) {
    let body = statements_translated(
        instance.block.statements,
        inside(t, name, id, instance),
        0,
        params_bound(names, refs, instance, 0, Seq::empty()),
    );
    let block = FragmentV::Block { statements: body.0, increase_indent: true, braces: true };
    (
        fun_name(name, id, instance.variant_id) + "() "@ + block.rendered(
            body_context(t, instance),
        ),
        TranslateV { queue: t.queue, fun: t.fun, ..body.1 },
    )
}

/// The definitions of the variants of a function from position `i` on.
/// `acc` holds the fragments so far.
pub open spec fn variants_translated(
    name: Seq<char>,
    names: Seq<Seq<char>>,
    refs: Seq<bool>,
    id: usize,
    instances: Seq<InstanceV>,
    t: TranslateV,
    i: int,
    acc: Seq<FragmentV>,
) -> (Seq<FragmentV>, TranslateV)
    decreases instances.len() - i,
{
    if i < 0 || i >= instances.len() {
        (acc, t)
    } else {
        let text = variant_text(name, names, refs, id, instances[i], t);
        variants_translated(
            name,
            names,
            refs,
            id,
            instances,
            text.1,
            i + 1,
            acc.push(FragmentV::Raw(text.0)),
        )
    }
}

/// The statements of a file from position `i` on. The declaration of a
/// function gives the definitions of its variants in the cache; every other
/// statement what [`statement_translated`] says, with what it queued in
/// front of it. `acc` holds the fragments so far.
pub open spec fn program_translated(
    items: Seq<StatementV>,
    cache: Seq<Seq<InstanceV>>,
    t: TranslateV,
    i: int,
    acc: Seq<FragmentV>,
) -> (Seq<FragmentV>, TranslateV)
    decreases items.len() - i,
{
    if i < 0 || i >= items.len() {
        (acc, t)
    } else {
        match items[i] {
            StatementV::FunctionDeclaration(d) => if d.id < cache.len() {
                let defs = variants_translated(
                    d.name,
                    d.arg_names,
                    d.arg_refs,
                    d.id,
                    cache[d.id as int],
                    t,
                    0,
                    acc,
                );
                program_translated(items, cache, defs.1, i + 1, defs.0)
            } else {
                program_translated(items, cache, t, i + 1, acc)
            },
            _ => {
                let lowered = statement_translated(items[i], t);
                program_translated(
                    items,
                    cache,
                    lowered.1.with_queue(Seq::empty()),
                    i + 1,
                    (acc + lowered.1.queue).push(lowered.0),
                )
            },
        }
    }
}

} // verus!
