//! The mathematical model of the syntax tree and of the state that parsing
//! and type checking thread through it.

use crate::modules::command::modifier::CommandModifier;
use crate::modules::expression::binop::BinaryOperator;
use crate::modules::expression::binop::UnaryOperator;
use crate::modules::types::Type;
use crate::utils::context::Context;
use crate::utils::context::FunctionDeclV;
use crate::utils::context::VariableV;
use vstd::prelude::*;

verus! {

/// A range of tokens, given by the indices of its first and last token.
#[derive(Clone, Copy, Debug, PartialEq, Eq, Structural)]
pub struct PositionInfo {
    pub from: usize,
    pub to: usize,
}

/// How grave a message is.
#[derive(Clone, Copy, Debug, PartialEq, Eq, Structural)]
pub enum MessageType {
    Error,
    Warning,
    Info,
}

/// The view of a message.
pub struct MessageV {
    pub kind: MessageType,
    pub position: PositionInfo,
    pub message: Seq<char>,
    pub comment: Option<Seq<char>>,
}

/// The view of a failure.
pub enum FailureV {
    Quiet(PositionInfo),
    Loud(MessageV),
}

/// The view of an expression: the node, and its type once checked.
pub struct ExprV {
    pub value: Option<ExprTypeV>,
    pub kind: Type,
}

/// The view of the node of an expression.
pub enum ExprTypeV {
    Bool(bool),
    Integer(Seq<char>),
    Number(Seq<char>),
    Text(Seq<TextPartV>),
    Array { exprs: Seq<ExprV>, kind: Type },
    VariableGet { name: Seq<char>, kind: Type, global_id: Option<usize>, is_ref: bool },
    Parentheses(Box<ExprV>),
    Command(CommandV),
    FunctionInvocation(InvocationV),
    Add(Box<ExprV>, Box<ExprV>),
    Gt(Box<ExprV>, Box<ExprV>),
    Ge(Box<ExprV>, Box<ExprV>),
    Binary { op: BinaryOperator, left: Box<ExprV>, right: Box<ExprV> },
    Unary { sign: UnaryOperator, operand: Box<ExprV> },
}

/// The view of one part of a text or command.
pub enum TextPartV {
    String(Seq<char>),
    Expr(Box<ExprV>),
}

/// The view of a handler of a command's outcome.
pub struct HandlerV {
    pub is_parsed: bool,
    pub is_question_mark: bool,
    pub block: BlockV,
    pub param_name: Seq<char>,
    pub param_global_id: Option<usize>,
}

/// The view of a command.
pub struct CommandV {
    pub parts: Seq<TextPartV>,
    pub modifier: CommandModifier,
    pub is_trusted: bool,
    pub failed: HandlerV,
    pub succeeded: HandlerV,
    pub exited: HandlerV,
}

/// The view of a call of a function.
pub struct InvocationV {
    pub name: Seq<char>,
    pub args: Seq<ExprV>,
    pub refs: Seq<bool>,
    pub kind: Type,
    pub variant_id: usize,
    pub id: usize,
}

/// The view of a block.
pub struct BlockV {
    pub statements: Seq<StatementV>,
}

/// The view of the declaration of a function with its body.
pub struct DeclarationV {
    pub name: Seq<char>,
    pub arg_names: Seq<Seq<char>>,
    pub arg_types: Seq<Type>,
    pub arg_refs: Seq<bool>,
    pub returns: Type,
    pub is_public: bool,
    pub body: BlockV,
    pub body_start: usize,
    pub id: usize,
}

/// The view of a statement.
pub enum StatementV {
    VariableInit { name: Seq<char>, expr: ExprV, global_id: Option<usize> },
    Echo(ExprV),
    Return(ExprV),
    Expr(ExprV),
    Main(BlockV),
    FunctionDeclaration(DeclarationV),
}

/// The view of one checked variant of a function.
pub struct InstanceV {
    pub variant_id: usize,
    pub args: Seq<Type>,
    pub returns: Type,
    pub block: BlockV,
    /// The global id of the first parameter; the others follow.
    pub first_var_id: usize,
}

/// The view of the state of the parser and type checker. The tokens are not
/// part of it: they never change.
pub struct MetaV {
    /// The index of the current token.
    pub index: int,
    pub context: Context,
    pub messages: Seq<MessageV>,
    /// The scopes, innermost last.
    pub scopes: Seq<Seq<VariableV>>,
    /// The declared functions; a function's id is its position.
    pub fun_decls: Seq<FunctionDeclV>,
    /// The index of the token that opens the body of each declared
    /// function.
    pub fun_starts: Seq<usize>,
    /// The checked variants of each declared function; a variant's id is its
    /// position.
    pub fun_cache: Seq<Seq<InstanceV>>,
    /// The next free global id of a variable.
    pub var_id: usize,
    /// The return type seen so far in the function that is being checked.
    pub fun_ret_type: Option<Type>,
    /// How many of the declared functions can be called from where the
    /// type checker stands: those with a smaller id.
    pub visible: usize,
}

/// What a step of parsing or checking gives: its outcome, and the state.
pub type Step<T> = (Result<T, FailureV>, MetaV);

impl MetaV {
    /// The position of the current token.
    pub open spec fn here(self) -> PositionInfo {
        PositionInfo { from: self.index as usize, to: self.index as usize }
    }

    /// The quiet failure at the current token.
    pub open spec fn quiet(self) -> FailureV {
        FailureV::Quiet(self.here())
    }

    /// The state with the cursor at `index`.
    pub open spec fn at(self, index: int) -> MetaV {
        MetaV { index, ..self }
    }

    /// The state with the cursor one token further.
    pub open spec fn advanced(self) -> MetaV {
        MetaV { index: self.index + 1, ..self }
    }

    /// The state with the context `context`.
    pub open spec fn within(self, context: Context) -> MetaV {
        MetaV { context, ..self }
    }

    /// The state with one more message.
    pub open spec fn with_message(self, message: MessageV) -> MetaV {
        MetaV { messages: self.messages.push(message), ..self }
    }
}

/// The error message `message` at the tokens `from..=to`.
pub open spec fn error_message(
    position: PositionInfo,
    message: Seq<char>,
    comment: Option<Seq<char>>,
) -> MessageV {
    MessageV { kind: MessageType::Error, position, message, comment }
}

/// The loud failure with the error `message` at `position`.
pub open spec fn loud(position: PositionInfo, message: Seq<char>, comment: Option<Seq<char>>)
    -> FailureV {
    FailureV::Loud(error_message(position, message, comment))
}

/// The single token at `index`.
pub open spec fn position_at(index: int) -> PositionInfo {
    PositionInfo { from: index as usize, to: index as usize }
}

/// A handler that was not parsed.
pub open spec fn no_handler() -> HandlerV {
    HandlerV {
        is_parsed: false,
        is_question_mark: false,
        block: BlockV { statements: Seq::empty() },
        param_name: Seq::empty(),
        param_global_id: None,
    }
}

/// An expression before it is parsed.
pub open spec fn no_expr() -> ExprV {
    ExprV { value: None, kind: Type::Null }
}

impl CommandV {
    /// The command passes a failure on to its caller: it ends in `?`.
    pub open spec fn is_propagating(self) -> bool {
        self.failed.is_parsed && self.failed.is_question_mark
    }

    /// The command has a `failed` block.
    pub open spec fn has_failed(self) -> bool {
        self.failed.is_parsed && !self.failed.is_question_mark
    }

    /// The command has a `succeeded` block.
    pub open spec fn has_succeeded(self) -> bool {
        self.succeeded.is_parsed
    }

    /// The command has an `exited` (or `then`) block.
    pub open spec fn has_exited(self) -> bool {
        self.exited.is_parsed
    }

    /// The command has one of the four handlers.
    pub open spec fn is_handled(self) -> bool {
        self.is_propagating() || self.has_failed() || self.has_succeeded() || self.has_exited()
    }

    /// How many of the five ways to deal with the outcome of the command
    /// hold: the four handlers, and trust.
    pub open spec fn outcomes(self) -> nat {
        let a: nat = if self.is_propagating() {
            1
        } else {
            0
        };
        let b: nat = if self.has_failed() {
            1
        } else {
            0
        };
        let c: nat = if self.has_succeeded() {
            1
        } else {
            0
        };
        let d: nat = if self.has_exited() {
            1
        } else {
            0
        };
        let e: nat = if self.is_trusted {
            1
        } else {
            0
        };
        a + b + c + d + e
    }
}

} // verus!
