//! Statements.

use crate::modules::builtin::echo::Echo;
use crate::modules::condition::then::plain_block;
use crate::modules::expression::expr::Expr;
use crate::modules::expression::expr::ExprType;
use crate::modules::function::declaration::FunctionDeclaration;
use crate::modules::function::ret::Return;
use crate::modules::grammar;
use crate::modules::main::Main;
use crate::modules::model::FailureV;
use crate::modules::model::StatementV;
use crate::modules::typing;
use crate::modules::variable::init::VariableInit;
use crate::translate::fragments::fragment::FragmentKind;
use crate::translate::fragments::fragment::frags2;
use crate::translate::fragments::fragment::list_of;
use crate::translate::fragments::fragment::push_frag;
use crate::translate::fragments::fragment::raw;
use crate::translate::fragments::var_stmt::VarStmtFragment;
use crate::translate::lowering;
use crate::utils::context::Context;
use crate::utils::metadata::parser::Failure;
use crate::utils::metadata::parser::ParserMetadata;
use crate::utils::metadata::parser::checked_to;
use crate::utils::metadata::parser::fault;
use crate::utils::metadata::parser::fit_for_checking;
use crate::utils::metadata::translate::TranslateMetadata;
use crate::utils::metadata::translate::same_setting;
use vstd::prelude::*;

verus! {

/// A statement of the source language.
#[derive(Debug, PartialEq, Eq)]
pub enum Statement {
    VariableInit(VariableInit),
    Echo(Echo),
    Return(Return),
    Expr(Expr),
    Main(Main),
    FunctionDeclaration(FunctionDeclaration),
}

impl Statement {
    /// The view of the statement.
    pub open spec fn model(self) -> StatementV
        decreases self,
    {
        match self {
            Statement::VariableInit(init) => StatementV::VariableInit {
                name: init.name@,
                expr: init.expr.model(),
                global_id: init.global_id,
            },
            Statement::Echo(echo) => StatementV::Echo(echo.value.model()),
            Statement::Return(ret) => StatementV::Return(ret.expr.model()),
            Statement::Expr(expr) => StatementV::Expr(expr.model()),
            Statement::Main(main) => StatementV::Main(main.block.model()),
            Statement::FunctionDeclaration(decl) => StatementV::FunctionDeclaration(decl.model()),
        }
    }

    /// The views of the statements of a vector.
    pub open spec fn models_of(statements: Vec<Statement>) -> Seq<StatementV>
        decreases statements,
    {
        Seq::new(
            statements.len() as nat,
            |i: int|
                if 0 <= i < statements.len() {
                    statements[i].model()
                } else {
                    StatementV::Main(crate::modules::model::BlockV { statements: Seq::empty() })
                },
        )
    }
}

impl View for Statement {
    type V = StatementV;

    open spec fn view(&self) -> StatementV {
        self.model()
    }
}


impl Statement {
    /// Parses a statement: the first that parses of a function declaration,
    /// the main block, a variable declaration, `echo`, `return` and an
    /// expression.
    pub fn parse(meta: &mut ParserMetadata) -> (r: Result<Statement, Failure>)
        requires
            old(meta).wf(),
        ensures
            final(meta).wf(),
            final(meta).tokens == old(meta).tokens,
            final(meta).index >= old(meta).index,
            crate::utils::metadata::parser::same_tables(*old(meta), *final(meta)),
            final(meta)@ == grammar::statement_parsed(old(meta).words(), old(meta)@).1,
            match r {
                Ok(statement) => grammar::statement_parsed(old(meta).words(), old(meta)@).0 == Ok::<
                    StatementV,
                    FailureV,
                >(statement.model()),
                Err(failure) => grammar::statement_parsed(old(meta).words(), old(meta)@).0 == Err::<
                    StatementV,
                    FailureV,
                >(failure@),
            },
            r is Ok ==> final(meta).index > old(meta).index,
        decreases grammar::remaining(old(meta).words(), old(meta)@), 180nat,
    {
        reveal(grammar::statement_parsed);
        reveal(grammar::declaration_parsed);
        reveal(grammar::main_parsed);
        reveal(grammar::init_parsed);
        reveal(grammar::keyword_expr_parsed);
        reveal(grammar::return_parsed);
        let start = meta.mark();
        let mut node = FunctionDeclaration::new();
        match node.parse(meta) {
            Ok(()) => {
                return Ok(Statement::FunctionDeclaration(node));
            },
            Err(failure) => {
                meta.rewind(&start);
                if failure.is_loud() {
                    return Err(failure);
                }
            },
        }
        let mut node = Main::new();
        match node.parse(meta) {
            Ok(()) => {
                return Ok(Statement::Main(node));
            },
            Err(failure) => {
                meta.rewind(&start);
                if failure.is_loud() {
                    return Err(failure);
                }
            },
        }
        let mut node = VariableInit::new();
        match node.parse(meta) {
            Ok(()) => {
                return Ok(Statement::VariableInit(node));
            },
            Err(failure) => {
                meta.rewind(&start);
                if failure.is_loud() {
                    return Err(failure);
                }
            },
        }
        let mut node = Echo::new();
        match node.parse(meta) {
            Ok(()) => {
                return Ok(Statement::Echo(node));
            },
            Err(failure) => {
                meta.rewind(&start);
                if failure.is_loud() {
                    return Err(failure);
                }
            },
        }
        let mut node = Return::new();
        match node.parse(meta) {
            Ok(()) => {
                return Ok(Statement::Return(node));
            },
            Err(failure) => {
                meta.rewind(&start);
                if failure.is_loud() {
                    return Err(failure);
                }
            },
        }
        let mut expr = Expr::new();
        match expr.parse(meta) {
            Ok(()) => Ok(Statement::Expr(expr)),
            Err(failure) => Err(failure),
        }
    }
}


impl Statement {
    /// Checks the statement. A declared variable gets the type of its
    /// expression; the first `return` of a function without declared type
    /// of result fixes that type, and every `return` must have it.
    pub fn checked(&self, meta: &mut ParserMetadata) -> (r: Result<Statement, Failure>)
        requires
            fit_for_checking(*old(meta)),
        ensures
            ({
                let step = typing::statement_checked(old(meta).words(), self.model(), old(meta)@);
                &&& checked_to(*old(meta), *final(meta), step.1)
                &&& match r {
                    Ok(node) => step.0 == Ok::<StatementV, FailureV>(node.model()),
                    Err(failure) => step.0 == Err::<StatementV, FailureV>(failure@),
                }
            }),
        decreases typing::rank(old(meta)@), self, 1nat,
    {
        reveal(typing::statement_checked);
        reveal(typing::expr_checked);
        reveal(typing::block_checked);
        match self {
            Statement::VariableInit(init) => {
                let expr = match init.expr.checked(meta) {
                    Ok(found) => found,
                    Err(failure) => {
                        return Err(failure);
                    },
                };
                match meta.add_var(init.name.as_str(), expr.kind.clone(), false) {
                    Ok(id) => Ok(
                        Statement::VariableInit(
                            VariableInit { name: init.name.clone(), expr, global_id: id },
                        ),
                    ),
                    Err(failure) => Err(failure),
                }
            },
            Statement::Echo(echo) => match echo.value.checked(meta) {
                Ok(found) => Ok(Statement::Echo(Echo { value: found })),
                Err(failure) => Err(failure),
            },
            Statement::Return(ret) => {
                let expr = match ret.expr.checked(meta) {
                    Ok(found) => found,
                    Err(failure) => {
                        return Err(failure);
                    },
                };
                let expected = match &meta.fun_ret_type {
                    Some(kind) => Some(kind.clone()),
                    None => None,
                };
                match expected {
                    None => {
                        meta.fun_ret_type = Some(expr.kind.clone());
                        Ok(Statement::Return(Return { expr }))
                    },
                    Some(kind) => {
                        if kind.same_as(&expr.kind) {
                            Ok(Statement::Return(Return { expr }))
                        } else {
                            let mut message = String::from_str("Expected a result of type '");
                            let a = kind.to_string();
                            message.append(a.as_str());
                            message.append("' but found '");
                            let b = expr.kind.to_string();
                            message.append(b.as_str());
                            message.append("'");
                            Err(fault(message.as_str()))
                        }
                    },
                }
            },
            Statement::Expr(expr) => match expr.checked(meta) {
                Ok(found) => Ok(Statement::Expr(found)),
                Err(failure) => Err(failure),
            },
            Statement::Main(main) => {
                let saved = meta.context;
                meta.set_context(
                    Context {
                        is_loop_ctx: saved.is_loop_ctx,
                        is_fun_ctx: saved.is_fun_ctx,
                        is_trust_ctx: saved.is_trust_ctx,
                        is_main_ctx: true,
                    },
                );
                let outcome = main.block.checked(meta);
                meta.set_context(saved);
                match outcome {
                    Ok(found) => Ok(Statement::Main(Main { block: found })),
                    Err(failure) => Err(failure),
                }
            },
            Statement::FunctionDeclaration(_) => Err(
                fault("Functions can only be declared at the top of a file"),
            ),
        }
    }
}


impl Statement {
    /// Translates the statement. What must run before it is queued.
    pub fn translate(&self, meta: &mut TranslateMetadata) -> (r: FragmentKind)
        ensures
            same_setting(*old(meta), *final(meta)),
            (r@, final(meta)@) == lowering::statement_translated(self.model(), old(meta)@),
        decreases self, 1nat,
    {
        reveal(lowering::statement_translated);
        reveal(lowering::expr_translated);
        reveal(lowering::command_translated);
        reveal(lowering::block_translated);
        match self {
            Statement::VariableInit(init) => {
                let value = init.expr.translate(meta);
                VarStmtFragment::new(
                    init.name.as_str(),
                    init.expr.kind.clone(),
                    value,
                ).with_global_id(init.global_id).to_frag()
            },
            Statement::Echo(echo) => {
                let value = echo.value.translate(meta);
                list_of(frags2(raw("echo"), value), true)
            },
            Statement::Return(ret) => {
                let value = ret.expr.translate(meta);
                match &meta.fun_meta {
                    Some(fun) => {
                        let name = crate::modules::function::invocation::result_name(
                            fun.name.as_str(),
                            fun.id,
                            fun.variant_id,
                        );
                        plain_block(
                            frags2(
                                VarStmtFragment::new(
                                    name.as_str(),
                                    ret.expr.kind.clone(),
                                    value,
                                ).to_frag(),
                                raw("return 0"),
                            ),
                        )
                    },
                    None => raw("return 0"),
                }
            },
            Statement::Expr(expr) => match &expr.value {
                Some(ExprType::Command(command)) => command.translate_command_statement(meta),
                _ => {
                    let _ = expr.translate(meta);
                    FragmentKind::Empty
                },
            },
            Statement::Main(main) => main.block.translate_block(meta, false),
            Statement::FunctionDeclaration(_) => FragmentKind::Empty,
        }
    }
}


impl Statement {
    /// Translates the statement into `out`: what the statement queued
    /// comes first, in the order in which it was queued, and then the
    /// statement itself. Afterwards the queue is empty.
    pub fn translate_into(&self, meta: &mut TranslateMetadata, out: &mut Vec<FragmentKind>)
        ensures
            same_setting(*old(meta), *final(meta)),
            final(meta)@.queue.len() == 0,
            ({
                let lowered = lowering::statement_translated(self.model(), old(meta)@);
                &&& final(meta)@ == lowered.1.with_queue(Seq::empty())
                &&& FragmentKind::models_of(*final(out)) == (FragmentKind::models_of(*old(out))
                    + lowered.1.queue).push(lowered.0)
            }),
        decreases self, 2nat,
    {
        let frag = self.translate(meta);
        meta.drain_into(out);
        push_frag(out, frag);
    }
}

} // verus!
