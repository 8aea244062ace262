//! The syntax tree: one module per production of the grammar.

pub mod block;
pub mod builtin;
pub mod command;
pub mod condition;
pub mod expression;
pub mod function;
pub mod grammar;
pub mod main;
pub mod model;
pub mod statement;
pub mod types;
pub mod typing;
pub mod variable;
