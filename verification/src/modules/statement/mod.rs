//! Statements.

pub mod stmt;
