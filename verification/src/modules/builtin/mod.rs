//! Statements that are built into the language.

pub mod echo;
