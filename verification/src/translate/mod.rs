//! Lowering of the syntax tree to shell text.

pub mod compare;
pub mod compute;
pub mod fragments;
pub mod lowering;
