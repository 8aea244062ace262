//! Expressions.

pub mod binop;
pub mod expr;
pub mod interpolated_region;
pub mod literal;
pub mod parentheses;
pub mod unop;
