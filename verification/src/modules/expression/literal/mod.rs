//! Literals.

pub mod array;
pub mod bool;
pub mod integer;
pub mod number;
pub mod text;
