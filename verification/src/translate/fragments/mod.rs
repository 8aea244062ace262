//! The intermediate tree of code fragments and its rendering.

pub mod arithmetic;
pub mod block;
pub mod fragment;
pub mod interpolable;
pub mod list;
pub mod model;
pub mod quoting;
pub mod raw;
pub mod subprocess;
pub mod var_expr;
pub mod var_stmt;
