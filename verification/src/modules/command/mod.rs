//! Commands of the shell.

pub mod cmd;
pub mod modifier;
