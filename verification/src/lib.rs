//! A compiler from a typed scripting language to Bash.
//!
//! Source text is split into tokens, parsed into a syntax tree, type-checked,
//! lowered to a tree of code fragments and finally rendered as shell text.

pub mod text;
pub mod modules;
pub mod translate;
pub mod utils;
pub mod rules;
pub mod compiler;
pub mod built_info;
pub mod cli;
pub mod postprocessor;
