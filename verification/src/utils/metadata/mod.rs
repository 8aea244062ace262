//! The state of the parser and type checker, and that of the translator.

pub mod parser;
pub mod translate;

pub use parser::ParserMetadata;
pub use translate::TranslateMetadata;
