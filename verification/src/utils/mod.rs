//! State that the passes of the compiler carry along.

pub mod context;
pub mod function_cache;
pub mod function_interface;
pub mod function_metadata;
pub mod metadata;

pub use metadata::parser::ParserMetadata;
pub use metadata::translate::TranslateMetadata;
