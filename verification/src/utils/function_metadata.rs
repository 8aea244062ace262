//! The function whose body is being translated.

use crate::modules::types::Type;
use vstd::prelude::*;

verus! {

/// Which function, and which of its variants, the translator is inside.
#[derive(Debug, PartialEq, Eq)]
pub struct FunctionMetadata {
    pub name: String,
    pub id: usize,
    pub variant_id: usize,
    pub returns: Type,
}

} // verus!
