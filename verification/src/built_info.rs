//! Facts about this build of the compiler.

use vstd::prelude::*;

verus! {

/// The version of the compiler.
pub const PKG_VERSION: &'static str = "0.1.0";

} // verus!
