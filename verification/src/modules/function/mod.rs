//! Functions: declaration, call and return.

pub mod declaration;
pub mod invocation;
pub mod ret;
