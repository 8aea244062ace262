//! The handlers of a command's outcome.

pub mod failed;
pub mod succeeded;
pub mod then;
