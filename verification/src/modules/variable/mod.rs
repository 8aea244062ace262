//! Variables: declaration and use.

pub mod get;
pub mod init;
