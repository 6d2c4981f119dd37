//! The entry points: one module for each subcommand.

pub mod check;
pub mod init;
pub mod test;
