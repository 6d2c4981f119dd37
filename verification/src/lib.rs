//! A configuration-driven text-pattern linter.
//!
//! A configuration is an ordered list of rules. Each rule names a pattern, a
//! message and an optional set of path globs. The engine compiles every rule,
//! runs it over the files in its scope and reports each hit with its path,
//! line and message.

pub mod config;
pub mod content;
pub mod guarantees;
pub mod pattern;
pub mod report;
pub mod scope;
pub mod search;
pub mod sequences;
pub mod subcommand;
pub mod util;
