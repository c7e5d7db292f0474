//! Core of a line-oriented interactive command interpreter.
//!
//! A raw input line is processed in three stages: the redirection
//! extractor strips `>`/`>>` clauses and their target paths from the
//! line (quote-aware), the command parser tokenizes the remaining text
//! and classifies it as a builtin or an external invocation, and the
//! dispatcher turns the typed command into the action the surrounding
//! program must perform.  All decisions are made here and verified;
//! the surrounding program performs the file, process and environment
//! work that the actions describe.

pub mod text;
pub mod redirect;
mod lookup;
pub mod command;
pub mod executor;

pub use command::Command;
pub use executor::execute;
pub use redirect::Redirect;
