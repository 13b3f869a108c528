//! The decision logic of a small interactive command interpreter.
//!
//! A line of input is split into words; the first word selects either one of
//! five built-in commands or an external program found on a search path. The
//! library performs no input or output: every command is a function from its
//! arguments and an [`environment::Environment`] to an
//! [`commands::Effect`], which says what the caller has to write, change or
//! run.

pub mod commands;
pub mod environment;
pub mod laws;
pub mod resolver;
pub mod search;
pub mod shell;
pub mod text;
