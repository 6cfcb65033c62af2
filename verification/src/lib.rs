//! The core of an interactive read-eval-print loop: a registry of
//! meta-commands, the linking configuration handed to every compilation,
//! the session state, the classifier of input lines and the engine that
//! sequences the read, evaluate and print phases.

pub mod command;
pub mod linking;
pub mod input;
pub mod data;
pub mod repl;
