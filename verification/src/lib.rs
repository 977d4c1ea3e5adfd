//! A minimal task runner: a directory declares its tasks and subprojects in a
//! configuration value, a requested task name resolves to shell command lines
//! or to an ordered recursion over subprojects, and execution is sequential
//! with fail-fast semantics.
//!
//! The crate holds the task-resolution and recursive-execution engine as a
//! verified state machine: it decides, step by step, which outside action to
//! take next (load a configuration, run a command line, enter a subproject)
//! and folds each action's reported outcome back into its state. The caller
//! performs the actions themselves (file reads, process spawning, directory
//! changes) and is free of any policy: precedence, ordering, fail-fast
//! propagation and the error taxonomy all live here.

pub mod command;
pub mod err;
pub mod laws;
pub mod runner;
