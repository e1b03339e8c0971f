//! Supervises one command and runs a callback command when the supervisor
//! is asked to terminate before that command has finished.
//!
//! The library holds the decisions: how the command line splits into the
//! main command and the callback, how an exit status becomes an outcome, and
//! the two state machines (the supervisor of the main command and the
//! coordinator of the race between its completion and a termination signal).
//! Spawning processes, waiting on them and listening for signals is left to
//! the caller, which feeds the results back in as events.
pub mod command;
pub mod coordinator;
pub mod outcome;
pub mod session;
pub mod supervisor;
