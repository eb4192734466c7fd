//! Core of an HTTP endpoint load tester: the outcome of one timed request,
//! the collection point that gathers a batch of concurrent outcomes, the
//! summary statistics over a batch, and the command-line decisions that
//! decide whether a batch is launched at all.
pub mod command;
pub mod dispatch;
pub mod outcome;
pub mod summary;
