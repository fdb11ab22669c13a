//! Discovery and orchestration engine of a launcher that waits for a second,
//! independently started process, brings its window forward and waits for it
//! to exit.
//!
//! The operating system is reached only by the embedding program: it hands
//! this library snapshots, lookup results and wait results as plain values, and
//! carries out the actions that the state machines here decide on.
pub mod process;
pub mod window;
pub mod exit;
pub mod orchestrator;
pub mod config;
