//! A benchmark harness that compares Brainfuck implementations.
//!
//! The crate holds the rules of the harness and touches nothing outside
//! itself: every stage of a run is planned as plain values, commands to run
//! and files to write, and a driver carries the plans out and reports back
//! what came of them.
//!
//! - [`platform`], [`text`], [`pattern`]: the platform, names and paths,
//!   regular expressions.
//! - [`process`]: commands, steps, and the verdict on a command that ended.
//! - [`acquire`], [`cmake`]: fetching sources and binaries, building with
//!   CMake.
//! - [`benchmark`], [`bf_impl`], [`roster`]: the benchmark inputs, the
//!   implementations, and the closed set of them.
//! - [`order`], [`selection`]: the run order and who takes part.
//! - [`report`]: the timing tool's invocation, its reports, the aggregate
//!   document.
//! - [`orchestrator`]: one run as a state machine.

pub mod acquire;
pub mod benchmark;
pub mod bf_impl;
pub mod cmake;
pub mod orchestrator;
pub mod order;
pub mod pattern;
pub mod platform;
pub mod process;
pub mod report;
pub mod roster;
pub mod selection;
pub mod text;
