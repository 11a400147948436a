//! Core of a bounded streaming subprocess executor.
//!
//! The library launches (through unverified glue) an external command-line
//! tool that emits one JSON object per line on its standard output, and
//! consumes that stream under strict memory bounds: lines are read under a
//! per-line cap, recognized fields are aggregated into an execution result
//! under per-field caps, and the outcome is classified as success or failure
//! with diagnostic text.  Everything that decides or computes is verified
//! here; process spawning, pipes and timers live outside the library.

pub mod aggregate;
pub mod args;
pub mod config;
pub mod event;
pub mod options;
pub mod output;
pub mod policy;
pub mod reader;
pub mod result;
pub mod stderr;
pub mod supervisor;
pub mod text;
pub mod validate;

use vstd::prelude::*;

verus! {

} // verus!
