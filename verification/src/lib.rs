//! Planning and interpreting invocations of an external media tool.
//!
//! This crate holds every decision that surrounds a run of the tool: which
//! arguments to pass, how to read what the tool printed, and what to report
//! to the caller.  It performs no input or output itself.  A host program
//! checks paths, spawns the tool and hands the observed results back in as
//! plain values.

pub mod cleanup;
pub mod command;
pub mod error;
pub mod frames;
pub mod json;
pub mod merge;
pub mod metadata;
pub mod probe;
pub mod rate;
pub mod text;
pub mod timestamp;
