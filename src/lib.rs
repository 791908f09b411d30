//! Selective, configuration-driven cache clearing.
//!
//! The library decides what a run does: which identifiers are active, which
//! directories are emptied or reported, which shell commands are run or
//! reported, how each directory entry is removed and how outcomes add up.
//! The program around it performs the filesystem and process work.
use vstd::prelude::*;

pub mod clean;
pub mod cli;
pub mod completion;
pub mod config;
pub mod exec;
pub mod flags;
pub mod outcome;
pub mod plan;
pub mod remove;
pub mod select;

verus! {

} // verus!
