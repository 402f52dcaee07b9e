//! Verified core of treebeard: ephemeral Git worktree environments with a
//! copy-on-write overlay for ignored files.
use vstd::prelude::*;

pub mod cleanup;
pub mod cli;
pub mod config;
pub mod doctor;
pub mod error;
pub mod git;
pub mod hooks;
pub mod overlay;
pub mod path;
pub mod session;
pub mod shell;
pub mod sandbox;
pub mod sync;
pub mod text;
pub mod watcher;

verus! {

} // verus!
