//! Syncing changes of ignored files from a worktree back to the main
//! repository: grouping the overlay's mutations, filtering them, and the
//! decisions of the selection dialog.
use vstd::prelude::*;

pub mod aggregation;
pub mod config;
pub mod display;
pub mod files;
pub mod ops;
pub mod selection;
pub mod types;

verus! {

/// Directories with at most this many files can be browsed file by file.
pub const MAX_VIEWABLE_FILES: usize = 50;

/// A diff with more lines than this is not shown.
pub const MAX_DIFF_LINES: usize = 15;

/// Files larger than this (in bytes) are not diffed.
pub const MAX_DIFF_FILE_SIZE: u64 = 102400;

/// A diff with a line longer than this is not shown.
pub const MAX_LINE_LENGTH: usize = 200;

} // verus!
