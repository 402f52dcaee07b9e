//! The error type of the library.
use vstd::prelude::*;

use crate::text::concat_strs;

verus! {

/// What can go wrong in treebeard; each variant carries its detail text.
#[derive(Debug, Clone, PartialEq, Eq)]
pub enum TreebeardError {
    NotAGitRepository(String),
    Git(String),
    Config(String),
    Io(String),
    Fuse(String),
    WorktreeAlreadyExists(String),
    BranchAlreadyExists(String),
    WorktreeNotFound(String),
    Json(String),
    Hook(String),
}

impl TreebeardError {
    /// The user-facing text of the error: a fixed heading and the detail.
    pub open spec fn message(&self) -> Seq<char> {
        match self {
            TreebeardError::NotAGitRepository(d) => "Not a git repository: "@ + d@,
            TreebeardError::Git(d) => "Git error: "@ + d@,
            TreebeardError::Config(d) => "Config error: "@ + d@,
            TreebeardError::Io(d) => "IO error: "@ + d@,
            TreebeardError::Fuse(d) => "FUSE error: "@ + d@,
            TreebeardError::WorktreeAlreadyExists(d) => "Worktree already exists: "@ + d@,
            TreebeardError::BranchAlreadyExists(d) => "Branch already exists: "@ + d@,
            TreebeardError::WorktreeNotFound(d) => "Worktree not found: "@ + d@,
            TreebeardError::Json(d) => "JSON error: "@ + d@,
            TreebeardError::Hook(d) => "Hook failed: "@ + d@,
        }
    }

    /// The user-facing text of the error.
    pub fn to_string(&self) -> (s: String)
        ensures
            s@ == self.message(),
    {
        let (head, detail): (&str, &str) = match self {
            TreebeardError::NotAGitRepository(d) => ("Not a git repository: ", d.as_str()),
            TreebeardError::Git(d) => ("Git error: ", d.as_str()),
            TreebeardError::Config(d) => ("Config error: ", d.as_str()),
            TreebeardError::Io(d) => ("IO error: ", d.as_str()),
            TreebeardError::Fuse(d) => ("FUSE error: ", d.as_str()),
            TreebeardError::WorktreeAlreadyExists(d) => ("Worktree already exists: ", d.as_str()),
            TreebeardError::BranchAlreadyExists(d) => ("Branch already exists: ", d.as_str()),
            TreebeardError::WorktreeNotFound(d) => ("Worktree not found: ", d.as_str()),
            TreebeardError::Json(d) => ("JSON error: ", d.as_str()),
            TreebeardError::Hook(d) => ("Hook failed: ", d.as_str()),
        };
        let parts = [head, detail];
        let s = concat_strs(&parts);
        proof {
            reveal_with_fuel(crate::text::concat_views, 3);
            assert(parts@.drop_last().drop_last() =~= Seq::<&str>::empty());
        }
        s
    }
}

} // verus!
