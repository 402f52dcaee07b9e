//! The end of a session: what is cleaned up, in which order, and what the
//! user's answers mean.
//!
//! Unmounting, running git and hooks, and asking the user are the
//! caller's; this module holds the contexts and the decisions.
use vstd::prelude::*;

use crate::config::{text_or, Config, OnExitBehavior};
use crate::error::TreebeardError;
use crate::git::GitRepo;
use crate::hooks::HookContext;
use crate::overlay::types::MutationType;
use crate::sync::types::SyncResult;
use crate::text::{
    chars_to_string, decimal, push_decimal, push_str, replace_all, replace_str, spec_to_lowercase,
    str_eq, to_lowercase, trim, trim_str,
};

verus! {

/// What squashing at the end of a session needs.
pub struct SquashContext {
    pub repo: GitRepo,
    pub branch_name: String,
    pub on_exit: OnExitBehavior,
    pub squash_message: String,
    pub base_commit: String,
}

/// What removing the worktree needs.
pub struct WorktreeCleanupContext {
    pub worktree_path: String,
    pub main_repo_path: String,
}

/// What syncing ignored files back needs.
pub struct SyncContext<'a> {
    pub mutations: &'a Vec<(String, MutationType)>,
    pub main_repo_path: &'a str,
    pub worktree_path: &'a str,
    pub config: &'a Config,
}

/// Everything the end of a session needs.
pub struct CleanupContext {
    pub mount_path: Option<String>,
    pub worktree_path: String,
    pub main_repo_path: String,
    pub repo: GitRepo,
    pub branch_name: String,
    pub config: Config,
    /// The overlay's mutations during the session.
    pub mutations: Vec<(String, MutationType)>,
    pub base_commit: String,
    /// How many automatic commits failed during the session.
    pub auto_commit_failures: usize,
}

/// The squash commit's message: the configured template with `{branch}`
/// replaced by the branch name.
pub open spec fn squash_message_spec(config: Config, branch: Seq<char>) -> Seq<char> {
    replace_all(text_or(config.commit.squash_commit_message, "treebeard: {branch}"@), "{branch}"@, branch)
}

impl CleanupContext {
    /// The part that squashing needs.
    pub fn as_squash_context(&self) -> (r: SquashContext)
        ensures
            r.repo == self.repo,
            r.branch_name == self.branch_name,
            r.on_exit == crate::config::on_exit_or_prompt(self.config.cleanup.on_exit),
            r.squash_message@ == squash_message_spec(self.config, self.branch_name@),
            r.base_commit == self.base_commit,
    {
        let template = self.config.commit.get_squash_commit_message();
        proof {
            reveal_strlit("{branch}");
        }
        let message = replace_str(template.as_str(), "{branch}", self.branch_name.as_str());
        SquashContext {
            repo: self.repo.duplicate(),
            branch_name: self.branch_name.clone(),
            on_exit: self.config.cleanup.get_on_exit(),
            squash_message: message,
            base_commit: self.base_commit.clone(),
        }
    }

    /// The part that removing the worktree needs.
    pub fn as_worktree_cleanup_context(&self) -> (r: WorktreeCleanupContext)
        ensures
            r.worktree_path == self.worktree_path,
            r.main_repo_path == self.main_repo_path,
    {
        WorktreeCleanupContext {
            worktree_path: self.worktree_path.clone(),
            main_repo_path: self.main_repo_path.clone(),
        }
    }

    /// The part that syncing needs.
    pub fn as_sync_context(&self) -> (r: SyncContext<'_>)
        ensures
            r.mutations == &self.mutations,
            r.main_repo_path@ == self.main_repo_path@,
            r.worktree_path@ == self.worktree_path@,
            r.config == &self.config,
    {
        SyncContext {
            mutations: &self.mutations,
            main_repo_path: self.main_repo_path.as_str(),
            worktree_path: self.worktree_path.as_str(),
            config: &self.config,
        }
    }

    /// The context of the cleanup hooks: the mount path (the worktree path
    /// when nothing is mounted), the worktree, the main repository.
    pub fn as_hook_context(&self) -> (r: HookContext)
        ensures
            r.branch@ == self.branch_name@,
            r.mount_path@ == (match self.mount_path {
                Some(m) => m@,
                None => self.worktree_path@,
            }),
            r.worktree_path@ == self.worktree_path@,
            r.repo_path@ == self.main_repo_path@,
            r.diff is None,
    {
        let mount = match &self.mount_path {
            Some(m) => m.as_str(),
            None => self.worktree_path.as_str(),
        };
        HookContext::new(
            self.branch_name.as_str(),
            mount,
            self.worktree_path.as_str(),
            self.main_repo_path.as_str(),
        )
    }

    /// Where the pre-cleanup hooks run: the mount path when there is one
    /// and it exists, else the worktree.
    pub fn pre_cleanup_dir(&self, mount_exists: bool) -> (r: &str)
        ensures
            r@ == (match self.mount_path {
                Some(m) => if mount_exists {
                    m@
                } else {
                    self.worktree_path@
                },
                None => self.worktree_path@,
            }),
    {
        match &self.mount_path {
            Some(m) => if mount_exists {
                m.as_str()
            } else {
                self.worktree_path.as_str()
            },
            None => self.worktree_path.as_str(),
        }
    }
}

// ---------------------------------------------------------------------------
// Squashing
// ---------------------------------------------------------------------------

/// What to do about the session's automatic commits.
#[derive(Debug, Clone, Copy, PartialEq, Eq, Structural)]
pub enum SquashDecision {
    /// Nothing to do: the count is unknown, or there are no new commits.
    Skip,
    /// Squash them (configured).
    Squash,
    /// Keep them (configured).
    Keep,
    /// Ask the user.
    Ask,
}

/// What to do, given the number of new commits (or the failure to count
/// them) and the configured behavior.
pub open spec fn squash_decision_spec(count: Option<usize>, on_exit: OnExitBehavior) -> SquashDecision {
    match count {
        None => SquashDecision::Skip,
        Some(0) => SquashDecision::Skip,
        Some(_) => match on_exit {
            OnExitBehavior::Squash => SquashDecision::Squash,
            OnExitBehavior::Keep => SquashDecision::Keep,
            OnExitBehavior::Prompt => SquashDecision::Ask,
        },
    }
}

/// Decides what to do about the session's automatic commits.
pub fn squash_decision(count: &Result<usize, TreebeardError>, on_exit: OnExitBehavior) -> (r:
    SquashDecision)
    ensures
        r == squash_decision_spec(
            match count {
                Ok(n) => Some(*n),
                Err(_) => None,
            },
            on_exit,
        ),
{
    match count {
        Err(_) => SquashDecision::Skip,
        Ok(n) => {
            if *n == 0 {
                SquashDecision::Skip
            } else {
                match on_exit {
                    OnExitBehavior::Squash => SquashDecision::Squash,
                    OnExitBehavior::Keep => SquashDecision::Keep,
                    OnExitBehavior::Prompt => SquashDecision::Ask,
                }
            }
        },
    }
}

/// "auto-commit" for one, "auto-commits" for several.
pub open spec fn commits_word(n: usize) -> Seq<char> {
    if n == 1 {
        "auto-commit"@
    } else {
        "auto-commits"@
    }
}

/// The notice for squashing `n` commits.
pub fn squash_notice(n: usize) -> (r: String)
    ensures
        r@ == "Squashing "@ + decimal(n as nat) + " "@ + commits_word(n)
            + " into a single commit..."@,
{
    let mut out: Vec<char> = Vec::new();
    push_str(&mut out, "Squashing ");
    push_decimal(&mut out, n as u64);
    push_str(&mut out, " ");
    push_str(
        &mut out,
        if n == 1 {
            "auto-commit"
        } else {
            "auto-commits"
        },
    );
    push_str(&mut out, " into a single commit...");
    chars_to_string(&out)
}

/// The notice for keeping `n` commits.
pub fn keep_notice(n: usize) -> (r: String)
    ensures
        n == 1 ==> r@ == "Keeping 1 auto-commit"@,
        n != 1 ==> r@ == "Keeping all "@ + decimal(n as nat) + " auto-commits"@,
{
    let mut out: Vec<char> = Vec::new();
    if n == 1 {
        push_str(&mut out, "Keeping ");
        push_decimal(&mut out, 1);
        push_str(&mut out, " auto-commit");
        assert(decimal(1) =~= seq!['1']) by {
            reveal_with_fuel(decimal, 2);
        }
        assert(out@ =~= "Keeping 1 auto-commit"@) by {
            reveal_strlit("Keeping 1 auto-commit");
            reveal_strlit("Keeping ");
            reveal_strlit(" auto-commit");
        }
    } else {
        push_str(&mut out, "Keeping all ");
        push_decimal(&mut out, n as u64);
        push_str(&mut out, " auto-commits");
    }
    chars_to_string(&out)
}

/// The question before squashing `n` commits on a branch.
pub fn squash_question(n: usize, branch: &str) -> (r: String)
    ensures
        r@ == "\nYou have "@ + decimal(n as nat) + " "@ + commits_word(n) + " on branch '"@ + branch@
            + "'"@,
{
    let mut out: Vec<char> = Vec::new();
    push_str(&mut out, "\nYou have ");
    push_decimal(&mut out, n as u64);
    push_str(&mut out, " ");
    push_str(
        &mut out,
        if n == 1 {
            "auto-commit"
        } else {
            "auto-commits"
        },
    );
    push_str(&mut out, " on branch '");
    push_str(&mut out, branch);
    push_str(&mut out, "'");
    chars_to_string(&out)
}

// ---------------------------------------------------------------------------
// Sync and worktree removal
// ---------------------------------------------------------------------------

/// What the sync's outcome means for removing the worktree: whether the
/// user cancelled, and whether git could not tell the ignored files (a
/// failed sync counts as neither).
pub fn sync_outcome_flags(result: &Result<SyncResult, TreebeardError>) -> (r: (bool, bool))
    ensures
        r == (match result {
            Ok(SyncResult::Cancelled) => (true, false),
            Ok(SyncResult::GitCheckFailed) => (false, true),
            _ => (false, false),
        }),
{
    match result {
        Ok(SyncResult::Cancelled) => (true, false),
        Ok(SyncResult::GitCheckFailed) => (false, true),
        _ => (false, false),
    }
}

/// How the user is asked before the worktree is deleted.
#[derive(Debug, Clone, Copy, PartialEq, Eq, Structural)]
pub enum DeletionPrompt {
    /// Do not delete: the user cancelled the sync to keep their work.
    LeaveWorktree,
    /// Ask to type the word `delete`: some changes may not have been shown.
    TypeToConfirm,
    /// Ask yes or no (no by default).
    YesNo,
}

/// Chooses how to ask before deleting the worktree.
pub fn deletion_prompt(was_cancelled: bool, git_check_failed: bool) -> (r: DeletionPrompt)
    ensures
        was_cancelled ==> r == DeletionPrompt::LeaveWorktree,
        !was_cancelled && git_check_failed ==> r == DeletionPrompt::TypeToConfirm,
        !was_cancelled && !git_check_failed ==> r == DeletionPrompt::YesNo,
{
    if was_cancelled {
        DeletionPrompt::LeaveWorktree
    } else if git_check_failed {
        DeletionPrompt::TypeToConfirm
    } else {
        DeletionPrompt::YesNo
    }
}

// ---------------------------------------------------------------------------
// Answers
// ---------------------------------------------------------------------------

/// The hint after a yes/no question, showing the default.
pub fn yes_no_hint(default: bool) -> (r: &'static str)
    ensures
        default ==> r@ == "[Y/n]"@,
        !default ==> r@ == "[y/N]"@,
{
    if default {
        "[Y/n]"
    } else {
        "[y/N]"
    }
}

/// The meaning of an answer to a yes/no question (trimmed, lowercased):
/// empty takes the default, `y`/`yes` and `n`/`no` answer, anything else
/// asks again (`None`).
pub open spec fn yes_no_answer(answer: Seq<char>, default: bool) -> Option<bool> {
    if answer == ""@ {
        Some(default)
    } else if answer == "y"@ || answer == "yes"@ {
        Some(true)
    } else if answer == "n"@ || answer == "no"@ {
        Some(false)
    } else {
        None
    }
}

/// Reads an answer to a yes/no question; `None` means ask again.
pub fn parse_yes_no(input: &str, default: bool) -> (r: Option<bool>)
    ensures
        r == yes_no_answer(spec_to_lowercase(trim(input@)), default),
{
    let t = trim_str(input);
    let l = to_lowercase(t.as_str());
    let s = l.as_str();
    if str_eq(s, "") {
        Some(default)
    } else if str_eq(s, "y") || str_eq(s, "yes") {
        Some(true)
    } else if str_eq(s, "n") || str_eq(s, "no") {
        Some(false)
    } else {
        None
    }
}

/// Whether the typed answer is the confirmation word (after trimming).
pub fn confirms_destructive_action(input: &str, confirmation_word: &str) -> (r: bool)
    ensures
        r == (trim(input@) == confirmation_word@),
{
    let t = trim_str(input);
    str_eq(t.as_str(), confirmation_word)
}

} // verus!
