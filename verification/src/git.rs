//! Git: the commands treebeard runs, and what their output means.
//!
//! Running a command is the caller's: for each operation this module gives
//! the invocation (`*_invocation`) and, from what the process left behind,
//! the operation's result (the function with the operation's name).
use vstd::prelude::*;

use crate::config::string_views;
use crate::error::TreebeardError;
use crate::path::{file_name_spec, join, path_file_name, path_join, path_parent, spec_path_parent};
use crate::text::{
    chars_to_string, contains_seq, lines, parse_u64, parse_u64_spec, push_str, spec_to_lowercase,
    spec_utf8_lossy, split_lines, starts_with, str_contains, str_to_chars, strip_prefix_str,
    to_lowercase, trim, trim_str, utf8_lossy,
};

verus! {

/// How often an operation is tried when its failure looks transient.
pub const MAX_ATTEMPTS: u32 = 3;

/// The wait before the first retry, in milliseconds; it doubles each time.
pub const INITIAL_BACKOFF_MS: u64 = 100;

// ---------------------------------------------------------------------------
// Running git
// ---------------------------------------------------------------------------

/// What a finished git process left behind.
pub struct GitOutput {
    pub success: bool,
    pub stdout: Vec<u8>,
    pub stderr: Vec<u8>,
}

/// A git command line: its arguments, and the heading of the message when
/// it fails.
pub struct GitInvocation {
    pub args: Vec<String>,
    pub error_prefix: String,
}

/// The arguments joined by single spaces.
pub open spec fn join_args(args: Seq<Seq<char>>) -> Seq<char>
    decreases args.len(),
{
    if args.len() == 0 {
        Seq::empty()
    } else if args.len() == 1 {
        args[0]
    } else {
        join_args(args.drop_last()) + " "@ + args.last()
    }
}

/// An error as its variant (a configuration error or a git error) and text.
pub open spec fn error_is(e: TreebeardError, config: bool, text: Seq<char>) -> bool {
    if config {
        e matches TreebeardError::Config(m) && m@ == text
    } else {
        e matches TreebeardError::Git(m) && m@ == text
    }
}

/// The failure of running git, if it failed: a configuration error when
/// git could not be started, a git error (the heading and git's error
/// output) when it exited unsuccessfully.
pub open spec fn git_failure(
    workdir: Seq<char>,
    args: Seq<Seq<char>>,
    prefix: Seq<char>,
    result: Result<GitOutput, String>,
) -> Option<(bool, Seq<char>)> {
    match result {
        Err(e) => Some(
            (
                true,
                "Failed to execute 'git "@ + join_args(args) + "' in "@ + workdir + ": "@ + e@,
            ),
        ),
        Ok(o) => if !o.success {
            Some((false, prefix + ": "@ + spec_utf8_lossy(o.stderr@)))
        } else {
            None
        },
    }
}

/// Appends the arguments, separated by spaces.
fn push_joined_args(out: &mut Vec<char>, args: &Vec<String>)
    ensures
        final(out)@ == old(out)@ + join_args(string_views(args@)),
{
    let ghost start = out@;
    let ghost views = string_views(args@);
    let mut i: usize = 0;
    while i < args.len()
        invariant
            i <= args.len(),
            views == string_views(args@),
            out@ == start + join_args(views.take(i as int)),
        decreases args.len() - i,
    {
        assert(views.take(i + 1).drop_last() =~= views.take(i as int));
        if i > 0 {
            push_str(out, " ");
        }
        push_str(out, args[i].as_str());
        i = i + 1;
        proof {
            if i == 1 {
                assert(views.take(1) =~= seq![views[0]]);
            }
            assert(out@ =~= start + join_args(views.take(i as int)));
        }
    }
    assert(views.take(args.len() as int) =~= views);
}

/// Checks how running git went: passes the output on when git succeeded,
/// else gives the error (see `git_failure`).
pub fn check_git_output(workdir: &str, inv: &GitInvocation, result: Result<GitOutput, String>) -> (r:
    Result<GitOutput, TreebeardError>)
    ensures
        match git_failure(workdir@, string_views(inv.args@), inv.error_prefix@, result) {
            Some((config, text)) => r matches Err(e) && error_is(e, config, text),
            None => r matches Ok(o) && result matches Ok(o2) && o.stdout@ == o2.stdout@
                && o.stderr@ == o2.stderr@ && o.success,
        },
{
    match result {
        Err(e) => {
            let mut out: Vec<char> = Vec::new();
            push_str(&mut out, "Failed to execute 'git ");
            push_joined_args(&mut out, &inv.args);
            push_str(&mut out, "' in ");
            push_str(&mut out, workdir);
            push_str(&mut out, ": ");
            push_str(&mut out, e.as_str());
            Err(TreebeardError::Config(chars_to_string(&out)))
        },
        Ok(o) => {
            if !o.success {
                let stderr = utf8_lossy(o.stderr.as_slice());
                let mut out: Vec<char> = Vec::new();
                push_str(&mut out, inv.error_prefix.as_str());
                push_str(&mut out, ": ");
                push_str(&mut out, stderr.as_str());
                Err(TreebeardError::Git(chars_to_string(&out)))
            } else {
                Ok(o)
            }
        },
    }
}

/// An invocation from literal arguments.
fn invocation(args: Vec<String>, prefix: &str) -> (r: GitInvocation)
    ensures
        r.args@ == args@,
        r.error_prefix@ == prefix@,
{
    GitInvocation { args, error_prefix: String::from_str(prefix) }
}

// ---------------------------------------------------------------------------
// Transient failures and retries
// ---------------------------------------------------------------------------

/// A failure that may go away when tried again: lock files, files that
/// exist, denied permissions.
pub open spec fn is_transient_text(msg: Seq<char>) -> bool {
    let lower = spec_to_lowercase(msg);
    contains_seq(lower, "index.lock"@) || contains_seq(lower, "unable to create"@) || contains_seq(
        lower,
        "file exists"@,
    ) || contains_seq(lower, "permission denied"@) || contains_seq(lower, "could not lock"@)
}

/// Which errors are worth retrying: configuration and git errors whose
/// text (lowercased) names a lock or permission problem.
pub open spec fn is_transient_spec(error: TreebeardError) -> bool {
    match error {
        TreebeardError::Config(m) => is_transient_text(m@),
        TreebeardError::Git(m) => is_transient_text(m@),
        _ => false,
    }
}

/// Whether an error is worth retrying.
pub fn is_transient_git_error(error: &TreebeardError) -> (r: bool)
    ensures
        r == is_transient_spec(*error),
{
    match error {
        TreebeardError::Config(msg) | TreebeardError::Git(msg) => {
            let lower = to_lowercase(msg.as_str());
            let l = lower.as_str();
            str_contains(l, "index.lock") || str_contains(l, "unable to create") || str_contains(
                l,
                "file exists",
            ) || str_contains(l, "permission denied") || str_contains(l, "could not lock")
        },
        _ => false,
    }
}

/// Two to the power `n`.
pub open spec fn two_pow(n: nat) -> nat
    decreases n,
{
    if n == 0 {
        1
    } else {
        2 * two_pow((n - 1) as nat)
    }
}

/// The wait after the failed attempt number `attempt` (from 0).
pub open spec fn backoff_ms(attempt: u32) -> nat {
    (INITIAL_BACKOFF_MS * two_pow(attempt as nat)) as nat
}

/// What to do after an attempt failed.
#[derive(Debug, Clone, Copy, PartialEq, Eq, Structural)]
pub enum RetryDecision {
    /// Wait this many milliseconds, then try again.
    RetryAfter(u64),
    /// Give up with this failure.
    GiveUp,
}

/// After the failed attempt number `attempt` (from 0): retry after the
/// backoff when the failure is transient and attempts are left, else give
/// up.
pub fn retry_decision(attempt: u32, error: &TreebeardError) -> (r: RetryDecision)
    requires
        attempt < MAX_ATTEMPTS,
    ensures
        attempt + 1 < MAX_ATTEMPTS && is_transient_spec(*error) ==> r == RetryDecision::RetryAfter(
            backoff_ms(attempt) as u64,
        ),
        !(attempt + 1 < MAX_ATTEMPTS && is_transient_spec(*error)) ==> r == RetryDecision::GiveUp,
{
    if attempt < MAX_ATTEMPTS - 1 && is_transient_git_error(error) {
        let mut b: u64 = INITIAL_BACKOFF_MS;
        let mut i: u32 = 0;
        while i < attempt
            invariant
                i <= attempt,
                attempt + 1 < MAX_ATTEMPTS,
                b == INITIAL_BACKOFF_MS * two_pow(i as nat),
            decreases attempt - i,
        {
            assert(i == 0 && two_pow(0) == 1);
            b = b * 2;
            i = i + 1;
        }
        RetryDecision::RetryAfter(b)
    } else {
        RetryDecision::GiveUp
    }
}

/// The wait doubles from one retry to the next.
pub proof fn lemma_backoff_doubles(attempt: u32)
    requires
        attempt + 1 < MAX_ATTEMPTS,
    ensures
        backoff_ms((attempt + 1) as u32) == 2 * backoff_ms(attempt),
{
    assert(two_pow((attempt + 1) as nat) == 2 * two_pow(attempt as nat));
    assert(INITIAL_BACKOFF_MS * (2 * two_pow(attempt as nat)) == 2 * (INITIAL_BACKOFF_MS * two_pow(
        attempt as nat,
    ))) by (nonlinear_arith);
}

/// No retry is offered after the last attempt, so an operation runs at
/// most `MAX_ATTEMPTS` times.
pub proof fn lemma_retries_bounded(error: TreebeardError)
    ensures
        !((MAX_ATTEMPTS - 1) + 1 < MAX_ATTEMPTS && is_transient_spec(error)),
{
}

// ---------------------------------------------------------------------------
// The repository
// ---------------------------------------------------------------------------

/// The result of running an operation that yields nothing: its failure, or
/// success.
pub open spec fn unit_outcome(r: Result<(), TreebeardError>, f: Option<(bool, Seq<char>)>) -> bool {
    match f {
        Some((config, text)) => r matches Err(e) && error_is(e, config, text),
        None => r is Ok,
    }
}

/// The arguments of an invocation are the given texts, in order.
pub open spec fn args_are(inv: GitInvocation, args: Seq<Seq<char>>) -> bool {
    string_views(inv.args@) == args
}

/// The failure of running an invocation in a repository.
pub open spec fn failure_of(repo: GitRepo, inv: GitInvocation, result: Result<GitOutput, String>) -> Option<
    (bool, Seq<char>),
> {
    git_failure(repo.workdir@, string_views(inv.args@), inv.error_prefix@, result)
}

/// The decoded standard output of a run.
pub open spec fn stdout_text(result: Result<GitOutput, String>) -> Seq<char> {
    match result {
        Ok(o) => spec_utf8_lossy(o.stdout@),
        Err(_) => Seq::empty(),
    }
}

/// The standard output of a run, as raw bytes.
pub open spec fn stdout_bytes(result: Result<GitOutput, String>) -> Seq<u8> {
    match result {
        Ok(o) => o.stdout@,
        Err(_) => Seq::empty(),
    }
}

/// A repository: its name (that of its working directory), its working
/// directory, and its git directory.
pub struct GitRepo {
    pub repo_name: String,
    pub workdir: String,
    pub git_dir: String,
}

/// Arguments from string slices.
fn args_of(parts: Vec<&str>) -> (r: Vec<String>)
    ensures
        string_views(r@) == parts@.map_values(|p: &str| p@),
{
    let mut v: Vec<String> = Vec::new();
    let mut i: usize = 0;
    while i < parts.len()
        invariant
            i <= parts.len(),
            v@.len() == i,
            forall|j: int| 0 <= j < i ==> (#[trigger] v@[j])@ == parts@[j]@,
        decreases parts.len() - i,
    {
        v.push(String::from_str(parts[i]));
        i = i + 1;
    }
    assert(string_views(v@) =~= parts@.map_values(|p: &str| p@));
    v
}

/// The text of a configuration error, when `r` is one.
fn config_error(text: String) -> (e: TreebeardError)
    ensures
        error_is(e, true, text@),
{
    TreebeardError::Config(text)
}

/// Concatenates string slices into a `String`.
fn cat(parts: &[&str]) -> (r: String)
    ensures
        r@ == crate::text::concat_views(parts@),
{
    crate::text::concat_strs(parts)
}

impl GitRepo {
    /// An equal copy.
    pub fn duplicate(&self) -> (r: GitRepo)
        ensures
            r == *self,
    {
        GitRepo {
            repo_name: self.repo_name.clone(),
            workdir: self.workdir.clone(),
            git_dir: self.git_dir.clone(),
        }
    }

    /// The repository with this git directory and working directory; its
    /// name is the last component of the working directory.
    pub fn from_dirs(git_dir: String, workdir: String) -> (r: Result<GitRepo, TreebeardError>)
        ensures
            opened(r, git_dir@, workdir@),
    {
        match path_file_name(workdir.as_str()) {
            Some(name) => Ok(GitRepo { repo_name: name, workdir, git_dir }),
            None => Err(config_error(String::from_str("Could not determine repo name"))),
        }
    }

    /// The working directory.
    pub fn workdir(&self) -> (r: &str)
        ensures
            r@ == self.workdir@,
    {
        self.workdir.as_str()
    }

    /// The repository's name.
    pub fn repo_name(&self) -> (r: &str)
        ensures
            r@ == self.repo_name@,
    {
        self.repo_name.as_str()
    }

    /// `git show-ref --verify --quiet refs/heads/<branch>`.
    pub fn branch_exists_invocation(&self, branch_name: &str) -> (r: GitInvocation)
        ensures
            args_are(r, seq!["show-ref"@, "--verify"@, "--quiet"@, "refs/heads/"@ + branch_name@]),
    {
        let branch_ref = cat(&["refs/heads/", branch_name]);
        proof {
            reveal_with_fuel(crate::text::concat_views, 3);
        }
        let args = args_of(vec!["show-ref", "--verify", "--quiet", branch_ref.as_str()]);
        let r = invocation(args, "");
        assert(string_views(r.args@) =~= seq![
            "show-ref"@,
            "--verify"@,
            "--quiet"@,
            "refs/heads/"@ + branch_name@,
        ]);
        r
    }

    /// A branch exists when `show-ref` ran and succeeded.
    pub fn branch_exists(&self, result: &Result<GitOutput, String>) -> (r: bool)
        ensures
            r == (result matches Ok(o) && o.success),
    {
        match result {
            Ok(o) => o.success,
            Err(_) => false,
        }
    }

    /// `git branch <branch>`, refused when the branch already exists.
    pub fn create_branch_invocation(&self, branch_name: &str, exists: bool) -> (r: Result<
        GitInvocation,
        TreebeardError,
    >)
        ensures
            exists ==> (r matches Err(TreebeardError::BranchAlreadyExists(b)) && b@ == branch_name@),
            !exists ==> (r matches Ok(inv) && args_are(inv, seq!["branch"@, branch_name@])
                && inv.error_prefix@ == "Failed to create branch"@),
    {
        if exists {
            return Err(TreebeardError::BranchAlreadyExists(String::from_str(branch_name)));
        }
        let args = args_of(vec!["branch", branch_name]);
        let r = invocation(args, "Failed to create branch");
        assert(string_views(r.args@) =~= seq!["branch"@, branch_name@]);
        Ok(r)
    }

    /// Creating a branch: refused when it already exists (`exists` is what
    /// `branch_exists` answered; then `git branch` is not run), otherwise
    /// what `git branch <branch>` (its run is `result`) came to.
    pub fn create_branch(
        &self,
        branch_name: &str,
        exists: bool,
        result: Option<Result<GitOutput, String>>,
    ) -> (r: Result<(), TreebeardError>)
        requires
            exists || result is Some,
        ensures
            exists ==> (r matches Err(TreebeardError::BranchAlreadyExists(b)) && b@ == branch_name@),
            !exists ==> (result matches Some(res) && unit_outcome(
                r,
                git_failure(
                    self.workdir@,
                    seq!["branch"@, branch_name@],
                    "Failed to create branch"@,
                    res,
                ),
            )),
    {
        let inv = match self.create_branch_invocation(branch_name, exists) {
            Ok(i) => i,
            Err(e) => {
                return Err(e);
            },
        };
        match result {
            Some(res) => match check_git_output(self.workdir.as_str(), &inv, res) {
                Ok(_) => Ok(()),
                Err(e) => Err(e),
            },
            None => Err(TreebeardError::BranchAlreadyExists(String::from_str(branch_name))),
        }
    }

    /// Where git keeps the administrative files of a branch's worktree:
    /// `<git dir>/worktrees/<branch>` (the worktree exists when it does).
    pub fn worktree_admin_dir(&self, branch_name: &str) -> (r: String)
        ensures
            r@ == join(join(self.git_dir@, "worktrees"@), branch_name@),
    {
        let w = path_join(self.git_dir.as_str(), "worktrees");
        path_join(w.as_str(), branch_name)
    }

    /// `git worktree add <path> <branch>`, refused when the worktree
    /// exists; also gives the directory that must exist first (the path's
    /// parent).
    pub fn create_worktree_invocation(
        &self,
        branch_name: &str,
        worktree_path: &str,
        exists: bool,
    ) -> (r: Result<(String, GitInvocation), TreebeardError>)
        ensures
            exists ==> (r matches Err(TreebeardError::WorktreeAlreadyExists(b)) && b@
                == branch_name@),
            !exists && spec_path_parent(worktree_path@) is None ==> (r matches Err(e) && error_is(
                e,
                true,
                "Invalid worktree path: "@ + worktree_path@,
            )),
            spec_path_parent(worktree_path@) matches Some(parent) ==> (!exists ==> (r matches Ok(
                (dir, inv),
            ) && dir@ == parent && args_are(
                inv,
                seq!["worktree"@, "add"@, worktree_path@, branch_name@],
            ) && inv.error_prefix@ == "Failed to create worktree"@)),
    {
        if exists {
            return Err(TreebeardError::WorktreeAlreadyExists(String::from_str(branch_name)));
        }
        match path_parent(worktree_path) {
            None => {
                let m = cat(&["Invalid worktree path: ", worktree_path]);
                proof {
                    reveal_with_fuel(crate::text::concat_views, 3);
                }
                Err(config_error(m))
            },
            Some(parent) => {
                let args = args_of(vec!["worktree", "add", worktree_path, branch_name]);
                let r = invocation(args, "Failed to create worktree");
                assert(string_views(r.args@) =~= seq![
                    "worktree"@,
                    "add"@,
                    worktree_path@,
                    branch_name@,
                ]);
                Ok((parent, r))
            },
        }
    }

    /// Where a branch's worktree is, from the administrative `gitdir` file
    /// (which names the worktree's `.git` file): refused when the
    /// administrative directory does not exist or the file could not be
    /// read (`gitdir_content` is then the reading error).
    pub fn get_worktree_path(
        &self,
        branch_name: &str,
        exists: bool,
        gitdir_content: Result<String, String>,
    ) -> (r: Result<String, TreebeardError>)
        ensures
            !exists ==> (r matches Err(TreebeardError::WorktreeNotFound(b)) && b@ == branch_name@),
            gitdir_content matches Err(e) ==> (exists ==> (r matches Err(err) && error_is(
                err,
                true,
                "Failed to read gitdir file "@ + join(
                    join(join(self.git_dir@, "worktrees"@), branch_name@),
                    "gitdir"@,
                ) + ": "@ + e@,
            ))),
            gitdir_content matches Ok(c) ==> (exists ==> (match spec_path_parent(trim(c@)) {
                Some(p) => r matches Ok(w) && w@ == p,
                None => r matches Err(err) && error_is(err, true, "Invalid gitdir in worktree: "@ + c@),
            })),
    {
        if !exists {
            return Err(TreebeardError::WorktreeNotFound(String::from_str(branch_name)));
        }
        match gitdir_content {
            Err(e) => {
                let admin = self.worktree_admin_dir(branch_name);
                let file = path_join(admin.as_str(), "gitdir");
                let m = cat(&["Failed to read gitdir file ", file.as_str(), ": ", e.as_str()]);
                proof {
                    reveal_with_fuel(crate::text::concat_views, 5);
                }
                Err(config_error(m))
            },
            Ok(c) => {
                let t = trim_str(c.as_str());
                match path_parent(t.as_str()) {
                    Some(p) => Ok(p),
                    None => {
                        let m = cat(&["Invalid gitdir in worktree: ", c.as_str()]);
                        proof {
                            reveal_with_fuel(crate::text::concat_views, 3);
                        }
                        Err(config_error(m))
                    },
                }
            },
        }
    }

    /// `git add -A`: stages every change.
    pub fn stage_all_args(&self) -> (r: Vec<String>)
        ensures
            string_views(r@) == seq!["add"@, "-A"@],
    {
        args_of(vec!["add", "-A"])
    }

    /// `git diff --cached`: the staged changes.
    pub fn staged_diff_args(&self) -> (r: Vec<String>)
        ensures
            string_views(r@) == seq!["diff"@, "--cached"@],
    {
        args_of(vec!["diff", "--cached"])
    }

    /// Whether `git add -A` worked. Its messages differ from the other
    /// commands': the error output is trimmed.
    pub fn stage_all(&self, result: Result<GitOutput, String>) -> (r: Result<(), TreebeardError>)
        ensures
            result matches Err(e) ==> (r matches Err(err) && error_is(
                err,
                true,
                "Failed to execute 'git add' in "@ + self.workdir@ + ": "@ + e@,
            )),
            result matches Ok(o) ==> (!o.success ==> (r matches Err(err) && error_is(
                err,
                false,
                "Failed to stage changes: "@ + trim(spec_utf8_lossy(o.stderr@)),
            ))),
            result matches Ok(o) ==> (o.success ==> r is Ok),
    {
        match result {
            Err(e) => {
                let m = cat(&["Failed to execute 'git add' in ", self.workdir.as_str(), ": ", e.as_str()]);
                proof {
                    reveal_with_fuel(crate::text::concat_views, 5);
                }
                Err(config_error(m))
            },
            Ok(o) => {
                if o.success {
                    Ok(())
                } else {
                    let stderr = utf8_lossy(o.stderr.as_slice());
                    let t = trim_str(stderr.as_str());
                    let m = cat(&["Failed to stage changes: ", t.as_str()]);
                    proof {
                        reveal_with_fuel(crate::text::concat_views, 3);
                    }
                    Err(TreebeardError::Git(m))
                }
            },
        }
    }

    /// What `git diff --cached` shows: nothing to commit when its output is
    /// empty, else the diff. Its exit status is not looked at.
    pub fn staged_diff(&self, result: Result<GitOutput, String>) -> (r: Result<
        Option<String>,
        TreebeardError,
    >)
        ensures
            result matches Err(e) ==> (r matches Err(err) && error_is(
                err,
                true,
                "Failed to execute 'git diff --cached' in "@ + self.workdir@ + ": "@ + e@,
            )),
            result matches Ok(o) ==> (o.stdout@.len() == 0 ==> r matches Ok(None)),
            result matches Ok(o) ==> (o.stdout@.len() > 0 ==> (r matches Ok(Some(d)) && d@
                == spec_utf8_lossy(o.stdout@))),
    {
        match result {
            Err(e) => {
                let m = cat(
                    &["Failed to execute 'git diff --cached' in ", self.workdir.as_str(), ": ", e.as_str()],
                );
                proof {
                    reveal_with_fuel(crate::text::concat_views, 5);
                }
                Err(config_error(m))
            },
            Ok(o) => {
                if o.stdout.len() == 0 {
                    Ok(None)
                } else {
                    Ok(Some(utf8_lossy(o.stdout.as_slice())))
                }
            },
        }
    }

    /// Stages everything and gives the staged diff (`None` when there is
    /// nothing to commit).
    pub fn stage_changes(
        &self,
        stage_result: Result<GitOutput, String>,
        diff_result: Result<GitOutput, String>,
    ) -> (r: Result<Option<String>, TreebeardError>)
        ensures
            !(stage_result matches Ok(o) && o.success) ==> r is Err,
            stage_result matches Ok(o) && o.success ==> (match diff_result {
                Err(_) => r is Err,
                Ok(d) => if d.stdout@.len() == 0 {
                    r matches Ok(None)
                } else {
                    r matches Ok(Some(t)) && t@ == spec_utf8_lossy(d.stdout@)
                },
            }),
    {
        match self.stage_all(stage_result) {
            Err(e) => Err(e),
            Ok(()) => self.staged_diff(diff_result),
        }
    }

    /// `git rev-parse HEAD`.
    pub fn get_head_invocation(&self) -> (r: GitInvocation)
        ensures
            args_are(r, seq!["rev-parse"@, "HEAD"@]),
            r.error_prefix@ == "Failed to get HEAD"@,
    {
        let r = invocation(args_of(vec!["rev-parse", "HEAD"]), "Failed to get HEAD");
        assert(string_views(r.args@) =~= seq!["rev-parse"@, "HEAD"@]);
        r
    }

    /// The commit that `HEAD` names (the trimmed output of `rev-parse`).
    pub fn get_head(&self, result: Result<GitOutput, String>) -> (r: Result<String, TreebeardError>)
        ensures
            match git_failure(self.workdir@, seq!["rev-parse"@, "HEAD"@], "Failed to get HEAD"@, result) {
                Some((config, text)) => r matches Err(e) && error_is(e, config, text),
                None => r matches Ok(h) && h@ == trim(stdout_text(result)),
            },
    {
        let inv = self.get_head_invocation();
        match check_git_output(self.workdir.as_str(), &inv, result) {
            Ok(o) => {
                let text = utf8_lossy(o.stdout.as_slice());
                Ok(trim_str(text.as_str()))
            },
            Err(e) => Err(e),
        }
    }

    /// `git commit -m <message>`.
    pub fn commit_staged_invocation(&self, message: &str) -> (r: GitInvocation)
        ensures
            args_are(r, seq!["commit"@, "-m"@, message@]),
            r.error_prefix@ == "Failed to commit"@,
    {
        let args = args_of(vec!["commit", "-m", message]);
        let r = invocation(args, "Failed to commit");
        assert(string_views(r.args@) =~= seq!["commit"@, "-m"@, message@]);
        r
    }

    /// Whether committing the staged changes worked.
    pub fn commit_staged(&self, message: &str, result: Result<GitOutput, String>) -> (r: Result<
        (),
        TreebeardError,
    >)
        ensures
            unit_outcome(
                r,
                git_failure(
                    self.workdir@,
                    seq!["commit"@, "-m"@, message@],
                    "Failed to commit"@,
                    result,
                ),
            ),
    {
        let inv = self.commit_staged_invocation(message);
        match check_git_output(self.workdir.as_str(), &inv, result) {
            Ok(_) => Ok(()),
            Err(e) => Err(e),
        }
    }

    /// `git worktree prune`.
    pub fn prune_worktrees_invocation(&self) -> (r: GitInvocation)
        ensures
            args_are(r, seq!["worktree"@, "prune"@]),
            r.error_prefix@ == "Failed to prune worktrees"@,
    {
        let r = invocation(args_of(vec!["worktree", "prune"]), "Failed to prune worktrees");
        assert(string_views(r.args@) =~= seq!["worktree"@, "prune"@]);
        r
    }

    /// Whether pruning stale worktree references worked.
    pub fn prune_worktrees(&self, result: Result<GitOutput, String>) -> (r: Result<(), TreebeardError>)
        ensures
            unit_outcome(
                r,
                git_failure(
                    self.workdir@,
                    seq!["worktree"@, "prune"@],
                    "Failed to prune worktrees"@,
                    result,
                ),
            ),
    {
        let inv = self.prune_worktrees_invocation();
        match check_git_output(self.workdir.as_str(), &inv, result) {
            Ok(_) => Ok(()),
            Err(e) => Err(e),
        }
    }

    /// `git branch -D <branch>` when forced, else `git branch -d <branch>`.
    pub fn delete_branch_invocation(&self, branch_name: &str, force: bool) -> (r: GitInvocation)
        ensures
            args_are(r, seq!["branch"@, if force { "-D"@ } else { "-d"@ }, branch_name@]),
            r.error_prefix@ == "Failed to delete branch"@,
    {
        let flag = if force {
            "-D"
        } else {
            "-d"
        };
        let r = invocation(args_of(vec!["branch", flag, branch_name]), "Failed to delete branch");
        assert(string_views(r.args@) =~= seq!["branch"@, flag@, branch_name@]);
        r
    }

    /// Whether deleting the branch worked.
    pub fn delete_branch(&self, branch_name: &str, force: bool, result: Result<GitOutput, String>) -> (r:
        Result<(), TreebeardError>)
        ensures
            unit_outcome(
                r,
                git_failure(
                    self.workdir@,
                    seq!["branch"@, if force { "-D"@ } else { "-d"@ }, branch_name@],
                    "Failed to delete branch"@,
                    result,
                ),
            ),
    {
        let inv = self.delete_branch_invocation(branch_name, force);
        match check_git_output(self.workdir.as_str(), &inv, result) {
            Ok(_) => Ok(()),
            Err(e) => Err(e),
        }
    }

    /// `git status --porcelain`.
    pub fn status_invocation(&self) -> (r: GitInvocation)
        ensures
            args_are(r, seq!["status"@, "--porcelain"@]),
            r.error_prefix@ == "Failed to check for uncommitted changes"@,
    {
        let r = invocation(
            args_of(vec!["status", "--porcelain"]),
            "Failed to check for uncommitted changes",
        );
        assert(string_views(r.args@) =~= seq!["status"@, "--porcelain"@]);
        r
    }

    /// Whether the working tree has uncommitted changes: `status` printed
    /// something.
    pub fn has_uncommitted_changes(&self, result: Result<GitOutput, String>) -> (r: Result<
        bool,
        TreebeardError,
    >)
        ensures
            match git_failure(
                self.workdir@,
                seq!["status"@, "--porcelain"@],
                "Failed to check for uncommitted changes"@,
                result,
            ) {
                Some((config, text)) => r matches Err(e) && error_is(e, config, text),
                None => r == Ok::<bool, TreebeardError>(stdout_bytes(result).len() > 0) && (
                status_lines(stdout_bytes(result)) ==> r == Ok::<bool, TreebeardError>(
                    nonempty_count(lines(vstd::utf8::decode_utf8(stdout_bytes(result)))) > 0,
                )),
            },
    {
        let inv = self.status_invocation();
        match check_git_output(self.workdir.as_str(), &inv, result) {
            Ok(o) => {
                proof {
                    if status_lines(o.stdout@) {
                        lemma_dirty_count_agrees_with_uncommitted(o.stdout@);
                    }
                }
                Ok(o.stdout.len() > 0)
            },
            Err(e) => Err(e),
        }
    }

    /// How many files `status` lists (its non-empty lines).
    pub fn get_dirty_files_count(&self, result: Result<GitOutput, String>) -> (r: Result<
        usize,
        TreebeardError,
    >)
        ensures
            match git_failure(
                self.workdir@,
                seq!["status"@, "--porcelain"@],
                "Failed to check for uncommitted changes"@,
                result,
            ) {
                Some((config, text)) => r matches Err(e) && error_is(e, config, text),
                None => r matches Ok(n) && n == nonempty_count(lines(stdout_text(result))) && (
                vstd::utf8::valid_utf8(stdout_bytes(result)) ==> n == nonempty_count(
                    lines(vstd::utf8::decode_utf8(stdout_bytes(result))),
                )) && (status_lines(stdout_bytes(result)) ==> (n > 0) == (stdout_bytes(result).len()
                    > 0)),
            },
    {
        let inv = self.status_invocation();
        match check_git_output(self.workdir.as_str(), &inv, result) {
            Ok(o) => {
                let text = utf8_lossy(o.stdout.as_slice());
                let chars = str_to_chars(text.as_str());
                let ls = split_lines(&chars);
                assert(ls@.map_values(|v: Vec<char>| v@) =~= lines(chars@));
                proof {
                    if status_lines(o.stdout@) {
                        lemma_dirty_count_agrees_with_uncommitted(o.stdout@);
                    }
                }
                Ok(count_nonempty(&ls))
            },
            Err(e) => Err(e),
        }
    }

    /// `git rev-list --count <base>..<branch>`.
    pub fn get_commit_count_since_invocation(&self, branch_name: &str, base_commit: &str) -> (r:
        GitInvocation)
        ensures
            args_are(r, seq!["rev-list"@, "--count"@, base_commit@ + ".."@ + branch_name@]),
            r.error_prefix@ == "Failed to count commits"@,
    {
        let range = cat(&[base_commit, "..", branch_name]);
        proof {
            reveal_with_fuel(crate::text::concat_views, 4);
        }
        let args = args_of(vec!["rev-list", "--count", range.as_str()]);
        let r = invocation(args, "Failed to count commits");
        assert(string_views(r.args@) =~= seq![
            "rev-list"@,
            "--count"@,
            base_commit@ + ".."@ + branch_name@,
        ]);
        r
    }

    /// How many commits the branch has beyond the base commit.
    pub fn get_commit_count_since(
        &self,
        branch_name: &str,
        base_commit: &str,
        result: Result<GitOutput, String>,
    ) -> (r: Result<usize, TreebeardError>)
        ensures
            match git_failure(
                self.workdir@,
                seq!["rev-list"@, "--count"@, base_commit@ + ".."@ + branch_name@],
                "Failed to count commits"@,
                result,
            ) {
                Some((config, text)) => r matches Err(e) && error_is(e, config, text),
                None => match parse_u64_spec(trim(stdout_text(result))) {
                    Some(n) if n <= usize::MAX => r == Ok::<usize, TreebeardError>(n as usize),
                    _ => r matches Err(e) && error_is(
                        e,
                        false,
                        "Failed to parse commit count: "@ + trim(stdout_text(result)),
                    ),
                },
            },
    {
        let inv = self.get_commit_count_since_invocation(branch_name, base_commit);
        match check_git_output(self.workdir.as_str(), &inv, result) {
            Ok(o) => {
                let text = utf8_lossy(o.stdout.as_slice());
                let t = trim_str(text.as_str());
                let chars = str_to_chars(t.as_str());
                match parse_u64(&chars) {
                    Some(n) if n <= usize::MAX as u64 => Ok(n as usize),
                    _ => {
                        let m = cat(&["Failed to parse commit count: ", t.as_str()]);
                        proof {
                            reveal_with_fuel(crate::text::concat_views, 3);
                        }
                        Err(TreebeardError::Git(m))
                    },
                }
            },
            Err(e) => Err(e),
        }
    }

    /// `git stash push -m <message>`, with `--include-untracked` when asked.
    pub fn stash_push_invocation(&self, message: &str, include_untracked: bool) -> (r: GitInvocation)
        ensures
            include_untracked ==> args_are(
                r,
                seq!["stash"@, "push"@, "-m"@, message@, "--include-untracked"@],
            ),
            !include_untracked ==> args_are(r, seq!["stash"@, "push"@, "-m"@, message@]),
            r.error_prefix@ == "Failed to stash changes"@,
    {
        let args = if include_untracked {
            args_of(vec!["stash", "push", "-m", message, "--include-untracked"])
        } else {
            args_of(vec!["stash", "push", "-m", message])
        };
        let r = invocation(args, "Failed to stash changes");
        assert(include_untracked ==> string_views(r.args@) =~= seq![
            "stash"@,
            "push"@,
            "-m"@,
            message@,
            "--include-untracked"@,
        ]);
        assert(!include_untracked ==> string_views(r.args@) =~= seq![
            "stash"@,
            "push"@,
            "-m"@,
            message@,
        ]);
        r
    }

    /// Whether stashing worked.
    pub fn stash_push(&self, message: &str, include_untracked: bool, result: Result<GitOutput, String>) -> (r:
        Result<(), TreebeardError>)
        ensures
            unit_outcome(
                r,
                git_failure(
                    self.workdir@,
                    if include_untracked {
                        seq!["stash"@, "push"@, "-m"@, message@, "--include-untracked"@]
                    } else {
                        seq!["stash"@, "push"@, "-m"@, message@]
                    },
                    "Failed to stash changes"@,
                    result,
                ),
            ),
    {
        let inv = self.stash_push_invocation(message, include_untracked);
        match check_git_output(self.workdir.as_str(), &inv, result) {
            Ok(_) => Ok(()),
            Err(e) => Err(e),
        }
    }
}

/// How many of the lines are not empty.
pub open spec fn nonempty_count(ls: Seq<Seq<char>>) -> nat
    decreases ls.len(),
{
    if ls.len() == 0 {
        0
    } else {
        nonempty_count(ls.drop_last()) + if ls.last().len() > 0 {
            1nat
        } else {
            0nat
        }
    }
}

/// When no line is empty, every line counts.
proof fn lemma_nonempty_count_all(ls: Seq<Seq<char>>)
    requires
        forall|i: int| 0 <= i < ls.len() ==> #[trigger] ls[i].len() > 0,
    ensures
        nonempty_count(ls) == ls.len(),
    decreases ls.len(),
{
    if ls.len() > 0 {
        let d = ls.drop_last();
        assert forall|i: int| 0 <= i < d.len() implies #[trigger] d[i].len() > 0 by {
            assert(d[i] == ls[i]);
        }
        lemma_nonempty_count_all(d);
        assert(ls.last().len() > 0);
    }
}

/// The output of `git status --porcelain` is valid UTF-8 made of non-empty
/// status lines.
pub open spec fn status_lines(stdout: Seq<u8>) -> bool {
    &&& vstd::utf8::valid_utf8(stdout)
    &&& forall|i: int|
        0 <= i < lines(vstd::utf8::decode_utf8(stdout)).len() ==> #[trigger] lines(
            vstd::utf8::decode_utf8(stdout),
        )[i].len() > 0
}

/// For one run of `git status --porcelain` whose output is valid UTF-8 made
/// of non-empty status lines, the working tree has uncommitted changes (the
/// output is not empty, as `has_uncommitted_changes` answers) exactly when
/// `get_dirty_files_count` counts more than zero files (it counts the
/// output's non-empty lines). Both functions fail alike when git fails.
pub proof fn lemma_dirty_count_agrees_with_uncommitted(stdout: Seq<u8>)
    requires
        status_lines(stdout),
    ensures
        (stdout.len() > 0) == (nonempty_count(lines(vstd::utf8::decode_utf8(stdout))) > 0),
{
    let t = vstd::utf8::decode_utf8(stdout);
    lemma_nonempty_count_all(lines(t));
    if stdout.len() > 0 {
        assert(t.len() > 0);
        if crate::text::index_of_char(t, '\n') >= t.len() {
            assert(lines(t).len() == 1);
        } else {
            assert(lines(t).len() >= 1);
        }
    } else {
        assert(t.len() == 0);
        assert(lines(t).len() == 0);
    }
}

/// Counts the non-empty lines.
fn count_nonempty(ls: &Vec<Vec<char>>) -> (r: usize)
    ensures
        r == nonempty_count(ls@.map_values(|v: Vec<char>| v@)),
{
    let ghost lv = ls@.map_values(|v: Vec<char>| v@);
    let mut n: usize = 0;
    let mut i: usize = 0;
    while i < ls.len()
        invariant
            i <= ls.len(),
            lv == ls@.map_values(|v: Vec<char>| v@),
            n == nonempty_count(lv.take(i as int)),
            n <= i,
        decreases ls.len() - i,
    {
        assert(lv.take(i + 1).drop_last() =~= lv.take(i as int));
        if ls[i].len() > 0 {
            n = n + 1;
        }
        i = i + 1;
    }
    assert(lv.take(ls.len() as int) =~= lv);
    n
}

// ---------------------------------------------------------------------------
// Squashing, removing worktrees, listing worktrees
// ---------------------------------------------------------------------------

/// The text git printed about a failure: the error output, or the standard
/// output when the error output is blank.
pub open spec fn failure_text(o: GitOutput) -> Seq<char> {
    if trim(spec_utf8_lossy(o.stderr@)).len() == 0 {
        spec_utf8_lossy(o.stdout@)
    } else {
        spec_utf8_lossy(o.stderr@)
    }
}

/// The text git printed about a failure.
fn failure_message(o: &GitOutput) -> (r: String)
    ensures
        r@ == failure_text(*o),
{
    let stderr = utf8_lossy(o.stderr.as_slice());
    let t = trim_str(stderr.as_str());
    if t.as_str().unicode_len() == 0 {
        utf8_lossy(o.stdout.as_slice())
    } else {
        stderr
    }
}

/// How a squash goes on after `git reset --soft <base commit>`.
#[derive(Debug, Clone, Copy, PartialEq, Eq, Structural)]
pub enum SquashStep {
    /// Commit the squashed changes.
    Commit,
    /// Git does not know the revision: there is nothing to squash.
    NothingToSquash,
}

/// What happened to the squash commit.
#[derive(Debug)]
pub enum SquashCommit {
    /// The squash commit was made.
    Done,
    /// It failed with this text; the caller must roll back with
    /// `git reset --hard <original head>`.
    RollBack(String),
}

impl GitRepo {
    /// `git reset --soft <base commit>`: the branch goes back to the commit
    /// the session started from, keeping every change since in the index,
    /// so that one commit replaces all the session's commits.
    pub fn squash_reset_args(&self, base_commit: &str) -> (r: Vec<String>)
        ensures
            string_views(r@) == seq!["reset"@, "--soft"@, base_commit@],
    {
        args_of(vec!["reset", "--soft", base_commit])
    }

    /// `git commit -m <message>`: the squash commit.
    pub fn squash_commit_args(&self, message: &str) -> (r: Vec<String>)
        ensures
            string_views(r@) == seq!["commit"@, "-m"@, message@],
    {
        args_of(vec!["commit", "-m", message])
    }

    /// `git reset --hard <original head>`: puts the branch back where it
    /// was before a squash whose commit failed.
    pub fn squash_rollback_args(&self, original_head: &str) -> (r: Vec<String>)
        ensures
            string_views(r@) == seq!["reset"@, "--hard"@, original_head@],
    {
        args_of(vec!["reset", "--hard", original_head])
    }

    /// After the soft reset of a squash: commit, or stop when git does not
    /// know the revision, or fail.
    pub fn squash_after_reset(&self, result: Result<GitOutput, String>) -> (r: Result<
        SquashStep,
        TreebeardError,
    >)
        ensures
            result matches Err(e) ==> (r matches Err(err) && error_is(
                err,
                true,
                "Failed to execute 'git reset --soft' in "@ + self.workdir@ + ": "@ + e@,
            )),
            result matches Ok(o) ==> (o.success ==> r == Ok::<SquashStep, TreebeardError>(
                SquashStep::Commit,
            )),
            result matches Ok(o) ==> (!o.success ==> (if contains_seq(
                failure_text(o),
                "ambiguous argument"@,
            ) || contains_seq(failure_text(o), "unknown revision"@) {
                r == Ok::<SquashStep, TreebeardError>(SquashStep::NothingToSquash)
            } else {
                r matches Err(err) && error_is(
                    err,
                    false,
                    "Failed to reset: "@ + trim(failure_text(o)),
                )
            })),
    {
        match result {
            Err(e) => {
                let m = cat(
                    &["Failed to execute 'git reset --soft' in ", self.workdir.as_str(), ": ", e.as_str()],
                );
                proof {
                    reveal_with_fuel(crate::text::concat_views, 5);
                }
                Err(config_error(m))
            },
            Ok(o) => {
                if o.success {
                    return Ok(SquashStep::Commit);
                }
                let msg = failure_message(&o);
                if str_contains(msg.as_str(), "ambiguous argument") || str_contains(
                    msg.as_str(),
                    "unknown revision",
                ) {
                    return Ok(SquashStep::NothingToSquash);
                }
                let t = trim_str(msg.as_str());
                let m = cat(&["Failed to reset: ", t.as_str()]);
                proof {
                    reveal_with_fuel(crate::text::concat_views, 3);
                }
                Err(TreebeardError::Git(m))
            },
        }
    }

    /// After the squash commit: done, or roll back, or fail when git could
    /// not be started.
    pub fn squash_after_commit(&self, result: Result<GitOutput, String>) -> (r: Result<
        SquashCommit,
        TreebeardError,
    >)
        ensures
            result matches Err(e) ==> (r matches Err(err) && error_is(
                err,
                true,
                "Failed to execute 'git commit' in "@ + self.workdir@ + ": "@ + e@,
            )),
            result matches Ok(o) ==> (o.success ==> r matches Ok(SquashCommit::Done)),
            result matches Ok(o) ==> (!o.success ==> (r matches Ok(SquashCommit::RollBack(t)) && t@
                == failure_text(o))),
    {
        match result {
            Err(e) => {
                let m = cat(
                    &["Failed to execute 'git commit' in ", self.workdir.as_str(), ": ", e.as_str()],
                );
                proof {
                    reveal_with_fuel(crate::text::concat_views, 5);
                }
                Err(config_error(m))
            },
            Ok(o) => {
                if o.success {
                    Ok(SquashCommit::Done)
                } else {
                    Ok(SquashCommit::RollBack(failure_message(&o)))
                }
            },
        }
    }
}

/// The error of a failed squash commit, given how the rollback went: the
/// commit's failure alone when the rollback worked, else with a warning
/// that the repository may be inconsistent.
pub open spec fn squash_failure_text(commit_text: Seq<char>, rollback: Result<GitOutput, String>) -> Seq<
    char,
> {
    let original = "Failed to create squash commit: "@ + trim(commit_text);
    match rollback {
        Ok(o) => if o.success {
            original
        } else {
            "Git error: "@ + original + "\n\nCRITICAL: Rollback also failed: "@ + trim(
                failure_text(o),
            ) + ". Repository may be in inconsistent state!"@
        },
        Err(e) => "Git error: "@ + original + "\n\nCRITICAL: Failed to execute rollback: "@ + e@
            + ". Repository may be in inconsistent state!"@,
    }
}

/// The error that a failed squash commit ends in, once the rollback
/// (`git reset --hard <original head>`) has run.
pub fn squash_rollback_error(commit_text: &str, rollback: Result<GitOutput, String>) -> (e:
    TreebeardError)
    ensures
        error_is(e, false, squash_failure_text(commit_text@, rollback)),
{
    let t = trim_str(commit_text);
    let original = cat(&["Failed to create squash commit: ", t.as_str()]);
    proof {
        reveal_with_fuel(crate::text::concat_views, 3);
    }
    match rollback {
        Ok(o) => {
            if o.success {
                TreebeardError::Git(original)
            } else {
                let rb = failure_message(&o);
                let rbt = trim_str(rb.as_str());
                let m = cat(
                    &[
                        "Git error: ",
                        original.as_str(),
                        "\n\nCRITICAL: Rollback also failed: ",
                        rbt.as_str(),
                        ". Repository may be in inconsistent state!",
                    ],
                );
                proof {
                    reveal_with_fuel(crate::text::concat_views, 6);
                }
                TreebeardError::Git(m)
            }
        },
        Err(err) => {
            let m = cat(
                &[
                    "Git error: ",
                    original.as_str(),
                    "\n\nCRITICAL: Failed to execute rollback: ",
                    err.as_str(),
                    ". Repository may be in inconsistent state!",
                ],
            );
            proof {
                reveal_with_fuel(crate::text::concat_views, 6);
            }
            TreebeardError::Git(m)
        },
    }
}

/// How removing a worktree ended.
#[derive(Debug, Clone, Copy, PartialEq, Eq, Structural)]
pub enum RemoveOutcome {
    Removed,
    /// The worktree's directory is already gone; prune the stale
    /// references instead.
    PruneInstead,
}

/// Git's error output says the worktree's directory is gone.
pub open spec fn worktree_gone_text(stderr: Seq<char>) -> bool {
    let lower = spec_to_lowercase(stderr);
    contains_seq(lower, "is not a working tree"@) || contains_seq(lower, "no such file or directory"@)
        || contains_seq(lower, "does not exist"@)
}

impl GitRepo {
    /// `git worktree remove [--force] <path>`.
    pub fn remove_worktree_args(&self, worktree_path: &str, force: bool) -> (r: Vec<String>)
        ensures
            force ==> string_views(r@) == seq!["worktree"@, "remove"@, "--force"@, worktree_path@],
            !force ==> string_views(r@) == seq!["worktree"@, "remove"@, worktree_path@],
    {
        if force {
            args_of(vec!["worktree", "remove", "--force", worktree_path])
        } else {
            args_of(vec!["worktree", "remove", worktree_path])
        }
    }

    /// How removing a worktree went: removed, or the directory is gone
    /// and the references are to be pruned, or failed.
    pub fn remove_worktree(&self, result: Result<GitOutput, String>) -> (r: Result<
        RemoveOutcome,
        TreebeardError,
    >)
        ensures
            result matches Err(e) ==> (r matches Err(err) && error_is(
                err,
                true,
                "Failed to execute 'git worktree remove' in "@ + self.workdir@ + ": "@ + e@,
            )),
            result matches Ok(o) ==> (o.success ==> r == Ok::<RemoveOutcome, TreebeardError>(
                RemoveOutcome::Removed,
            )),
            result matches Ok(o) ==> (!o.success ==> (if worktree_gone_text(
                spec_utf8_lossy(o.stderr@),
            ) {
                r == Ok::<RemoveOutcome, TreebeardError>(RemoveOutcome::PruneInstead)
            } else {
                r matches Err(err) && error_is(
                    err,
                    false,
                    "Failed to remove worktree: "@ + trim(spec_utf8_lossy(o.stderr@)),
                )
            })),
    {
        match result {
            Err(e) => {
                let m = cat(
                    &[
                        "Failed to execute 'git worktree remove' in ",
                        self.workdir.as_str(),
                        ": ",
                        e.as_str(),
                    ],
                );
                proof {
                    reveal_with_fuel(crate::text::concat_views, 5);
                }
                Err(config_error(m))
            },
            Ok(o) => {
                if o.success {
                    return Ok(RemoveOutcome::Removed);
                }
                let stderr = utf8_lossy(o.stderr.as_slice());
                let lower = to_lowercase(stderr.as_str());
                let l = lower.as_str();
                if str_contains(l, "is not a working tree") || str_contains(
                    l,
                    "no such file or directory",
                ) || str_contains(l, "does not exist") {
                    return Ok(RemoveOutcome::PruneInstead);
                }
                let t = trim_str(stderr.as_str());
                let m = cat(&["Failed to remove worktree: ", t.as_str()]);
                proof {
                    reveal_with_fuel(crate::text::concat_views, 3);
                }
                Err(TreebeardError::Git(m))
            },
        }
    }

    /// `git worktree list --format=%(worktree)%%%(refname:short)`.
    pub fn list_worktrees_args(&self) -> (r: Vec<String>)
        ensures
            string_views(r@) == seq!["worktree"@, "list"@, "--format=%(worktree)%%%(refname:short)"@],
    {
        args_of(vec!["worktree", "list", "--format=%(worktree)%%%(refname:short)"])
    }

    /// The worktrees that `git worktree list` printed, as (branch, path).
    pub fn list_worktrees(&self, result: Result<GitOutput, String>) -> (r: Result<
        Vec<(String, String)>,
        TreebeardError,
    >)
        ensures
            result matches Err(e) ==> (r matches Err(err) && error_is(
                err,
                true,
                "Failed to execute 'git worktree list' in "@ + self.workdir@ + ": "@ + e@,
            )),
            result matches Ok(o) ==> (!o.success ==> (r matches Err(err) && error_is(
                err,
                false,
                "Failed to list worktrees: "@ + trim(spec_utf8_lossy(o.stderr@)),
            ))),
            result matches Ok(o) ==> (o.success ==> (r matches Ok(v) && worktree_entries(v@)
                == parse_worktrees_spec(lines(spec_utf8_lossy(o.stdout@))))),
    {
        match result {
            Err(e) => {
                let m = cat(
                    &[
                        "Failed to execute 'git worktree list' in ",
                        self.workdir.as_str(),
                        ": ",
                        e.as_str(),
                    ],
                );
                proof {
                    reveal_with_fuel(crate::text::concat_views, 5);
                }
                Err(config_error(m))
            },
            Ok(o) => {
                if !o.success {
                    let stderr = utf8_lossy(o.stderr.as_slice());
                    let t = trim_str(stderr.as_str());
                    let m = cat(&["Failed to list worktrees: ", t.as_str()]);
                    proof {
                        reveal_with_fuel(crate::text::concat_views, 3);
                    }
                    return Err(TreebeardError::Git(m));
                }
                let text = utf8_lossy(o.stdout.as_slice());
                Ok(parse_worktree_list(text.as_str()))
            },
        }
    }
}

/// The views of (branch, path) pairs.
pub open spec fn worktree_entries(v: Seq<(String, String)>) -> Seq<(Seq<char>, Seq<char>)> {
    v.map_values(|e: (String, String)| (e.0@, e.1@))
}

/// The first position of `sep` in `s` at or after `from`, if any.
pub open spec fn find_from(s: Seq<char>, sep: Seq<char>, from: int) -> Option<int>
    decreases s.len() + 1 - from,
{
    if from < 0 || from + sep.len() > s.len() {
        None
    } else if crate::text::occurs_at(s, sep, from) {
        Some(from)
    } else {
        find_from(s, sep, from + 1)
    }
}

/// A line that splits at `%%%` into exactly two pieces: the path and the
/// branch (without `refs/heads/`).
pub open spec fn worktree_line(line: Seq<char>) -> Option<(Seq<char>, Seq<char>)> {
    match find_from(line, "%%%"@, 0) {
        Some(k) => {
            let path = line.take(k);
            let rest = line.skip(k + 3);
            if find_from(rest, "%%%"@, 0) is Some {
                None
            } else {
                let branch = if starts_with(rest, "refs/heads/"@) {
                    rest.skip(11)
                } else {
                    rest
                };
                Some((branch, path))
            }
        },
        None => None,
    }
}

/// The (branch, path) pairs of the well-formed lines, in order.
pub open spec fn parse_worktrees_spec(ls: Seq<Seq<char>>) -> Seq<(Seq<char>, Seq<char>)>
    decreases ls.len(),
{
    if ls.len() == 0 {
        Seq::empty()
    } else {
        match worktree_line(ls.last()) {
            Some(e) => parse_worktrees_spec(ls.drop_last()).push(e),
            None => parse_worktrees_spec(ls.drop_last()),
        }
    }
}

/// Where `find_from` finds `sep`, it occurs, at or after the start.
pub proof fn lemma_find_from_occurs(s: Seq<char>, sep: Seq<char>, from: int)
    ensures
        find_from(s, sep, from) matches Some(k) ==> from <= k && crate::text::occurs_at(s, sep, k),
{
    lemma_find_from(s, sep, from);
}

/// Where `find_from` finds `sep`, it occurs, at or after the start.
proof fn lemma_find_from(s: Seq<char>, sep: Seq<char>, from: int)
    ensures
        find_from(s, sep, from) matches Some(k) ==> from <= k && crate::text::occurs_at(s, sep, k),
    decreases s.len() + 1 - from,
{
    if !(from < 0 || from + sep.len() > s.len()) && !crate::text::occurs_at(s, sep, from) {
        lemma_find_from(s, sep, from + 1);
    }
}

/// Finds `sep` in `s` from position `from` (as `find_from`).
pub fn find_chars_from(s: &Vec<char>, sep: &Vec<char>, from: usize) -> (r: Option<usize>)
    requires
        sep@.len() > 0,
        from <= s@.len(),
    ensures
        find_from(s@, sep@, from as int) == (match r {
            Some(k) => Some(k as int),
            None => None::<int>,
        }),
{
    find_seq_from(s, sep, from)
}

/// Finds `sep` in `s` from position `from`.
fn find_seq_from(s: &Vec<char>, sep: &Vec<char>, from: usize) -> (r: Option<usize>)
    requires
        sep@.len() > 0,
        from <= s@.len(),
    ensures
        find_from(s@, sep@, from as int) == (match r {
            Some(k) => Some(k as int),
            None => None::<int>,
        }),
    decreases s.len() - from,
{
    if sep.len() > s.len() - from {
        return None;
    }
    if crate::text::matches_at(s, from, sep) {
        Some(from)
    } else {
        find_seq_from(s, sep, from + 1)
    }
}

/// Reads one line of `git worktree list` output.
fn parse_worktree_line(line: &Vec<char>) -> (r: Option<(String, String)>)
    ensures
        match worktree_line(line@) {
            Some((b, p)) => r matches Some(e) && e.0@ == b && e.1@ == p,
            None => r is None,
        },
{
    let sep = vec!['%', '%', '%'];
    assert(sep@ =~= "%%%"@) by {
        reveal_strlit("%%%");
    }
    match find_seq_from(line, &sep, 0) {
        None => None,
        Some(k) => {
            proof {
                lemma_find_from(line@, sep@, 0);
            }
            let n = line.len();
            assert(k + 3 <= n);
            let after = k + 3;
            let mut p: Vec<char> = Vec::new();
            let mut i: usize = 0;
            while i < k
                invariant
                    i <= k,
                    k + 3 <= line@.len(),
                    p@ == line@.take(i as int),
                decreases k - i,
            {
                p.push(line[i]);
                i = i + 1;
                assert(line@.take(i as int) =~= line@.take(i - 1).push(line@[i - 1]));
            }
            let rest = crate::path::subvec_from(line, after);
            if find_seq_from(&rest, &sep, 0).is_some() {
                return None;
            }
            let rest_s = chars_to_string(rest.as_slice());
            let branch = match strip_prefix_str(rest_s.as_str(), "refs/heads/") {
                Some(b) => b,
                None => rest_s,
            };
            proof {
                reveal_strlit("refs/heads/");
            }
            Some((branch, chars_to_string(p.as_slice())))
        },
    }
}

/// Reads the output of `git worktree list --format=%(worktree)%%%(refname:short)`:
/// one (branch, path) pair per line that splits at `%%%` into exactly two
/// pieces; other lines are skipped.
pub fn parse_worktree_list(text: &str) -> (r: Vec<(String, String)>)
    ensures
        worktree_entries(r@) == parse_worktrees_spec(lines(text@)),
{
    let chars = str_to_chars(text);
    let ls = split_lines(&chars);
    let ghost lv = lines(text@);
    let mut out: Vec<(String, String)> = Vec::new();
    let mut i: usize = 0;
    while i < ls.len()
        invariant
            i <= ls.len(),
            ls@.len() == lv.len(),
            forall|j: int| 0 <= j < ls@.len() ==> #[trigger] ls@[j]@ == lv[j],
            worktree_entries(out@) == parse_worktrees_spec(lv.take(i as int)),
        decreases ls.len() - i,
    {
        assert(lv.take(i + 1).drop_last() =~= lv.take(i as int));
        assert(lv.take(i + 1).last() == ls@[i as int]@);
        match parse_worktree_line(&ls[i]) {
            Some(e) => {
                let ghost before = out@;
                out.push(e);
                assert(worktree_entries(out@) =~= worktree_entries(before).push((e.0@, e.1@)));
            },
            None => {},
        }
        i = i + 1;
    }
    assert(lv.take(ls.len() as int) =~= lv);
    out
}

// ---------------------------------------------------------------------------
// Finding the repository, and where its worktrees go
// ---------------------------------------------------------------------------

/// What the caller found at `<dir>/.git`.
pub enum GitProbe {
    /// A directory: `<dir>` is a repository's working directory.
    Directory,
    /// A file (a worktree's pointer to its git directory), with its text or
    /// the error that reading it gave.
    File(Result<String, String>),
    /// Nothing usable.
    Absent,
}

/// The next step of the search for the repository around a directory.
pub enum GitDirStep {
    /// Found: the git directory and the working directory.
    Found(String, String),
    /// Look at this directory next (the parent).
    Up(String),
    /// There is no repository here or above.
    NotFound,
}

/// What a `.git` file points to: the text after `gitdir: `, trimmed; a
/// relative path is relative to the directory holding the file.
pub open spec fn gitdir_target(dir: Seq<char>, content: Seq<char>) -> Option<Seq<char>> {
    if starts_with(content, "gitdir: "@) {
        let g = trim(content.skip(8));
        if starts_with(g, "/"@) {
            Some(g)
        } else {
            Some(join(dir, g))
        }
    } else {
        None
    }
}

/// One step of the search upward from a directory for its repository:
/// a `.git` directory or a `.git` file naming the git directory ends the
/// search; otherwise it goes on at the parent, and fails at the top.
pub fn git_dir_step(dir: &str, probe: GitProbe) -> (r: Result<GitDirStep, TreebeardError>)
    ensures
        probe is Directory ==> (r matches Ok(GitDirStep::Found(g, w)) && g@ == join(dir@, ".git"@)
            && w@ == dir@),
        probe matches GitProbe::File(Err(e)) ==> (r matches Err(err) && error_is(
            err,
            true,
            "Failed to read .git file "@ + join(dir@, ".git"@) + ": "@ + e@,
        )),
        probe matches GitProbe::File(Ok(c)) ==> (gitdir_target(dir@, c@) matches Some(g) ==> (
        r matches Ok(GitDirStep::Found(g2, w)) && g2@ == g && w@ == dir@)),
        (probe is Absent || (probe matches GitProbe::File(Ok(c)) && gitdir_target(dir@, c@) is None))
            ==> (match spec_path_parent(dir@) {
            Some(p) => r matches Ok(GitDirStep::Up(q)) && q@ == p && q@.len() < dir@.len(),
            None => r matches Ok(GitDirStep::NotFound),
        }),
{
    match probe {
        GitProbe::Directory => {
            return Ok(GitDirStep::Found(path_join(dir, ".git"), String::from_str(dir)));
        },
        GitProbe::File(Err(e)) => {
            let file = path_join(dir, ".git");
            let m = cat(&["Failed to read .git file ", file.as_str(), ": ", e.as_str()]);
            proof {
                reveal_with_fuel(crate::text::concat_views, 5);
            }
            return Err(config_error(m));
        },
        GitProbe::File(Ok(content)) => {
            match strip_prefix_str(content.as_str(), "gitdir: ") {
                Some(rest) => {
                    proof {
                        reveal_strlit("gitdir: ");
                    }
                    let g = trim_str(rest.as_str());
                    let target = if crate::text::str_starts_with(g.as_str(), "/") {
                        g
                    } else {
                        path_join(dir, g.as_str())
                    };
                    return Ok(GitDirStep::Found(target, String::from_str(dir)));
                },
                None => {},
            }
        },
        GitProbe::Absent => {},
    }
    match path_parent(dir) {
        Some(p) => Ok(GitDirStep::Up(p)),
        None => Ok(GitDirStep::NotFound),
    }
}

/// The repository opened at a git directory and working directory: named
/// after the working directory's last component, which it must have.
pub open spec fn opened(r: Result<GitRepo, TreebeardError>, git_dir: Seq<char>, workdir: Seq<char>) -> bool {
    match file_name_spec(workdir) {
        Some(n) => r matches Ok(repo) && repo.repo_name@ == n && repo.workdir@ == workdir
            && repo.git_dir@ == git_dir,
        None => r matches Err(e) && error_is(e, true, "Could not determine repo name"@),
    }
}

/// A directory and the directories above it, nearest first (`Path::parent`
/// applied until there is none).
pub open spec fn ancestors(d: Seq<char>) -> Seq<Seq<char>>
    decreases d.len(),
{
    match spec_path_parent(d) {
        Some(p) => if p.len() < d.len() {
            seq![d] + ancestors(p)
        } else {
            seq![d]
        },
        None => seq![d],
    }
}

/// The directories that the search for a repository looks at, nearest
/// first: `start` and each directory above it.
pub fn ancestor_chain(start: &str) -> (r: Vec<String>)
    ensures
        string_views(r@) == ancestors(start@),
{
    let mut out: Vec<String> = Vec::new();
    let mut current = String::from_str(start);
    loop
        invariant
            string_views(out@) + ancestors(current@) == ancestors(start@),
        decreases current@.len(),
    {
        let ghost before = string_views(out@);
        let ghost cur = current@;
        match path_parent(current.as_str()) {
            Some(p) => {
                out.push(current);
                assert(string_views(out@) =~= before.push(cur));
                assert(ancestors(cur) == seq![cur] + ancestors(p@));
                assert(before.push(cur) + ancestors(p@) =~= before + (seq![cur] + ancestors(p@)));
                current = p;
            },
            None => {
                out.push(current);
                assert(string_views(out@) =~= before.push(cur));
                assert(ancestors(cur) == seq![cur]);
                assert(before.push(cur) =~= before + seq![cur]);
                return out;
            },
        }
    }
}

/// The probe for the first directory of a search (none: nothing usable).
pub open spec fn first_probe(probes: Seq<GitProbe>) -> GitProbe {
    if probes.len() > 0 {
        probes[0]
    } else {
        GitProbe::Absent
    }
}

/// The probes for the directories after the first.
pub open spec fn later_probes(probes: Seq<GitProbe>) -> Seq<GitProbe> {
    if probes.len() > 0 {
        probes.skip(1)
    } else {
        probes
    }
}

/// Whether the search stops at a directory given its probe, and how: with
/// the git and working directories, or with the error's text.
pub open spec fn probe_stop(dir: Seq<char>, probe: GitProbe) -> Option<
    Result<(Seq<char>, Seq<char>), Seq<char>>,
> {
    match probe {
        GitProbe::Directory => Some(Ok((join(dir, ".git"@), dir))),
        GitProbe::File(Err(e)) => Some(Err("Failed to read .git file "@ + join(dir, ".git"@) + ": "@ + e@)),
        GitProbe::File(Ok(c)) => match gitdir_target(dir, c@) {
            Some(g) => Some(Ok((g, dir))),
            None => None,
        },
        GitProbe::Absent => None,
    }
}

/// Where the search upward from `d` ends, `probes` being what `.git` is in
/// `d` and each directory above it, nearest first (missing ones count as
/// nothing usable): the first directory where it stops, or nowhere.
pub open spec fn search_from(d: Seq<char>, probes: Seq<GitProbe>) -> Option<
    Result<(Seq<char>, Seq<char>), Seq<char>>,
>
    decreases d.len(),
{
    match probe_stop(d, first_probe(probes)) {
        Some(x) => Some(x),
        None => match spec_path_parent(d) {
            Some(p) => if p.len() < d.len() {
                search_from(p, later_probes(probes))
            } else {
                None
            },
            None => None,
        },
    }
}

/// The probes from position `i` on.
pub open spec fn probes_from(probes: Seq<GitProbe>, i: int) -> Seq<GitProbe> {
    if i <= probes.len() {
        probes.skip(i)
    } else {
        Seq::empty()
    }
}

impl GitProbe {
    /// An equal copy.
    pub fn duplicate(&self) -> (r: GitProbe)
        ensures
            r == *self,
    {
        match self {
            GitProbe::Directory => GitProbe::Directory,
            GitProbe::File(Ok(c)) => GitProbe::File(Ok(c.clone())),
            GitProbe::File(Err(e)) => GitProbe::File(Err(e.clone())),
            GitProbe::Absent => GitProbe::Absent,
        }
    }
}

impl GitRepo {
    /// The repository around `start_dir`: the search looks at `start_dir`
    /// and each directory above it (`ancestor_chain`), nearest first;
    /// `probes` says what `.git` is in each of them (missing ones count as
    /// nothing usable). It stops at the first `.git` directory, or `.git`
    /// file naming the git directory (`gitdir: `), or `.git` file that
    /// could not be read; with none, this is not a repository.
    pub fn from_path(start_dir: &str, probes: &Vec<GitProbe>) -> (r: Result<GitRepo, TreebeardError>)
        ensures
            match search_from(start_dir@, probes@) {
                None => r matches Err(TreebeardError::NotAGitRepository(s)) && s@ == start_dir@,
                Some(Err(t)) => r matches Err(e) && error_is(e, true, t),
                Some(Ok((g, w))) => opened(r, g, w),
            },
    {
        let mut current = String::from_str(start_dir);
        let mut i: usize = 0;
        assert(probes_from(probes@, 0) =~= probes@);
        loop
            invariant
                search_from(start_dir@, probes@) == search_from(current@, probes_from(probes@, i as int)),
            decreases current@.len(),
        {
            let ghost ps = probes_from(probes@, i as int);
            let probe = if i < probes.len() {
                probes[i].duplicate()
            } else {
                GitProbe::Absent
            };
            assert(probe == first_probe(ps));
            assert(later_probes(ps) =~= probes_from(probes@, i + 1));
            let ghost cur = current@;
            match git_dir_step(current.as_str(), probe) {
                Err(e) => {
                    return Err(e);
                },
                Ok(GitDirStep::Found(g, w)) => {
                    return GitRepo::from_dirs(g, w);
                },
                Ok(GitDirStep::Up(q)) => {
                    current = q;
                    if i < probes.len() {
                        i = i + 1;
                    } else {
                        assert(probes_from(probes@, i as int) =~= probes_from(probes@, i + 1));
                    }
                },
                Ok(GitDirStep::NotFound) => {
                    return Err(TreebeardError::NotAGitRepository(String::from_str(start_dir)));
                },
            }
        }
    }
}

/// Where a branch's worktree goes: `<worktree dir>/<repository>/<branch>`.
pub fn worktree_path_for(worktree_base_dir: &str, repo_name: &str, branch_name: &str) -> (r: String)
    ensures
        r@ == join(join(worktree_base_dir@, repo_name@), branch_name@),
{
    let a = path_join(worktree_base_dir, repo_name);
    path_join(a.as_str(), branch_name)
}

/// The message of an automatic stash, made from the time
/// (`%Y-%m-%dT%H:%M:%S`, UTC).
pub fn auto_stash_message(timestamp: &str) -> (r: String)
    ensures
        r@ == "treebeard-auto-stash-"@ + timestamp@,
{
    let r = cat(&["treebeard-auto-stash-", timestamp]);
    proof {
        reveal_with_fuel(crate::text::concat_views, 3);
    }
    r
}

/// Changes are stashed without asking in test mode and when there is no
/// terminal to ask on; otherwise the user's answer decides.
pub fn should_stash(is_test_mode: bool, is_non_interactive: bool, answer: Option<bool>) -> (r: bool)
    ensures
        r == (is_test_mode || is_non_interactive || answer == Some(true)),
{
    is_test_mode || is_non_interactive || matches!(answer, Some(true))
}

/// The git side of a session: the repository, the worktree, and where the
/// session started.
pub struct GitEnvironmentSetup {
    pub repo: GitRepo,
    pub worktree_path: String,
    pub main_repo_path: String,
    pub base_commit: String,
    /// The message of the automatic stash, if changes were stashed.
    pub auto_stash_message: Option<String>,
}

} // verus!
