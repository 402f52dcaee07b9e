//! Lifecycle hooks: the context they run in, template expansion, and how
//! their results are read.
//!
//! Running the hook commands (`sh -c`) is the caller's part; this module
//! decides what is run and what the outcome means.
use vstd::prelude::*;

use crate::error::TreebeardError;
use crate::text::{
    chars_to_string, concat_strs, concat_views, contains_seq, decimal, occurs_at, push_decimal,
    push_str, replace_all, replace_str, str_to_chars, trim, trim_vec,
};
use vstd::string::StringExecFns;

verus! {

/// Context for hook execution: the values behind the template variables.
#[derive(Debug)]
pub struct HookContext {
    /// Branch name
    pub branch: String,
    /// FUSE mount path
    pub mount_path: String,
    /// Git worktree path
    pub worktree_path: String,
    /// Main repository path
    pub repo_path: String,
    /// Diff content (only used for the commit_message hook)
    pub diff: Option<String>,
}

impl HookContext {
    /// A context without a diff (for post_create, pre_cleanup, post_cleanup).
    pub fn new(branch: &str, mount_path: &str, worktree_path: &str, repo_path: &str) -> (r: Self)
        ensures
            r.branch@ == branch@,
            r.mount_path@ == mount_path@,
            r.worktree_path@ == worktree_path@,
            r.repo_path@ == repo_path@,
            r.diff is None,
    {
        HookContext {
            branch: String::from_str(branch),
            mount_path: String::from_str(mount_path),
            worktree_path: String::from_str(worktree_path),
            repo_path: String::from_str(repo_path),
            diff: None,
        }
    }

    /// A context with a diff (for the commit_message hook).
    pub fn with_diff(
        branch: &str,
        mount_path: &str,
        worktree_path: &str,
        repo_path: &str,
        diff: String,
    ) -> (r: Self)
        ensures
            r.branch@ == branch@,
            r.mount_path@ == mount_path@,
            r.worktree_path@ == worktree_path@,
            r.repo_path@ == repo_path@,
            r.diff == Some(diff),
    {
        HookContext {
            branch: String::from_str(branch),
            mount_path: String::from_str(mount_path),
            worktree_path: String::from_str(worktree_path),
            repo_path: String::from_str(repo_path),
            diff: Some(diff),
        }
    }

    /// Environment variables set for hook execution, in this order:
    /// TREEBEARD_BRANCH, TREEBEARD_MOUNT_PATH, TREEBEARD_WORKTREE_PATH,
    /// TREEBEARD_REPO_PATH.
    pub fn env_vars(&self) -> (r: Vec<(&'static str, String)>)
        ensures
            r@.len() == 4,
            r@[0].0@ == "TREEBEARD_BRANCH"@ && r@[0].1@ == self.branch@,
            r@[1].0@ == "TREEBEARD_MOUNT_PATH"@ && r@[1].1@ == self.mount_path@,
            r@[2].0@ == "TREEBEARD_WORKTREE_PATH"@ && r@[2].1@ == self.worktree_path@,
            r@[3].0@ == "TREEBEARD_REPO_PATH"@ && r@[3].1@ == self.repo_path@,
    {
        let mut v: Vec<(&'static str, String)> = Vec::new();
        v.push(("TREEBEARD_BRANCH", String::from_str(self.branch.as_str())));
        v.push(("TREEBEARD_MOUNT_PATH", String::from_str(self.mount_path.as_str())));
        v.push(("TREEBEARD_WORKTREE_PATH", String::from_str(self.worktree_path.as_str())));
        v.push(("TREEBEARD_REPO_PATH", String::from_str(self.repo_path.as_str())));
        v
    }
}

/// Escaping for use inside single quotes in a shell command: each `'`
/// becomes `'\''` (end the quoted text, an escaped quote, start it again).
pub open spec fn shell_escape_spec(s: Seq<char>) -> Seq<char> {
    replace_all(s, "'"@, "'\\''"@)
}

/// Escapes a string for safe use within single quotes in shell commands.
pub fn shell_escape(s: &str) -> (r: String)
    ensures
        r@ == shell_escape_spec(s@),
{
    proof {
        reveal_strlit("'");
    }
    replace_str(s, "'", "'\\''")
}

/// Text without a single quote is left unchanged by shell escaping.
pub proof fn lemma_shell_escape_plain(s: Seq<char>)
    requires
        !s.contains('\''),
    ensures
        shell_escape_spec(s) == s,
{
    reveal_strlit("'");
    assert(!contains_seq(s, "'"@)) by {
        if contains_seq(s, "'"@) {
            let i = choose|i: int| occurs_at(s, "'"@, i);
            assert(s.subrange(i, i + 1)[0] == s[i]);
            assert(s[i] == '\'');
        }
    }
    crate::text::lemma_replace_absent(s, "'"@, "'\\''"@);
}

/// The value of the `{{diff}}` variable: the escaped diff, or nothing.
pub open spec fn diff_value(context: HookContext) -> Seq<char> {
    match context.diff {
        Some(d) => shell_escape_spec(d@),
        None => Seq::empty(),
    }
}

/// Template expansion: `{{branch}}`, `{{mount_path}}`, `{{worktree_path}}`,
/// `{{repo_path}}` and `{{diff}}` are replaced, in this order, by their
/// values; the diff is shell-escaped.
pub open spec fn expand_template_spec(template: Seq<char>, context: HookContext) -> Seq<char> {
    let r1 = replace_all(template, "{{branch}}"@, context.branch@);
    let r2 = replace_all(r1, "{{mount_path}}"@, context.mount_path@);
    let r3 = replace_all(r2, "{{worktree_path}}"@, context.worktree_path@);
    let r4 = replace_all(r3, "{{repo_path}}"@, context.repo_path@);
    replace_all(r4, "{{diff}}"@, diff_value(context))
}

/// Expands the template variables in a hook command.
pub fn expand_template(template: &str, context: &HookContext) -> (r: String)
    ensures
        r@ == expand_template_spec(template@, *context),
{
    proof {
        reveal_strlit("{{branch}}");
        reveal_strlit("{{mount_path}}");
        reveal_strlit("{{worktree_path}}");
        reveal_strlit("{{repo_path}}");
        reveal_strlit("{{diff}}");
    }
    let r1 = replace_str(template, "{{branch}}", context.branch.as_str());
    let r2 = replace_str(r1.as_str(), "{{mount_path}}", context.mount_path.as_str());
    let r3 = replace_str(r2.as_str(), "{{worktree_path}}", context.worktree_path.as_str());
    let r4 = replace_str(r3.as_str(), "{{repo_path}}", context.repo_path.as_str());
    let diff_value: String = match &context.diff {
        Some(d) => shell_escape(d.as_str()),
        None => String::new(),
    };
    replace_str(r4.as_str(), "{{diff}}", diff_value.as_str())
}

/// A text without `{` has no template variable and expands to itself.
pub proof fn lemma_expand_template_plain(template: Seq<char>, context: HookContext)
    requires
        !template.contains('{'),
    ensures
        expand_template_spec(template, context) == template,
{
    reveal_strlit("{{branch}}");
    reveal_strlit("{{mount_path}}");
    reveal_strlit("{{worktree_path}}");
    reveal_strlit("{{repo_path}}");
    reveal_strlit("{{diff}}");
    lemma_replace_brace_pattern(template, "{{branch}}"@, context.branch@);
    lemma_replace_brace_pattern(template, "{{mount_path}}"@, context.mount_path@);
    lemma_replace_brace_pattern(template, "{{worktree_path}}"@, context.worktree_path@);
    lemma_replace_brace_pattern(template, "{{repo_path}}"@, context.repo_path@);
    lemma_replace_brace_pattern(template, "{{diff}}"@, diff_value(context));
}

proof fn lemma_replace_brace_pattern(s: Seq<char>, pat: Seq<char>, rep: Seq<char>)
    requires
        pat.len() > 0,
        pat[0] == '{',
        !s.contains('{'),
    ensures
        replace_all(s, pat, rep) == s,
{
    assert(!contains_seq(s, pat)) by {
        if contains_seq(s, pat) {
            let i = choose|i: int| occurs_at(s, pat, i);
            assert(s.subrange(i, i + pat.len())[0] == s[i]);
        }
    }
    crate::text::lemma_replace_absent(s, pat, rep);
}

/// What a commit-message hook's standard output yields: the trimmed text,
/// or nothing when that is empty.
pub fn commit_message_from_output(stdout: &str) -> (r: Option<String>)
    ensures
        trim(stdout@).len() == 0 ==> r is None,
        trim(stdout@).len() > 0 ==> (r matches Some(m) && m@ == trim(stdout@)),
{
    let v = str_to_chars(stdout);
    let t = trim_vec(&v);
    if t.len() == 0 {
        None
    } else {
        Some(chars_to_string(t.as_slice()))
    }
}

/// The error for a hook command that exited unsuccessfully.
pub fn hook_failed_error(expanded: &str, exit_code: &str) -> (e: TreebeardError)
    ensures
        e matches TreebeardError::Hook(m) && m@ == "Hook '"@ + expanded@ + "' failed with exit code "@
            + exit_code@,
{
    let parts = ["Hook '", expanded, "' failed with exit code ", exit_code];
    let m = concat_strs(&parts);
    proof {
        reveal_with_fuel(concat_views, 5);
        assert(parts@.take(0) =~= Seq::<&str>::empty());
        assert(parts@.drop_last().drop_last().drop_last().drop_last() =~= Seq::<&str>::empty());
    }
    TreebeardError::Hook(m)
}


// ---------------------------------------------------------------------------
// Running a phase's hooks
// ---------------------------------------------------------------------------

/// What running a hook command came to.
pub enum HookOutcome {
    /// The command exited successfully.
    Succeeded,
    /// The command exited unsuccessfully, with its exit code when it had one.
    Failed(Option<i32>),
    /// The command could not be started, for this reason.
    NotStarted(String),
}

/// What to do next while a phase's hooks run.
pub enum HookStep {
    /// Run this command: the next hook, expanded.
    Run(String),
    /// Every hook succeeded.
    Done,
    /// Stop with this error; the hooks after the failed one are skipped.
    Stop(TreebeardError),
}

/// An exit code as it is reported: its decimal numeral, or "unknown".
pub open spec fn exit_code_text(code: Option<i32>) -> Seq<char> {
    match code {
        None => "unknown"@,
        Some(c) => if c < 0 {
            seq!['-'] + decimal((-c) as nat)
        } else {
            decimal(c as nat)
        },
    }
}

/// Appends the text of an exit code.
fn push_exit_code(out: &mut Vec<char>, code: Option<i32>)
    ensures
        final(out)@ == old(out)@ + exit_code_text(code),
{
    match code {
        None => push_str(out, "unknown"),
        Some(c) => {
            let n: i64 = c as i64;
            if n < 0 {
                out.push('-');
                push_decimal(out, (-n) as u64);
                assert(final(out)@ =~= old(out)@ + exit_code_text(code));
            } else {
                push_decimal(out, n as u64);
            }
        },
    }
}

/// The hook at position `i`, expanded.
pub open spec fn expanded_hook(hooks: Seq<String>, context: HookContext, i: int) -> Seq<char> {
    expand_template_spec(hooks[i]@, context)
}

/// Decides the next step of running `hooks` in order: `next` hooks have
/// been started and `last` is what the latest one came to (`None` before
/// the first). A hook that failed or could not be started stops the phase
/// with its error; otherwise the next hook runs, and when none is left the
/// phase is done.
pub fn next_hook_step(
    hooks: &Vec<String>,
    context: &HookContext,
    next: usize,
    last: Option<HookOutcome>,
) -> (r: HookStep)
    requires
        next <= hooks.len(),
        last is Some ==> next > 0,
    ensures
        last matches Some(HookOutcome::Failed(code)) ==> (r matches HookStep::Stop(
            TreebeardError::Hook(m),
        ) && m@ == "Hook '"@ + expanded_hook(hooks@, *context, next - 1)
            + "' failed with exit code "@ + exit_code_text(code)),
        last matches Some(HookOutcome::NotStarted(reason)) ==> (r matches HookStep::Stop(
            TreebeardError::Hook(m),
        ) && m@ == "Failed to execute hook '"@ + expanded_hook(hooks@, *context, next - 1) + "': "@
            + reason@),
        (last is None || last matches Some(HookOutcome::Succeeded)) ==> (if next < hooks.len() {
            r matches HookStep::Run(c) && c@ == expanded_hook(hooks@, *context, next as int)
        } else {
            r is Done
        }),
{
    match last {
        Some(HookOutcome::Failed(code)) => {
            let expanded = expand_template(hooks[next - 1].as_str(), context);
            let mut c: Vec<char> = Vec::new();
            push_exit_code(&mut c, code);
            let code_text = chars_to_string(c.as_slice());
            HookStep::Stop(hook_failed_error(expanded.as_str(), code_text.as_str()))
        },
        Some(HookOutcome::NotStarted(reason)) => {
            let expanded = expand_template(hooks[next - 1].as_str(), context);
            let mut v: Vec<char> = Vec::new();
            push_str(&mut v, "Failed to execute hook '");
            push_str(&mut v, expanded.as_str());
            push_str(&mut v, "': ");
            push_str(&mut v, reason.as_str());
            HookStep::Stop(TreebeardError::Hook(chars_to_string(v.as_slice())))
        },
        _ => {
            if next < hooks.len() {
                HookStep::Run(expand_template(hooks[next].as_str(), context))
            } else {
                HookStep::Done
            }
        },
    }
}

/// What a commit-message hook came to: the message it printed (trimmed;
/// `None` when that is empty) when it succeeded, else the error, which
/// carries its trimmed standard error when it exited unsuccessfully.
pub fn commit_message_hook_result(
    expanded: &str,
    outcome: HookOutcome,
    stdout: &str,
    stderr: &str,
) -> (r: Result<Option<String>, TreebeardError>)
    ensures
        outcome matches HookOutcome::NotStarted(reason) ==> (r matches Err(TreebeardError::Hook(m))
            && m@ == "Failed to execute commit message hook '"@ + expanded@ + "': "@ + reason@),
        outcome matches HookOutcome::Failed(code) ==> (r matches Err(TreebeardError::Hook(m)) && m@
            == "Commit message hook '"@ + expanded@ + "' failed with exit code "@ + exit_code_text(
            code,
        ) + ": "@ + trim(stderr@)),
        outcome is Succeeded ==> (r matches Ok(msg) && (trim(stdout@).len() == 0 ==> msg is None)
            && (trim(stdout@).len() > 0 ==> (msg matches Some(t) && t@ == trim(stdout@)))),
{
    match outcome {
        HookOutcome::NotStarted(reason) => {
            let mut v: Vec<char> = Vec::new();
            push_str(&mut v, "Failed to execute commit message hook '");
            push_str(&mut v, expanded);
            push_str(&mut v, "': ");
            push_str(&mut v, reason.as_str());
            Err(TreebeardError::Hook(chars_to_string(v.as_slice())))
        },
        HookOutcome::Failed(code) => {
            let err = crate::text::trim_str(stderr);
            let mut v: Vec<char> = Vec::new();
            push_str(&mut v, "Commit message hook '");
            push_str(&mut v, expanded);
            push_str(&mut v, "' failed with exit code ");
            push_exit_code(&mut v, code);
            push_str(&mut v, ": ");
            push_str(&mut v, err.as_str());
            Err(TreebeardError::Hook(chars_to_string(v.as_slice())))
        },
        HookOutcome::Succeeded => Ok(commit_message_from_output(stdout)),
    }
}

} // verus!
