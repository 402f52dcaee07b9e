//! Automatic commits: when to commit after the overlay reports changes
//! (after a quiet period), and which message to use.
//!
//! Receiving the overlay's events, sleeping and running git are the
//! caller's: it hands each event to `WatchState::step` and performs the
//! action that comes back.
use vstd::prelude::*;

use crate::config::HooksConfig;
use crate::error::TreebeardError;
use crate::hooks::HookContext;
use crate::text::str_eq;

verus! {

/// What generating a commit message needs.
pub struct CommitConfig {
    /// The message used when no hook is configured (or the hook fails).
    pub default_message: String,
    /// The command whose output becomes the message, if configured.
    pub commit_message_hook: Option<String>,
    pub branch_name: String,
    pub mount_path: String,
    pub worktree_path: String,
    pub repo_path: String,
}

impl CommitConfig {
    /// The message configuration of a session.
    pub fn new(
        default_message: &str,
        hooks: &HooksConfig,
        branch_name: &str,
        mount_path: &str,
        worktree_path: &str,
        repo_path: &str,
    ) -> (r: Self)
        ensures
            r.default_message@ == default_message@,
            r.commit_message_hook == hooks.commit_message,
            r.branch_name@ == branch_name@,
            r.mount_path@ == mount_path@,
            r.worktree_path@ == worktree_path@,
            r.repo_path@ == repo_path@,
    {
        CommitConfig {
            default_message: String::from_str(default_message),
            commit_message_hook: match &hooks.commit_message {
                Some(h) => Some(h.clone()),
                None => None,
            },
            branch_name: String::from_str(branch_name),
            mount_path: String::from_str(mount_path),
            worktree_path: String::from_str(worktree_path),
            repo_path: String::from_str(repo_path),
        }
    }

    /// The hook to run for a diff and its context (with the diff), when a
    /// hook is configured.
    pub fn hook_for_diff(&self, diff: &str) -> (r: Option<(String, HookContext)>)
        ensures
            self.commit_message_hook is None ==> r is None,
            self.commit_message_hook matches Some(h) ==> (r matches Some((cmd, ctx)) && {
                &&& cmd == h
                &&& ctx.branch@ == self.branch_name@
                &&& ctx.mount_path@ == self.mount_path@
                &&& ctx.worktree_path@ == self.worktree_path@
                &&& ctx.repo_path@ == self.repo_path@
                &&& ctx.diff matches Some(d) && d@ == diff@
            }),
    {
        match &self.commit_message_hook {
            None => None,
            Some(h) => {
                let ctx = HookContext::with_diff(
                    self.branch_name.as_str(),
                    self.mount_path.as_str(),
                    self.worktree_path.as_str(),
                    self.repo_path.as_str(),
                    String::from_str(diff),
                );
                Some((h.clone(), ctx))
            },
        }
    }

    /// The commit message: the hook's output when it ran and gave one,
    /// else the default message. `hook_result` is `None` when no hook ran.
    pub fn generate_message(&self, hook_result: Option<Result<Option<String>, TreebeardError>>) -> (r:
        String)
        ensures
            hook_result matches Some(Ok(Some(m))) ==> r == m,
            !(hook_result matches Some(Ok(Some(_)))) ==> r == self.default_message,
    {
        match hook_result {
            Some(Ok(Some(m))) => m,
            _ => self.default_message.clone(),
        }
    }
}

// ---------------------------------------------------------------------------
// Debouncing
// ---------------------------------------------------------------------------

/// What the overlay or the clock reported.
pub enum WatchEvent {
    /// A path changed, at this time (in milliseconds).
    Mutation(String, u64),
    /// The overlay is shutting down.
    ChannelClosed,
    /// The wait given by the last action ran out.
    TimerExpired,
}

/// What the caller is to do next.
#[derive(Debug, Clone, Copy, PartialEq, Eq, Structural)]
pub enum WatchAction {
    /// Wait for the next event.
    Continue,
    /// Commit the pending changes, then wait again.
    Commit,
    /// Commit the pending changes, then stop watching.
    CommitAndStop,
    /// Stop watching.
    Stop,
}

/// What is left of the quiet period at `now` (no timer without a last
/// change; a clock that went back counts as no time passed).
pub open spec fn wait_left(last_event_ms: Option<u64>, now_ms: u64, debounce_ms: u64) -> Option<u64> {
    match last_event_ms {
        None => None,
        Some(t) => {
            let elapsed: int = if now_ms >= t {
                now_ms - t
            } else {
                0
            };
            if elapsed >= debounce_ms {
                Some(0)
            } else {
                Some((debounce_ms - elapsed) as u64)
            }
        },
    }
}

/// The changes seen since the last commit, and when the last one came.
pub struct WatchState {
    pub pending: Vec<String>,
    pub last_event_ms: Option<u64>,
}

/// The path is among the pending ones.
pub open spec fn is_pending(pending: Seq<String>, p: Seq<char>) -> bool {
    exists|i: int| 0 <= i < pending.len() && (#[trigger] pending[i])@ == p
}

impl WatchState {
    /// The state holds pending changes exactly when it has a time for the
    /// last one, and no path twice.
    pub open spec fn well_formed(&self) -> bool {
        &&& (self.last_event_ms is Some <==> self.pending@.len() > 0)
        &&& forall|i: int, j: int|
            0 <= i < j < self.pending@.len() ==> (#[trigger] self.pending@[i])@ != (
            #[trigger] self.pending@[j])@
    }

    /// Nothing pending.
    pub fn new() -> (r: Self)
        ensures
            r.well_formed(),
            r.pending@.len() == 0,
            r.last_event_ms is None,
    {
        WatchState { pending: Vec::new(), last_event_ms: None }
    }

    /// How long to wait for the next event before the timer runs out:
    /// `None` (no timer) when nothing is pending; otherwise what is left of
    /// the debounce time since the last change, 0 when it has passed.
    pub fn timeout_ms(&self, now_ms: u64, debounce_ms: u64) -> (r: Option<u64>)
        ensures
            r == wait_left(self.last_event_ms, now_ms, debounce_ms),
    {
        match self.last_event_ms {
            None => None,
            Some(t) => {
                let elapsed = if now_ms >= t {
                    now_ms - t
                } else {
                    0
                };
                if elapsed >= debounce_ms {
                    Some(0)
                } else {
                    Some(debounce_ms - elapsed)
                }
            },
        }
    }

    /// Takes an event: a change is remembered (and restarts the quiet
    /// period); when the overlay closes, the pending changes are committed
    /// one last time; when the quiet period ran out, they are committed and
    /// forgotten.
    pub fn step(&mut self, event: WatchEvent) -> (r: WatchAction)
        requires
            old(self).well_formed(),
        ensures
            final(self).well_formed(),
            event matches WatchEvent::Mutation(p, t) ==> (r == WatchAction::Continue
                && final(self).last_event_ms == Some(t) && is_pending(final(self).pending@, p@)
                && forall|q: Seq<char>|
                is_pending(final(self).pending@, q) <==> (is_pending(old(self).pending@, q) || q
                    == p@)),
            event is ChannelClosed ==> (r == (if old(self).pending@.len() > 0 {
                WatchAction::CommitAndStop
            } else {
                WatchAction::Stop
            })),
            event is TimerExpired ==> (r == (if old(self).pending@.len() > 0 {
                WatchAction::Commit
            } else {
                WatchAction::Continue
            }) && final(self).pending@.len() == 0 && final(self).last_event_ms is None),
    {
        match event {
            WatchEvent::Mutation(p, t) => {
                let mut found = false;
                let mut i: usize = 0;
                while i < self.pending.len()
                    invariant
                        i <= self.pending@.len(),
                        found ==> is_pending(self.pending@, p@),
                        !found ==> forall|j: int| 0 <= j < i ==> (#[trigger] self.pending@[j])@ != p@,
                    decreases self.pending.len() - i,
                {
                    if str_eq(self.pending[i].as_str(), p.as_str()) {
                        found = true;
                    }
                    i = i + 1;
                }
                let ghost before = self.pending@;
                if !found {
                    self.pending.push(p);
                    assert(self.pending@.last()@ == p@);
                    assert forall|q: Seq<char>|
                        is_pending(self.pending@, q) <==> (is_pending(before, q) || q == p@) by {
                        if is_pending(before, q) {
                            let w = choose|w: int| 0 <= w < before.len() && (#[trigger] before[w])@ == q;
                            assert(self.pending@[w] == before[w]);
                        }
                        if is_pending(self.pending@, q) {
                            let w = choose|w: int| 0 <= w < self.pending@.len() && (#[trigger] self.pending@[w])@ == q;
                            if w < before.len() {
                                assert(before[w] == self.pending@[w]);
                            }
                        }
                        if q == p@ {
                            assert(self.pending@[self.pending@.len() - 1]@ == q);
                        }
                    }
                    assert forall|a: int, b: int|
                        0 <= a < b < self.pending@.len() implies (#[trigger] self.pending@[a])@ != (
                        #[trigger] self.pending@[b])@ by {
                        if b == self.pending@.len() - 1 {
                            assert(self.pending@[a] == before[a]);
                        } else {
                            assert(self.pending@[a] == before[a] && self.pending@[b] == before[b]);
                        }
                    }
                }
                self.last_event_ms = Some(t);
                WatchAction::Continue
            },
            WatchEvent::ChannelClosed => {
                if self.pending.len() > 0 {
                    WatchAction::CommitAndStop
                } else {
                    WatchAction::Stop
                }
            },
            WatchEvent::TimerExpired => {
                let had = self.pending.len() > 0;
                self.pending = Vec::new();
                self.last_event_ms = None;
                if had {
                    WatchAction::Commit
                } else {
                    WatchAction::Continue
                }
            },
        }
    }
}

/// A change restarts the quiet period: right after a change at `t`, the
/// whole debounce time is left before a commit.
pub proof fn lemma_change_restarts_quiet_period(t: u64, debounce_ms: u64)
    ensures
        debounce_ms > 0 ==> wait_left(Some(t), t, debounce_ms) == Some(debounce_ms),
        debounce_ms == 0 ==> wait_left(Some(t), t, debounce_ms) == Some(0u64),
{
}

/// The wait never exceeds the debounce time.
pub proof fn lemma_wait_bounded(last: Option<u64>, now_ms: u64, debounce_ms: u64)
    ensures
        wait_left(last, now_ms, debounce_ms) matches Some(w) ==> w <= debounce_ms,
{
}

} // verus!
