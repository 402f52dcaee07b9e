//! Sessions: the record of active worktree sessions, and how they are
//! listed.
//!
//! Reading and writing the record (a JSON file under a lock) and looking at
//! the file system are the caller's; this module holds what is decided on
//! the values.
use vstd::prelude::*;

use crate::path::{join, path_join};
use crate::text::{chars_to_string, decimal, push_decimal, push_str, str_eq};

verus! {

/// A session as recorded: where it runs and when it started (seconds and
/// nanoseconds since the Unix epoch, UTC).
#[derive(Debug, Clone)]
pub struct ActiveSession {
    pub repo_path: String,
    pub branch_name: String,
    pub worktree_path: String,
    pub mount_path: String,
    pub start_secs: i64,
    pub start_nanos: u32,
}

impl ActiveSession {
    /// An equal copy.
    pub fn duplicate(&self) -> (r: ActiveSession)
        ensures
            r == *self,
    {
        ActiveSession {
            repo_path: self.repo_path.clone(),
            branch_name: self.branch_name.clone(),
            worktree_path: self.worktree_path.clone(),
            mount_path: self.mount_path.clone(),
            start_secs: self.start_secs,
            start_nanos: self.start_nanos,
        }
    }

    /// A session is healthy when its mount and its worktree both exist (as
    /// the caller found).
    pub fn is_healthy(&self, mount_exists: bool, worktree_exists: bool) -> (r: bool)
        ensures
            r == (mount_exists && worktree_exists),
    {
        mount_exists && worktree_exists
    }
}

/// The state of a session in listings.
#[derive(Debug, Clone, Copy, PartialEq, Eq, Structural)]
pub enum SessionStatus {
    /// A shell is running in it.
    Active,
    /// Mounted, no shell.
    Idle,
    /// Its mount or worktree is gone; it needs cleaning up.
    Stale,
}

impl SessionStatus {
    /// The status's symbol.
    pub fn symbol(&self) -> (r: &'static str)
        ensures
            *self == SessionStatus::Active ==> r@ == "●"@,
            *self == SessionStatus::Idle ==> r@ == "○"@,
            *self == SessionStatus::Stale ==> r@ == "↯"@,
    {
        match self {
            SessionStatus::Active => "●",
            SessionStatus::Idle => "○",
            SessionStatus::Stale => "↯",
        }
    }

    /// The status's name.
    pub fn as_str(&self) -> (r: &'static str)
        ensures
            *self == SessionStatus::Active ==> r@ == "active"@,
            *self == SessionStatus::Idle ==> r@ == "idle"@,
            *self == SessionStatus::Stale ==> r@ == "stale"@,
    {
        match self {
            SessionStatus::Active => "active",
            SessionStatus::Idle => "idle",
            SessionStatus::Stale => "stale",
        }
    }
}

/// A session as the listing shows it.
#[derive(Debug, Clone)]
pub struct SessionDisplay {
    pub branch: String,
    pub status: SessionStatus,
    pub mount_status: String,
    pub dirty_files: usize,
    /// How long the session has run, in whole seconds.
    pub age_secs: u64,
}

// ---------------------------------------------------------------------------
// The record of sessions
// ---------------------------------------------------------------------------

/// The file that records the active sessions, in the configuration
/// directory.
pub fn get_session_state_path(config_dir: &str) -> (r: String)
    ensures
        r@ == join(config_dir@, "active_sessions.json"@),
{
    path_join(config_dir, "active_sessions.json")
}

/// The session belongs to the repository and branch.
pub open spec fn is_session_of(s: ActiveSession, repo_path: Seq<char>, branch: Seq<char>) -> bool {
    s.repo_path@ == repo_path && s.branch_name@ == branch
}

/// The sessions that do not belong to the repository and branch, in order.
pub open spec fn without_session(
    sessions: Seq<ActiveSession>,
    repo_path: Seq<char>,
    branch: Seq<char>,
) -> Seq<ActiveSession>
    decreases sessions.len(),
{
    if sessions.len() == 0 {
        Seq::empty()
    } else if is_session_of(sessions.last(), repo_path, branch) {
        without_session(sessions.drop_last(), repo_path, branch)
    } else {
        without_session(sessions.drop_last(), repo_path, branch).push(sessions.last())
    }
}

/// Removes every session of the repository and branch. Returns the
/// remaining sessions, and whether any was removed (the record must then
/// be saved).
pub fn remove_active_session(sessions: &Vec<ActiveSession>, repo_path: &str, branch_name: &str) -> (r: (
    Vec<ActiveSession>,
    bool,
))
    ensures
        r.0@ == without_session(sessions@, repo_path@, branch_name@),
        r.1 == (r.0@.len() < sessions@.len()),
{
    let mut kept: Vec<ActiveSession> = Vec::new();
    let mut i: usize = 0;
    while i < sessions.len()
        invariant
            i <= sessions.len(),
            kept@ == without_session(sessions@.take(i as int), repo_path@, branch_name@),
            kept@.len() <= i,
        decreases sessions.len() - i,
    {
        assert(sessions@.take(i + 1).drop_last() =~= sessions@.take(i as int));
        assert(sessions@.take(i + 1).last() == sessions@[i as int]);
        let s = &sessions[i];
        let matches = str_eq(s.repo_path.as_str(), repo_path) && str_eq(
            s.branch_name.as_str(),
            branch_name,
        );
        if !matches {
            kept.push(s.duplicate());
        }
        i = i + 1;
    }
    assert(sessions@.take(sessions.len() as int) =~= sessions@);
    let removed = kept.len() < sessions.len();
    (kept, removed)
}

/// Records a new session after the existing ones.
pub fn add_active_session(sessions: &mut Vec<ActiveSession>, session: ActiveSession)
    ensures
        final(sessions)@ == old(sessions)@.push(session),
{
    sessions.push(session);
}

/// After removal no session of the repository and branch is left.
pub proof fn lemma_removed_sessions_gone(
    sessions: Seq<ActiveSession>,
    repo_path: Seq<char>,
    branch: Seq<char>,
)
    ensures
        forall|j: int|
            0 <= j < without_session(sessions, repo_path, branch).len() ==> !is_session_of(
                #[trigger] without_session(sessions, repo_path, branch)[j],
                repo_path,
                branch,
            ),
    decreases sessions.len(),
{
    if sessions.len() > 0 {
        lemma_removed_sessions_gone(sessions.drop_last(), repo_path, branch);
        let prev = without_session(sessions.drop_last(), repo_path, branch);
        let cur = without_session(sessions, repo_path, branch);
        assert forall|j: int| 0 <= j < cur.len() implies !is_session_of(
            #[trigger] cur[j],
            repo_path,
            branch,
        ) by {
            if j < prev.len() {
                assert(cur[j] == prev[j]);
            }
        }
    }
}

/// Removing twice removes nothing more.
pub proof fn lemma_remove_idempotent(sessions: Seq<ActiveSession>, repo_path: Seq<char>, branch: Seq<char>)
    ensures
        without_session(without_session(sessions, repo_path, branch), repo_path, branch)
            == without_session(sessions, repo_path, branch),
    decreases sessions.len(),
{
    if sessions.len() > 0 {
        lemma_remove_idempotent(sessions.drop_last(), repo_path, branch);
        let prev = without_session(sessions.drop_last(), repo_path, branch);
        if !is_session_of(sessions.last(), repo_path, branch) {
            assert(prev.push(sessions.last()).drop_last() =~= prev);
        }
    }
}

/// Recording a session and then removing its repository and branch leaves
/// what removing them from the record before would have left.
pub proof fn lemma_add_then_remove(sessions: Seq<ActiveSession>, session: ActiveSession)
    ensures
        without_session(sessions.push(session), session.repo_path@, session.branch_name@)
            == without_session(sessions, session.repo_path@, session.branch_name@),
{
    assert(sessions.push(session).drop_last() =~= sessions);
}

/// Sessions other than the removed ones are kept, in order.
pub proof fn lemma_remove_keeps_others(
    sessions: Seq<ActiveSession>,
    repo_path: Seq<char>,
    branch: Seq<char>,
    s: ActiveSession,
)
    requires
        sessions.contains(s),
        !is_session_of(s, repo_path, branch),
    ensures
        without_session(sessions, repo_path, branch).contains(s),
    decreases sessions.len(),
{
    let prev = without_session(sessions.drop_last(), repo_path, branch);
    if sessions.last() == s {
        assert(without_session(sessions, repo_path, branch).last() == s);
    } else {
        let k = choose|k: int| 0 <= k < sessions.len() && sessions[k] == s;
        assert(sessions.drop_last()[k] == s);
        lemma_remove_keeps_others(sessions.drop_last(), repo_path, branch, s);
        let w = choose|w: int| 0 <= w < prev.len() && prev[w] == s;
        if !is_session_of(sessions.last(), repo_path, branch) {
            assert(without_session(sessions, repo_path, branch)[w] == s);
        }
    }
}

// ---------------------------------------------------------------------------
// Listing
// ---------------------------------------------------------------------------

/// The sessions of a repository, in order.
pub open spec fn sessions_of_repo(sessions: Seq<ActiveSession>, repo_path: Seq<char>) -> Seq<
    ActiveSession,
>
    decreases sessions.len(),
{
    if sessions.len() == 0 {
        Seq::empty()
    } else if sessions.last().repo_path@ == repo_path {
        sessions_of_repo(sessions.drop_last(), repo_path).push(sessions.last())
    } else {
        sessions_of_repo(sessions.drop_last(), repo_path)
    }
}

/// Keeps the sessions of a repository.
pub fn filter_repo_sessions(sessions: &Vec<ActiveSession>, repo_path: &str) -> (r: Vec<ActiveSession>)
    ensures
        r@ == sessions_of_repo(sessions@, repo_path@),
{
    let mut kept: Vec<ActiveSession> = Vec::new();
    let mut i: usize = 0;
    while i < sessions.len()
        invariant
            i <= sessions.len(),
            kept@ == sessions_of_repo(sessions@.take(i as int), repo_path@),
        decreases sessions.len() - i,
    {
        assert(sessions@.take(i + 1).drop_last() =~= sessions@.take(i as int));
        assert(sessions@.take(i + 1).last() == sessions@[i as int]);
        if str_eq(sessions[i].repo_path.as_str(), repo_path) {
            kept.push(sessions[i].duplicate());
        }
        i = i + 1;
    }
    assert(sessions@.take(sessions.len() as int) =~= sessions@);
    kept
}

/// The whole seconds between two instants (each as seconds and
/// nanoseconds), truncated toward zero, without sign.
pub open spec fn age_spec(start_secs: i64, start_nanos: u32, now_secs: i64, now_nanos: u32) -> nat {
    let total: int = (now_secs - start_secs) * 1_000_000_000 + (now_nanos - start_nanos);
    if total >= 0 {
        (total / 1_000_000_000) as nat
    } else {
        ((-total) / 1_000_000_000) as nat
    }
}

/// How long a session has run at `now`: the whole seconds between its
/// start and `now`, whichever comes first.
pub fn session_age_secs(session: &ActiveSession, now_secs: i64, now_nanos: u32) -> (r: u64)
    requires
        session.start_nanos < 1_000_000_000,
        now_nanos < 1_000_000_000,
    ensures
        r == age_spec(session.start_secs, session.start_nanos, now_secs, now_nanos),
{
    let ds: i128 = now_secs as i128 - session.start_secs as i128;
    let dn: i128 = now_nanos as i128 - session.start_nanos as i128;
    assert(-18446744073709551615 <= ds <= 18446744073709551615);
    assert(-1_000_000_000 < dn < 1_000_000_000);
    let total: i128 = ds * 1_000_000_000 + dn;
    let mag: i128 = if total >= 0 {
        total
    } else {
        -total
    };
    assert(0 <= mag < 18446744073709551616 * 1_000_000_000) by (nonlinear_arith)
        requires
            -18446744073709551615 <= ds <= 18446744073709551615,
            -1_000_000_000 < dn < 1_000_000_000,
            total == ds * 1_000_000_000 + dn,
            total >= 0 ==> mag == total,
            total < 0 ==> mag == -total,
    ;
    let q: i128 = mag / 1_000_000_000;
    assert(0 <= q <= u64::MAX) by (nonlinear_arith)
        requires
            q == mag / 1_000_000_000,
            0 <= mag < 18446744073709551616 * 1_000_000_000,
    ;
    q as u64
}

/// How a session is shown: idle when healthy, stale otherwise; whether
/// it is mounted; its uncommitted files; its age.
pub fn session_display(
    session: &ActiveSession,
    healthy: bool,
    mounted: bool,
    dirty_files: usize,
    age_secs: u64,
) -> (r: SessionDisplay)
    ensures
        r.branch == session.branch_name,
        r.status == (if healthy {
            SessionStatus::Idle
        } else {
            SessionStatus::Stale
        }),
        r.mount_status@ == (if mounted {
            "mounted"@
        } else {
            "unmounted"@
        }),
        r.dirty_files == dirty_files,
        r.age_secs == age_secs,
{
    SessionDisplay {
        branch: session.branch_name.clone(),
        status: if healthy {
            SessionStatus::Idle
        } else {
            SessionStatus::Stale
        },
        mount_status: String::from_str(
            if mounted {
                "mounted"
            } else {
                "unmounted"
            },
        ),
        dirty_files,
        age_secs,
    }
}

/// The number of uncommitted files of a worktree, 0 when it could not be
/// found out.
pub fn get_worktree_dirty_files_count(count: Result<usize, crate::error::TreebeardError>) -> (r:
    usize)
    ensures
        r == (match count {
            Ok(n) => n,
            Err(_) => 0,
        }),
{
    match count {
        Ok(n) => n,
        Err(_) => 0,
    }
}

/// An age as listed: hours and minutes, or minutes and seconds, or
/// seconds.
pub open spec fn age_text(secs: u64) -> Seq<char> {
    let hours = secs / 3600;
    let minutes = (secs % 3600) / 60;
    let seconds = secs % 60;
    if hours > 0 {
        decimal(hours as nat) + "h "@ + decimal(minutes as nat) + "m"@
    } else if minutes > 0 {
        decimal(minutes as nat) + "m "@ + decimal(seconds as nat) + "s"@
    } else {
        decimal(seconds as nat) + "s"@
    }
}

/// Formats an age in seconds.
pub fn format_age(secs: u64) -> (r: String)
    ensures
        r@ == age_text(secs),
{
    let hours = secs / 3600;
    let minutes = (secs % 3600) / 60;
    let seconds = secs % 60;
    let mut out: Vec<char> = Vec::new();
    if hours > 0 {
        push_decimal(&mut out, hours);
        push_str(&mut out, "h ");
        push_decimal(&mut out, minutes);
        push_str(&mut out, "m");
    } else if minutes > 0 {
        push_decimal(&mut out, minutes);
        push_str(&mut out, "m ");
        push_decimal(&mut out, seconds);
        push_str(&mut out, "s");
    } else {
        push_decimal(&mut out, seconds);
        push_str(&mut out, "s");
    }
    chars_to_string(&out)
}

/// A session as a line of the machine-readable listing: branch, mount
/// path, mount status and uncommitted files, separated by tabs.
pub fn porcelain_line(session: &ActiveSession, mounted: bool, dirty_files: usize) -> (r: String)
    ensures
        r@ == session.branch_name@ + "\t"@ + session.mount_path@ + "\t"@ + (if mounted {
            "mounted"@
        } else {
            "unmounted"@
        }) + "\t"@ + decimal(dirty_files as nat),
{
    let mut out: Vec<char> = Vec::new();
    push_str(&mut out, session.branch_name.as_str());
    push_str(&mut out, "\t");
    push_str(&mut out, session.mount_path.as_str());
    push_str(&mut out, "\t");
    push_str(
        &mut out,
        if mounted {
            "mounted"
        } else {
            "unmounted"
        },
    );
    push_str(&mut out, "\t");
    push_decimal(&mut out, dirty_files as u64);
    chars_to_string(&out)
}

/// `s` followed by spaces up to `width` characters (`{:<width}`).
pub open spec fn pad_right(s: Seq<char>, width: nat) -> Seq<char> {
    if s.len() >= width {
        s
    } else {
        s + Seq::new((width - s.len()) as nat, |i: int| ' ')
    }
}

/// `s` after spaces up to `width` characters (`{:>width}`).
pub open spec fn pad_left(s: Seq<char>, width: nat) -> Seq<char> {
    if s.len() >= width {
        s
    } else {
        Seq::new((width - s.len()) as nat, |i: int| ' ') + s
    }
}

/// Appends `n` spaces.
fn push_spaces(out: &mut Vec<char>, n: usize)
    ensures
        final(out)@ == old(out)@ + Seq::new(n as nat, |i: int| ' '),
{
    let ghost start = out@;
    let mut i: usize = 0;
    while i < n
        invariant
            i <= n,
            out@ == start + Seq::new(i as nat, |k: int| ' '),
        decreases n - i,
    {
        out.push(' ');
        i = i + 1;
        assert(out@ =~= start + Seq::new(i as nat, |k: int| ' '));
    }
}

/// Appends `s`, padded on the right to `width` characters.
fn push_padded_right(out: &mut Vec<char>, s: &str, width: usize)
    ensures
        final(out)@ == old(out)@ + pad_right(s@, width as nat),
{
    let chars = crate::text::str_to_chars(s);
    crate::text::push_chars(out, &chars);
    if chars.len() < width {
        push_spaces(out, width - chars.len());
    }
}

/// Appends `s`, padded on the left to `width` characters.
fn push_padded_left(out: &mut Vec<char>, s: &str, width: usize)
    ensures
        final(out)@ == old(out)@ + pad_left(s@, width as nat),
{
    let chars = crate::text::str_to_chars(s);
    if chars.len() < width {
        push_spaces(out, width - chars.len());
    }
    crate::text::push_chars(out, &chars);
}

/// The width of the branch column: the longest branch name in bytes, at
/// least 16.
pub open spec fn branch_width_spec(displays: Seq<SessionDisplay>) -> nat
    decreases displays.len(),
{
    if displays.len() == 0 {
        16
    } else {
        let prev = branch_width_spec(displays.drop_last());
        let l = crate::sync::display::byte_len(displays.last().branch@);
        if l > prev {
            l
        } else {
            prev
        }
    }
}

/// The width of the branch column.
pub fn branch_column_width(displays: &Vec<SessionDisplay>) -> (r: usize)
    ensures
        r == branch_width_spec(displays@),
{
    let mut w: usize = 16;
    let mut i: usize = 0;
    while i < displays.len()
        invariant
            i <= displays.len(),
            w == branch_width_spec(displays@.take(i as int)),
        decreases displays.len() - i,
    {
        assert(displays@.take(i + 1).drop_last() =~= displays@.take(i as int));
        let l = displays[i].branch.as_str().as_bytes().len();
        if l > w {
            w = l;
        }
        i = i + 1;
    }
    assert(displays@.take(displays.len() as int) =~= displays@);
    w
}

/// The heading of the table.
pub fn table_header(branch_width: usize) -> (r: String)
    ensures
        r@ == pad_right("BRANCH"@, branch_width as nat) + pad_right("STATUS"@, 16) + pad_right(
            "MOUNT"@,
            10,
        ) + pad_right("FILES"@, 8) + pad_right("AGE"@, 10),
{
    let mut out: Vec<char> = Vec::new();
    push_padded_right(&mut out, "BRANCH", branch_width);
    push_padded_right(&mut out, "STATUS", 16);
    push_padded_right(&mut out, "MOUNT", 10);
    push_padded_right(&mut out, "FILES", 8);
    push_padded_right(&mut out, "AGE", 10);
    chars_to_string(&out)
}

/// The line under the heading: as many `─` as the table is wide.
pub fn table_separator(branch_width: usize) -> (r: String)
    requires
        branch_width + 44 <= usize::MAX,
    ensures
        r@ == Seq::new((branch_width + 44) as nat, |i: int| '─'),
{
    let n = branch_width + 44;
    let mut out: Vec<char> = Vec::new();
    let mut i: usize = 0;
    while i < n
        invariant
            i <= n,
            out@ == Seq::new(i as nat, |k: int| '─'),
        decreases n - i,
    {
        out.push('─');
        i = i + 1;
        assert(out@ =~= Seq::new(i as nat, |k: int| '─'));
    }
    chars_to_string(&out)
}

/// The symbol of a status.
pub open spec fn status_symbol(s: SessionStatus) -> Seq<char> {
    match s {
        SessionStatus::Active => "●"@,
        SessionStatus::Idle => "○"@,
        SessionStatus::Stale => "↯"@,
    }
}

/// The name of a status.
pub open spec fn status_name(s: SessionStatus) -> Seq<char> {
    match s {
        SessionStatus::Active => "active"@,
        SessionStatus::Idle => "idle"@,
        SessionStatus::Stale => "stale"@,
    }
}

/// A row of the table.
pub fn table_row(d: &SessionDisplay, branch_width: usize) -> (r: String)
    ensures
        r@ == pad_right(d.branch@, branch_width as nat) + status_symbol(d.status) + " "@ + pad_right(
            status_name(d.status),
            14,
        ) + pad_right(d.mount_status@, 10) + pad_right(decimal(d.dirty_files as nat), 8)
            + pad_left(age_text(d.age_secs), 10),
{
    let mut out: Vec<char> = Vec::new();
    push_padded_right(&mut out, d.branch.as_str(), branch_width);
    push_str(&mut out, d.status.symbol());
    push_str(&mut out, " ");
    push_padded_right(&mut out, d.status.as_str(), 14);
    push_padded_right(&mut out, d.mount_status.as_str(), 10);
    let files = crate::text::u64_to_string(d.dirty_files as u64);
    push_padded_right(&mut out, files.as_str(), 8);
    let age = format_age(d.age_secs);
    push_padded_left(&mut out, age.as_str(), 10);
    chars_to_string(&out)
}

} // verus!
