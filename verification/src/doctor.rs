//! The diagnostics of `treebeard doctor`: what each check concludes from
//! what the caller found on the system.
use vstd::prelude::*;

use crate::text::{
    chars_to_string, contains_seq, decimal, is_whitespace, is_whitespace_char, lines, parse_u64,
    parse_u64_spec, push_decimal, push_str, split_lines, starts_with, str_contains, str_to_chars,
    strip_prefix_str, trim, trim_str,
};

verus! {

/// How a check came out.
#[derive(Debug, Clone, Copy, PartialEq, Eq, Structural)]
pub enum DiagnosticStatus {
    Passed,
    Warning,
    Error,
}

/// One line of the diagnostics.
#[derive(Debug)]
pub struct DiagnosticCheck {
    pub name: String,
    pub status: DiagnosticStatus,
    pub details: Option<String>,
}

/// The check has this name, status and details.
pub open spec fn check_is(c: DiagnosticCheck, name: Seq<char>, status: DiagnosticStatus, details: Seq<
    char,
>) -> bool {
    &&& c.name@ == name
    &&& c.status == status
    &&& c.details matches Some(d) && d@ == details
}

impl DiagnosticCheck {
    /// A check that passed.
    pub fn ok(name: &str, details: &str) -> (r: Self)
        ensures
            check_is(r, name@, DiagnosticStatus::Passed, details@),
    {
        DiagnosticCheck {
            name: String::from_str(name),
            status: DiagnosticStatus::Passed,
            details: Some(String::from_str(details)),
        }
    }

    /// A check that found something to look at.
    pub fn warning(name: &str, details: &str) -> (r: Self)
        ensures
            check_is(r, name@, DiagnosticStatus::Warning, details@),
    {
        DiagnosticCheck {
            name: String::from_str(name),
            status: DiagnosticStatus::Warning,
            details: Some(String::from_str(details)),
        }
    }

    /// A check that failed.
    pub fn error(name: &str, details: &str) -> (r: Self)
        ensures
            check_is(r, name@, DiagnosticStatus::Error, details@),
    {
        DiagnosticCheck {
            name: String::from_str(name),
            status: DiagnosticStatus::Error,
            details: Some(String::from_str(details)),
        }
    }

    /// The check's symbol: a check mark, a warning sign, or a cross.
    pub fn symbol(&self) -> (r: &'static str)
        ensures
            self.status == DiagnosticStatus::Passed ==> r@ == "\u{2713}"@,
            self.status == DiagnosticStatus::Warning ==> r@ == "\u{26a0}"@,
            self.status == DiagnosticStatus::Error ==> r@ == "\u{2717}"@,
    {
        match self.status {
            DiagnosticStatus::Passed => "\u{2713}",
            DiagnosticStatus::Warning => "\u{26a0}",
            DiagnosticStatus::Error => "\u{2717}",
        }
    }

    /// The check as printed: symbol, name, and details.
    pub fn line(&self) -> (r: String)
        ensures
            r@ == (match self.status {
                DiagnosticStatus::Passed => "\u{2713}"@,
                DiagnosticStatus::Warning => "\u{26a0}"@,
                DiagnosticStatus::Error => "\u{2717}"@,
            }) + " "@ + self.name@ + " - "@ + (match self.details {
                Some(d) => d@,
                None => ""@,
            }),
    {
        let mut out: Vec<char> = Vec::new();
        push_str(&mut out, self.symbol());
        push_str(&mut out, " ");
        push_str(&mut out, self.name.as_str());
        push_str(&mut out, " - ");
        match &self.details {
            Some(d) => push_str(&mut out, d.as_str()),
            None => push_str(&mut out, ""),
        }
        chars_to_string(&out)
    }
}

/// A check whose name and details are built from parts.
fn check_from(name: Vec<char>, status: DiagnosticStatus, details: Vec<char>) -> (r: DiagnosticCheck)
    ensures
        check_is(r, name@, status, details@),
{
    DiagnosticCheck {
        name: chars_to_string(&name),
        status,
        details: Some(chars_to_string(&details)),
    }
}

// ---------------------------------------------------------------------------
// macOS
// ---------------------------------------------------------------------------

/// The release name of a macOS major version.
pub open spec fn macos_name(major: u32) -> Seq<char> {
    if major == 15 {
        "Sequoia"@
    } else if major == 14 {
        "Sonoma"@
    } else if major == 13 {
        "Ventura"@
    } else if major == 12 {
        "Monterey"@
    } else {
        "macOS"@
    }
}

/// Checks the operating system: macOS 15 or later is required.
pub fn check_macos_version(is_macos: bool, version: Option<(u32, u32)>) -> (r: DiagnosticCheck)
    ensures
        !is_macos ==> check_is(
            r,
            "Operating System"@,
            DiagnosticStatus::Error,
            "treebeard requires macOS"@,
        ),
        is_macos && version is None ==> check_is(
            r,
            "macOS version"@,
            DiagnosticStatus::Error,
            "could not determine version"@,
        ),
        version matches Some((major, minor)) ==> (is_macos ==> check_is(
            r,
            "macOS "@ + decimal(major as nat) + "."@ + decimal(minor as nat) + " ("@ + macos_name(
                major,
            ) + ")"@,
            if major >= 15 {
                DiagnosticStatus::Passed
            } else {
                DiagnosticStatus::Error
            },
            if major >= 15 {
                "supported"@
            } else {
                "requires macOS 15 (Sequoia) or later"@
            },
        )),
{
    if !is_macos {
        return DiagnosticCheck::error("Operating System", "treebeard requires macOS");
    }
    match version {
        None => DiagnosticCheck::error("macOS version", "could not determine version"),
        Some((major, minor)) => {
            let name = if major == 15 {
                "Sequoia"
            } else if major == 14 {
                "Sonoma"
            } else if major == 13 {
                "Ventura"
            } else if major == 12 {
                "Monterey"
            } else {
                "macOS"
            };
            let mut n: Vec<char> = Vec::new();
            push_str(&mut n, "macOS ");
            push_decimal(&mut n, major as u64);
            push_str(&mut n, ".");
            push_decimal(&mut n, minor as u64);
            push_str(&mut n, " (");
            push_str(&mut n, name);
            push_str(&mut n, ")");
            let mut d: Vec<char> = Vec::new();
            if major >= 15 {
                push_str(&mut d, "supported");
                check_from(n, DiagnosticStatus::Passed, d)
            } else {
                push_str(&mut d, "requires macOS 15 (Sequoia) or later");
                check_from(n, DiagnosticStatus::Error, d)
            }
        },
    }
}

// ---------------------------------------------------------------------------
// macFUSE
// ---------------------------------------------------------------------------

/// The text between `<string>` and `</string>` after `key`, searched from
/// the first occurrence of `key`.
pub open spec fn plist_string_after(content: Seq<char>, key: Seq<char>) -> Option<Seq<char>> {
    match crate::git::find_from(content, key, 0) {
        Some(k) => string_element_in(content.skip(k)),
        None => None,
    }
}

/// The text of the first `<string>` element of a text.
pub open spec fn string_element_in(after: Seq<char>) -> Option<Seq<char>> {
    match crate::git::find_from(after, "<string>"@, 0) {
        Some(open) => string_element_end(after, open + 8),
        None => None,
    }
}

/// The text from `start` up to the next `</string>`.
pub open spec fn string_element_end(after: Seq<char>, start: int) -> Option<Seq<char>> {
    match crate::git::find_from(after.skip(start), "</string>"@, 0) {
        Some(e) => Some(after.subrange(start, start + e)),
        None => None,
    }
}

/// Where `find_from` finds a pattern, it occurs, at or after the start.
proof fn lemma_found(s: Seq<char>, sep: Seq<char>)
    ensures
        crate::git::find_from(s, sep, 0) matches Some(k) ==> 0 <= k && k + sep.len() <= s.len(),
    decreases s.len(),
{
    crate::git::lemma_find_from_occurs(s, sep, 0);
}

/// Finds a pattern in a text.
fn find_in(s: &Vec<char>, pat: &str) -> (r: Option<usize>)
    requires
        pat@.len() > 0,
    ensures
        crate::git::find_from(s@, pat@, 0) == (match r {
            Some(k) => Some(k as int),
            None => None::<int>,
        }),
        r matches Some(k) ==> k + pat@.len() <= s@.len(),
{
    let p = str_to_chars(pat);
    let r = crate::git::find_chars_from(s, &p, 0);
    proof {
        lemma_found(s@, pat@);
    }
    r
}

/// The version that macFUSE's `Info.plist` names: the string after the
/// `CFBundleShortVersionString` key.
pub fn get_macfuse_version(plist_content: &str) -> (r: Option<String>)
    ensures
        match plist_string_after(plist_content@, "CFBundleShortVersionString"@) {
            Some(v) => r matches Some(s) && s@ == v,
            None => r is None,
        },
{
    let content = str_to_chars(plist_content);
    proof {
        reveal_strlit("CFBundleShortVersionString");
        reveal_strlit("<string>");
        reveal_strlit("</string>");
    }
    let k = match find_in(&content, "CFBundleShortVersionString") {
        Some(k) => k,
        None => {
            return None;
        },
    };
    let after = crate::path::subvec_from(&content, k);
    let s = match find_in(&after, "<string>") {
        Some(s) => s,
        None => {
            return None;
        },
    };
    let alen = after.len();
    assert(s + 8 <= alen);
    let start = s + 8;
    let rest = crate::path::subvec_from(&after, start);
    let e = match find_in(&rest, "</string>") {
        Some(e) => e,
        None => {
            return None;
        },
    };
    let mut v: Vec<char> = Vec::new();
    let mut i: usize = 0;
    while i < e
        invariant
            i <= e,
            e + 9 <= rest@.len(),
            start <= after@.len(),
            rest@ == after@.skip(start as int),
            v@ == after@.subrange(start as int, start + i),
        decreases e - i,
    {
        assert(rest@[i as int] == after@[start + i]);
        v.push(rest[i]);
        i = i + 1;
        assert(after@.subrange(start as int, start + i) =~= after@.subrange(
            start as int,
            start + i - 1,
        ).push(after@[start + i - 1]));
    }
    Some(chars_to_string(&v))
}

/// The output of `kextstat` shows macFUSE's kernel extension.
pub open spec fn kext_loaded(output: Seq<char>) -> bool {
    contains_seq(output, "macfuse"@) || contains_seq(output, "io.macfuse"@)
}

/// Checks macFUSE: installed (the framework exists), its version (from the
/// plist, else "installed"), and whether its kernel extension is loaded
/// (`kextstat` printed it; `None` when it could not run).
pub fn check_macfuse(
    is_macos: bool,
    framework_exists: bool,
    version: Option<String>,
    kextstat_output: Option<String>,
) -> (r: DiagnosticCheck)
    ensures
        !is_macos ==> check_is(r, "macFUSE"@, DiagnosticStatus::Error, "only available on macOS"@),
        is_macos && !framework_exists ==> check_is(
            r,
            "macFUSE"@,
            DiagnosticStatus::Error,
            "not installed"@,
        ),
        is_macos && framework_exists ==> ({
            let v = match version {
                Some(s) => s@,
                None => "installed"@,
            };
            let loaded = match kextstat_output {
                Some(o) => kext_loaded(o@),
                None => false,
            };
            check_is(
                r,
                "macFUSE "@ + v,
                if loaded {
                    DiagnosticStatus::Passed
                } else {
                    DiagnosticStatus::Warning
                },
                if loaded {
                    "kernel extension loaded"@
                } else {
                    "kernel extension not loaded (will load on first mount)"@
                },
            )
        }),
{
    if !is_macos {
        return DiagnosticCheck::error("macFUSE", "only available on macOS");
    }
    if !framework_exists {
        return DiagnosticCheck::error("macFUSE", "not installed");
    }
    let mut n: Vec<char> = Vec::new();
    push_str(&mut n, "macFUSE ");
    match &version {
        Some(v) => push_str(&mut n, v.as_str()),
        None => push_str(&mut n, "installed"),
    }
    let loaded = match &kextstat_output {
        Some(o) => str_contains(o.as_str(), "macfuse") || str_contains(o.as_str(), "io.macfuse"),
        None => false,
    };
    let mut d: Vec<char> = Vec::new();
    if loaded {
        push_str(&mut d, "kernel extension loaded");
        check_from(n, DiagnosticStatus::Passed, d)
    } else {
        push_str(&mut d, "kernel extension not loaded (will load on first mount)");
        check_from(n, DiagnosticStatus::Warning, d)
    }
}

// ---------------------------------------------------------------------------
// Git
// ---------------------------------------------------------------------------

/// The version that `git --version` printed (without `git version `).
pub open spec fn git_version_text(stdout: Seq<char>) -> Seq<char> {
    let t = trim(stdout);
    if starts_with(t, "git version "@) {
        t.skip(12)
    } else {
        t
    }
}

/// Checks git: found (`git --version` ran; its output, `None` otherwise)
/// and whether `git worktree list` works (its exit code: 0 or 128 is fine;
/// `None` when it could not run, `Some(None)` when it had no exit code).
pub fn check_git(version_output: Option<String>, worktree_exit: Option<Option<i32>>) -> (r:
    DiagnosticCheck)
    ensures
        version_output is None ==> check_is(r, "Git"@, DiagnosticStatus::Error, "not found in PATH"@),
        version_output matches Some(out) ==> (match worktree_exit {
            None => check_is(
                r,
                "Git "@ + git_version_text(out@),
                DiagnosticStatus::Warning,
                "could not check worktree support"@,
            ),
            Some(code) => {
                let c: i32 = match code {
                    Some(c) => c,
                    None => -1i32,
                };
                if c == 0 || c == 128 {
                    check_is(
                        r,
                        "Git "@ + git_version_text(out@),
                        DiagnosticStatus::Passed,
                        "worktree support available"@,
                    )
                } else {
                    check_is(
                        r,
                        "Git "@ + git_version_text(out@),
                        DiagnosticStatus::Warning,
                        "worktree command not available"@,
                    )
                }
            },
        }),
{
    let out = match version_output {
        None => {
            return DiagnosticCheck::error("Git", "not found in PATH");
        },
        Some(o) => o,
    };
    let t = trim_str(out.as_str());
    let version = match strip_prefix_str(t.as_str(), "git version ") {
        Some(v) => v,
        None => t,
    };
    proof {
        reveal_strlit("git version ");
    }
    let mut n: Vec<char> = Vec::new();
    push_str(&mut n, "Git ");
    push_str(&mut n, version.as_str());
    let mut d: Vec<char> = Vec::new();
    match worktree_exit {
        None => {
            push_str(&mut d, "could not check worktree support");
            check_from(n, DiagnosticStatus::Warning, d)
        },
        Some(code) => {
            let c = match code {
                Some(c) => c,
                None => -1,
            };
            if c == 0 || c == 128 {
                push_str(&mut d, "worktree support available");
                check_from(n, DiagnosticStatus::Passed, d)
            } else {
                push_str(&mut d, "worktree command not available");
                check_from(n, DiagnosticStatus::Warning, d)
            }
        },
    }
}

// ---------------------------------------------------------------------------
// Configuration
// ---------------------------------------------------------------------------

/// What the caller found of the configuration file.
pub enum ConfigFileState {
    Missing,
    ReadError(String),
    ParseError(String),
    /// It parsed; validation only ever warns, so it is valid.
    Parsed,
}

/// Checks the configuration file at `path`.
pub fn check_config(path: &str, state: ConfigFileState) -> (r: DiagnosticCheck)
    ensures
        state is Missing ==> check_is(
            r,
            "Config file"@,
            DiagnosticStatus::Warning,
            "not found at "@ + path@,
        ),
        state matches ConfigFileState::ReadError(e) ==> check_is(
            r,
            "Config file"@,
            DiagnosticStatus::Error,
            "read error: "@ + e@,
        ),
        state matches ConfigFileState::ParseError(e) ==> check_is(
            r,
            "Config file"@,
            DiagnosticStatus::Error,
            "parse error: "@ + e@,
        ),
        state is Parsed ==> check_is(
            r,
            "Config file"@,
            DiagnosticStatus::Passed,
            path@ + " (valid)"@,
        ),
{
    let mut n: Vec<char> = Vec::new();
    push_str(&mut n, "Config file");
    let mut d: Vec<char> = Vec::new();
    match state {
        ConfigFileState::Missing => {
            push_str(&mut d, "not found at ");
            push_str(&mut d, path);
            check_from(n, DiagnosticStatus::Warning, d)
        },
        ConfigFileState::ReadError(e) => {
            push_str(&mut d, "read error: ");
            push_str(&mut d, e.as_str());
            check_from(n, DiagnosticStatus::Error, d)
        },
        ConfigFileState::ParseError(e) => {
            push_str(&mut d, "parse error: ");
            push_str(&mut d, e.as_str());
            check_from(n, DiagnosticStatus::Error, d)
        },
        ConfigFileState::Parsed => {
            push_str(&mut d, path);
            push_str(&mut d, " (valid)");
            check_from(n, DiagnosticStatus::Passed, d)
        },
    }
}

// ---------------------------------------------------------------------------
// Sessions
// ---------------------------------------------------------------------------

/// How many of the flags are set.
pub open spec fn count_set(flags: Seq<bool>) -> nat
    decreases flags.len(),
{
    if flags.len() == 0 {
        0
    } else {
        count_set(flags.drop_last()) + if flags.last() {
            1nat
        } else {
            0nat
        }
    }
}

proof fn lemma_count_set_bound(flags: Seq<bool>)
    ensures
        count_set(flags) <= flags.len(),
    decreases flags.len(),
{
    if flags.len() > 0 {
        lemma_count_set_bound(flags.drop_last());
    }
}

/// Checks the recorded sessions, given for each whether it is healthy
/// (`None` when the record could not be read).
pub fn check_active_sessions(health: Option<Vec<bool>>) -> (r: DiagnosticCheck)
    ensures
        health is None ==> check_is(r, "Active sessions"@, DiagnosticStatus::Passed, "no session data"@),
        health matches Some(h) ==> (h@.len() == 0 ==> check_is(
            r,
            "Active sessions"@,
            DiagnosticStatus::Passed,
            "none"@,
        )),
        health matches Some(h) ==> (h@.len() > 0 ==> ({
            let healthy = count_set(h@);
            let unhealthy = (h@.len() - healthy) as nat;
            if unhealthy == 0 {
                check_is(
                    r,
                    "Active sessions"@,
                    DiagnosticStatus::Passed,
                    decimal(healthy) + " session(s) healthy"@,
                )
            } else {
                check_is(
                    r,
                    "Active sessions"@,
                    DiagnosticStatus::Warning,
                    decimal(healthy) + " healthy, "@ + decimal(unhealthy)
                        + " unhealthy (may need cleanup)"@,
                )
            }
        })),
{
    let flags = match health {
        None => {
            return DiagnosticCheck::ok("Active sessions", "no session data");
        },
        Some(f) => f,
    };
    if flags.len() == 0 {
        return DiagnosticCheck::ok("Active sessions", "none");
    }
    let mut healthy: u64 = 0;
    let mut i: usize = 0;
    while i < flags.len()
        invariant
            i <= flags.len(),
            healthy == count_set(flags@.take(i as int)),
            healthy <= i,
        decreases flags.len() - i,
    {
        assert(flags@.take(i + 1).drop_last() =~= flags@.take(i as int));
        if flags[i] {
            healthy = healthy + 1;
        }
        i = i + 1;
    }
    assert(flags@.take(flags.len() as int) =~= flags@);
    let unhealthy: u64 = flags.len() as u64 - healthy;
    let mut n: Vec<char> = Vec::new();
    push_str(&mut n, "Active sessions");
    let mut d: Vec<char> = Vec::new();
    if unhealthy == 0 {
        push_decimal(&mut d, healthy);
        push_str(&mut d, " session(s) healthy");
        check_from(n, DiagnosticStatus::Passed, d)
    } else {
        push_decimal(&mut d, healthy);
        push_str(&mut d, " healthy, ");
        push_decimal(&mut d, unhealthy);
        push_str(&mut d, " unhealthy (may need cleanup)");
        check_from(n, DiagnosticStatus::Warning, d)
    }
}

// ---------------------------------------------------------------------------
// Stale mounts
// ---------------------------------------------------------------------------

/// The list of stale mounts in the details: one `    - <path>` line each,
/// separated by newlines.
pub open spec fn mount_list_text(paths: Seq<Seq<char>>) -> Seq<char>
    decreases paths.len(),
{
    if paths.len() == 0 {
        Seq::empty()
    } else if paths.len() == 1 {
        "    - "@ + paths[0]
    } else {
        mount_list_text(paths.drop_last()) + "\n"@ + "    - "@ + paths.last()
    }
}

/// Checks for treebeard mounts left behind (macOS only), from the output
/// of `mount` (`None` when it could not run). Gives the check and the
/// number of stale mounts.
pub fn check_stale_mounts(is_macos: bool, mount_output: Option<String>) -> (r: (DiagnosticCheck, usize))
    ensures
        !is_macos ==> check_is(
            r.0,
            "Stale mounts"@,
            DiagnosticStatus::Passed,
            "check not applicable on this platform"@,
        ) && r.1 == 0,
        is_macos && mount_output is None ==> check_is(
            r.0,
            "Stale mounts"@,
            DiagnosticStatus::Warning,
            "could not check (mount command failed)"@,
        ) && r.1 == 0,
        mount_output matches Some(out) ==> (is_macos ==> ({
            let found = crate::overlay::mount::stale_mounts_spec(lines(out@));
            &&& r.1 == found.len()
            &&& found.len() == 0 ==> check_is(
                r.0,
                "Stale mounts"@,
                DiagnosticStatus::Passed,
                "none detected"@,
            )
            &&& found.len() > 0 ==> check_is(
                r.0,
                "Stale mounts"@,
                DiagnosticStatus::Warning,
                decimal(found.len()) + " stale mount(s) detected:\n"@ + mount_list_text(found),
            )
        })),
{
    if !is_macos {
        return (DiagnosticCheck::ok("Stale mounts", "check not applicable on this platform"), 0);
    }
    let out = match mount_output {
        None => {
            return (
                DiagnosticCheck::warning("Stale mounts", "could not check (mount command failed)"),
                0,
            );
        },
        Some(o) => o,
    };
    let found = crate::overlay::mount::stale_mount_paths(out.as_str());
    let ghost fv = crate::config::string_views(found@);
    let count = found.len();
    if count == 0 {
        return (DiagnosticCheck::ok("Stale mounts", "none detected"), 0);
    }
    let mut d: Vec<char> = Vec::new();
    push_decimal(&mut d, count as u64);
    push_str(&mut d, " stale mount(s) detected:\n");
    let ghost head = d@;
    let mut i: usize = 0;
    while i < found.len()
        invariant
            i <= found.len(),
            fv == crate::config::string_views(found@),
            d@ == head + mount_list_text(fv.take(i as int)),
        decreases found.len() - i,
    {
        assert(fv.take(i + 1).drop_last() =~= fv.take(i as int));
        if i > 0 {
            push_str(&mut d, "\n");
        }
        push_str(&mut d, "    - ");
        push_str(&mut d, found[i].as_str());
        i = i + 1;
        proof {
            if i == 1 {
                assert(fv.take(1) =~= seq![fv[0]]);
            }
            assert(d@ =~= head + mount_list_text(fv.take(i as int)));
        }
    }
    assert(fv.take(found.len() as int) =~= fv);
    let mut n: Vec<char> = Vec::new();
    push_str(&mut n, "Stale mounts");
    (check_from(n, DiagnosticStatus::Warning, d), count)
}

// ---------------------------------------------------------------------------
// Disk space
// ---------------------------------------------------------------------------

/// The available kilobytes that `df -k` printed: the fourth field of its
/// second line, when that is a number.
pub open spec fn df_available_kb(output: Seq<char>) -> Option<u64> {
    let ls = lines(output);
    if ls.len() >= 2 {
        let parts = crate::text::words(ls[1]);
        if parts.len() >= 4 {
            parse_u64_spec(parts[3])
        } else {
            None
        }
    } else {
        None
    }
}

/// Reads the available kilobytes from the output of `df -k`.
pub fn parse_df_available(output: &str) -> (r: Option<u64>)
    ensures
        r == df_available_kb(output@),
{
    let chars = str_to_chars(output);
    let ls = split_lines(&chars);
    if ls.len() < 2 {
        return None;
    }
    let parts = crate::text::split_whitespace(&ls[1]);
    assert(parts@.map_values(|v: Vec<char>| v@).len() == parts@.len());
    if parts.len() < 4 {
        return None;
    }
    assert(parts@.map_values(|v: Vec<char>| v@)[3] == parts@[3]@);
    parse_u64(&parts[3])
}

/// The disk space check for some available kilobytes: fine from 10 GB,
/// low from 1 GB, critically low below.
pub open spec fn disk_check_is(r: DiagnosticCheck, kb: u64) -> bool {
    let gb = kb / 1024 / 1024;
    let mb = (kb / 1024) % 1024;
    if gb >= 10 {
        check_is(r, "Disk space"@, DiagnosticStatus::Passed, decimal(gb as nat) + " GB available"@)
    } else if gb >= 1 {
        check_is(
            r,
            "Disk space"@,
            DiagnosticStatus::Warning,
            decimal(gb as nat) + "."@ + decimal((mb / 100) as nat) + " GB available (low)"@,
        )
    } else {
        check_is(
            r,
            "Disk space"@,
            DiagnosticStatus::Error,
            decimal((kb / 1024) as nat) + " MB available (critically low)"@,
        )
    }
}

/// Checks the free disk space of the home directory: whether `HOME` is
/// set, and (on macOS) the output of `df -k <home>` (`None` when it could
/// not run).
pub fn check_disk_space(home_set: bool, is_macos: bool, df_output: Option<String>) -> (r:
    DiagnosticCheck)
    ensures
        !home_set ==> check_is(
            r,
            "Disk space"@,
            DiagnosticStatus::Warning,
            "could not determine home directory"@,
        ),
        home_set && !is_macos ==> check_is(
            r,
            "Disk space"@,
            DiagnosticStatus::Passed,
            "check not implemented for this platform"@,
        ),
        home_set && is_macos && df_output is None ==> check_is(
            r,
            "Disk space"@,
            DiagnosticStatus::Warning,
            "could not check (df command failed)"@,
        ),
        df_output matches Some(out) ==> (home_set && is_macos ==> (match df_available_kb(out@) {
            Some(kb) => disk_check_is(r, kb),
            None => check_is(
                r,
                "Disk space"@,
                DiagnosticStatus::Warning,
                "could not parse available space"@,
            ),
        })),
{
    if !home_set {
        return DiagnosticCheck::warning("Disk space", "could not determine home directory");
    }
    if !is_macos {
        return DiagnosticCheck::ok("Disk space", "check not implemented for this platform");
    }
    let out = match df_output {
        None => {
            return DiagnosticCheck::warning("Disk space", "could not check (df command failed)");
        },
        Some(o) => o,
    };
    let kb = match parse_df_available(out.as_str()) {
        None => {
            return DiagnosticCheck::warning("Disk space", "could not parse available space");
        },
        Some(k) => k,
    };
    let gb = kb / 1024 / 1024;
    let mb = (kb / 1024) % 1024;
    let mut n: Vec<char> = Vec::new();
    push_str(&mut n, "Disk space");
    let mut d: Vec<char> = Vec::new();
    if gb >= 10 {
        push_decimal(&mut d, gb);
        push_str(&mut d, " GB available");
        check_from(n, DiagnosticStatus::Passed, d)
    } else if gb >= 1 {
        push_decimal(&mut d, gb);
        push_str(&mut d, ".");
        push_decimal(&mut d, mb / 100);
        push_str(&mut d, " GB available (low)");
        check_from(n, DiagnosticStatus::Warning, d)
    } else {
        push_decimal(&mut d, kb / 1024);
        push_str(&mut d, " MB available (critically low)");
        check_from(n, DiagnosticStatus::Error, d)
    }
}

// ---------------------------------------------------------------------------
// Suggestions
// ---------------------------------------------------------------------------

/// The suggestions after the checks, in order: install macFUSE when it is
/// missing, create a config when there is none, clean up stale mounts,
/// free disk space when it is low.
pub open spec fn suggestions_spec(
    macfuse: DiagnosticStatus,
    config: DiagnosticStatus,
    stale_count: usize,
    disk: DiagnosticStatus,
) -> Seq<Seq<char>> {
    (if macfuse == DiagnosticStatus::Error {
        seq!["Install macFUSE: brew install --cask macfuse"@]
    } else {
        Seq::empty()
    }) + (if config == DiagnosticStatus::Warning {
        seq!["Create config: git treebeard config edit"@]
    } else {
        Seq::empty()
    }) + (if stale_count > 0 {
        seq!["Run 'git treebeard cleanup --stale' to remove stale mounts"@]
    } else {
        Seq::empty()
    }) + (if disk == DiagnosticStatus::Warning {
        seq!["Free up disk space to ensure treebeard can create worktrees"@]
    } else {
        Seq::empty()
    })
}

/// The suggestions after the checks.
pub fn doctor_suggestions(
    macfuse: DiagnosticStatus,
    config: DiagnosticStatus,
    stale_count: usize,
    disk: DiagnosticStatus,
) -> (r: Vec<String>)
    ensures
        crate::config::string_views(r@) == suggestions_spec(macfuse, config, stale_count, disk),
{
    let mut v: Vec<String> = Vec::new();
    if macfuse == DiagnosticStatus::Error {
        v.push(String::from_str("Install macFUSE: brew install --cask macfuse"));
    }
    let ghost a = crate::config::string_views(v@);
    if config == DiagnosticStatus::Warning {
        v.push(String::from_str("Create config: git treebeard config edit"));
    }
    let ghost b = crate::config::string_views(v@);
    if stale_count > 0 {
        v.push(String::from_str("Run 'git treebeard cleanup --stale' to remove stale mounts"));
    }
    let ghost c = crate::config::string_views(v@);
    if disk == DiagnosticStatus::Warning {
        v.push(String::from_str("Free up disk space to ensure treebeard can create worktrees"));
    }
    assert(crate::config::string_views(v@) =~= suggestions_spec(macfuse, config, stale_count, disk));
    v
}

} // verus!
