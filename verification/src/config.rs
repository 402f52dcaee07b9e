//! Configuration: its schema, defaults, merging of user and project
//! configuration, and the paths it names.
//!
//! Reading and writing the TOML files, and looking up `HOME` and the config
//! directory, are the caller's part; the values are handed in here.
use vstd::prelude::*;

use crate::error::TreebeardError;
use crate::path::{
    components, cur_comp, join, parent_comp, path_components, path_join, path_starts_with,
    path_starts_with_spec, render, render_path, root_comp, views,
};
use crate::text::{
    chars_eq, concat_strs, concat_views, decimal, parse_u64, parse_u64_spec, spec_to_lowercase,
    split_at_char, split_char, str_eq, str_to_chars, to_lowercase, trim, trim_str, trim_vec,
    u64_to_string,
};
use vstd::string::StringExecFns;

verus! {

// ---------------------------------------------------------------------------
// Enumerations
// ---------------------------------------------------------------------------

/// What to do with the auto-commits when a session ends.
#[derive(Debug, Clone, Copy, PartialEq, Eq)]
pub enum OnExitBehavior {
    Squash,
    Keep,
    Prompt,
}

impl Default for OnExitBehavior {
    fn default() -> (r: Self)
        ensures
            r == OnExitBehavior::Prompt,
    {
        OnExitBehavior::Prompt
    }
}

impl OnExitBehavior {
    /// The lowercase name of the behavior.
    pub open spec fn name(self) -> Seq<char> {
        match self {
            OnExitBehavior::Squash => "squash"@,
            OnExitBehavior::Keep => "keep"@,
            OnExitBehavior::Prompt => "prompt"@,
        }
    }

    /// The lowercase name of the behavior (what it displays as).
    pub fn as_str(&self) -> (r: &'static str)
        ensures
            r@ == self.name(),
    {
        match self {
            OnExitBehavior::Squash => "squash",
            OnExitBehavior::Keep => "keep",
            OnExitBehavior::Prompt => "prompt",
        }
    }

    /// The behavior named by an already lowercased text; `original` is the
    /// text as the user wrote it, quoted in the error.
    pub open spec fn from_lowercase_spec(lower: Seq<char>, original: Seq<char>) -> Result<
        OnExitBehavior,
        Seq<char>,
    > {
        if lower == "squash"@ {
            Ok(OnExitBehavior::Squash)
        } else if lower == "keep"@ {
            Ok(OnExitBehavior::Keep)
        } else if lower == "prompt"@ {
            Ok(OnExitBehavior::Prompt)
        } else {
            Err("Invalid on_exit value '"@ + original + "'. Must be one of: squash, keep, prompt"@)
        }
    }

    /// Reads a behavior from its lowercased name.
    pub fn from_lowercase(lower: &str, original: &str) -> (r: Result<OnExitBehavior, String>)
        ensures
            r matches Ok(b) ==> Self::from_lowercase_spec(lower@, original@) == Ok::<
                OnExitBehavior,
                Seq<char>,
            >(b),
            r matches Err(e) ==> Self::from_lowercase_spec(lower@, original@) == Err::<
                OnExitBehavior,
                Seq<char>,
            >(e@),
    {
        if str_eq(lower, "squash") {
            Ok(OnExitBehavior::Squash)
        } else if str_eq(lower, "keep") {
            Ok(OnExitBehavior::Keep)
        } else if str_eq(lower, "prompt") {
            Ok(OnExitBehavior::Prompt)
        } else {
            let parts = [
                "Invalid on_exit value '",
                original,
                "'. Must be one of: squash, keep, prompt",
            ];
            let m = concat_strs(&parts);
            proof {
                reveal_with_fuel(concat_views, 4);
                assert(parts@.drop_last().drop_last().drop_last() =~= Seq::<&str>::empty());
            }
            Err(m)
        }
    }

    /// Parses a behavior name, case-insensitively (`FromStr`).
    pub fn from_str(s: &str) -> (r: Result<OnExitBehavior, String>)
        ensures
            r matches Ok(b) ==> Self::from_lowercase_spec(spec_to_lowercase(s@), s@) == Ok::<
                OnExitBehavior,
                Seq<char>,
            >(b),
            r matches Err(e) ==> Self::from_lowercase_spec(spec_to_lowercase(s@), s@) == Err::<
                OnExitBehavior,
                Seq<char>,
            >(e@),
    {
        let lower = to_lowercase(s);
        Self::from_lowercase(lower.as_str(), s)
    }
}

/// Network access mode for sandboxed subprocesses.
#[derive(Debug, Clone, Copy, PartialEq, Eq)]
pub enum NetworkMode {
    /// No network restrictions (default)
    Allow,
    /// Only localhost connections plus allow_hosts
    Localhost,
    /// Block all network except allow_hosts
    Deny,
}

impl Default for NetworkMode {
    fn default() -> (r: Self)
        ensures
            r == NetworkMode::Allow,
    {
        NetworkMode::Allow
    }
}

impl NetworkMode {
    /// The lowercase name of the mode (what it displays as).
    pub fn as_str(&self) -> (r: &'static str)
        ensures
            *self == NetworkMode::Allow ==> r@ == "allow"@,
            *self == NetworkMode::Localhost ==> r@ == "localhost"@,
            *self == NetworkMode::Deny ==> r@ == "deny"@,
    {
        match self {
            NetworkMode::Allow => "allow",
            NetworkMode::Localhost => "localhost",
            NetworkMode::Deny => "deny",
        }
    }
}

// ---------------------------------------------------------------------------
// Schema
// ---------------------------------------------------------------------------

/// Where worktrees and mounts live, and which paths bypass the overlay.
#[derive(Debug, Clone)]
pub struct PathsConfig {
    pub worktree_dir: Option<String>,
    pub mount_dir: Option<String>,
    pub passthrough: Option<Vec<String>>,
}

/// Messages of automatic commits.
#[derive(Debug, Clone)]
pub struct CommitConfig {
    pub auto_commit_message: Option<String>,
    pub squash_commit_message: Option<String>,
}

/// Patterns that decide what is offered for syncing back.
#[derive(Debug, Clone)]
pub struct SyncConfig {
    pub sync_always_skip: Option<Vec<String>>,
    pub sync_always_include: Option<Vec<String>>,
}

/// What happens at the end of a session.
#[derive(Debug, Clone)]
pub struct CleanupConfig {
    /// What to do on exit (`None` when not set).
    pub on_exit: Option<OnExitBehavior>,
}

/// Shell commands run at lifecycle events.
#[derive(Debug, Clone)]
pub struct HooksConfig {
    /// Commands to run after worktree and mount are created (`None` when
    /// not set).
    pub post_create: Option<Vec<String>>,
    /// Commands to run before cleanup starts (`None` when not set).
    pub pre_cleanup: Option<Vec<String>>,
    /// Commands to run after successful cleanup (`None` when not set).
    pub post_cleanup: Option<Vec<String>>,
    /// Command whose output becomes the message of an auto-commit.
    pub commit_message: Option<String>,
}

/// Lower bound below which the debounce time draws a warning.
pub const MIN_DEBOUNCE_MS: u64 = 50;

/// Upper bound above which the debounce time draws a warning.
pub const MAX_DEBOUNCE_MS: u64 = 60000;

/// Debounce time used when none is configured.
pub const DEFAULT_DEBOUNCE_MS: u64 = 5000;

/// Timing of automatic commits.
#[derive(Debug, Clone)]
pub struct AutoCommitTimingConfig {
    pub auto_commit_debounce_ms: Option<u64>,
}

/// Network configuration of the sandbox.
#[derive(Debug, Clone)]
pub struct SandboxNetworkConfig {
    /// Network access mode
    pub mode: NetworkMode,
    /// Hosts to allow when mode is "localhost" or "deny"
    pub allow_hosts: Vec<String>,
}

/// Configuration of the macOS sandbox around subprocesses.
#[derive(Debug, Clone)]
pub struct SandboxConfig {
    /// Master switch for sandboxing
    pub enabled: bool,
    /// Paths to deny reading (`~` is expanded)
    pub deny_read: Vec<String>,
    /// Additional paths to allow writing (`~` is expanded)
    pub allow_write: Vec<String>,
    /// Network configuration
    pub network: SandboxNetworkConfig,
}

/// The whole configuration.
#[derive(Debug, Clone)]
pub struct Config {
    pub paths: PathsConfig,
    pub commit: CommitConfig,
    pub sync: SyncConfig,
    pub cleanup: CleanupConfig,
    pub auto_commit_timing: AutoCommitTimingConfig,
    pub hooks: HooksConfig,
    pub fuse_ttl_secs: Option<u64>,
    /// The sandbox section (`None` when the file has none); a section that
    /// is given replaces the one below it as a whole.
    pub sandbox: Option<SandboxConfig>,
}

// ---------------------------------------------------------------------------
// Defaults
// ---------------------------------------------------------------------------

/// A copy of a list of strings.
pub fn clone_strings(v: &Vec<String>) -> (r: Vec<String>)
    ensures
        r@ == v@,
{
    let mut r: Vec<String> = Vec::new();
    let mut i: usize = 0;
    while i < v.len()
        invariant
            i <= v.len(),
            r@ == v@.take(i as int),
        decreases v.len() - i,
    {
        r.push(v[i].clone());
        i = i + 1;
        assert(v@.take(i as int) =~= v@.take(i - 1).push(v@[i - 1]));
    }
    assert(v@.take(v.len() as int) =~= v@);
    r
}

/// The views of a list of strings.
pub open spec fn string_views(v: Seq<String>) -> Seq<Seq<char>> {
    v.map_values(|s: String| s@)
}

pub fn default_worktree_dir() -> (r: String)
    ensures
        r@ == "~/.local/share/treebeard/worktrees"@,
{
    String::from_str("~/.local/share/treebeard/worktrees")
}

pub fn default_mount_dir() -> (r: String)
    ensures
        r@ == "~/.local/share/treebeard/mounts"@,
{
    String::from_str("~/.local/share/treebeard/mounts")
}

pub fn default_passthrough() -> (r: Vec<String>)
    ensures
        r@.len() == 0,
{
    Vec::new()
}

pub fn default_auto_commit_message() -> (r: String)
    ensures
        r@ == "treebeard: auto-save"@,
{
    String::from_str("treebeard: auto-save")
}

pub fn default_squash_commit_message() -> (r: String)
    ensures
        r@ == "treebeard: {branch}"@,
{
    String::from_str("treebeard: {branch}")
}

pub fn default_sync_always_skip() -> (r: Vec<String>)
    ensures
        r@.len() == 0,
{
    Vec::new()
}

pub fn default_sync_always_include() -> (r: Vec<String>)
    ensures
        r@.len() == 0,
{
    Vec::new()
}

pub fn default_fuse_ttl_secs() -> (r: u64)
    ensures
        r == 1,
{
    1
}

/// Sandboxing is on by default exactly on macOS.
pub fn default_sandbox_enabled(is_macos: bool) -> (r: bool)
    ensures
        r == is_macos,
{
    is_macos
}

/// The paths whose reading the sandbox denies by default.
pub open spec fn default_deny_read_spec() -> Seq<Seq<char>> {
    seq![
        "~/.ssh"@,
        "~/.aws"@,
        "~/.gnupg"@,
        "~/.config/gh"@,
        "~/Documents"@,
        "~/Pictures"@,
        "~/Desktop"@,
    ]
}

pub fn default_deny_read() -> (r: Vec<String>)
    ensures
        string_views(r@) == default_deny_read_spec(),
{
    let mut v: Vec<String> = Vec::new();
    v.push(String::from_str("~/.ssh"));
    v.push(String::from_str("~/.aws"));
    v.push(String::from_str("~/.gnupg"));
    v.push(String::from_str("~/.config/gh"));
    v.push(String::from_str("~/Documents"));
    v.push(String::from_str("~/Pictures"));
    v.push(String::from_str("~/Desktop"));
    assert(string_views(v@) =~= default_deny_read_spec());
    v
}

impl Default for PathsConfig {
    fn default() -> (r: Self)
        ensures
            r.worktree_dir is None && r.mount_dir is None && r.passthrough is None,
    {
        PathsConfig { worktree_dir: None, mount_dir: None, passthrough: None }
    }
}

impl Default for CommitConfig {
    fn default() -> (r: Self)
        ensures
            r.auto_commit_message is None && r.squash_commit_message is None,
    {
        CommitConfig { auto_commit_message: None, squash_commit_message: None }
    }
}

impl Default for SyncConfig {
    fn default() -> (r: Self)
        ensures
            r.sync_always_skip is None && r.sync_always_include is None,
    {
        SyncConfig { sync_always_skip: None, sync_always_include: None }
    }
}

impl Default for CleanupConfig {
    /// The built-in setting: prompt on exit.
    fn default() -> (r: Self)
        ensures
            r.on_exit == Some(OnExitBehavior::Prompt),
    {
        CleanupConfig { on_exit: Some(OnExitBehavior::Prompt) }
    }
}

/// An empty, set list of commands.
pub open spec fn set_empty(v: Option<Vec<String>>) -> bool {
    v matches Some(l) && l@.len() == 0
}

impl Default for HooksConfig {
    /// The built-in settings: no lifecycle hooks, no commit-message hook.
    fn default() -> (r: Self)
        ensures
            set_empty(r.post_create) && set_empty(r.pre_cleanup) && set_empty(r.post_cleanup)
                && r.commit_message is None,
    {
        HooksConfig {
            post_create: Some(Vec::new()),
            pre_cleanup: Some(Vec::new()),
            post_cleanup: Some(Vec::new()),
            commit_message: None,
        }
    }
}

impl Default for AutoCommitTimingConfig {
    fn default() -> (r: Self)
        ensures
            r.auto_commit_debounce_ms is None,
    {
        AutoCommitTimingConfig { auto_commit_debounce_ms: None }
    }
}

impl Default for SandboxNetworkConfig {
    fn default() -> (r: Self)
        ensures
            r.mode == NetworkMode::Allow && r.allow_hosts@.len() == 0,
    {
        SandboxNetworkConfig { mode: NetworkMode::Allow, allow_hosts: Vec::new() }
    }
}

/// Two sandbox sections hold the same settings.
pub open spec fn same_sandbox(a: SandboxConfig, b: SandboxConfig) -> bool {
    &&& a.enabled == b.enabled
    &&& a.deny_read@ == b.deny_read@
    &&& a.allow_write@ == b.allow_write@
    &&& a.network.mode == b.network.mode
    &&& a.network.allow_hosts@ == b.network.allow_hosts@
}

impl SandboxConfig {
    /// A copy with the same settings.
    pub fn duplicate(&self) -> (r: Self)
        ensures
            same_sandbox(r, *self),
    {
        SandboxConfig {
            enabled: self.enabled,
            deny_read: clone_strings(&self.deny_read),
            allow_write: clone_strings(&self.allow_write),
            network: SandboxNetworkConfig {
                mode: self.network.mode,
                allow_hosts: clone_strings(&self.network.allow_hosts),
            },
        }
    }

    /// The default sandbox configuration on a platform: enabled exactly on
    /// macOS, the default read denials, no extra write paths, no network
    /// restriction.
    pub fn default_for(is_macos: bool) -> (r: Self)
        ensures
            r.enabled == is_macos,
            string_views(r.deny_read@) == default_deny_read_spec(),
            r.allow_write@.len() == 0,
            r.network.mode == NetworkMode::Allow,
            r.network.allow_hosts@.len() == 0,
    {
        SandboxConfig {
            enabled: default_sandbox_enabled(is_macos),
            deny_read: default_deny_read(),
            allow_write: Vec::new(),
            network: SandboxNetworkConfig::default(),
        }
    }
}

impl Config {
    /// The built-in configuration on a platform: nothing set, sandbox as
    /// `SandboxConfig::default_for` gives it.
    pub fn default_for(is_macos: bool) -> (r: Self)
        ensures
            r.paths.worktree_dir is None && r.paths.mount_dir is None && r.paths.passthrough is None,
            r.commit.auto_commit_message is None && r.commit.squash_commit_message is None,
            r.sync.sync_always_skip is None && r.sync.sync_always_include is None,
            r.cleanup.on_exit == Some(OnExitBehavior::Prompt),
            r.auto_commit_timing.auto_commit_debounce_ms is None,
            set_empty(r.hooks.post_create) && set_empty(r.hooks.pre_cleanup) && set_empty(
                r.hooks.post_cleanup,
            ) && r.hooks.commit_message is None,
            r.fuse_ttl_secs is None,
            r.sandbox matches Some(sb) && {
                &&& sb.enabled == is_macos
                &&& string_views(sb.deny_read@) == default_deny_read_spec()
                &&& sb.allow_write@.len() == 0
                &&& sb.network.mode == NetworkMode::Allow
                &&& sb.network.allow_hosts@.len() == 0
            },
    {
        Config {
            paths: PathsConfig::default(),
            commit: CommitConfig::default(),
            sync: SyncConfig::default(),
            cleanup: CleanupConfig::default(),
            auto_commit_timing: AutoCommitTimingConfig::default(),
            hooks: HooksConfig::default(),
            fuse_ttl_secs: None,
            sandbox: Some(SandboxConfig::default_for(is_macos)),
        }
    }

    /// The sandbox section in effect: the configured one, else the
    /// platform's default.
    pub fn get_sandbox(&self, is_macos: bool) -> (r: SandboxConfig)
        ensures
            self.sandbox matches Some(sb) ==> same_sandbox(r, sb),
            self.sandbox is None ==> ({
                &&& r.enabled == is_macos
                &&& string_views(r.deny_read@) == default_deny_read_spec()
                &&& r.allow_write@.len() == 0
                &&& r.network.mode == NetworkMode::Allow
                &&& r.network.allow_hosts@.len() == 0
            }),
    {
        match &self.sandbox {
            Some(sb) => sb.duplicate(),
            None => SandboxConfig::default_for(is_macos),
        }
    }

    /// The FUSE attribute cache time, 1 second unless configured.
    pub fn get_fuse_ttl_secs(&self) -> (r: u64)
        ensures
            r == match self.fuse_ttl_secs {
                Some(t) => t,
                None => 1,
            },
    {
        match self.fuse_ttl_secs {
            Some(t) => t,
            None => default_fuse_ttl_secs(),
        }
    }
}

/// A configured text, or the given default.
pub open spec fn text_or(v: Option<String>, default: Seq<char>) -> Seq<char> {
    match v {
        Some(s) => s@,
        None => default,
    }
}

/// A configured list, or the empty list.
pub open spec fn list_or_empty(v: Option<Vec<String>>) -> Seq<String> {
    match v {
        Some(l) => l@,
        None => Seq::empty(),
    }
}

fn clone_opt_list_or_empty(v: &Option<Vec<String>>) -> (r: Vec<String>)
    ensures
        r@ == list_or_empty(*v),
{
    match v {
        Some(l) => clone_strings(l),
        None => Vec::new(),
    }
}

impl PathsConfig {
    pub fn get_worktree_dir(&self) -> (r: String)
        ensures
            r@ == text_or(self.worktree_dir, "~/.local/share/treebeard/worktrees"@),
    {
        match &self.worktree_dir {
            Some(d) => d.clone(),
            None => default_worktree_dir(),
        }
    }

    pub fn get_mount_dir(&self) -> (r: String)
        ensures
            r@ == text_or(self.mount_dir, "~/.local/share/treebeard/mounts"@),
    {
        match &self.mount_dir {
            Some(d) => d.clone(),
            None => default_mount_dir(),
        }
    }

    pub fn get_passthrough(&self) -> (r: Vec<String>)
        ensures
            r@ == list_or_empty(self.passthrough),
    {
        clone_opt_list_or_empty(&self.passthrough)
    }
}

impl CommitConfig {
    pub fn get_auto_commit_message(&self) -> (r: String)
        ensures
            r@ == text_or(self.auto_commit_message, "treebeard: auto-save"@),
    {
        match &self.auto_commit_message {
            Some(m) => m.clone(),
            None => default_auto_commit_message(),
        }
    }

    pub fn get_squash_commit_message(&self) -> (r: String)
        ensures
            r@ == text_or(self.squash_commit_message, "treebeard: {branch}"@),
    {
        match &self.squash_commit_message {
            Some(m) => m.clone(),
            None => default_squash_commit_message(),
        }
    }
}

impl SyncConfig {
    pub fn get_sync_always_skip(&self) -> (r: Vec<String>)
        ensures
            r@ == list_or_empty(self.sync_always_skip),
    {
        clone_opt_list_or_empty(&self.sync_always_skip)
    }

    pub fn get_sync_always_include(&self) -> (r: Vec<String>)
        ensures
            r@ == list_or_empty(self.sync_always_include),
    {
        clone_opt_list_or_empty(&self.sync_always_include)
    }
}

/// The exit behavior in effect: the configured one, else prompting.
pub open spec fn on_exit_or_prompt(v: Option<OnExitBehavior>) -> OnExitBehavior {
    match v {
        Some(b) => b,
        None => OnExitBehavior::Prompt,
    }
}

impl CleanupConfig {
    pub fn get_on_exit(&self) -> (r: OnExitBehavior)
        ensures
            r == on_exit_or_prompt(self.on_exit),
    {
        match self.on_exit {
            Some(b) => b,
            None => OnExitBehavior::Prompt,
        }
    }
}

impl HooksConfig {
    pub fn get_post_create(&self) -> (r: Vec<String>)
        ensures
            r@ == list_or_empty(self.post_create),
    {
        clone_opt_list_or_empty(&self.post_create)
    }

    pub fn get_pre_cleanup(&self) -> (r: Vec<String>)
        ensures
            r@ == list_or_empty(self.pre_cleanup),
    {
        clone_opt_list_or_empty(&self.pre_cleanup)
    }

    pub fn get_post_cleanup(&self) -> (r: Vec<String>)
        ensures
            r@ == list_or_empty(self.post_cleanup),
    {
        clone_opt_list_or_empty(&self.post_cleanup)
    }
}

impl AutoCommitTimingConfig {
    pub fn get_debounce_ms(&self) -> (r: u64)
        ensures
            r == match self.auto_commit_debounce_ms {
                Some(m) => m,
                None => DEFAULT_DEBOUNCE_MS,
            },
    {
        match self.auto_commit_debounce_ms {
            Some(m) => m,
            None => DEFAULT_DEBOUNCE_MS,
        }
    }
}

// ---------------------------------------------------------------------------
// Merging user and project configuration
// ---------------------------------------------------------------------------

/// The first of two optional values that is set.
pub open spec fn or_else<T>(first: Option<T>, second: Option<T>) -> Option<T> {
    match first {
        Some(v) => Some(v),
        None => second,
    }
}

fn take_or<T>(first: Option<T>, second: Option<T>) -> (r: Option<T>)
    ensures
        r == or_else(first, second),
{
    match first {
        Some(v) => Some(v),
        None => second,
    }
}

/// The configuration that results from laying `overlay` (the project's)
/// over `base` (the user's): every setting comes from the overlay when it
/// sets it and from the base otherwise (the sandbox section as a whole).
pub open spec fn merge_spec(base: Config, overlay: Config) -> Config {
    Config {
        paths: PathsConfig {
            worktree_dir: or_else(overlay.paths.worktree_dir, base.paths.worktree_dir),
            mount_dir: or_else(overlay.paths.mount_dir, base.paths.mount_dir),
            passthrough: or_else(overlay.paths.passthrough, base.paths.passthrough),
        },
        commit: CommitConfig {
            auto_commit_message: or_else(
                overlay.commit.auto_commit_message,
                base.commit.auto_commit_message,
            ),
            squash_commit_message: or_else(
                overlay.commit.squash_commit_message,
                base.commit.squash_commit_message,
            ),
        },
        sync: SyncConfig {
            sync_always_skip: or_else(overlay.sync.sync_always_skip, base.sync.sync_always_skip),
            sync_always_include: or_else(
                overlay.sync.sync_always_include,
                base.sync.sync_always_include,
            ),
        },
        cleanup: CleanupConfig { on_exit: or_else(overlay.cleanup.on_exit, base.cleanup.on_exit) },
        auto_commit_timing: AutoCommitTimingConfig {
            auto_commit_debounce_ms: or_else(
                overlay.auto_commit_timing.auto_commit_debounce_ms,
                base.auto_commit_timing.auto_commit_debounce_ms,
            ),
        },
        hooks: HooksConfig {
            post_create: or_else(overlay.hooks.post_create, base.hooks.post_create),
            pre_cleanup: or_else(overlay.hooks.pre_cleanup, base.hooks.pre_cleanup),
            post_cleanup: or_else(overlay.hooks.post_cleanup, base.hooks.post_cleanup),
            commit_message: or_else(overlay.hooks.commit_message, base.hooks.commit_message),
        },
        fuse_ttl_secs: or_else(overlay.fuse_ttl_secs, base.fuse_ttl_secs),
        sandbox: or_else(overlay.sandbox, base.sandbox),
    }
}

/// Lays the project configuration over the user configuration.
pub fn merge_configs(base: Config, overlay: Config) -> (r: Config)
    ensures
        r == merge_spec(base, overlay),
{
    Config {
        paths: PathsConfig {
            worktree_dir: take_or(overlay.paths.worktree_dir, base.paths.worktree_dir),
            mount_dir: take_or(overlay.paths.mount_dir, base.paths.mount_dir),
            passthrough: take_or(overlay.paths.passthrough, base.paths.passthrough),
        },
        commit: CommitConfig {
            auto_commit_message: take_or(
                overlay.commit.auto_commit_message,
                base.commit.auto_commit_message,
            ),
            squash_commit_message: take_or(
                overlay.commit.squash_commit_message,
                base.commit.squash_commit_message,
            ),
        },
        sync: SyncConfig {
            sync_always_skip: take_or(overlay.sync.sync_always_skip, base.sync.sync_always_skip),
            sync_always_include: take_or(
                overlay.sync.sync_always_include,
                base.sync.sync_always_include,
            ),
        },
        cleanup: CleanupConfig { on_exit: take_or(overlay.cleanup.on_exit, base.cleanup.on_exit) },
        auto_commit_timing: AutoCommitTimingConfig {
            auto_commit_debounce_ms: take_or(
                overlay.auto_commit_timing.auto_commit_debounce_ms,
                base.auto_commit_timing.auto_commit_debounce_ms,
            ),
        },
        hooks: HooksConfig {
            post_create: take_or(overlay.hooks.post_create, base.hooks.post_create),
            pre_cleanup: take_or(overlay.hooks.pre_cleanup, base.hooks.pre_cleanup),
            post_cleanup: take_or(overlay.hooks.post_cleanup, base.hooks.post_cleanup),
            commit_message: take_or(overlay.hooks.commit_message, base.hooks.commit_message),
        },
        fuse_ttl_secs: take_or(overlay.fuse_ttl_secs, base.fuse_ttl_secs),
        sandbox: take_or(overlay.sandbox, base.sandbox),
    }
}

/// Merging is associative: laying `c` over `b` and the result over `a` gives the same
/// configuration as laying `c` over the result of laying `b` over `a`.
pub proof fn lemma_merge_associative(a: Config, b: Config, c: Config)
    ensures
        merge_spec(merge_spec(a, b), c) == merge_spec(a, merge_spec(b, c)),
{
}

/// A project configuration that sets nothing leaves the user's
/// configuration as it was.
pub proof fn lemma_merge_unset_overlay_keeps_base(base: Config, overlay: Config)
    requires
        overlay.paths.worktree_dir is None,
        overlay.paths.mount_dir is None,
        overlay.paths.passthrough is None,
        overlay.commit.auto_commit_message is None,
        overlay.commit.squash_commit_message is None,
        overlay.sync.sync_always_skip is None,
        overlay.sync.sync_always_include is None,
        overlay.auto_commit_timing.auto_commit_debounce_ms is None,
        overlay.hooks.commit_message is None,
        overlay.fuse_ttl_secs is None,
        overlay.cleanup.on_exit is None,
        overlay.hooks.post_create is None,
        overlay.hooks.pre_cleanup is None,
        overlay.hooks.post_cleanup is None,
        overlay.sandbox is None,
    ensures
        merge_spec(base, overlay) == base,
{
}

/// Every setting the project configuration makes wins over the user's.
pub proof fn lemma_merge_overlay_wins(base: Config, overlay: Config)
    ensures
        overlay.paths.worktree_dir is Some ==> merge_spec(base, overlay).paths.worktree_dir
            == overlay.paths.worktree_dir,
        overlay.paths.mount_dir is Some ==> merge_spec(base, overlay).paths.mount_dir
            == overlay.paths.mount_dir,
        overlay.commit.auto_commit_message is Some ==> merge_spec(
            base,
            overlay,
        ).commit.auto_commit_message == overlay.commit.auto_commit_message,
        overlay.fuse_ttl_secs is Some ==> merge_spec(base, overlay).fuse_ttl_secs
            == overlay.fuse_ttl_secs,
        overlay.paths.passthrough is Some ==> merge_spec(base, overlay).paths.passthrough
            == overlay.paths.passthrough,
        overlay.commit.squash_commit_message is Some ==> merge_spec(
            base,
            overlay,
        ).commit.squash_commit_message == overlay.commit.squash_commit_message,
        overlay.sync.sync_always_skip is Some ==> merge_spec(base, overlay).sync.sync_always_skip
            == overlay.sync.sync_always_skip,
        overlay.sync.sync_always_include is Some ==> merge_spec(
            base,
            overlay,
        ).sync.sync_always_include == overlay.sync.sync_always_include,
        overlay.auto_commit_timing.auto_commit_debounce_ms is Some ==> merge_spec(
            base,
            overlay,
        ).auto_commit_timing.auto_commit_debounce_ms
            == overlay.auto_commit_timing.auto_commit_debounce_ms,
        overlay.hooks.commit_message is Some ==> merge_spec(base, overlay).hooks.commit_message
            == overlay.hooks.commit_message,
        overlay.cleanup.on_exit is Some ==> merge_spec(base, overlay).cleanup.on_exit
            == overlay.cleanup.on_exit,
        overlay.hooks.post_create is Some ==> merge_spec(base, overlay).hooks.post_create
            == overlay.hooks.post_create,
        overlay.hooks.pre_cleanup is Some ==> merge_spec(base, overlay).hooks.pre_cleanup
            == overlay.hooks.pre_cleanup,
        overlay.hooks.post_cleanup is Some ==> merge_spec(base, overlay).hooks.post_cleanup
            == overlay.hooks.post_cleanup,
        overlay.sandbox is Some ==> merge_spec(base, overlay).sandbox == overlay.sandbox,
{
}

/// A setting the project configuration leaves out keeps the user's value.
pub proof fn lemma_merge_unset_keeps_user_setting(base: Config, overlay: Config)
    ensures
        overlay.cleanup.on_exit is None ==> merge_spec(base, overlay).cleanup.on_exit
            == base.cleanup.on_exit,
        overlay.hooks.post_create is None ==> merge_spec(base, overlay).hooks.post_create
            == base.hooks.post_create,
        overlay.hooks.pre_cleanup is None ==> merge_spec(base, overlay).hooks.pre_cleanup
            == base.hooks.pre_cleanup,
        overlay.hooks.post_cleanup is None ==> merge_spec(base, overlay).hooks.post_cleanup
            == base.hooks.post_cleanup,
        overlay.sandbox is None ==> merge_spec(base, overlay).sandbox == base.sandbox,
        overlay.paths.worktree_dir is None ==> merge_spec(base, overlay).paths.worktree_dir
            == base.paths.worktree_dir,
        overlay.paths.mount_dir is None ==> merge_spec(base, overlay).paths.mount_dir
            == base.paths.mount_dir,
        overlay.paths.passthrough is None ==> merge_spec(base, overlay).paths.passthrough
            == base.paths.passthrough,
        overlay.commit.auto_commit_message is None ==> merge_spec(
            base,
            overlay,
        ).commit.auto_commit_message == base.commit.auto_commit_message,
        overlay.commit.squash_commit_message is None ==> merge_spec(
            base,
            overlay,
        ).commit.squash_commit_message == base.commit.squash_commit_message,
        overlay.sync.sync_always_skip is None ==> merge_spec(base, overlay).sync.sync_always_skip
            == base.sync.sync_always_skip,
        overlay.sync.sync_always_include is None ==> merge_spec(
            base,
            overlay,
        ).sync.sync_always_include == base.sync.sync_always_include,
        overlay.auto_commit_timing.auto_commit_debounce_ms is None ==> merge_spec(
            base,
            overlay,
        ).auto_commit_timing.auto_commit_debounce_ms
            == base.auto_commit_timing.auto_commit_debounce_ms,
        overlay.hooks.commit_message is None ==> merge_spec(base, overlay).hooks.commit_message
            == base.hooks.commit_message,
        overlay.fuse_ttl_secs is None ==> merge_spec(base, overlay).fuse_ttl_secs
            == base.fuse_ttl_secs,
{
}

// ---------------------------------------------------------------------------
// Validation
// ---------------------------------------------------------------------------

/// The warnings that the debounce time draws.
pub open spec fn debounce_warnings(ms: u64) -> Seq<Seq<char>> {
    let low: Seq<Seq<char>> = if ms < MIN_DEBOUNCE_MS {
        seq![
            "Warning: auto_commit_debounce_ms ("@ + decimal(ms as nat)
                + ") is below recommended minimum of 50ms. This may cause excessive commits on every change."@,
        ]
    } else {
        Seq::empty()
    };
    let high: Seq<Seq<char>> = if ms > MAX_DEBOUNCE_MS {
        seq![
            "Warning: auto_commit_debounce_ms ("@ + decimal(ms as nat)
                + ") is above recommended maximum of 60000ms. Auto-commit will be significantly delayed."@,
        ]
    } else {
        Seq::empty()
    };
    low + high
}

/// Checks a configuration. The configuration is always accepted; what this
/// returns are the warnings to show (the debounce time out of its
/// recommended range).
pub fn validate_config(config: &Config) -> (r: Vec<String>)
    ensures
        string_views(r@) == debounce_warnings(config.auto_commit_timing.get_debounce_ms_spec()),
{
    let ms = config.auto_commit_timing.get_debounce_ms();
    let mut out: Vec<String> = Vec::new();
    let n = u64_to_string(ms);
    if ms < MIN_DEBOUNCE_MS {
        let parts = [
            "Warning: auto_commit_debounce_ms (",
            n.as_str(),
            ") is below recommended minimum of 50ms. This may cause excessive commits on every change.",
        ];
        let m = concat_strs(&parts);
        proof {
            reveal_with_fuel(concat_views, 4);
            assert(parts@.drop_last().drop_last().drop_last() =~= Seq::<&str>::empty());
        }
        out.push(m);
    }
    if ms > MAX_DEBOUNCE_MS {
        let parts = [
            "Warning: auto_commit_debounce_ms (",
            n.as_str(),
            ") is above recommended maximum of 60000ms. Auto-commit will be significantly delayed.",
        ];
        let m = concat_strs(&parts);
        proof {
            reveal_with_fuel(concat_views, 4);
            assert(parts@.drop_last().drop_last().drop_last() =~= Seq::<&str>::empty());
        }
        out.push(m);
    }
    assert(string_views(out@) =~= debounce_warnings(ms));
    out
}

impl AutoCommitTimingConfig {
    /// The debounce time in effect.
    pub open spec fn get_debounce_ms_spec(&self) -> u64 {
        match self.auto_commit_debounce_ms {
            Some(m) => m,
            None => DEFAULT_DEBOUNCE_MS,
        }
    }
}

// ---------------------------------------------------------------------------
// Paths named in the configuration
// ---------------------------------------------------------------------------

/// The error text for a `.` component.
pub open spec fn cur_dir_error_text() -> Seq<char> {
    "Invalid path: contains '.' component"@
}

/// The error text for a `..` that climbs above the start.
pub open spec fn escape_error_text() -> Seq<char> {
    "Invalid path: attempts to escape root directory with ../"@
}

/// Folding the components of a path into a normal form, as `normalize_path`
/// does with a `PathBuf`: the root restarts the path, a name is pushed, `..`
/// pops a name (and fails when there is none), `.` fails.
pub open spec fn normalize_fold(cs: Seq<Seq<char>>) -> Result<(bool, Seq<Seq<char>>), Seq<char>>
    decreases cs.len(),
{
    if cs.len() == 0 {
        Ok((false, Seq::empty()))
    } else {
        match normalize_fold(cs.drop_last()) {
            Err(e) => Err(e),
            Ok((absolute, parts)) => {
                let c = cs.last();
                if c == cur_comp() {
                    Err(cur_dir_error_text())
                } else if c == parent_comp() {
                    if parts.len() == 0 {
                        Err(escape_error_text())
                    } else {
                        Ok((absolute, parts.drop_last()))
                    }
                } else if c == root_comp() {
                    Ok((true, Seq::empty()))
                } else {
                    Ok((absolute, parts.push(c)))
                }
            },
        }
    }
}

/// An error in folding a prefix of the components is the error of the whole.
proof fn lemma_fold_error_persists(cs: Seq<Seq<char>>, k: int)
    requires
        0 <= k <= cs.len(),
        normalize_fold(cs.take(k)) is Err,
    ensures
        normalize_fold(cs) == normalize_fold(cs.take(k)),
    decreases cs.len() - k,
{
    if k < cs.len() {
        assert(cs.take(k + 1).drop_last() =~= cs.take(k));
        lemma_fold_error_persists(cs, k + 1);
    } else {
        assert(cs.take(k) =~= cs);
    }
}

/// What `normalize_path` gives for a path: its normal form, or the error text.
pub open spec fn normalize_spec(path: Seq<char>) -> Result<Seq<char>, Seq<char>> {
    match normalize_fold(components(path)) {
        Ok((absolute, parts)) => Ok(render(absolute, parts)),
        Err(e) => Err(e),
    }
}

/// Resolves `..` components lexically and refuses `.` components and `..`
/// that would climb above the start of the path.
pub fn normalize_path(path: &str) -> (r: Result<String, TreebeardError>)
    ensures
        r matches Ok(p) ==> normalize_spec(path@) == Ok::<Seq<char>, Seq<char>>(p@),
        r matches Err(e) ==> (e matches TreebeardError::Config(m) && normalize_spec(path@) == Err::<
            Seq<char>,
            Seq<char>,
        >(m@)),
{
    let comps = path_components(path);
    let ghost cs = components(path@);
    let mut absolute = false;
    let mut parts: Vec<Vec<char>> = Vec::new();
    let root = vec!['/'];
    let cur = vec!['.'];
    let parent = vec!['.', '.'];
    assert(root@ =~= root_comp());
    assert(cur@ =~= cur_comp());
    assert(parent@ =~= parent_comp());
    let mut i: usize = 0;
    assert(cs.take(0) =~= Seq::<Seq<char>>::empty());
    assert(views(parts@) =~= Seq::<Seq<char>>::empty());
    while i < comps.len()
        invariant
            i <= comps.len(),
            views(comps@) == cs,
            cs == components(path@),
            root@ == root_comp(),
            cur@ == cur_comp(),
            parent@ == parent_comp(),
            normalize_fold(cs.take(i as int)) == Ok::<(bool, Seq<Seq<char>>), Seq<char>>(
                (absolute, views(parts@)),
            ),
        decreases comps.len() - i,
    {
        let c = &comps[i];
        assert(cs.take(i + 1).drop_last() =~= cs.take(i as int));
        assert(cs.take(i + 1).last() == c@);
        if chars_eq(c, &cur) {
            proof {
                lemma_fold_error_persists(cs, i + 1);
            }
            return Err(TreebeardError::Config(
                String::from_str("Invalid path: contains '.' component"),
            ));
        } else if chars_eq(c, &parent) {
            if parts.len() == 0 {
                proof {
                    lemma_fold_error_persists(cs, i + 1);
                }
                return Err(TreebeardError::Config(
                    String::from_str("Invalid path: attempts to escape root directory with ../"),
                ));
            }
            let ghost before = views(parts@);
            parts.pop();
            assert(views(parts@) =~= before.drop_last());
        } else if chars_eq(c, &root) {
            absolute = true;
            parts = Vec::new();
            assert(views(parts@) =~= Seq::<Seq<char>>::empty());
        } else {
            let ghost before = views(parts@);
            let copy = crate::path::subvec_from(c, 0);
            assert(copy@ =~= c@);
            parts.push(copy);
            assert(views(parts@) =~= before.push(c@));
        }
        i = i + 1;
    }
    assert(cs.take(i as int) =~= cs);
    Ok(render_path(absolute, &parts))
}

/// What `expand_path` gives, before validation against the home directory:
/// whether the path was home-relative, and the path with `~/` expanded.
pub open spec fn expanded_path(path: Seq<char>, home: Seq<char>) -> (bool, Seq<char>) {
    let p = trim(path);
    if p.len() >= 2 && p[0] == '~' && p[1] == '/' {
        (true, join(home, p.skip(2)))
    } else {
        (false, p)
    }
}

/// The characters of an optional string.
pub open spec fn opt_view(s: Option<&str>) -> Option<Seq<char>> {
    match s {
        Some(x) => Some(x@),
        None => None,
    }
}

/// The outcome of `expand_path` for a path and the value of `HOME`.
pub open spec fn expand_path_spec(path: Seq<char>, home: Option<Seq<char>>) -> Result<
    Seq<char>,
    Seq<char>,
> {
    match home {
        None => Err("HOME environment variable not set"@),
        Some(h) => {
            let (home_relative, expanded) = expanded_path(path, h);
            match normalize_spec(expanded) {
                Err(e) => Err(e),
                Ok(n) => if path_starts_with_spec(n, h) {
                    Ok(n)
                } else if home_relative {
                    Err(
                        "Invalid path '"@ + trim(path)
                            + "': Configuration paths starting with ~ must stay within home directory ("@
                            + h + ")"@,
                    )
                } else {
                    Err(
                        "Invalid path '"@ + trim(path)
                            + "': Configuration paths must be within the home directory ("@ + h
                            + ")"@,
                    )
                },
            }
        },
    }
}

/// Expands a configured path (`~/` is the home directory), normalizes it,
/// and requires it to lie within the home directory. `home` is the value of
/// the `HOME` environment variable, if it is set.
pub fn expand_path(path: &str, home: Option<&str>) -> (r: Result<String, TreebeardError>)
    ensures
        r matches Ok(p) ==> expand_path_spec(path@, opt_view(home)) == Ok::<
            Seq<char>,
            Seq<char>,
        >(p@),
        r matches Err(e) ==> (e matches TreebeardError::Config(m) && expand_path_spec(
            path@,
            opt_view(home),
        ) == Err::<Seq<char>, Seq<char>>(m@)),
        r matches Ok(p) ==> home matches Some(h) && path_starts_with_spec(p@, h@),
{
    let home = match home {
        None => {
            return Err(
                TreebeardError::Config(String::from_str("HOME environment variable not set")),
            );
        },
        Some(h) => h,
    };
    let trimmed = trim_str(path);
    let tv = str_to_chars(trimmed.as_str());
    let home_relative = tv.len() >= 2 && tv[0] == '~' && tv[1] == '/';
    let expanded: String = if home_relative {
        let rest = crate::path::subvec_from(&tv, 2);
        let rest_s = crate::text::chars_to_string(rest.as_slice());
        path_join(home, rest_s.as_str())
    } else {
        trimmed.clone()
    };
    assert(expanded_path(path@, home@) == (home_relative, expanded@));
    let normalized = match normalize_path(expanded.as_str()) {
        Ok(n) => n,
        Err(e) => {
            return Err(e);
        },
    };
    if path_starts_with(normalized.as_str(), home) {
        return Ok(normalized);
    }
    let middle = if home_relative {
        "': Configuration paths starting with ~ must stay within home directory ("
    } else {
        "': Configuration paths must be within the home directory ("
    };
    let parts = ["Invalid path '", trimmed.as_str(), middle, home, ")"];
    let m = concat_strs(&parts);
    proof {
        reveal_with_fuel(concat_views, 6);
        assert(parts@.drop_last().drop_last().drop_last().drop_last().drop_last() =~= Seq::<
            &str,
        >::empty());
    }
    Err(TreebeardError::Config(m))
}

/// What `expand_tilde` gives: `~/rest` becomes the home directory joined
/// with `rest` and `~` becomes the home directory, when `HOME` is set;
/// anything else is the trimmed path itself.
pub open spec fn expand_tilde_spec(path: Seq<char>, home: Option<Seq<char>>) -> Seq<char> {
    let p = trim(path);
    if p.len() >= 2 && p[0] == '~' && p[1] == '/' {
        match home {
            Some(h) => join(h, p.skip(2)),
            None => p,
        }
    } else if p == seq!['~'] {
        match home {
            Some(h) => h,
            None => p,
        }
    } else {
        p
    }
}

/// Expands `~` to the home directory, without any validation (used for
/// sandbox paths, which may lie outside the home directory).
pub fn expand_tilde(path: &str, home: Option<&str>) -> (r: String)
    ensures
        r@ == expand_tilde_spec(path@, opt_view(home)),
{
    let trimmed = trim_str(path);
    let tv = str_to_chars(trimmed.as_str());
    if tv.len() >= 2 && tv[0] == '~' && tv[1] == '/' {
        match home {
            Some(h) => {
                let rest = crate::path::subvec_from(&tv, 2);
                let rest_s = crate::text::chars_to_string(rest.as_slice());
                path_join(h, rest_s.as_str())
            },
            None => trimmed,
        }
    } else if tv.len() == 1 && tv[0] == '~' {
        assert(tv@ =~= seq!['~']);
        match home {
            Some(h) => String::from_str(h),
            None => trimmed,
        }
    } else {
        assert(tv@ != seq!['~']);
        trimmed
    }
}

/// What `get_macos_version` reads from the output of `sw_vers
/// -productVersion`: the trimmed text split at `.`, the first piece as the
/// major version (required), the second as the minor version (0 when it is
/// missing or not a number). Numbers follow `u32::from_str`.
pub open spec fn macos_version_spec(output: Seq<char>) -> Option<(u32, u32)> {
    let parts = split_char(trim(output), '.');
    match parse_u64_spec(parts[0]) {
        Some(major) if major <= u32::MAX => {
            let minor: u32 = if parts.len() > 1 {
                match parse_u64_spec(parts[1]) {
                    Some(m) if m <= u32::MAX => m as u32,
                    _ => 0,
                }
            } else {
                0
            };
            Some((major as u32, minor))
        },
        _ => None,
    }
}

/// Reads the macOS version from the output of `sw_vers -productVersion`.
pub fn parse_macos_version(output: &str) -> (r: Option<(u32, u32)>)
    ensures
        r == macos_version_spec(output@),
{
    let v = str_to_chars(output);
    let t = trim_vec(&v);
    let parts = split_at_char(&t, '.');
    let major = match parse_u64(&parts[0]) {
        Some(m) if m <= 0xffff_ffffu64 => m as u32,
        _ => {
            return None;
        },
    };
    let minor: u32 = if parts.len() > 1 {
        match parse_u64(&parts[1]) {
            Some(m) if m <= 0xffff_ffffu64 => m as u32,
            _ => 0,
        }
    } else {
        0
    };
    Some((major, minor))
}

// ---------------------------------------------------------------------------
// Where the configuration and the data live
// ---------------------------------------------------------------------------

/// The configuration directory: `TREEBEARD_CONFIG_DIR` when set, else the
/// platform's directory for the application (as `directories` finds it).
pub fn get_config_dir(env_dir: Option<&str>, platform_dir: Option<&str>) -> (r: Result<
    String,
    TreebeardError,
>)
    ensures
        env_dir matches Some(d) ==> (r matches Ok(s) && s@ == d@),
        platform_dir matches Some(d) ==> (env_dir is None ==> (r matches Ok(s) && s@ == d@)),
        env_dir is None && platform_dir is None ==> (r matches Err(TreebeardError::Config(m)) && m@
            == "Could not determine config directory"@),
{
    match env_dir {
        Some(d) => Ok(String::from_str(d)),
        None => match platform_dir {
            Some(d) => Ok(String::from_str(d)),
            None => Err(TreebeardError::Config(String::from_str("Could not determine config directory"))),
        },
    }
}

/// The user's configuration file in the configuration directory.
pub fn get_config_path(config_dir: &str) -> (r: String)
    ensures
        r@ == join(config_dir@, "config.toml"@),
{
    path_join(config_dir, "config.toml")
}

/// The project's configuration file in a repository's working directory
/// (used when it exists).
pub fn get_project_config_path(workdir: &str) -> (r: String)
    ensures
        r@ == join(workdir@, ".treebeard.toml"@),
{
    path_join(workdir, ".treebeard.toml")
}

/// A data directory: `<TREEBEARD_DATA_DIR>/<sub>` when that is set, else
/// the configured directory, expanded and checked (`expand_path`).
pub open spec fn data_dir_spec(
    data_dir_env: Option<Seq<char>>,
    sub: Seq<char>,
    configured: Seq<char>,
    home: Option<Seq<char>>,
) -> Result<Seq<char>, Seq<char>> {
    match data_dir_env {
        Some(d) => Ok(join(d, sub)),
        None => expand_path_spec(configured, home),
    }
}

/// The directory of the worktrees.
pub fn get_worktree_dir(data_dir_env: Option<&str>, config: &Config, home: Option<&str>) -> (r: Result<
    String,
    TreebeardError,
>)
    ensures
        match data_dir_spec(
            opt_view(data_dir_env),
            "worktrees"@,
            text_or(config.paths.worktree_dir, "~/.local/share/treebeard/worktrees"@),
            opt_view(home),
        ) {
            Ok(p) => r matches Ok(s) && s@ == p,
            Err(m) => r matches Err(TreebeardError::Config(e)) && e@ == m,
        },
{
    match data_dir_env {
        Some(d) => Ok(path_join(d, "worktrees")),
        None => {
            let configured = config.paths.get_worktree_dir();
            expand_path(configured.as_str(), home)
        },
    }
}

/// The directory of the mounts.
pub fn get_mount_dir(data_dir_env: Option<&str>, config: &Config, home: Option<&str>) -> (r: Result<
    String,
    TreebeardError,
>)
    ensures
        match data_dir_spec(
            opt_view(data_dir_env),
            "mounts"@,
            text_or(config.paths.mount_dir, "~/.local/share/treebeard/mounts"@),
            opt_view(home),
        ) {
            Ok(p) => r matches Ok(s) && s@ == p,
            Err(m) => r matches Err(TreebeardError::Config(e)) && e@ == m,
        },
{
    match data_dir_env {
        Some(d) => Ok(path_join(d, "mounts")),
        None => {
            let configured = config.paths.get_mount_dir();
            expand_path(configured.as_str(), home)
        },
    }
}

/// The answer to "Create default config? [y/N]" (trimmed, lowercased):
/// empty, `n` or `no` decline, `y` or `yes` accept, anything else asks
/// again (`None`).
pub open spec fn create_config_answer_spec(answer: Seq<char>) -> Option<bool> {
    if answer == ""@ || answer == "n"@ || answer == "no"@ {
        Some(false)
    } else if answer == "y"@ || answer == "yes"@ {
        Some(true)
    } else {
        None
    }
}

/// Reads the answer to "Create default config?"; `None` means ask again.
pub fn parse_create_config_answer(input: &str) -> (r: Option<bool>)
    ensures
        r == create_config_answer_spec(spec_to_lowercase(trim(input@))),
{
    let t = trim_str(input);
    let l = to_lowercase(t.as_str());
    let s = l.as_str();
    if crate::text::str_eq(s, "") || crate::text::str_eq(s, "n") || crate::text::str_eq(s, "no") {
        Some(false)
    } else if crate::text::str_eq(s, "y") || crate::text::str_eq(s, "yes") {
        Some(true)
    } else {
        None
    }
}

/// A missing configuration file is created without asking in test mode,
/// with an explicit configuration directory, or without a terminal.
pub fn create_config_without_asking(
    is_test_mode: bool,
    is_explicit_config_dir: bool,
    is_non_interactive: bool,
) -> (r: bool)
    ensures
        r == (is_test_mode || is_explicit_config_dir || is_non_interactive),
{
    is_test_mode || is_explicit_config_dir || is_non_interactive
}

} // verus!
