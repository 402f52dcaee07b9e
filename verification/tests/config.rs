use treebeard::config::{
    create_config_without_asking, expand_path, expand_tilde, get_config_dir, get_config_path,
    get_mount_dir, get_project_config_path, get_worktree_dir, merge_configs, normalize_path,
    parse_create_config_answer, parse_macos_version, validate_config, AutoCommitTimingConfig,
    CleanupConfig, CommitConfig, Config, HooksConfig, OnExitBehavior, PathsConfig, SyncConfig,
    DEFAULT_DEBOUNCE_MS,
};
use treebeard::error::TreebeardError;

fn config_msg<T: std::fmt::Debug>(r: Result<T, TreebeardError>) -> String {
    match r {
        Err(TreebeardError::Config(m)) => m,
        other => panic!("expected a config error, got {:?}", other),
    }
}

#[test]
fn defaults_fill_unset_fields() {
    let c = Config::default_for(true);
    assert_eq!(c.paths.get_worktree_dir(), "~/.local/share/treebeard/worktrees");
    assert_eq!(c.paths.get_mount_dir(), "~/.local/share/treebeard/mounts");
    assert_eq!(c.commit.get_squash_commit_message(), "treebeard: {branch}");
    assert_eq!(c.auto_commit_timing.get_debounce_ms(), DEFAULT_DEBOUNCE_MS);
    assert!(c.get_sandbox(true).enabled);
    assert!(!Config::default_for(false).get_sandbox(false).enabled);
    assert_eq!(c.cleanup.get_on_exit(), OnExitBehavior::Prompt);
    assert!(c.hooks.get_post_create().is_empty());
}

#[test]
fn on_exit_parsing() {
    assert_eq!(OnExitBehavior::from_str("Squash"), Ok(OnExitBehavior::Squash));
    assert_eq!(OnExitBehavior::from_str("keep"), Ok(OnExitBehavior::Keep));
    assert_eq!(OnExitBehavior::from_str("prompt"), Ok(OnExitBehavior::Prompt));
    assert!(OnExitBehavior::from_str("later").is_err());
    assert_eq!(OnExitBehavior::Squash.as_str(), "squash");
}

#[test]
fn project_config_wins_where_set() {
    let mut base = Config::default_for(true);
    base.paths.worktree_dir = Some("~/base".to_string());
    base.paths.mount_dir = Some("~/mounts".to_string());
    let mut overlay = Config::default_for(true);
    overlay.paths.worktree_dir = Some("~/project".to_string());
    overlay.paths.mount_dir = None;
    overlay.cleanup.on_exit = Some(OnExitBehavior::Squash);
    let merged = merge_configs(base, overlay);
    assert_eq!(merged.paths.worktree_dir, Some("~/project".to_string()));
    assert_eq!(merged.paths.mount_dir, Some("~/mounts".to_string()));
    assert_eq!(merged.cleanup.get_on_exit(), OnExitBehavior::Squash);
}

/// A layer that sets nothing, as a file without any setting parses.
fn unset_layer() -> Config {
    Config {
        paths: PathsConfig { worktree_dir: None, mount_dir: None, passthrough: None },
        commit: CommitConfig { auto_commit_message: None, squash_commit_message: None },
        sync: SyncConfig { sync_always_skip: None, sync_always_include: None },
        cleanup: CleanupConfig { on_exit: None },
        auto_commit_timing: AutoCommitTimingConfig { auto_commit_debounce_ms: None },
        hooks: HooksConfig {
            post_create: None,
            pre_cleanup: None,
            post_cleanup: None,
            commit_message: None,
        },
        fuse_ttl_secs: None,
        sandbox: None,
    }
}

#[test]
fn project_config_overrides_only_what_it_sets() {
    let mut user = unset_layer();
    user.cleanup.on_exit = Some(OnExitBehavior::Squash);
    user.hooks.post_create = Some(vec!["npm install".to_string()]);
    let mut user_sandbox = Config::default_for(true).get_sandbox(true);
    user_sandbox.enabled = false;
    user.sandbox = Some(user_sandbox);
    let mut project = unset_layer();
    project.paths.worktree_dir = Some("~/wt".to_string());
    let c = merge_configs(user, project);
    assert_eq!(c.cleanup.get_on_exit(), OnExitBehavior::Squash);
    assert_eq!(c.hooks.get_post_create(), vec!["npm install".to_string()]);
    assert_eq!(c.paths.worktree_dir, Some("~/wt".to_string()));
    assert!(!c.get_sandbox(true).enabled);

    // A sandbox section in the project file replaces the user's as a whole.
    let mut project = unset_layer();
    let mut project_sandbox = Config::default_for(true).get_sandbox(true);
    project_sandbox.deny_read = vec!["~/.secret".to_string()];
    project.sandbox = Some(project_sandbox);
    project.hooks.post_create = Some(vec![]);
    let c = merge_configs(c, project);
    let sb = c.get_sandbox(true);
    assert!(sb.enabled);
    assert_eq!(sb.deny_read, vec!["~/.secret".to_string()]);
    assert!(c.hooks.get_post_create().is_empty());
    assert_eq!(c.cleanup.get_on_exit(), OnExitBehavior::Squash);
}

#[test]
fn unset_on_exit_and_hooks_fall_back_to_defaults() {
    let c = unset_layer();
    assert_eq!(c.cleanup.get_on_exit(), OnExitBehavior::Prompt);
    assert!(c.hooks.get_pre_cleanup().is_empty());
    assert!(c.hooks.get_post_cleanup().is_empty());
    let sb = c.get_sandbox(false);
    assert!(!sb.enabled);
    assert!(!sb.deny_read.is_empty());
}

#[test]
fn debounce_warnings() {
    let mut c = Config::default_for(true);
    assert!(validate_config(&c).is_empty());
    c.auto_commit_timing.auto_commit_debounce_ms = Some(10);
    assert_eq!(
        validate_config(&c),
        vec!["Warning: auto_commit_debounce_ms (10) is below recommended minimum of 50ms. This may cause excessive commits on every change.".to_string()]
    );
    c.auto_commit_timing.auto_commit_debounce_ms = Some(70000);
    assert_eq!(validate_config(&c).len(), 1);
}

#[test]
fn normalizing_paths() {
    assert_eq!(normalize_path("/a/b/../c").unwrap(), "/a/c");
    assert_eq!(normalize_path("/a/./b").unwrap(), "/a/b");
    assert_eq!(
        config_msg(normalize_path("./a")),
        "Invalid path: contains '.' component"
    );
    assert_eq!(
        config_msg(normalize_path("a/../..")),
        "Invalid path: attempts to escape root directory with ../"
    );
}

#[test]
fn expanding_paths() {
    let home = Some("/Users/tester");
    assert_eq!(expand_path("~/work", home).unwrap(), "/Users/tester/work");
    assert_eq!(expand_path("  /Users/tester/x  ", home).unwrap(), "/Users/tester/x");
    assert_eq!(
        config_msg(expand_path("~/../other", home)),
        "Invalid path '~/../other': Configuration paths starting with ~ must stay within home directory (/Users/tester)"
    );
    assert_eq!(
        config_msg(expand_path("/etc", home)),
        "Invalid path '/etc': Configuration paths must be within the home directory (/Users/tester)"
    );
    assert_eq!(
        config_msg(expand_path("~/x", None)),
        "HOME environment variable not set"
    );
    assert_eq!(expand_tilde("~/.ssh", home), "/Users/tester/.ssh");
    assert_eq!(expand_tilde("~", home), "/Users/tester");
    assert_eq!(expand_tilde("/etc", home), "/etc");
}

#[test]
fn macos_versions() {
    assert_eq!(parse_macos_version("15.1.2\n"), Some((15, 1)));
    assert_eq!(parse_macos_version("14"), Some((14, 0)));
    assert_eq!(parse_macos_version("x.y"), None);
}

#[test]
fn config_locations() {
    assert_eq!(get_config_dir(Some("/cfg"), Some("/plat")).unwrap(), "/cfg");
    assert_eq!(get_config_dir(None, Some("/plat")).unwrap(), "/plat");
    assert_eq!(
        config_msg(get_config_dir(None, None)),
        "Could not determine config directory"
    );
    assert_eq!(get_config_path("/cfg"), "/cfg/config.toml");
    assert_eq!(get_project_config_path("/src/p"), "/src/p/.treebeard.toml");
}

#[test]
fn data_directories() {
    let c = Config::default_for(true);
    assert_eq!(get_worktree_dir(Some("/data"), &c, None).unwrap(), "/data/worktrees");
    assert_eq!(get_mount_dir(Some("/data"), &c, None).unwrap(), "/data/mounts");
    assert_eq!(
        get_worktree_dir(None, &c, Some("/Users/t")).unwrap(),
        "/Users/t/.local/share/treebeard/worktrees"
    );
    assert!(get_mount_dir(None, &c, None).is_err());
}

#[test]
fn creating_the_config() {
    assert_eq!(parse_create_config_answer(""), Some(false));
    assert_eq!(parse_create_config_answer(" YES "), Some(true));
    assert_eq!(parse_create_config_answer("n"), Some(false));
    assert_eq!(parse_create_config_answer("maybe"), None);
    assert!(create_config_without_asking(false, true, false));
    assert!(!create_config_without_asking(false, false, false));
}
