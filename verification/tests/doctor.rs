use treebeard::config::{Config, HooksConfig};
use treebeard::doctor::{
    check_active_sessions, check_config, check_disk_space, check_git, check_macfuse,
    check_macos_version, check_stale_mounts, doctor_suggestions, get_macfuse_version,
    parse_df_available, ConfigFileState, DiagnosticCheck, DiagnosticStatus,
};
use treebeard::error::TreebeardError;
use treebeard::shell::{
    check_tty_requirement, macos_supported, overlay_mount_path, session_exit_code,
    subprocess_command, subprocess_name,
};
use treebeard::watcher::{CommitConfig, WatchAction, WatchEvent, WatchState};

fn parts(c: &DiagnosticCheck) -> (String, DiagnosticStatus, String) {
    (c.name.clone(), c.status, c.details.clone().unwrap_or_default())
}

#[test]
fn check_lines() {
    let c = DiagnosticCheck::ok("Git", "fine");
    assert_eq!(c.line(), "\u{2713} Git - fine");
    assert_eq!(DiagnosticCheck::warning("a", "b").symbol(), "\u{26a0}");
    assert_eq!(DiagnosticCheck::error("a", "b").symbol(), "\u{2717}");
}

#[test]
fn macos_check() {
    let c = check_macos_version(true, Some((15, 2)));
    assert_eq!(
        parts(&c),
        ("macOS 15.2 (Sequoia)".to_string(), DiagnosticStatus::Passed, "supported".to_string())
    );
    let c = check_macos_version(true, Some((14, 6)));
    assert_eq!(c.status, DiagnosticStatus::Error);
    assert_eq!(c.name, "macOS 14.6 (Sonoma)");
    assert_eq!(check_macos_version(false, None).name, "Operating System");
    assert_eq!(
        check_macos_version(true, None).details,
        Some("could not determine version".to_string())
    );
}

#[test]
fn macfuse_check() {
    let plist = "<key>CFBundleShortVersionString</key>\n<string>4.8.0</string>";
    assert_eq!(get_macfuse_version(plist), Some("4.8.0".to_string()));
    assert_eq!(get_macfuse_version("<plist/>"), None);
    let c = check_macfuse(true, true, Some("4.8.0".to_string()), Some("io.macfuse.filesystems".to_string()));
    assert_eq!(
        parts(&c),
        ("macFUSE 4.8.0".to_string(), DiagnosticStatus::Passed, "kernel extension loaded".to_string())
    );
    let c = check_macfuse(true, true, None, None);
    assert_eq!(c.name, "macFUSE installed");
    assert_eq!(c.status, DiagnosticStatus::Warning);
    assert_eq!(check_macfuse(true, false, None, None).details, Some("not installed".to_string()));
}

#[test]
fn git_check() {
    let c = check_git(Some("git version 2.44.0\n".to_string()), Some(Some(0)));
    assert_eq!(
        parts(&c),
        ("Git 2.44.0".to_string(), DiagnosticStatus::Passed, "worktree support available".to_string())
    );
    assert_eq!(check_git(Some("git version 2.1".to_string()), Some(Some(128))).status, DiagnosticStatus::Passed);
    assert_eq!(check_git(Some("git version 2.1".to_string()), Some(Some(1))).status, DiagnosticStatus::Warning);
    assert_eq!(check_git(Some("x".to_string()), None).status, DiagnosticStatus::Warning);
    assert_eq!(check_git(None, None).status, DiagnosticStatus::Error);
}

#[test]
fn config_check() {
    assert_eq!(
        parts(&check_config("/c.toml", ConfigFileState::Missing)),
        ("Config file".to_string(), DiagnosticStatus::Warning, "not found at /c.toml".to_string())
    );
    assert_eq!(
        check_config("/c.toml", ConfigFileState::ParseError("bad".to_string())).details,
        Some("parse error: bad".to_string())
    );
    assert_eq!(
        check_config("/c.toml", ConfigFileState::Parsed).details,
        Some("/c.toml (valid)".to_string())
    );
}

#[test]
fn sessions_check() {
    assert_eq!(check_active_sessions(None).details, Some("no session data".to_string()));
    assert_eq!(check_active_sessions(Some(vec![])).details, Some("none".to_string()));
    assert_eq!(
        check_active_sessions(Some(vec![true, true])).details,
        Some("2 session(s) healthy".to_string())
    );
    let c = check_active_sessions(Some(vec![true, false, false]));
    assert_eq!(c.status, DiagnosticStatus::Warning);
    assert_eq!(c.details, Some("1 healthy, 2 unhealthy (may need cleanup)".to_string()));
}

#[test]
fn stale_mounts_check() {
    let out = "/dev/macfuse0 on /m/a (macfuse, treebeard-a)\n/dev/macfuse1 on /m/b (macfuse, treebeard-b)\n";
    let (c, n) = check_stale_mounts(true, Some(out.to_string()));
    assert_eq!(n, 2);
    assert_eq!(c.details, Some("2 stale mount(s) detected:\n    - /m/a\n    - /m/b".to_string()));
    let (c, n) = check_stale_mounts(true, Some(String::new()));
    assert_eq!((c.details, n), (Some("none detected".to_string()), 0));
    assert_eq!(check_stale_mounts(false, None).1, 0);
}

#[test]
fn disk_space_check() {
    let df = "Filesystem 1024-blocks Used Available Capacity\n/dev/disk3 100 50 20971520 50%\n";
    assert_eq!(parse_df_available(df), Some(20971520));
    assert_eq!(
        check_disk_space(true, true, Some(df.to_string())).details,
        Some("20 GB available".to_string())
    );
    let low = "h\n/dev/disk3 1 1 2621440 1%\n";
    let c = check_disk_space(true, true, Some(low.to_string()));
    assert_eq!(c.status, DiagnosticStatus::Warning);
    assert_eq!(c.details, Some("2.5 GB available (low)".to_string()));
    let tiny = "h\n/dev/disk3 1 1 512000 1%\n";
    assert_eq!(
        check_disk_space(true, true, Some(tiny.to_string())).details,
        Some("500 MB available (critically low)".to_string())
    );
    assert_eq!(check_disk_space(false, true, None).status, DiagnosticStatus::Warning);
    assert_eq!(parse_df_available("only one line"), None);
}

#[test]
fn suggestions() {
    assert_eq!(
        doctor_suggestions(DiagnosticStatus::Error, DiagnosticStatus::Warning, 1, DiagnosticStatus::Warning),
        vec![
            "Install macFUSE: brew install --cask macfuse",
            "Create config: git treebeard config edit",
            "Run 'git treebeard cleanup --stale' to remove stale mounts",
            "Free up disk space to ensure treebeard can create worktrees",
        ]
    );
    assert!(doctor_suggestions(DiagnosticStatus::Passed, DiagnosticStatus::Passed, 0, DiagnosticStatus::Passed).is_empty());
}

#[test]
fn subprocess_lines() {
    let cmd = vec!["make".to_string(), "test".to_string()];
    assert_eq!(
        subprocess_command(&cmd, Some("/bin/bash"), None, None, true, None),
        ("make".to_string(), vec!["test".to_string()])
    );
    assert_eq!(
        subprocess_command(&vec![], None, None, None, false, None),
        ("/bin/zsh".to_string(), vec![])
    );
    let sandbox = Config::default_for(true).get_sandbox(true);
    let (prog, args) = subprocess_command(&cmd, None, Some(&sandbox), Some("/mnt/x"), true, Some("/Users/t"));
    assert_eq!(prog, "sandbox-exec");
    assert_eq!(args[0], "-p");
    assert!(args[1].contains("/mnt/x"));
    assert_eq!(&args[2..], &["make".to_string(), "test".to_string()]);
    let (prog, _) = subprocess_command(&cmd, None, Some(&sandbox), Some("/mnt/x"), false, None);
    assert_eq!(prog, "make");
    assert_eq!(subprocess_name(&cmd), "make");
    assert_eq!(subprocess_name(&vec![]), "shell");
}

#[test]
fn session_ends_and_requirements() {
    assert_eq!(session_exit_code(Some(3)), 3);
    assert_eq!(session_exit_code(None), 1);
    assert_eq!(overlay_mount_path("/mnt", "/wt/proj/feat", "feat"), "/mnt/proj/feat");
    assert!(macos_supported(Some((15, 0))));
    assert!(!macos_supported(Some((14, 9))));
    assert!(macos_supported(None));
    match check_tty_requirement(true, false, false, false) {
        Err(TreebeardError::Config(m)) => assert_eq!(
            m,
            "This command requires an interactive terminal (TTY). Cannot run with piped input."
        ),
        _ => panic!("expected a config error"),
    }
    assert!(check_tty_requirement(true, true, false, false).is_ok());
    assert!(check_tty_requirement(false, false, false, false).is_ok());
}

#[test]
fn commit_messages() {
    let mut hooks = HooksConfig::default();
    let c = CommitConfig::new("auto", &hooks, "feat", "/m", "/w", "/r");
    assert!(c.hook_for_diff("d").is_none());
    assert_eq!(c.generate_message(None), "auto");
    hooks.commit_message = Some("summarize".to_string());
    let c = CommitConfig::new("auto", &hooks, "feat", "/m", "/w", "/r");
    let (cmd, ctx) = c.hook_for_diff("the diff").unwrap();
    assert_eq!(cmd, "summarize");
    assert_eq!(ctx.diff, Some("the diff".to_string()));
    assert_eq!(c.generate_message(Some(Ok(Some("msg".to_string())))), "msg");
    assert_eq!(c.generate_message(Some(Ok(None))), "auto");
    assert_eq!(
        c.generate_message(Some(Err(TreebeardError::Hook("x".to_string())))),
        "auto"
    );
}

#[test]
fn debounced_commits() {
    let mut s = WatchState::new();
    assert_eq!(s.timeout_ms(0, 100), None);
    assert_eq!(s.step(WatchEvent::Mutation("a".to_string(), 10)), WatchAction::Continue);
    assert_eq!(s.step(WatchEvent::Mutation("a".to_string(), 20)), WatchAction::Continue);
    assert_eq!(s.pending, vec!["a".to_string()]);
    assert_eq!(s.timeout_ms(20, 100), Some(100));
    assert_eq!(s.timeout_ms(70, 100), Some(50));
    assert_eq!(s.timeout_ms(500, 100), Some(0));
    assert_eq!(s.step(WatchEvent::TimerExpired), WatchAction::Commit);
    assert!(s.pending.is_empty());
    assert_eq!(s.step(WatchEvent::TimerExpired), WatchAction::Continue);
    assert_eq!(s.step(WatchEvent::ChannelClosed), WatchAction::Stop);
    s.step(WatchEvent::Mutation("b".to_string(), 30));
    assert_eq!(s.step(WatchEvent::ChannelClosed), WatchAction::CommitAndStop);
}
