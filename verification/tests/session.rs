use treebeard::cleanup::{
    confirms_destructive_action, deletion_prompt, keep_notice, parse_yes_no, squash_decision,
    squash_notice, squash_question, sync_outcome_flags, yes_no_hint, CleanupContext,
    DeletionPrompt, SquashDecision,
};
use treebeard::config::{Config, OnExitBehavior};
use treebeard::error::TreebeardError;
use treebeard::git::GitRepo;
use treebeard::session::{
    add_active_session, branch_column_width, filter_repo_sessions, format_age,
    get_session_state_path, get_worktree_dirty_files_count, porcelain_line,
    remove_active_session, session_age_secs, session_display, table_header, table_row,
    table_separator, ActiveSession, SessionDisplay, SessionStatus,
};
use treebeard::sync::types::SyncResult;

fn session(repo: &str, branch: &str) -> ActiveSession {
    ActiveSession {
        repo_path: repo.to_string(),
        branch_name: branch.to_string(),
        worktree_path: format!("/wt/{}", branch),
        mount_path: format!("/mnt/{}", branch),
        start_secs: 1000,
        start_nanos: 0,
    }
}

#[test]
fn state_file_location() {
    assert_eq!(get_session_state_path("/cfg"), "/cfg/active_sessions.json");
}

#[test]
fn adding_and_removing_sessions() {
    let mut sessions = vec![session("/r", "a"), session("/r", "b")];
    add_active_session(&mut sessions, session("/q", "a"));
    assert_eq!(sessions.len(), 3);
    let (left, removed) = remove_active_session(&sessions, "/r", "a");
    assert!(removed);
    assert_eq!(
        left.iter().map(|s| (s.repo_path.as_str(), s.branch_name.as_str())).collect::<Vec<_>>(),
        vec![("/r", "b"), ("/q", "a")]
    );
    let (again, removed_again) = remove_active_session(&left, "/r", "a");
    assert!(!removed_again);
    assert_eq!(again.len(), 2);
    assert_eq!(filter_repo_sessions(&sessions, "/r").len(), 2);
}

#[test]
fn session_health() {
    let s = session("/r", "a");
    assert!(s.is_healthy(true, true));
    assert!(!s.is_healthy(false, true));
    assert!(!s.is_healthy(true, false));
}

#[test]
fn ages() {
    let s = session("/r", "a");
    assert_eq!(session_age_secs(&s, 1090, 500_000_000), 90);
    assert_eq!(session_age_secs(&s, 990, 0), 10);
    assert_eq!(format_age(5), "5s");
    assert_eq!(format_age(125), "2m 5s");
    assert_eq!(format_age(3 * 3600 + 7 * 60 + 9), "3h 7m");
}

#[test]
fn listing_lines() {
    let s = session("/r", "feat");
    assert_eq!(porcelain_line(&s, true, 3), "feat\t/mnt/feat\tmounted\t3");
    assert_eq!(porcelain_line(&s, false, 0), "feat\t/mnt/feat\tunmounted\t0");
    let d = session_display(&s, true, true, 2, 65);
    assert_eq!(d.status, SessionStatus::Idle);
    assert_eq!(d.mount_status, "mounted");
    let stale = session_display(&s, false, false, 0, 0);
    assert_eq!(stale.status, SessionStatus::Stale);
    assert_eq!(get_worktree_dirty_files_count(Ok(4)), 4);
    assert_eq!(
        get_worktree_dirty_files_count(Err(TreebeardError::Git("x".to_string()))),
        0
    );
}

#[test]
fn table_layout() {
    let d = SessionDisplay {
        branch: "feat".to_string(),
        status: SessionStatus::Idle,
        mount_status: "mounted".to_string(),
        dirty_files: 2,
        age_secs: 65,
    };
    let w = branch_column_width(&vec![d.clone()]);
    assert_eq!(w, 16);
    assert_eq!(
        table_header(w),
        format!("{:<16}{:<16}{:<10}{:<8}{:<10}", "BRANCH", "STATUS", "MOUNT", "FILES", "AGE")
    );
    assert_eq!(table_separator(w).chars().count(), 60);
    assert_eq!(
        table_row(&d, w),
        format!("{:<16}{} {:<14}{:<10}{:<8}{:>10}", "feat", "○", "idle", "mounted", 2, "1m 5s")
    );
    let long = SessionDisplay {
        branch: "a-very-long-branch-name".to_string(),
        ..d
    };
    assert_eq!(branch_column_width(&vec![long]), 23);
}

fn context(mount: Option<&str>) -> CleanupContext {
    let mut config = Config::default_for(true);
    config.commit.squash_commit_message = Some("squash {branch} ({branch})".to_string());
    config.cleanup.on_exit = Some(OnExitBehavior::Keep);
    CleanupContext {
        mount_path: mount.map(|m| m.to_string()),
        worktree_path: "/wt/p/feat".to_string(),
        main_repo_path: "/src/p".to_string(),
        repo: GitRepo::from_dirs("/src/p/.git".to_string(), "/src/p".to_string()).unwrap(),
        branch_name: "feat".to_string(),
        config,
        mutations: vec![],
        base_commit: "abc".to_string(),
        auto_commit_failures: 0,
    }
}

#[test]
fn cleanup_context_views() {
    let c = context(Some("/mnt/p/feat"));
    let s = c.as_squash_context();
    assert_eq!(s.squash_message, "squash feat (feat)");
    assert_eq!(s.on_exit, OnExitBehavior::Keep);
    let h = c.as_hook_context();
    assert_eq!(h.mount_path, "/mnt/p/feat");
    assert_eq!(c.pre_cleanup_dir(true), "/mnt/p/feat");
    assert_eq!(c.pre_cleanup_dir(false), "/wt/p/feat");
    let no_mount = context(None);
    assert_eq!(no_mount.as_hook_context().mount_path, "/wt/p/feat");
    let w = c.as_worktree_cleanup_context();
    assert_eq!(w.main_repo_path, "/src/p");
}

#[test]
fn squash_decisions_and_texts() {
    let err: Result<usize, TreebeardError> = Err(TreebeardError::Git("x".to_string()));
    assert_eq!(squash_decision(&err, OnExitBehavior::Squash), SquashDecision::Skip);
    assert_eq!(squash_decision(&Ok(0), OnExitBehavior::Squash), SquashDecision::Skip);
    assert_eq!(squash_decision(&Ok(2), OnExitBehavior::Squash), SquashDecision::Squash);
    assert_eq!(squash_decision(&Ok(2), OnExitBehavior::Keep), SquashDecision::Keep);
    assert_eq!(squash_decision(&Ok(2), OnExitBehavior::Prompt), SquashDecision::Ask);
    assert_eq!(squash_notice(1), "Squashing 1 auto-commit into a single commit...");
    assert_eq!(squash_notice(3), "Squashing 3 auto-commits into a single commit...");
    assert_eq!(keep_notice(1), "Keeping 1 auto-commit");
    assert_eq!(keep_notice(4), "Keeping all 4 auto-commits");
    assert_eq!(squash_question(2, "feat"), "\nYou have 2 auto-commits on branch 'feat'");
}

#[test]
fn worktree_deletion_prompts() {
    assert_eq!(sync_outcome_flags(&Ok(SyncResult::Cancelled)), (true, false));
    assert_eq!(sync_outcome_flags(&Ok(SyncResult::GitCheckFailed)), (false, true));
    assert_eq!(
        sync_outcome_flags(&Err(TreebeardError::Io("x".to_string()))),
        (false, false)
    );
    assert_eq!(deletion_prompt(true, true), DeletionPrompt::LeaveWorktree);
    assert_eq!(deletion_prompt(false, true), DeletionPrompt::TypeToConfirm);
    assert_eq!(deletion_prompt(false, false), DeletionPrompt::YesNo);
}

#[test]
fn yes_no_answers() {
    assert_eq!(yes_no_hint(true), "[Y/n]");
    assert_eq!(yes_no_hint(false), "[y/N]");
    assert_eq!(parse_yes_no("", true), Some(true));
    assert_eq!(parse_yes_no("  Y ", false), Some(true));
    assert_eq!(parse_yes_no("No", true), Some(false));
    assert_eq!(parse_yes_no("perhaps", true), None);
    assert!(confirms_destructive_action(" delete\n", "delete"));
    assert!(!confirms_destructive_action("Delete", "delete"));
}
