use treebeard::error::TreebeardError;
use treebeard::git::{
    ancestor_chain, auto_stash_message, check_git_output, git_dir_step, is_transient_git_error,
    parse_worktree_list, retry_decision, should_stash, squash_rollback_error, worktree_path_for,
    GitDirStep, GitInvocation, GitOutput, GitProbe, GitRepo, RemoveOutcome, RetryDecision,
    SquashCommit, SquashStep, INITIAL_BACKOFF_MS, MAX_ATTEMPTS,
};

fn ok(stdout: &str) -> Result<GitOutput, String> {
    Ok(GitOutput {
        success: true,
        stdout: stdout.as_bytes().to_vec(),
        stderr: vec![],
    })
}

fn failed(stderr: &str) -> Result<GitOutput, String> {
    Ok(GitOutput {
        success: false,
        stdout: vec![],
        stderr: stderr.as_bytes().to_vec(),
    })
}

fn repo() -> GitRepo {
    GitRepo::from_dirs("/src/proj/.git".to_string(), "/src/proj".to_string()).unwrap()
}

fn git_msg(r: Result<impl std::fmt::Debug, TreebeardError>) -> String {
    match r {
        Err(TreebeardError::Git(m)) => m,
        other => panic!("expected a git error, got {:?}", other),
    }
}

fn config_msg(r: Result<impl std::fmt::Debug, TreebeardError>) -> String {
    match r {
        Err(TreebeardError::Config(m)) => m,
        other => panic!("expected a config error, got {:?}", other),
    }
}

#[test]
fn repo_name_is_last_component() {
    let r = repo();
    assert_eq!(r.repo_name(), "proj");
    assert_eq!(r.workdir(), "/src/proj");
    let e = GitRepo::from_dirs("/.git".to_string(), "/".to_string());
    assert_eq!(config_msg(e.map(|_| ())), "Could not determine repo name");
}

#[test]
fn failed_start_is_config_error() {
    let inv = GitInvocation {
        args: vec!["status".to_string(), "--porcelain".to_string()],
        error_prefix: "Failed to get status".to_string(),
    };
    let r = check_git_output("/w", &inv, Err("no such program".to_string()));
    assert_eq!(
        config_msg(r.map(|_| ())),
        "Failed to execute 'git status --porcelain' in /w: no such program"
    );
    let r = check_git_output("/w", &inv, failed("fatal: bad"));
    assert_eq!(git_msg(r.map(|_| ())), "Failed to get status: fatal: bad");
    assert!(check_git_output("/w", &inv, ok("x")).is_ok());
}

#[test]
fn transient_errors_are_retried_with_doubling_backoff() {
    let e = TreebeardError::Git("Unable to create '/x/.git/index.lock': File exists".to_string());
    assert!(is_transient_git_error(&e));
    assert!(is_transient_git_error(&TreebeardError::Config("Permission denied".to_string())));
    assert!(!is_transient_git_error(&TreebeardError::Git("fatal: bad revision".to_string())));
    assert!(!is_transient_git_error(&TreebeardError::Io("index.lock".to_string())));
    assert_eq!(retry_decision(0, &e), RetryDecision::RetryAfter(INITIAL_BACKOFF_MS));
    assert_eq!(retry_decision(1, &e), RetryDecision::RetryAfter(2 * INITIAL_BACKOFF_MS));
    assert_eq!(retry_decision(MAX_ATTEMPTS - 1, &e), RetryDecision::GiveUp);
    let other = TreebeardError::Git("fatal".to_string());
    assert_eq!(retry_decision(0, &other), RetryDecision::GiveUp);
}

#[test]
fn branch_commands() {
    let r = repo();
    let inv = r.branch_exists_invocation("feat");
    assert_eq!(inv.args, vec!["show-ref", "--verify", "--quiet", "refs/heads/feat"]);
    assert!(r.branch_exists(&ok("")));
    assert!(!r.branch_exists(&failed("")));
    match r.create_branch_invocation("feat", true) {
        Err(TreebeardError::BranchAlreadyExists(b)) => assert_eq!(b, "feat"),
        _ => panic!("expected BranchAlreadyExists"),
    }
    assert!(r.create_branch("feat", false, Some(ok(""))).is_ok());
    assert_eq!(
        git_msg(r.create_branch("feat", false, Some(failed("boom")))),
        "Failed to create branch: boom"
    );
    match r.create_branch("feat", true, None) {
        Err(TreebeardError::BranchAlreadyExists(b)) => assert_eq!(b, "feat"),
        _ => panic!("expected BranchAlreadyExists"),
    }
    let d = r.delete_branch_invocation("feat", true);
    assert_eq!(d.args, vec!["branch", "-D", "feat"]);
    let d = r.delete_branch_invocation("feat", false);
    assert_eq!(d.args, vec!["branch", "-d", "feat"]);
}

#[test]
fn worktree_commands() {
    let r = repo();
    assert_eq!(r.worktree_admin_dir("feat"), "/src/proj/.git/worktrees/feat");
    let (dir, inv) = r
        .create_worktree_invocation("feat", "/wt/proj/feat", false)
        .unwrap();
    assert_eq!(dir, "/wt/proj");
    assert_eq!(inv.args, vec!["worktree", "add", "/wt/proj/feat", "feat"]);
    match r.create_worktree_invocation("feat", "/wt/proj/feat", true) {
        Err(TreebeardError::WorktreeAlreadyExists(b)) => assert_eq!(b, "feat"),
        _ => panic!("expected WorktreeAlreadyExists"),
    }
    assert_eq!(
        r.get_worktree_path("feat", true, Ok("/wt/proj/feat/.git\n".to_string())).unwrap(),
        "/wt/proj/feat"
    );
    match r.get_worktree_path("feat", false, Ok(String::new())) {
        Err(TreebeardError::WorktreeNotFound(b)) => assert_eq!(b, "feat"),
        _ => panic!("expected WorktreeNotFound"),
    }
    assert_eq!(
        config_msg(r.get_worktree_path("feat", true, Err("denied".to_string()))),
        "Failed to read gitdir file /src/proj/.git/worktrees/feat/gitdir: denied"
    );
    assert_eq!(worktree_path_for("/wt", "proj", "feat"), "/wt/proj/feat");
}

#[test]
fn head_status_and_counts() {
    let r = repo();
    assert_eq!(r.get_head(ok("abc123\n")).unwrap(), "abc123");
    assert_eq!(r.has_uncommitted_changes(ok("")).unwrap(), false);
    assert_eq!(r.has_uncommitted_changes(ok(" M a\n")).unwrap(), true);
    assert_eq!(r.get_dirty_files_count(ok(" M a\n?? b\n")).unwrap(), 2);
    assert_eq!(r.get_commit_count_since("feat", "abc", ok("3\n")).unwrap(), 3);
    assert_eq!(
        git_msg(r.get_commit_count_since("feat", "abc", ok("x\n"))),
        "Failed to parse commit count: x"
    );
    let inv = r.get_commit_count_since_invocation("feat", "abc");
    assert_eq!(inv.args, vec!["rev-list", "--count", "abc..feat"]);
}

#[test]
fn staging_and_diff() {
    let r = repo();
    assert!(r.stage_all(ok("")).is_ok());
    assert_eq!(r.staged_diff(ok("")).unwrap(), None);
    assert_eq!(r.staged_diff(ok("diff")).unwrap(), Some("diff".to_string()));
    assert!(r.stage_changes(failed("x"), ok("d")).is_err());
    assert_eq!(r.stage_changes(ok(""), ok("d")).unwrap(), Some("d".to_string()));
    let c = r.commit_staged_invocation("msg");
    assert_eq!(c.args, vec!["commit", "-m", "msg"]);
}

#[test]
fn stash_commands() {
    let r = repo();
    let inv = r.stash_push_invocation("m", true);
    assert_eq!(inv.args, vec!["stash", "push", "-m", "m", "--include-untracked"]);
    assert!(r.stash_push("m", false, ok("")).is_ok());
    assert_eq!(
        git_msg(r.stash_push("m", false, failed("no"))),
        "Failed to stash changes: no"
    );
    assert_eq!(
        auto_stash_message("2024-01-02T03:04:05"),
        "treebeard-auto-stash-2024-01-02T03:04:05"
    );
    assert!(should_stash(true, false, None));
    assert!(should_stash(false, true, None));
    assert!(should_stash(false, false, Some(true)));
    assert!(!should_stash(false, false, Some(false)));
    assert!(!should_stash(false, false, None));
}

#[test]
fn squash_steps() {
    let r = repo();
    assert_eq!(r.squash_reset_args("abc123"), vec!["reset", "--soft", "abc123"]);
    assert_eq!(r.squash_commit_args("treebeard: feat"), vec!["commit", "-m", "treebeard: feat"]);
    assert_eq!(r.squash_rollback_args("def456"), vec!["reset", "--hard", "def456"]);
    assert_eq!(r.stage_all_args(), vec!["add", "-A"]);
    assert_eq!(r.staged_diff_args(), vec!["diff", "--cached"]);
    assert_eq!(r.squash_after_reset(ok("")).unwrap(), SquashStep::Commit);
    assert_eq!(
        r.squash_after_reset(failed("fatal: ambiguous argument 'feat~1'")).unwrap(),
        SquashStep::NothingToSquash
    );
    assert_eq!(
        git_msg(r.squash_after_reset(failed("fatal: other\n"))),
        "Failed to reset: fatal: other"
    );
    assert!(matches!(r.squash_after_commit(ok("")).unwrap(), SquashCommit::Done));
    match r.squash_after_commit(failed("hook failed")).unwrap() {
        SquashCommit::RollBack(t) => assert_eq!(t, "hook failed"),
        SquashCommit::Done => panic!("expected a rollback"),
    }
    match squash_rollback_error("hook failed\n", ok("")) {
        TreebeardError::Git(m) => assert_eq!(m, "Failed to create squash commit: hook failed"),
        _ => panic!("expected a git error"),
    }
    match squash_rollback_error("hook failed", failed("locked")) {
        TreebeardError::Git(m) => assert_eq!(
            m,
            "Git error: Failed to create squash commit: hook failed\n\nCRITICAL: Rollback also failed: locked. Repository may be in inconsistent state!"
        ),
        _ => panic!("expected a git error"),
    }
}

#[test]
fn removing_worktrees() {
    let r = repo();
    assert_eq!(r.remove_worktree_args("/wt/x", true), vec!["worktree", "remove", "--force", "/wt/x"]);
    assert_eq!(r.remove_worktree(ok("")).unwrap(), RemoveOutcome::Removed);
    assert_eq!(
        r.remove_worktree(failed("fatal: '/wt/x' is not a working tree")).unwrap(),
        RemoveOutcome::PruneInstead
    );
    assert_eq!(
        git_msg(r.remove_worktree(failed("fatal: locked\n"))),
        "Failed to remove worktree: fatal: locked"
    );
    assert!(r.prune_worktrees(ok("")).is_ok());
}

#[test]
fn worktree_list_parsing() {
    let text = "/src/proj%%%main\n/wt/proj/feat%%%refs/heads/feat\nbroken line\n/a%%%b%%%c\n";
    assert_eq!(
        parse_worktree_list(text),
        vec![
            ("main".to_string(), "/src/proj".to_string()),
            ("feat".to_string(), "/wt/proj/feat".to_string()),
        ]
    );
    let r = repo();
    assert_eq!(r.list_worktrees(ok("/src/proj%%%main\n")).unwrap().len(), 1);
}

#[test]
fn finding_the_git_dir() {
    match git_dir_step("/src/proj", GitProbe::Directory).unwrap() {
        GitDirStep::Found(g, w) => {
            assert_eq!(g, "/src/proj/.git");
            assert_eq!(w, "/src/proj");
        }
        _ => panic!("expected Found"),
    }
    match git_dir_step("/wt/feat", GitProbe::File(Ok("gitdir: /src/proj/.git/worktrees/feat\n".to_string()))).unwrap() {
        GitDirStep::Found(g, _) => assert_eq!(g, "/src/proj/.git/worktrees/feat"),
        _ => panic!("expected Found"),
    }
    match git_dir_step("/src/proj/sub", GitProbe::Absent).unwrap() {
        GitDirStep::Up(p) => assert_eq!(p, "/src/proj"),
        _ => panic!("expected Up"),
    }
    assert!(matches!(git_dir_step("/", GitProbe::Absent).unwrap(), GitDirStep::NotFound));
}

#[test]
fn dirty_count_agrees_with_uncommitted_changes() {
    let r = repo();
    for out in ["", " M a\n", " M a\n?? b\nD  c\n"] {
        let has = r.has_uncommitted_changes(ok(out)).unwrap();
        let n = r.get_dirty_files_count(ok(out)).unwrap();
        assert_eq!(has, n > 0);
    }
    assert!(r.has_uncommitted_changes(failed("fatal: not a git repository")).is_err());
    assert!(r.get_dirty_files_count(failed("fatal: not a git repository")).is_err());
}

#[test]
fn opening_the_repository_around_a_directory() {
    assert_eq!(ancestor_chain("/src/proj/sub"), vec!["/src/proj/sub", "/src/proj", "/src", "/"]);
    // `.git` found one level up.
    let probes = vec![GitProbe::Absent, GitProbe::Directory];
    let r = GitRepo::from_path("/src/proj/sub", &probes).unwrap();
    assert_eq!(r.workdir(), "/src/proj");
    assert_eq!(r.repo_name(), "proj");
    // A worktree's `.git` file, relative to its directory.
    let probes = vec![GitProbe::File(Ok("gitdir: ../proj/.git/worktrees/feat\n".to_string()))];
    let r = GitRepo::from_path("/wt/feat", &probes).unwrap();
    assert_eq!(r.workdir(), "/wt/feat");
    assert_eq!(r.repo_name(), "feat");
    // A `.git` file that cannot be read stops the search.
    let probes = vec![GitProbe::File(Err("denied".to_string())), GitProbe::Directory];
    assert_eq!(
        config_msg(GitRepo::from_path("/src/proj", &probes).map(|_| ())),
        "Failed to read .git file /src/proj/.git: denied"
    );
    // Nothing anywhere: not a repository.
    match GitRepo::from_path("/tmp/x", &vec![GitProbe::Absent, GitProbe::Absent, GitProbe::Absent]) {
        Err(TreebeardError::NotAGitRepository(d)) => assert_eq!(d, "/tmp/x"),
        _ => panic!("expected NotAGitRepository"),
    }
    match GitRepo::from_path("/tmp/x", &vec![]) {
        Err(TreebeardError::NotAGitRepository(d)) => assert_eq!(d, "/tmp/x"),
        _ => panic!("expected NotAGitRepository"),
    }
}
