use treebeard::error::TreebeardError;
use treebeard::hooks::{
    commit_message_from_output, commit_message_hook_result, expand_template, hook_failed_error,
    next_hook_step, shell_escape, HookContext, HookOutcome, HookStep,
};

fn test_context() -> HookContext {
    HookContext {
        branch: "feature-test".to_string(),
        mount_path: "/mounts/repo/feature-test".to_string(),
        worktree_path: "/worktrees/repo/feature-test".to_string(),
        repo_path: "/repos/myrepo".to_string(),
        diff: None,
    }
}

fn test_context_with_diff() -> HookContext {
    HookContext {
        branch: "feature-test".to_string(),
        mount_path: "/mounts/repo/feature-test".to_string(),
        worktree_path: "/worktrees/repo/feature-test".to_string(),
        repo_path: "/repos/myrepo".to_string(),
        diff: Some("diff --git a/file.txt b/file.txt\n+new line".to_string()),
    }
}

#[test]
fn test_expand_template_branch() {
    let ctx = test_context();
    let result = expand_template("echo {{branch}}", &ctx);
    assert_eq!(result, "echo feature-test");
}

#[test]
fn test_expand_template_mount_path() {
    let ctx = test_context();
    let result = expand_template("cd {{mount_path}}", &ctx);
    assert_eq!(result, "cd /mounts/repo/feature-test");
}

#[test]
fn test_expand_template_worktree_path() {
    let ctx = test_context();
    let result = expand_template("ls {{worktree_path}}", &ctx);
    assert_eq!(result, "ls /worktrees/repo/feature-test");
}

#[test]
fn test_expand_template_repo_path() {
    let ctx = test_context();
    let result = expand_template("git -C {{repo_path}} status", &ctx);
    assert_eq!(result, "git -C /repos/myrepo status");
}

#[test]
fn test_expand_template_multiple_variables() {
    let ctx = test_context();
    let result = expand_template("echo 'Branch {{branch}} at {{mount_path}}'", &ctx);
    assert_eq!(
        result,
        "echo 'Branch feature-test at /mounts/repo/feature-test'"
    );
}

#[test]
fn test_expand_template_diff_empty_when_none() {
    let ctx = test_context();
    let result = expand_template("echo '{{diff}}'", &ctx);
    assert_eq!(result, "echo ''");
}

#[test]
fn test_expand_template_diff_with_content() {
    let ctx = test_context_with_diff();
    let result = expand_template("echo '{{diff}}'", &ctx);
    assert_eq!(result, "echo 'diff --git a/file.txt b/file.txt\n+new line'");
}

#[test]
fn test_expand_template_diff_escapes_single_quotes() {
    let ctx = HookContext {
        branch: "feature-test".to_string(),
        mount_path: "/mounts/repo/feature-test".to_string(),
        worktree_path: "/worktrees/repo/feature-test".to_string(),
        repo_path: "/repos/myrepo".to_string(),
        diff: Some("test'injection".to_string()),
    };
    let result = expand_template("echo '{{diff}}'", &ctx);
    assert_eq!(result, "echo 'test'\\''injection'");
}

#[test]
fn test_shell_escape() {
    assert_eq!(shell_escape("hello"), "hello");
    assert_eq!(shell_escape("it's"), "it'\\''s");
    assert_eq!(shell_escape("'quoted'"), "'\\''quoted'\\''");
    assert_eq!(shell_escape("no quotes here"), "no quotes here");
}

#[test]
fn test_expand_template_no_variables() {
    let ctx = test_context();
    let result = expand_template("npm install", &ctx);
    assert_eq!(result, "npm install");
}

#[test]
fn test_expand_template_repeated_variable() {
    let ctx = test_context();
    let result = expand_template("{{branch}}-{{branch}}", &ctx);
    assert_eq!(result, "feature-test-feature-test");
}

#[test]
fn test_env_vars() {
    let ctx = test_context();
    let vars = ctx.env_vars();

    assert_eq!(vars.len(), 4);
    assert!(vars
        .iter()
        .any(|(k, v)| *k == "TREEBEARD_BRANCH" && v == "feature-test"));
    assert!(vars
        .iter()
        .any(|(k, v)| *k == "TREEBEARD_MOUNT_PATH" && v == "/mounts/repo/feature-test"));
    assert!(vars
        .iter()
        .any(|(k, v)| *k == "TREEBEARD_WORKTREE_PATH" && v == "/worktrees/repo/feature-test"));
    assert!(vars
        .iter()
        .any(|(k, v)| *k == "TREEBEARD_REPO_PATH" && v == "/repos/myrepo"));
}

#[test]
fn new_context_has_no_diff() {
    let ctx = HookContext::new("b", "/m", "/w", "/r");
    assert_eq!(ctx.branch, "b");
    assert_eq!(ctx.mount_path, "/m");
    assert_eq!(ctx.worktree_path, "/w");
    assert_eq!(ctx.repo_path, "/r");
    assert!(ctx.diff.is_none());
    let with = HookContext::with_diff("b", "/m", "/w", "/r", "d".to_string());
    assert_eq!(with.diff, Some("d".to_string()));
}

#[test]
fn commit_message_output_is_trimmed() {
    assert_eq!(
        commit_message_from_output("  trimmed message  \n"),
        Some("trimmed message".to_string())
    );
    assert_eq!(commit_message_from_output(""), None);
    assert_eq!(commit_message_from_output(" \n\t "), None);
}

#[test]
fn hook_failure_text() {
    let e = hook_failed_error("false", "1");
    let text = e.to_string();
    assert_eq!(text, "Hook failed: Hook 'false' failed with exit code 1");
    assert!(text.contains("Hook"));
    assert!(text.contains("failed"));
}

fn step_context() -> HookContext {
    HookContext::new("feat", "/m", "/w", "/r")
}

#[test]
fn hooks_run_in_order_until_done() {
    let hooks = vec!["echo {{branch}}".to_string(), "make".to_string()];
    let ctx = step_context();
    match next_hook_step(&hooks, &ctx, 0, None) {
        HookStep::Run(c) => assert_eq!(c, "echo feat"),
        _ => panic!("expected the first hook"),
    }
    match next_hook_step(&hooks, &ctx, 1, Some(HookOutcome::Succeeded)) {
        HookStep::Run(c) => assert_eq!(c, "make"),
        _ => panic!("expected the second hook"),
    }
    assert!(matches!(
        next_hook_step(&hooks, &ctx, 2, Some(HookOutcome::Succeeded)),
        HookStep::Done
    ));
    assert!(matches!(next_hook_step(&vec![], &ctx, 0, None), HookStep::Done));
}

#[test]
fn a_failed_hook_stops_the_rest() {
    let hooks = vec!["exit 1".to_string(), "echo never".to_string()];
    let ctx = step_context();
    match next_hook_step(&hooks, &ctx, 1, Some(HookOutcome::Failed(Some(1)))) {
        HookStep::Stop(e) => {
            assert_eq!(e.to_string(), "Hook failed: Hook 'exit 1' failed with exit code 1")
        }
        _ => panic!("expected to stop"),
    }
    match next_hook_step(&hooks, &ctx, 1, Some(HookOutcome::Failed(None))) {
        HookStep::Stop(TreebeardError::Hook(m)) => {
            assert_eq!(m, "Hook 'exit 1' failed with exit code unknown")
        }
        _ => panic!("expected to stop"),
    }
    match next_hook_step(&hooks, &ctx, 1, Some(HookOutcome::Failed(Some(-2)))) {
        HookStep::Stop(TreebeardError::Hook(m)) => {
            assert_eq!(m, "Hook 'exit 1' failed with exit code -2")
        }
        _ => panic!("expected to stop"),
    }
    match next_hook_step(&hooks, &ctx, 1, Some(HookOutcome::NotStarted("no sh".to_string()))) {
        HookStep::Stop(TreebeardError::Hook(m)) => {
            assert_eq!(m, "Failed to execute hook 'exit 1': no sh")
        }
        _ => panic!("expected to stop"),
    }
}

#[test]
fn commit_message_hook_results() {
    assert_eq!(
        commit_message_hook_result("gen", HookOutcome::Succeeded, "  fix: thing \n", "").unwrap(),
        Some("fix: thing".to_string())
    );
    assert_eq!(
        commit_message_hook_result("gen", HookOutcome::Succeeded, " \n", "").unwrap(),
        None
    );
    match commit_message_hook_result("gen", HookOutcome::Failed(Some(3)), "", " bad input\n") {
        Err(TreebeardError::Hook(m)) => {
            assert_eq!(m, "Commit message hook 'gen' failed with exit code 3: bad input")
        }
        _ => panic!("expected the error"),
    }
    match commit_message_hook_result("gen", HookOutcome::NotStarted("gone".to_string()), "", "") {
        Err(TreebeardError::Hook(m)) => {
            assert_eq!(m, "Failed to execute commit message hook 'gen': gone")
        }
        _ => panic!("expected the error"),
    }
}
