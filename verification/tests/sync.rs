use std::collections::HashSet;

use treebeard::config::Config;
use treebeard::overlay::types::MutationType;
use treebeard::sync::aggregation::{
    aggregate_changes, check_ignore_request, directory_candidates, filter_syncable_items,
    find_top_ignored_ancestor, parse_check_ignore_output, FilteredItems, syncable_file_paths, GitCheckIgnoreError,
};
use treebeard::sync::config::{save_include_pattern, save_skip_pattern};
use treebeard::sync::display::{diff_too_large, format_diff, render_diff_groups, DiffTag};
use treebeard::sync::files::{detect_binary, path_matches_pattern, should_skip_diff, CompiledPatterns};
use treebeard::sync::ops::{
    create_sync_result, split_selected, sync_flow_step, tally_sync, SyncFlowStep,
};
use treebeard::sync::selection::{
    directory_pattern, execute_selection_action, handle_key_input, is_sync_answer,
    parse_directory_choice, parse_sync_choice, preselect, ActionOutcome, DirectoryChoice,
    DirectoryOutcome, DirectorySelection, KeyInput, SelectionAction, SyncChoice,
};
use treebeard::sync::types::{ChangeItem, ChangeType, DirectoryChange, FileChange, SyncResult};
use treebeard::sync::MAX_DIFF_FILE_SIZE;

fn file(path: &str, t: ChangeType) -> FileChange {
    FileChange {
        path: path.to_string(),
        change_type: t,
    }
}

fn dir(path: &str, files: Vec<FileChange>) -> ChangeItem {
    ChangeItem::Directory(DirectoryChange {
        path: path.to_string(),
        modified_count: files.iter().filter(|f| f.change_type == ChangeType::Modified).count(),
        added_count: files.iter().filter(|f| f.change_type == ChangeType::Added).count(),
        deleted_count: files.iter().filter(|f| f.change_type == ChangeType::Deleted).count(),
        files,
    })
}

fn item_path(item: &ChangeItem) -> String {
    match item {
        ChangeItem::File(f) => f.path.clone(),
        ChangeItem::Directory(d) => d.path.clone(),
    }
}

#[test]
fn test_git_check_ignore_error_display() {
    let error = GitCheckIgnoreError {
        message: "test error".to_string(),
    };
    assert_eq!(error.to_string(), "git check-ignore failed: test error");
}

#[test]
fn change_type_names_and_prefixes() {
    assert_eq!(ChangeType::Modified.as_str(), "modified");
    assert_eq!(ChangeType::Added.as_str(), "added");
    assert_eq!(ChangeType::Deleted.as_str(), "deleted");
    assert_eq!(ChangeType::Modified.as_prefix(), "~");
    assert_eq!(ChangeType::Added.as_prefix(), "+");
    assert_eq!(ChangeType::Deleted.as_prefix(), "-");
}

#[test]
fn change_type_from_mutation() {
    assert_eq!(ChangeType::from(MutationType::CopiedUp), ChangeType::Modified);
    assert_eq!(ChangeType::from(MutationType::Created), ChangeType::Added);
    assert_eq!(ChangeType::from(MutationType::Deleted), ChangeType::Deleted);
}

#[test]
fn change_item_display_text() {
    let f = ChangeItem::File(file("a.txt", ChangeType::Added));
    assert_eq!(f.to_string(), "a.txt");
    let d = dir(
        "build",
        vec![file("build/a", ChangeType::Added), file("build/b", ChangeType::Deleted)],
    );
    assert_eq!(d.to_string(), "build (2 files)");
}

#[test]
fn top_ignored_ancestor_is_the_topmost() {
    let ignored = vec!["a/b".to_string(), "a".to_string()];
    assert_eq!(
        find_top_ignored_ancestor("a/b/c/d.txt", &ignored),
        Some("a".to_string())
    );
    let ignored = vec!["a/b".to_string()];
    assert_eq!(
        find_top_ignored_ancestor("a/b/c/d.txt", &ignored),
        Some("a/b".to_string())
    );
    assert_eq!(find_top_ignored_ancestor("x/y.txt", &ignored), None);
}

#[test]
fn top_ignored_ancestor_compares_as_paths() {
    let ignored = vec!["a//b/".to_string()];
    assert_eq!(
        find_top_ignored_ancestor("a/b/c.txt", &ignored),
        Some("a/b".to_string())
    );
}

#[test]
fn aggregate_groups_under_ignored_directory() {
    let mutations = vec![
        ("build/out/a.o".to_string(), MutationType::CopiedUp),
        ("build/out/b.o".to_string(), MutationType::Created),
        ("src/main.rs".to_string(), MutationType::CopiedUp),
        ("link".to_string(), MutationType::Created),
    ];
    let symlinks = vec![false, false, false, true];
    let ignored = vec!["build".to_string()];
    let r = aggregate_changes(&mutations, &symlinks, &ignored);
    assert_eq!(r.symlinks_skipped, 1);
    assert_eq!(r.items.len(), 2);
    match &r.items[0] {
        ChangeItem::Directory(d) => {
            assert_eq!(d.path, "build");
            assert_eq!(d.files.len(), 2);
            assert_eq!(d.files[0].path, "build/out/a.o");
            assert_eq!(d.files[1].path, "build/out/b.o");
            assert_eq!(d.modified_count, 1);
            assert_eq!(d.added_count, 1);
            assert_eq!(d.deleted_count, 0);
        }
        _ => panic!("expected a directory entry"),
    }
    match &r.items[1] {
        ChangeItem::File(f) => {
            assert_eq!(f.path, "src/main.rs");
            assert_eq!(f.change_type, ChangeType::Modified);
        }
        _ => panic!("expected a file entry"),
    }
}

#[test]
fn aggregate_single_file_group_stays_a_file() {
    let mutations = vec![("target/x".to_string(), MutationType::Deleted)];
    let r = aggregate_changes(&mutations, &vec![false], &vec!["target".to_string()]);
    assert_eq!(r.items.len(), 1);
    match &r.items[0] {
        ChangeItem::File(f) => {
            assert_eq!(f.path, "target/x");
            assert_eq!(f.change_type, ChangeType::Deleted);
        }
        _ => panic!("expected a file entry"),
    }
    assert_eq!(r.symlinks_skipped, 0);
}

#[test]
fn aggregate_accounts_for_every_mutation() {
    let mutations = vec![
        ("a/1".to_string(), MutationType::Created),
        ("a/2".to_string(), MutationType::Created),
        ("b/3".to_string(), MutationType::Created),
        ("c".to_string(), MutationType::Created),
        ("d".to_string(), MutationType::Created),
    ];
    let symlinks = vec![false, false, false, true, false];
    let ignored = vec!["a".to_string(), "b".to_string()];
    let r = aggregate_changes(&mutations, &symlinks, &ignored);
    let total: usize = r
        .items
        .iter()
        .map(|i| match i {
            ChangeItem::File(_) => 1,
            ChangeItem::Directory(d) => d.files.len(),
        })
        .sum();
    assert_eq!(total + r.symlinks_skipped, mutations.len());
}

#[test]
fn directory_candidates_lists_each_ancestor_once() {
    let mutations = vec![
        ("build/out/a.o".to_string(), MutationType::CopiedUp),
        ("build/out/b.o".to_string(), MutationType::Created),
        ("src/main.rs".to_string(), MutationType::CopiedUp),
        ("skipped/link".to_string(), MutationType::Created),
    ];
    let symlinks = vec![false, false, false, true];
    let c = directory_candidates(&mutations, &symlinks);
    let set: HashSet<String> = c.iter().cloned().collect();
    assert_eq!(set.len(), c.len());
    let expected: HashSet<String> = ["build/out", "build", "src"]
        .iter()
        .map(|s| s.to_string())
        .collect();
    assert_eq!(set, expected);
}

#[test]
fn check_ignore_request_skips_empty_paths() {
    let paths = vec!["a".to_string(), "".to_string(), "b/c".to_string()];
    assert_eq!(check_ignore_request(&paths), b"a\0b/c\0".to_vec());
    assert!(check_ignore_request(&vec![]).is_empty());
}

#[test]
fn check_ignore_output_is_split_at_nul() {
    assert_eq!(
        parse_check_ignore_output(&b"a\0b/c\0".to_vec()),
        vec!["a".to_string(), "b/c".to_string()]
    );
    assert_eq!(
        parse_check_ignore_output(&b"\xff\0c\0\0".to_vec()),
        vec!["c".to_string()]
    );
    assert!(parse_check_ignore_output(&Vec::new()).is_empty());
}

#[test]
fn syncable_file_paths_flattens_directories() {
    let items = vec![
        ChangeItem::File(file("a", ChangeType::Added)),
        dir(
            "d",
            vec![file("d/x", ChangeType::Added), file("d/y", ChangeType::Modified)],
        ),
    ];
    assert_eq!(
        syncable_file_paths(&items),
        vec!["a".to_string(), "d/x".to_string(), "d/y".to_string()]
    );
}

#[test]
fn filter_keeps_ignored_items_and_splits_by_skip_patterns() {
    let items = vec![
        ChangeItem::File(file("build.log", ChangeType::Modified)),
        dir(
            "node_modules",
            vec![
                file("node_modules/x.js", ChangeType::Added),
                file("node_modules/y.js", ChangeType::Added),
            ],
        ),
        ChangeItem::File(file("src/lib.rs", ChangeType::Modified)),
    ];
    let ignored = vec!["build.log".to_string(), "node_modules/x.js".to_string()];
    let mut config = Config::default_for(false);
    config.sync.sync_always_skip = Some(vec!["*.log".to_string()]);
    let filtered = filter_syncable_items(items, Ok(ignored), &config.sync).unwrap();
    assert_eq!(filtered.items_to_show.len(), 1);
    assert_eq!(item_path(&filtered.items_to_show[0]), "node_modules");
    assert_eq!(filtered.auto_skipped.len(), 1);
    assert_eq!(item_path(&filtered.auto_skipped[0]), "build.log");
}

#[test]
fn filter_passes_git_error_on() {
    let items = vec![ChangeItem::File(file("some/file.txt", ChangeType::Modified))];
    let config = Config::default_for(false);
    let r = filter_syncable_items(
        items,
        Err(GitCheckIgnoreError {
            message: "boom".to_string(),
        }),
        &config.sync,
    );
    match r {
        Err(e) => assert_eq!(e.message, "boom"),
        Ok(_) => panic!("expected the error"),
    }
}

#[test]
fn detect_binary_looks_at_first_8192_bytes() {
    assert!(!detect_binary(b""));
    assert!(!detect_binary(b"plain text"));
    assert!(detect_binary(b"abc\0def"));
    let mut late = vec![b'x'; 9000];
    late[8500] = 0;
    assert!(!detect_binary(&late));
    let mut early = vec![b'x'; 9000];
    early[100] = 0;
    assert!(detect_binary(&early));
}

#[test]
fn test_should_skip_diff_small_file() {
    // "small content" in the repository, "small content modified" in the worktree.
    assert!(!should_skip_diff(Some(22), Some(13)));
}

#[test]
fn test_should_skip_diff_large_file() {
    assert!(should_skip_diff(Some(MAX_DIFF_FILE_SIZE + 1), Some(5)));
}

#[test]
fn test_should_skip_diff_repo_file_large() {
    assert!(should_skip_diff(Some(22), Some(MAX_DIFF_FILE_SIZE + 1)));
}

#[test]
fn test_should_skip_diff_both_not_large() {
    assert!(!should_skip_diff(
        Some(MAX_DIFF_FILE_SIZE),
        Some(MAX_DIFF_FILE_SIZE)
    ));
}

#[test]
fn should_skip_diff_unreadable_size_tries_the_diff() {
    assert!(!should_skip_diff(None, Some(MAX_DIFF_FILE_SIZE + 1)));
    assert!(!should_skip_diff(Some(MAX_DIFF_FILE_SIZE + 1), None));
}

#[test]
fn patterns_match_and_invalid_ones_are_dropped() {
    let patterns = vec!["[".to_string(), "*.log".to_string()];
    let compiled = CompiledPatterns::new(&patterns);
    assert!(compiled.matches("a.log"));
    assert!(compiled.matches("dir/a.log"));
    assert!(!compiled.matches("a.txt"));
    assert!(path_matches_pattern(
        "node_modules/x/y.js",
        &["node_modules/**".to_string()]
    ));
    assert!(!path_matches_pattern("src/x.js", &["node_modules/**".to_string()]));
    assert!(!path_matches_pattern("anything", &["[".to_string()]));
}

#[test]
fn saving_a_pattern_twice_changes_the_config_once() {
    let mut config = Config::default_for(false);
    assert!(save_skip_pattern(&mut config, "build/**".to_string()));
    assert!(!save_skip_pattern(&mut config, "build/**".to_string()));
    assert_eq!(
        config.sync.sync_always_skip,
        Some(vec!["build/**".to_string()])
    );
    assert!(config.sync.sync_always_include.is_none());
    assert!(save_include_pattern(&mut config, "dist/**".to_string()));
    assert_eq!(
        config.sync.sync_always_include,
        Some(vec!["dist/**".to_string()])
    );
}

#[test]
fn format_diff_marks_changed_lines() {
    let d = format_diff("a\nb\nc\n", "a\nB\nc\n");
    assert_eq!(d, " a\n-b\n+B\n c\n");
    assert_eq!(format_diff("same\n", "same\n"), "");
}

#[test]
fn render_diff_groups_separates_hunks() {
    let groups = vec![
        vec![(DiffTag::Delete, "x\n".to_string())],
        vec![(DiffTag::Insert, "y\n".to_string()), (DiffTag::Equal, "z\n".to_string())],
    ];
    assert_eq!(render_diff_groups(&groups), "-x\n...\n+y\n z\n");
}

#[test]
fn diff_size_limits() {
    let small = "-a\n+b\n";
    assert!(!diff_too_large(small));
    let many: String = (0..16).map(|i| format!("+{}\n", i)).collect();
    assert!(diff_too_large(&many));
    let long = format!("+{}\n", "x".repeat(201));
    assert!(diff_too_large(&long));
    let edge = format!("{}\n", "x".repeat(200));
    assert!(!diff_too_large(&edge));
}

#[test]
fn tally_counts_files_and_failures() {
    let items = vec![
        ChangeItem::File(file("a", ChangeType::Added)),
        dir(
            "d",
            vec![file("d/x", ChangeType::Added), file("d/y", ChangeType::Added)],
        ),
    ];
    let outcomes = vec![vec![None], vec![None, Some("disk full".to_string())]];
    let stats = tally_sync(&items, &outcomes);
    assert_eq!(stats.synced_files, vec!["a".to_string(), "d/x".to_string()]);
    assert_eq!(
        stats.failed_files,
        vec![("d/y".to_string(), "disk full".to_string())]
    );
    assert_eq!(stats.total_count, 3);
    match create_sync_result(stats) {
        SyncResult::Partial(p) => {
            assert_eq!(p.total_count, 3);
            assert_eq!(p.synced_files.len(), 2);
            assert_eq!(p.failed_files.len(), 1);
        }
        other => panic!("unexpected {:?}", other),
    }
}

#[test]
fn tally_without_failures_is_synced() {
    let items = vec![ChangeItem::File(file("a", ChangeType::Added))];
    let stats = tally_sync(&items, &vec![vec![None]]);
    assert_eq!(create_sync_result(stats), SyncResult::Synced(1));
    let failed = tally_sync(&items, &vec![vec![Some("e".to_string())]]);
    assert_eq!(failed.total_count, 0);
}

#[test]
fn split_selected_keeps_order() {
    let items = vec![
        ChangeItem::File(file("a", ChangeType::Added)),
        ChangeItem::File(file("b", ChangeType::Added)),
        ChangeItem::File(file("c", ChangeType::Added)),
    ];
    let selected: HashSet<usize> = [0usize, 2].into_iter().collect();
    let (to_sync, skipped) = split_selected(&items, &selected);
    assert_eq!(to_sync.iter().map(item_path).collect::<Vec<_>>(), vec!["a", "c"]);
    assert_eq!(skipped.iter().map(item_path).collect::<Vec<_>>(), vec!["b"]);
}

#[test]
fn sync_flow_steps() {
    let err: Result<FilteredItems, GitCheckIgnoreError> = Err(GitCheckIgnoreError {
        message: "x".to_string(),
    });
    assert_eq!(sync_flow_step(&err), SyncFlowStep::GitCheckFailed);
    let none = Ok(FilteredItems {
        items_to_show: vec![],
        auto_skipped: vec![],
    });
    assert_eq!(sync_flow_step(&none), SyncFlowStep::NothingModified);
    let skipped = Ok(FilteredItems {
        items_to_show: vec![],
        auto_skipped: vec![ChangeItem::File(file("a", ChangeType::Added))],
    });
    assert_eq!(sync_flow_step(&skipped), SyncFlowStep::AllAutoSkipped);
    let single = Ok(FilteredItems {
        items_to_show: vec![ChangeItem::File(file("a", ChangeType::Added))],
        auto_skipped: vec![],
    });
    assert_eq!(sync_flow_step(&single), SyncFlowStep::SingleFile);
    let one_dir = Ok(FilteredItems {
        items_to_show: vec![dir(
            "d",
            vec![file("d/1", ChangeType::Added), file("d/2", ChangeType::Added)],
        )],
        auto_skipped: vec![],
    });
    assert_eq!(sync_flow_step(&one_dir), SyncFlowStep::Summary);
}

#[test]
fn keys_map_to_actions() {
    assert_eq!(handle_key_input(true, KeyInput::Up), SelectionAction::CursorUp);
    assert_eq!(handle_key_input(true, KeyInput::Down), SelectionAction::CursorDown);
    assert_eq!(
        handle_key_input(true, KeyInput::Char(' ')),
        SelectionAction::ToggleSelection
    );
    assert_eq!(
        handle_key_input(true, KeyInput::Char('a')),
        SelectionAction::ToggleSelectAll
    );
    assert_eq!(handle_key_input(true, KeyInput::Char('d')), SelectionAction::Done);
    assert_eq!(handle_key_input(true, KeyInput::Enter), SelectionAction::ViewDetails);
    assert_eq!(
        handle_key_input(true, KeyInput::Char('n')),
        SelectionAction::ViewDirectoryFiles
    );
    assert_eq!(handle_key_input(true, KeyInput::Char('q')), SelectionAction::Quit);
    assert_eq!(handle_key_input(true, KeyInput::Char('z')), SelectionAction::NoAction);
    assert_eq!(handle_key_input(false, KeyInput::Char('q')), SelectionAction::NoAction);
}

#[test]
fn selection_actions_move_cursor_and_toggle() {
    let items = vec![
        ChangeItem::File(file("a", ChangeType::Added)),
        dir(
            "d",
            vec![file("d/1", ChangeType::Added), file("d/2", ChangeType::Added)],
        ),
    ];
    let mut cursor = 0usize;
    let mut selected: HashSet<usize> = HashSet::new();
    assert_eq!(
        execute_selection_action(SelectionAction::CursorUp, &items, &mut cursor, &mut selected),
        ActionOutcome::Continue
    );
    assert_eq!(cursor, 0);
    execute_selection_action(SelectionAction::CursorDown, &items, &mut cursor, &mut selected);
    assert_eq!(cursor, 1);
    execute_selection_action(SelectionAction::CursorDown, &items, &mut cursor, &mut selected);
    assert_eq!(cursor, 1);
    execute_selection_action(SelectionAction::ToggleSelection, &items, &mut cursor, &mut selected);
    assert!(selected.contains(&1));
    execute_selection_action(SelectionAction::ToggleSelection, &items, &mut cursor, &mut selected);
    assert!(selected.is_empty());
    execute_selection_action(SelectionAction::ToggleSelectAll, &items, &mut cursor, &mut selected);
    assert_eq!(selected.len(), 2);
    execute_selection_action(SelectionAction::ToggleSelectAll, &items, &mut cursor, &mut selected);
    assert!(selected.is_empty());
    assert_eq!(
        execute_selection_action(SelectionAction::ViewDirectoryFiles, &items, &mut cursor, &mut selected),
        ActionOutcome::ViewDirectoryFiles(1)
    );
    assert_eq!(
        execute_selection_action(SelectionAction::ViewDetails, &items, &mut cursor, &mut selected),
        ActionOutcome::ViewDetails(1)
    );
    assert_eq!(
        execute_selection_action(SelectionAction::Done, &items, &mut cursor, &mut selected),
        ActionOutcome::SyncSelected
    );
    assert_eq!(
        execute_selection_action(SelectionAction::Quit, &items, &mut cursor, &mut selected),
        ActionOutcome::Exit(SyncResult::Skipped)
    );
    assert_eq!(
        execute_selection_action(SelectionAction::Cancelled, &items, &mut cursor, &mut selected),
        ActionOutcome::Exit(SyncResult::Cancelled)
    );
    cursor = 0;
    assert_eq!(
        execute_selection_action(SelectionAction::ViewDirectoryFiles, &items, &mut cursor, &mut selected),
        ActionOutcome::Continue
    );
}

#[test]
fn preselect_uses_the_include_patterns() {
    let items = vec![
        ChangeItem::File(file(".env", ChangeType::Modified)),
        ChangeItem::File(file("notes.txt", ChangeType::Modified)),
    ];
    let patterns = CompiledPatterns::new(&[".env".to_string()]);
    let selected = preselect(&items, &patterns);
    assert!(selected.contains(&0));
    assert!(!selected.contains(&1));
    assert_eq!(selected.len(), 1);
}

#[test]
fn directory_browsing_turns_pages() {
    let mut s = DirectorySelection::new(20);
    assert_eq!(s.total_pages(), 2);
    assert_eq!(s.page_range(), (0, 15));
    for _ in 0..15 {
        assert_eq!(s.handle_key(true, KeyInput::Down), DirectoryOutcome::Continue);
    }
    assert_eq!(s.cursor, 15);
    assert_eq!(s.page, 1);
    assert_eq!(s.page_range(), (15, 20));
    s.handle_key(true, KeyInput::Up);
    assert_eq!((s.cursor, s.page), (14, 0));
    s.handle_key(true, KeyInput::Char('n'));
    assert_eq!((s.cursor, s.page), (15, 1));
    s.handle_key(true, KeyInput::Char('n'));
    assert_eq!((s.cursor, s.page), (15, 1));
    s.handle_key(true, KeyInput::Char('p'));
    assert_eq!((s.cursor, s.page), (0, 0));
    s.handle_key(true, KeyInput::Char(' '));
    s.handle_key(true, KeyInput::Char('a'));
    assert_eq!(s.selected.len(), 20);
    assert_eq!(s.handle_key(true, KeyInput::Char('d')), DirectoryOutcome::Done(20));
    assert_eq!(s.handle_key(true, KeyInput::Enter), DirectoryOutcome::ViewDiff(0));
    assert_eq!(s.handle_key(true, KeyInput::Char('q')), DirectoryOutcome::Back);
    assert_eq!(s.handle_key(false, KeyInput::Char('q')), DirectoryOutcome::Continue);
}

#[test]
fn typed_answers() {
    assert_eq!(parse_sync_choice(" A \n"), SyncChoice::All);
    assert_eq!(parse_sync_choice("s\n"), SyncChoice::Select);
    assert_eq!(parse_sync_choice("\n"), SyncChoice::Nothing);
    assert_eq!(parse_sync_choice("N"), SyncChoice::Nothing);
    assert_eq!(parse_sync_choice("maybe"), SyncChoice::Invalid);
    assert!(is_sync_answer("Y\n"));
    assert!(!is_sync_answer("yes"));
    assert_eq!(parse_directory_choice("y\n", 3), DirectoryChoice::Sync);
    assert_eq!(parse_directory_choice("r", 3), DirectoryChoice::RememberSkip);
    assert_eq!(parse_directory_choice("R", 3), DirectoryChoice::RememberInclude);
    assert_eq!(parse_directory_choice("v", 50), DirectoryChoice::ViewFiles);
    assert_eq!(parse_directory_choice("v", 51), DirectoryChoice::Skip);
    assert_eq!(parse_directory_choice("Y", 3), DirectoryChoice::Skip);
    assert_eq!(directory_pattern("node_modules"), "node_modules/**");
}

#[test]
fn test_filter_syncable_items_propagates_git_error() {
    // Outside a repository git either answers with nothing ignored or fails:
    // nothing is shown in the first case, the failure is passed on in the
    // second.
    let sync_config = Config::default_for(false).sync;
    let items = || {
        vec![ChangeItem::File(FileChange {
            path: "some/file.txt".to_string(),
            change_type: ChangeType::Modified,
        })]
    };
    let answered = filter_syncable_items(items(), Ok(Vec::new()), &sync_config);
    match answered {
        Ok(filtered) => assert!(filtered.items_to_show.is_empty()),
        Err(e) => panic!("unexpected error: {}", e.message),
    }
    let failed = filter_syncable_items(
        items(),
        Err(GitCheckIgnoreError {
            message: "failed to spawn git: No such file or directory".to_string(),
        }),
        &sync_config,
    );
    match failed {
        Ok(_) => panic!("expected the error"),
        Err(e) => assert!(!e.message.is_empty()),
    }
}

#[test]
fn directory_keys_other_than_moves_keep_cursor_and_page() {
    let mut s = DirectorySelection::new(40);
    s.handle_key(true, KeyInput::Down);
    s.handle_key(true, KeyInput::Down);
    assert_eq!((s.cursor, s.page), (2, 0));
    for key in [KeyInput::Char(' '), KeyInput::Char('a'), KeyInput::Char('z'), KeyInput::Enter] {
        s.handle_key(true, key);
        assert_eq!((s.cursor, s.page), (2, 0));
    }
    // `p` on the first page and `n` on the last leave the cursor where it is.
    s.handle_key(true, KeyInput::Char('p'));
    assert_eq!((s.cursor, s.page), (2, 0));
    s.handle_key(true, KeyInput::Char('n'));
    s.handle_key(true, KeyInput::Char('n'));
    assert_eq!((s.cursor, s.page), (30, 2));
    s.handle_key(true, KeyInput::Down);
    s.handle_key(true, KeyInput::Char('n'));
    assert_eq!((s.cursor, s.page), (31, 2));
}
