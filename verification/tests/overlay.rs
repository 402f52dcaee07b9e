use tempfile::tempdir;

use treebeard::error::TreebeardError;
use treebeard::overlay::mount::{
    fuse_cleanup_result, should_remove_mount_dir, stale_mount_paths, unmount_command,
    validate_mount_path,
};
use treebeard::overlay::path_resolver::{match_text_of, PathResolver, ResolveProbe};
use treebeard::overlay::types::LayerType;
use treebeard::overlay::whiteout::Whiteout;

fn layers() -> (String, String) {
    let temp_dir = tempdir().unwrap();
    let upper = temp_dir.path().join("upper");
    let lower = temp_dir.path().join("lower");
    (
        upper.to_str().unwrap().to_string(),
        lower.to_str().unwrap().to_string(),
    )
}

fn probe(lower_exists: bool, upper_whiteout: bool, upper_exists: bool) -> ResolveProbe {
    ResolveProbe {
        lower_exists,
        upper_whiteout,
        upper_exists,
        canonical_upper: None,
        canonical_lower: None,
    }
}

#[test]
fn test_layer_base_path() {
    let (upper, lower) = layers();
    let resolver = PathResolver::new(upper.clone(), lower.clone(), vec![]).unwrap();
    assert_eq!(resolver.layer_base_path(LayerType::Upper), upper);
    assert_eq!(resolver.layer_base_path(LayerType::Lower), lower);
}

#[test]
fn test_is_passthrough() {
    let (upper, lower) = layers();
    let resolver = PathResolver::new(
        upper,
        lower,
        vec![".cache/**".to_string(), "node_modules/**".to_string()],
    )
    .unwrap();

    assert!(resolver.is_passthrough(".cache/config.toml"));
    assert!(resolver.is_passthrough("node_modules/package/index.js"));
    assert!(resolver.is_passthrough(".cache"));
    assert!(!resolver.is_passthrough("src/main.rs"));
    assert!(!resolver.is_passthrough(".git/config"));
}

#[test]
fn test_resolve_path() {
    let resolver = PathResolver::new("/u".to_string(), "/l".to_string(), vec![]).unwrap();

    let (path, layer) = resolver
        .resolve_path("lower_only.txt", &probe(true, false, false))
        .unwrap();
    assert_eq!(layer, LayerType::Lower);
    assert_eq!(path, "/l/lower_only.txt");

    let (path, layer) = resolver.resolve_path("both.txt", &probe(true, false, true)).unwrap();
    assert_eq!(layer, LayerType::Upper);
    assert_eq!(path, "/u/both.txt");

    assert!(resolver
        .resolve_path("nonexistent.txt", &probe(false, false, false))
        .is_none());
}

#[test]
fn test_resolve_path_with_whiteout() {
    let resolver = PathResolver::new("/u".to_string(), "/l".to_string(), vec![]).unwrap();
    assert!(resolver
        .resolve_path("deleted.txt", &probe(true, true, false))
        .is_none());
}

#[test]
fn resolve_prefers_canonical_paths() {
    let resolver = PathResolver::new("/u".to_string(), "/l".to_string(), vec![]).unwrap();
    let p = ResolveProbe {
        lower_exists: true,
        upper_whiteout: false,
        upper_exists: true,
        canonical_upper: Some("/real/u/x".to_string()),
        canonical_lower: None,
    };
    assert_eq!(
        resolver.resolve_path("x", &p),
        Some(("/real/u/x".to_string(), LayerType::Upper))
    );
}

#[test]
fn passthrough_resolves_only_to_lower() {
    let resolver =
        PathResolver::new("/u".to_string(), "/l".to_string(), vec![".cache/**".to_string()])
            .unwrap();
    assert_eq!(
        resolver.resolve_path(".cache/a", &probe(true, true, true)),
        Some(("/l/.cache/a".to_string(), LayerType::Lower))
    );
    assert!(resolver.resolve_path(".cache/a", &probe(false, false, true)).is_none());
}

#[test]
fn invalid_passthrough_pattern_is_refused() {
    let r = PathResolver::new("/u".to_string(), "/l".to_string(), vec!["[".to_string()]);
    match r {
        Err(TreebeardError::Config(m)) => {
            assert!(m.starts_with("Invalid passthrough glob pattern '['"));
        }
        _ => panic!("expected a config error"),
    }
}

#[test]
fn layer_paths_join() {
    let resolver = PathResolver::new("/u".to_string(), "/l".to_string(), vec![]).unwrap();
    assert_eq!(resolver.upper_path("a/b"), "/u/a/b");
    assert_eq!(resolver.lower_path("a/b"), "/l/a/b");
}

#[test]
fn match_text_drops_leading_cur_dir() {
    assert_eq!(match_text_of("./a/b/"), "a/b");
    assert_eq!(match_text_of("/a/b/"), "/a/b/");
    assert_eq!(match_text_of("a"), "a");
}

#[test]
fn test_marker_name() {
    assert_eq!(Whiteout::marker_name("test.txt"), ".wh.test.txt");
}

#[test]
fn test_is_whiteout_marker() {
    assert!(Whiteout::is_whiteout_marker(".wh.foo"));
    assert!(Whiteout::is_whiteout_marker(".wh.bar.txt"));
    assert!(!Whiteout::is_whiteout_marker("foo"));
    assert!(!Whiteout::is_whiteout_marker(".hidden"));
    assert!(!Whiteout::is_whiteout_marker("wh.foo"));
}

#[test]
fn test_extract_target() {
    assert_eq!(Whiteout::extract_target(".wh.foo"), Some("foo".to_string()));
    assert_eq!(Whiteout::extract_target(".wh.bar.txt"), Some("bar.txt".to_string()));
    assert_eq!(Whiteout::extract_target("foo"), None);
    assert_eq!(Whiteout::extract_target(".hidden"), None);
}

#[test]
fn marker_round_trip() {
    let m = Whiteout::marker_name("deleted.txt");
    assert_eq!(Whiteout::extract_target(&m), Some("deleted.txt".to_string()));
}

#[test]
fn marker_path_in_parent() {
    assert_eq!(Whiteout::marker_path("/tmp/x/test.txt"), Some("/tmp/x/.wh.test.txt".to_string()));
}

#[test]
fn mount_path_validation() {
    assert!(validate_mount_path("/data/mounts/a", "/data/mounts").is_ok());
    match validate_mount_path("/etc", "/data/mounts") {
        Err(TreebeardError::Config(m)) => assert_eq!(
            m,
            "Mount path validation failed: /etc is not within treebeard mount directory /data/mounts"
        ),
        _ => panic!("expected a config error"),
    }
    assert!(validate_mount_path("/data/mountsx", "/data/mounts").is_err());
}

#[test]
fn unmount_commands() {
    assert_eq!(
        unmount_command(true, "/m"),
        vec!["diskutil", "unmount", "force", "/m"]
    );
    assert_eq!(unmount_command(false, "/m"), vec!["umount", "/m"]);
}

#[test]
fn cleanup_result_flags() {
    assert!(should_remove_mount_dir(true, true));
    assert!(!should_remove_mount_dir(false, true));
    let r = fuse_cleanup_result(&Ok(true), Some(true));
    assert!(r.unmount_succeeded && r.directory_removed);
    let r = fuse_cleanup_result(&Ok(false), Some(true));
    assert!(!r.unmount_succeeded && !r.directory_removed);
    let r = fuse_cleanup_result(&Err(TreebeardError::Fuse("x".to_string())), None);
    assert!(!r.unmount_succeeded && !r.directory_removed);
}

#[test]
fn stale_mounts_are_found() {
    let out = "/dev/disk1 on / (apfs, local)\n\
               /dev/macfuse0 on /Users/x/mounts/feat (macfuse, treebeard-feat)\n\
               map auto_home on /System/Volumes/Data/home (autofs)\n";
    assert_eq!(stale_mount_paths(out), vec!["/Users/x/mounts/feat".to_string()]);
}
