use treebeard::config::{NetworkMode, SandboxConfig, SandboxNetworkConfig};
use treebeard::sandbox::generate_sbpl_profile;

const HOME: Option<&str> = Some("/Users/tester");

fn default_test_config() -> SandboxConfig {
    SandboxConfig {
        enabled: true,
        deny_read: vec!["~/.ssh".to_string(), "~/.aws".to_string()],
        allow_write: vec![],
        network: SandboxNetworkConfig {
            mode: NetworkMode::Allow,
            allow_hosts: vec![],
        },
    }
}

#[test]
fn test_generate_sbpl_profile_contains_version() {
    let config = default_test_config();
    let profile = generate_sbpl_profile(&config, "/mounts/repo/branch", HOME);
    assert!(profile.contains("(version 1)"));
}

#[test]
fn test_generate_sbpl_profile_denies_sensitive_paths() {
    let config = default_test_config();
    let profile = generate_sbpl_profile(&config, "/mounts/repo/branch", HOME);
    assert!(profile.contains("(deny file-read*"));
    assert!(profile.contains(".ssh"));
    assert!(profile.contains(".aws"));
}

#[test]
fn test_generate_sbpl_profile_allows_mount_path() {
    let config = default_test_config();
    let profile = generate_sbpl_profile(&config, "/mounts/repo/branch", HOME);
    assert!(profile.contains("(allow file-write* (subpath \"/mounts/repo/branch\"))"));
}

#[test]
fn test_generate_sbpl_profile_canonicalizes_mount_path() {
    // The mount path is resolved (symlinks followed, falling back to the
    // path itself) before the profile is made; on macOS /var/folders
    // becomes /private/var/folders, elsewhere it stays as it is.
    let config = default_test_config();
    let mount = std::path::Path::new("/var/folders");
    let canonical = mount
        .canonicalize()
        .unwrap_or_else(|_| mount.to_path_buf())
        .to_string_lossy()
        .to_string();
    let profile = generate_sbpl_profile(&config, &canonical, HOME);
    assert!(
        profile.contains("(allow file-write* (subpath \"/private/var/folders\"))")
            || profile.contains("(allow file-write* (subpath \"/var/folders\"))"),
        "Profile should contain canonicalized mount path. Profile:\n{}",
        profile
    );
}

#[test]
fn test_generate_sbpl_profile_allows_temp_dirs() {
    let config = default_test_config();
    let profile = generate_sbpl_profile(&config, "/mounts/repo/branch", HOME);
    assert!(profile.contains("(allow file-write* (subpath \"/tmp\"))"));
    assert!(profile.contains("(allow file-write* (subpath \"/private/tmp\"))"));
    assert!(profile.contains("(allow file-write* (subpath \"/var/folders\"))"));
}

#[test]
fn test_generate_sbpl_profile_allows_dev_writes() {
    let config = default_test_config();
    let profile = generate_sbpl_profile(&config, "/mounts/repo/branch", HOME);
    assert!(profile.contains("(allow file-write* (subpath \"/dev\"))"));
}

#[test]
fn test_generate_sbpl_profile_allows_process_exec() {
    let config = default_test_config();
    let profile = generate_sbpl_profile(&config, "/mounts/repo/branch", HOME);
    assert!(profile.contains("(allow process-exec*)"));
    assert!(profile.contains("(allow process-fork)"));
}

#[test]
fn test_generate_sbpl_profile_network_allow() {
    let config = SandboxConfig {
        enabled: true,
        deny_read: vec![],
        allow_write: vec![],
        network: SandboxNetworkConfig {
            mode: NetworkMode::Allow,
            allow_hosts: vec![],
        },
    };
    let profile = generate_sbpl_profile(&config, "/mounts/repo/branch", HOME);
    assert!(profile.contains("(allow network*)"));
    assert!(!profile.contains("(deny network*)"));
}

#[test]
fn test_generate_sbpl_profile_network_localhost() {
    let config = SandboxConfig {
        enabled: true,
        deny_read: vec![],
        allow_write: vec![],
        network: SandboxNetworkConfig {
            mode: NetworkMode::Localhost,
            allow_hosts: vec!["192.168.1.1".to_string()],
        },
    };
    let profile = generate_sbpl_profile(&config, "/mounts/repo/branch", HOME);
    assert!(profile.contains("(deny network*)"));
    assert!(profile.contains("(allow network* (remote ip \"localhost:*\"))"));
    assert!(profile.contains("(allow network* (remote ip \"127.0.0.1:*\"))"));
    assert!(profile.contains("(allow network* (remote ip \"::1:*\"))"));
    assert!(profile.contains("(allow network* (remote ip \"192.168.1.1:*\"))"));
}

#[test]
fn test_generate_sbpl_profile_network_deny() {
    let config = SandboxConfig {
        enabled: true,
        deny_read: vec![],
        allow_write: vec![],
        network: SandboxNetworkConfig {
            mode: NetworkMode::Deny,
            allow_hosts: vec!["api.example.com".to_string()],
        },
    };
    let profile = generate_sbpl_profile(&config, "/mounts/repo/branch", HOME);
    assert!(profile.contains("(deny network*)"));
    assert!(profile.contains("(allow network* (remote ip \"api.example.com:*\"))"));
    assert!(!profile.contains("(allow network* (remote ip \"localhost:*\"))"));
}

#[test]
fn test_generate_sbpl_profile_additional_write_paths() {
    let config = SandboxConfig {
        enabled: true,
        deny_read: vec![],
        allow_write: vec!["~/custom-cache".to_string()],
        network: SandboxNetworkConfig::default(),
    };
    let profile = generate_sbpl_profile(&config, "/mounts/repo/branch", HOME);
    assert!(profile.contains("custom-cache"));
    assert!(profile.contains("(allow file-write*"));
}

#[test]
fn sbpl_profile_expands_home_in_deny_rules() {
    let config = default_test_config();
    let profile = generate_sbpl_profile(&config, "/mounts/repo/branch", HOME);
    assert!(profile.contains("(deny file-read* (subpath \"/Users/tester/.ssh\"))"));
    assert!(profile.contains("(deny file-read* (subpath \"/Users/tester/.aws\"))"));
}

#[test]
fn sbpl_profile_without_home_keeps_tilde() {
    let config = default_test_config();
    let profile = generate_sbpl_profile(&config, "/m", None);
    assert!(profile.contains("(deny file-read* (subpath \"~/.ssh\"))"));
}

#[test]
fn sbpl_profile_exact_text_for_minimal_config() {
    let config = SandboxConfig {
        enabled: true,
        deny_read: vec![],
        allow_write: vec![],
        network: SandboxNetworkConfig::default(),
    };
    let profile = generate_sbpl_profile(&config, "/m", None);
    let expected = "(version 1)\n\n; Default allows\n(allow default)\n\n; Allow reading everything by default\n(allow file-read*)\n\n; Deny writes by default\n(deny file-write*)\n\n; Allow writes to mount path\n(allow file-write* (subpath \"/m\"))\n\n; Allow writes to temp directories\n(allow file-write* (subpath \"/tmp\"))\n(allow file-write* (subpath \"/private/tmp\"))\n(allow file-write* (subpath \"/var/folders\"))\n\n; Allow writes to /dev for terminal and device access\n(allow file-write* (subpath \"/dev\"))\n\n; Allow process execution\n(allow process-exec*)\n(allow process-fork)\n\n; Network rules\n; Network mode: allow (no restrictions)\n(allow network*)\n";
    assert_eq!(profile, expected);
}
