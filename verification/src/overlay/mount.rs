//! Which mounts treebeard may touch, and how they are cleaned up.
use vstd::prelude::*;

use crate::error::TreebeardError;
use crate::path::path_starts_with_spec;
use crate::sync::aggregation::opt_string_view;
use crate::text::{chars_to_string, lines, push_str, split_lines, str_to_chars};

verus! {

/// The mount may be unmounted only when it lies within treebeard's mount
/// directory (both as the caller resolved them); otherwise the request is
/// refused, so that a configured path cannot unmount other file systems.
pub fn validate_mount_path(canonical_mount: &str, canonical_expected: &str) -> (r: Result<
    (),
    TreebeardError,
>)
    ensures
        path_starts_with_spec(canonical_mount@, canonical_expected@) ==> r is Ok,
        !path_starts_with_spec(canonical_mount@, canonical_expected@) ==> (r matches Err(
            TreebeardError::Config(m),
        ) && m@ == "Mount path validation failed: "@ + canonical_mount@
            + " is not within treebeard mount directory "@ + canonical_expected@),
{
    if crate::path::path_starts_with(canonical_mount, canonical_expected) {
        Ok(())
    } else {
        let mut out: Vec<char> = Vec::new();
        push_str(&mut out, "Mount path validation failed: ");
        push_str(&mut out, canonical_mount);
        push_str(&mut out, " is not within treebeard mount directory ");
        push_str(&mut out, canonical_expected);
        Err(TreebeardError::Config(chars_to_string(&out)))
    }
}

/// The command that unmounts a FUSE file system: `diskutil unmount force`
/// on macOS, `umount` elsewhere.
pub fn unmount_command(is_macos: bool, mount_path: &str) -> (r: Vec<String>)
    ensures
        is_macos ==> crate::config::string_views(r@) == seq![
            "diskutil"@,
            "unmount"@,
            "force"@,
            mount_path@,
        ],
        !is_macos ==> crate::config::string_views(r@) == seq!["umount"@, mount_path@],
{
    let mut v: Vec<String> = Vec::new();
    if is_macos {
        v.push(String::from_str("diskutil"));
        v.push(String::from_str("unmount"));
        v.push(String::from_str("force"));
        v.push(String::from_str(mount_path));
        assert(crate::config::string_views(v@) =~= seq![
            "diskutil"@,
            "unmount"@,
            "force"@,
            mount_path@,
        ]);
    } else {
        v.push(String::from_str("umount"));
        v.push(String::from_str(mount_path));
        assert(crate::config::string_views(v@) =~= seq!["umount"@, mount_path@]);
    }
    v
}

/// What a FUSE cleanup achieved.
pub struct FuseCleanupResult {
    /// Whether the unmount succeeded.
    pub unmount_succeeded: bool,
    /// Whether the mount directory was removed.
    pub directory_removed: bool,
}

/// The mount directory is removed only after a successful unmount, and
/// only when it still exists.
pub fn should_remove_mount_dir(unmount_succeeded: bool, dir_exists: bool) -> (r: bool)
    ensures
        r == (unmount_succeeded && dir_exists),
{
    unmount_succeeded && dir_exists
}

/// The outcome of a cleanup: the unmount counts as done only when the
/// validation passed and the command succeeded; the directory is removed
/// only when its removal was attempted and worked.
pub fn fuse_cleanup_result(
    unmount: &Result<bool, TreebeardError>,
    removal: Option<bool>,
) -> (r: FuseCleanupResult)
    ensures
        r.unmount_succeeded == (unmount matches Ok(true)),
        r.directory_removed == (r.unmount_succeeded && removal == Some(true)),
{
    let unmount_succeeded = match unmount {
        Ok(true) => true,
        _ => false,
    };
    let directory_removed = unmount_succeeded && match removal {
        Some(true) => true,
        _ => false,
    };
    FuseCleanupResult { unmount_succeeded, directory_removed }
}

/// What a regular expression (regex crate, default options) captures in
/// a text: `None` when the pattern does not compile, else the text of the
/// numbered group in the leftmost match (`Some(None)` when nothing matches
/// or the group took no part in the match).
pub uninterp spec fn spec_regex_capture(pattern: Seq<char>, text: Seq<char>, group: nat) -> Option<
    Option<Seq<char>>,
>;

/// `regex::Regex::new(pattern)`, then `captures(text)` and `get(group)`.
/// The result is named; it depends on the three arguments alone.
#[verifier::external_body]
fn regex_capture(pattern: &str, text: &str, group: usize) -> (r: Option<Option<String>>)
    ensures
        match r {
            None => spec_regex_capture(pattern@, text@, group as nat) is None,
            Some(c) => spec_regex_capture(pattern@, text@, group as nat) == Some(
                opt_string_view(c),
            ),
        },
{
    match regex::Regex::new(pattern) {
        Err(_) => None,
        Ok(re) => Some(re.captures(text).and_then(|c| c.get(group)).map(|m| m.as_str().to_string())),
    }
}

/// The pattern of a treebeard mount in a line of `mount` output: a device,
/// ` on `, the mount point (group 1), and options that name treebeard.
pub open spec fn stale_mount_pattern_spec() -> Seq<char> {
    "/dev/\\S+ on (\\S+) \\(.*treebeard.*\\)"@
}

fn stale_mount_pattern() -> (r: &'static str)
    ensures
        r@ == stale_mount_pattern_spec(),
{
    "/dev/\\S+ on (\\S+) \\(.*treebeard.*\\)"
}

/// The mount point that a line of `mount` output names, when it is a
/// treebeard mount.
pub open spec fn spec_stale_mount_capture(line: Seq<char>) -> Option<Seq<char>> {
    match spec_regex_capture(stale_mount_pattern_spec(), line, 1) {
        Some(Some(p)) => Some(p),
        _ => None,
    }
}

fn stale_mount_capture(line: &str) -> (r: Option<String>)
    ensures
        opt_string_view(r) == spec_stale_mount_capture(line@),
{
    match regex_capture(stale_mount_pattern(), line, 1) {
        Some(Some(p)) => Some(p),
        _ => None,
    }
}

/// The mount points that the lines name, in order.
pub open spec fn stale_mounts_spec(ls: Seq<Seq<char>>) -> Seq<Seq<char>>
    decreases ls.len(),
{
    if ls.len() == 0 {
        Seq::empty()
    } else {
        match spec_stale_mount_capture(ls.last()) {
            Some(p) => stale_mounts_spec(ls.drop_last()).push(p),
            None => stale_mounts_spec(ls.drop_last()),
        }
    }
}

/// The treebeard mounts that `mount` lists, in order.
pub fn stale_mount_paths(mount_output: &str) -> (r: Vec<String>)
    ensures
        crate::config::string_views(r@) == stale_mounts_spec(lines(mount_output@)),
{
    let chars = str_to_chars(mount_output);
    let ls = split_lines(&chars);
    let ghost lv = lines(mount_output@);
    let mut out: Vec<String> = Vec::new();
    let mut i: usize = 0;
    while i < ls.len()
        invariant
            i <= ls.len(),
            ls@.len() == lv.len(),
            forall|j: int| 0 <= j < ls@.len() ==> #[trigger] ls@[j]@ == lv[j],
            crate::config::string_views(out@) == stale_mounts_spec(lv.take(i as int)),
        decreases ls.len() - i,
    {
        assert(lv.take(i + 1).drop_last() =~= lv.take(i as int));
        assert(lv.take(i + 1).last() == ls@[i as int]@);
        let line = chars_to_string(ls[i].as_slice());
        match stale_mount_capture(line.as_str()) {
            Some(p) => {
                let ghost before = out@;
                out.push(p);
                assert(crate::config::string_views(out@) =~= crate::config::string_views(
                    before,
                ).push(out@.last()@));
            },
            None => {},
        }
        i = i + 1;
    }
    assert(lv.take(ls.len() as int) =~= lv);
    out
}

} // verus!
