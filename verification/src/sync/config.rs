//! Remembering sync patterns in the configuration.
use vstd::prelude::*;

use crate::config::{list_or_empty, Config};

verus! {

/// The list already holds the pattern.
pub open spec fn has_pattern(list: Seq<String>, pattern: Seq<char>) -> bool {
    exists|i: int| 0 <= i < list.len() && (#[trigger] list[i])@ == pattern
}

/// Adds a pattern to an optional list unless it is already there; returns
/// whether the list changed (and so must be saved).
fn save_config_pattern(field: &mut Option<Vec<String>>, pattern: String) -> (changed: bool)
    ensures
        changed == !has_pattern(list_or_empty(*old(field)), pattern@),
        changed ==> (*final(field) matches Some(v) && v@ == list_or_empty(*old(field)).push(
            pattern,
        )),
        !changed ==> *final(field) == *old(field),
{
    let ghost l = list_or_empty(*field);
    let ghost before = *field;
    let mut list: Vec<String> = match field.take() {
        Some(v) => v,
        None => Vec::new(),
    };
    let mut i: usize = 0;
    while i < list.len()
        invariant
            i <= list@.len(),
            list@ == l,
            l == list_or_empty(before),
            before == *old(field),
            before is None ==> l.len() == 0,
            before matches Some(v) ==> v == list,
            forall|j: int| 0 <= j < i ==> (#[trigger] l[j])@ != pattern@,
        decreases list.len() - i,
    {
        if list[i] == pattern {
            assert(l[i as int]@ == pattern@);
            *field = Some(list);
            return false;
        }
        i = i + 1;
    }
    list.push(pattern);
    *field = Some(list);
    true
}

/// Remembers a pattern to skip in every later sync. Returns whether the
/// configuration changed and must be saved.
pub fn save_skip_pattern(config: &mut Config, pattern: String) -> (changed: bool)
    ensures
        changed == !has_pattern(list_or_empty(old(config).sync.sync_always_skip), pattern@),
        changed ==> (final(config).sync.sync_always_skip matches Some(v) && v@ == list_or_empty(
            old(config).sync.sync_always_skip,
        ).push(pattern)),
        !changed ==> final(config).sync.sync_always_skip == old(config).sync.sync_always_skip,
        final(config).sync.sync_always_include == old(config).sync.sync_always_include,
        final(config).paths == old(config).paths,
        final(config).commit == old(config).commit,
        final(config).cleanup == old(config).cleanup,
        final(config).auto_commit_timing == old(config).auto_commit_timing,
        final(config).hooks == old(config).hooks,
        final(config).fuse_ttl_secs == old(config).fuse_ttl_secs,
        final(config).sandbox == old(config).sandbox,
{
    save_config_pattern(&mut config.sync.sync_always_skip, pattern)
}

/// Remembers a pattern to select in every later sync. Returns whether the
/// configuration changed and must be saved.
pub fn save_include_pattern(config: &mut Config, pattern: String) -> (changed: bool)
    ensures
        changed == !has_pattern(list_or_empty(old(config).sync.sync_always_include), pattern@),
        changed ==> (final(config).sync.sync_always_include matches Some(v) && v@ == list_or_empty(
            old(config).sync.sync_always_include,
        ).push(pattern)),
        !changed ==> final(config).sync.sync_always_include
            == old(config).sync.sync_always_include,
        final(config).sync.sync_always_skip == old(config).sync.sync_always_skip,
        final(config).paths == old(config).paths,
        final(config).commit == old(config).commit,
        final(config).cleanup == old(config).cleanup,
        final(config).auto_commit_timing == old(config).auto_commit_timing,
        final(config).hooks == old(config).hooks,
        final(config).fuse_ttl_secs == old(config).fuse_ttl_secs,
        final(config).sandbox == old(config).sandbox,
{
    save_config_pattern(&mut config.sync.sync_always_include, pattern)
}

} // verus!
