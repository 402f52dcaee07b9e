//! Grouping the overlay's mutations into the items offered for syncing,
//! and filtering those items by `.gitignore` and the skip patterns.
//!
//! What needs the file system or `git` (whether a path is a symlink, which
//! paths git ignores) is found out by the caller and handed in.
use vstd::prelude::*;

use super::files::{any_pattern_matches, valid_patterns, CompiledPatterns};
use super::types::{AggregateResult, ChangeItem, ChangeType, DirectoryChange, FileChange};
use crate::config::{list_or_empty, SyncConfig};
use crate::overlay::types::MutationType;
use crate::path::{in_path_set, path_in_set, path_parent, paths_equal, same_path, spec_path_parent};
use crate::text::{chars_to_string, push_str, str_to_chars};
use vstd::string::StrSliceExecFns;
use vstd::string::StringSliceAdditionalSpecFns;
use vstd::string::StringExecFns;

verus! {

// ---------------------------------------------------------------------------
// The topmost ignored directory above a path
// ---------------------------------------------------------------------------

/// The topmost directory among `dir` and its ancestors that is in the
/// ignored set.
pub open spec fn top_ignored_from(dir: Seq<char>, ignored: Seq<String>) -> Option<Seq<char>>
    decreases dir.len(),
{
    let above = match spec_path_parent(dir) {
        Some(q) => if q.len() < dir.len() {
            top_ignored_from(q, ignored)
        } else {
            None
        },
        None => None,
    };
    if above is Some {
        above
    } else if in_path_set(ignored, dir) {
        Some(dir)
    } else {
        None
    }
}

/// The topmost ancestor directory of `path` that is in the ignored set.
pub open spec fn top_ignored_ancestor(path: Seq<char>, ignored: Seq<String>) -> Option<Seq<char>> {
    match spec_path_parent(path) {
        Some(d) => if d.len() < path.len() {
            top_ignored_from(d, ignored)
        } else {
            None
        },
        None => None,
    }
}

/// The answer once the walk up has reached `current` and found `top` so far.
spec fn top_after(current: Option<Seq<char>>, top: Option<Seq<char>>, ignored: Seq<String>) -> Option<
    Seq<char>,
> {
    match current {
        Some(c) => {
            let t = top_ignored_from(c, ignored);
            if t is Some {
                t
            } else {
                top
            }
        },
        None => top,
    }
}

/// The characters of an optional string.
pub open spec fn opt_string_view(s: Option<String>) -> Option<Seq<char>> {
    match s {
        Some(x) => Some(x@),
        None => None,
    }
}

/// Walks up from the parent of `path` and returns the topmost directory on
/// the way that is in the ignored set.
pub fn find_top_ignored_ancestor(path: &str, ignored_dirs: &Vec<String>) -> (r: Option<String>)
    ensures
        opt_string_view(r) == top_ignored_ancestor(path@, ignored_dirs@),
{
    let mut top: Option<String> = None;
    let mut current = path_parent(path);
    while current.is_some()
        invariant
            top_after(opt_string_view(current), opt_string_view(top), ignored_dirs@)
                == top_ignored_ancestor(path@, ignored_dirs@),
        decreases (match current {
            Some(c) => c@.len() + 1,
            None => 0,
        }),
    {
        let dir = current.unwrap();
        let next = path_parent(dir.as_str());
        proof {
            reveal_with_fuel(top_ignored_from, 2);
        }
        if path_in_set(ignored_dirs, dir.as_str()) {
            top = Some(dir);
        }
        current = next;
    }
    top
}

// ---------------------------------------------------------------------------
// The changed files
// ---------------------------------------------------------------------------

/// The file changes of the mutations that are not symlinks, in order
/// (`is_symlink[i]` tells whether the `i`-th mutated path is a symlink).
pub open spec fn change_files(muts: Seq<(String, MutationType)>, is_symlink: Seq<bool>) -> Seq<
    FileChange,
>
    decreases muts.len(),
{
    if muts.len() == 0 {
        Seq::empty()
    } else {
        let prev = change_files(muts.drop_last(), is_symlink);
        if is_symlink[muts.len() - 1] {
            prev
        } else {
            prev.push(
                FileChange {
                    path: muts.last().0,
                    change_type: ChangeType::of_mutation(muts.last().1),
                },
            )
        }
    }
}

/// How many of the flags are set.
pub open spec fn count_true(flags: Seq<bool>) -> nat
    decreases flags.len(),
{
    if flags.len() == 0 {
        0
    } else {
        count_true(flags.drop_last()) + if flags.last() {
            1nat
        } else {
            0nat
        }
    }
}

/// Every non-symlink mutation gives a file change; every symlink is counted.
proof fn lemma_change_files_len(muts: Seq<(String, MutationType)>, is_symlink: Seq<bool>)
    requires
        is_symlink.len() == muts.len(),
    ensures
        change_files(muts, is_symlink).len() + count_true(is_symlink) == muts.len(),
    decreases muts.len(),
{
    if muts.len() > 0 {
        assert(is_symlink.drop_last().len() == muts.drop_last().len());
        lemma_change_files_len(muts.drop_last(), is_symlink.drop_last());
        lemma_change_files_prefix(muts.drop_last(), is_symlink);
    }
}

/// The file changes depend only on the flags of the mutations they see.
proof fn lemma_change_files_prefix(muts: Seq<(String, MutationType)>, is_symlink: Seq<bool>)
    requires
        muts.len() <= is_symlink.len(),
    ensures
        change_files(muts, is_symlink) == change_files(
            muts,
            is_symlink.take(muts.len() as int),
        ),
    decreases muts.len(),
{
    if muts.len() > 0 {
        lemma_change_files_prefix(muts.drop_last(), is_symlink);
        lemma_change_files_prefix(muts.drop_last(), is_symlink.take(muts.len() as int));
        assert(is_symlink.take(muts.len() as int).take(muts.len() - 1) =~= is_symlink.take(
            muts.len() - 1,
        ));
    }
}

/// The file changes of the mutations that are not symlinks, and how many
/// symlinks were left out.
fn collect_changes(mutations: &Vec<(String, MutationType)>, is_symlink: &Vec<bool>) -> (r: (
    Vec<FileChange>,
    usize,
))
    requires
        is_symlink@.len() == mutations@.len(),
    ensures
        r.0@ == change_files(mutations@, is_symlink@),
        r.1 == count_true(is_symlink@),
{
    let mut files: Vec<FileChange> = Vec::new();
    let mut skipped: usize = 0;
    let mut i: usize = 0;
    while i < mutations.len()
        invariant
            i <= mutations.len(),
            is_symlink@.len() == mutations@.len(),
            files@ == change_files(mutations@.take(i as int), is_symlink@),
            skipped == count_true(is_symlink@.take(i as int)),
            skipped <= i,
        decreases mutations.len() - i,
    {
        assert(mutations@.take(i + 1).drop_last() =~= mutations@.take(i as int));
        assert(is_symlink@.take(i + 1).drop_last() =~= is_symlink@.take(i as int));
        if is_symlink[i] {
            skipped = skipped + 1;
        } else {
            let (path, mutation) = &mutations[i];
            files.push(
                FileChange { path: path.clone(), change_type: ChangeType::from_mutation(*mutation) },
            );
        }
        i = i + 1;
    }
    assert(mutations@.take(mutations.len() as int) =~= mutations@);
    assert(is_symlink@.take(mutations.len() as int) =~= is_symlink@);
    (files, skipped)
}

// ---------------------------------------------------------------------------
// Directories that may be ignored
// ---------------------------------------------------------------------------

/// The ancestors of a path, nearest first (`Path::parent` repeatedly).
pub open spec fn ancestors(path: Seq<char>) -> Seq<Seq<char>>
    decreases path.len(),
{
    match spec_path_parent(path) {
        Some(q) => if q.len() < path.len() {
            seq![q] + ancestors(q)
        } else {
            Seq::empty()
        },
        None => Seq::empty(),
    }
}

/// A directory whose ignoredness matters: a non-empty ancestor of a changed
/// file.
pub open spec fn is_dir_candidate(files: Seq<FileChange>, d: Seq<char>) -> bool {
    d.len() > 0 && exists|i: int| 0 <= i < files.len() && ancestors(#[trigger] files[i].path@).contains(d)
}

/// `d` is a non-empty ancestor of one of the first `n` files, or among
/// the directories walked so far.
spec fn covered(fs: Seq<FileChange>, n: int, walked: Seq<Seq<char>>, d: Seq<char>) -> bool {
    d.len() > 0 && ((exists|m: int| 0 <= m < n && ancestors(#[trigger] fs[m].path@).contains(d))
        || walked.contains(d))
}

/// The directories that `git check-ignore` is asked about: every non-empty
/// ancestor of a changed file that is not a symlink, each once (as a
/// `Path`). Their order is unspecified.
pub fn directory_candidates(mutations: &Vec<(String, MutationType)>, is_symlink: &Vec<bool>) -> (r:
    Vec<String>)
    requires
        is_symlink@.len() == mutations@.len(),
    ensures
        forall|j: int| 0 <= j < r@.len() ==> is_dir_candidate(
            change_files(mutations@, is_symlink@),
            #[trigger] r@[j]@,
        ),
        forall|d: Seq<char>|
            is_dir_candidate(change_files(mutations@, is_symlink@), d) ==> in_path_set(r@, d),
        forall|j: int, k: int|
            0 <= j < k < r@.len() ==> !same_path(#[trigger] r@[j]@, #[trigger] r@[k]@),
{
    let (files, _) = collect_changes(mutations, is_symlink);
    let ghost fs = files@;
    let mut out: Vec<String> = Vec::new();
    let mut i: usize = 0;
    while i < files.len()
        invariant
            i <= files.len(),
            fs == files@,
            forall|j: int| 0 <= j < out@.len() ==> is_dir_candidate(fs, #[trigger] out@[j]@),
            forall|d: Seq<char>|
                #[trigger] covered(fs, i as int, Seq::empty(), d) ==> in_path_set(out@, d),
            forall|j: int, k: int|
                0 <= j < k < out@.len() ==> !same_path(#[trigger] out@[j]@, #[trigger] out@[k]@),
        decreases files.len() - i,
    {
        let ghost p = fs[i as int].path@;
        let mut current = path_parent(files[i].path.as_str());
        let ghost mut walked: Seq<Seq<char>> = Seq::empty();
        assert forall|d: Seq<char>| #[trigger] covered(fs, i as int, walked, d) implies in_path_set(
            out@,
            d,
        ) by {
            assert(covered(fs, i as int, Seq::empty(), d));
        }
        while current.is_some()
            invariant
                i < files.len(),
                fs == files@,
                p == fs[i as int].path@,
                match current {
                    Some(c) => ancestors(p) == walked + seq![c@] + ancestors(c@),
                    None => ancestors(p) == walked,
                },
                forall|j: int| 0 <= j < out@.len() ==> is_dir_candidate(fs, #[trigger] out@[j]@),
                forall|d: Seq<char>| #[trigger] covered(fs, i as int, walked, d) ==> in_path_set(out@, d),
                forall|j: int, k: int|
                    0 <= j < k < out@.len() ==> !same_path(#[trigger] out@[j]@, #[trigger] out@[k]@),
            decreases (match current {
                Some(c) => c@.len() + 1,
                None => 0,
            }),
        {
            let dir = current.unwrap();
            let next = path_parent(dir.as_str());
            assert(ancestors(p).contains(dir@)) by {
                assert(ancestors(p)[walked.len() as int] == dir@);
            }
            let ghost dv = dir@;
            let ghost before = out@;
            let ghost old_walked = walked;
            let is_new = dir.as_str().unicode_len() > 0 && !path_in_set(&out, dir.as_str());
            if is_new {
                assert(is_dir_candidate(fs, dv));
                out.push(dir);
                assert(out@[out@.len() - 1]@ == dv);
            }
            proof {
                walked = walked.push(dv);
                assert forall|d: Seq<char>| #[trigger] covered(fs, i as int, walked, d) implies in_path_set(
                    out@,
                    d,
                ) by {
                    if d == dv {
                        if is_new {
                            assert(same_path(out@[out@.len() - 1]@, d));
                        } else {
                            assert(in_path_set(before, d));
                            let w = choose|w: int| 0 <= w < before.len() && same_path(#[trigger] before[w]@, d);
                            assert(out@[w] == before[w]);
                        }
                    } else {
                        if walked.contains(d) {
                            let w = choose|w: int| 0 <= w < walked.len() && walked[w] == d;
                            assert(old_walked[w] == d);
                        }
                        assert(covered(fs, i as int, old_walked, d));
                        assert(in_path_set(before, d));
                        let w = choose|w: int| 0 <= w < before.len() && same_path(#[trigger] before[w]@, d);
                        assert(out@[w] == before[w]);
                    }
                }
                reveal_with_fuel(ancestors, 2);
                if next is Some {
                    assert(ancestors(p) =~= walked + seq![next->0@] + ancestors(next->0@));
                } else {
                    assert(ancestors(p) =~= walked);
                }
            }
            current = next;
        }
        assert forall|d: Seq<char>| #[trigger] covered(fs, i + 1, Seq::empty(), d) implies in_path_set(
            out@,
            d,
        ) by {
            let m = choose|m: int| 0 <= m < i + 1 && ancestors(#[trigger] fs[m].path@).contains(d);
            if m == i {
                assert(covered(fs, i as int, walked, d));
            } else {
                assert(covered(fs, i as int, walked, d));
            }
        }
        i = i + 1;
    }
    assert forall|d: Seq<char>| is_dir_candidate(fs, d) implies in_path_set(out@, d) by {
        assert(covered(fs, files.len() as int, Seq::empty(), d));
    }
    out
}

// ---------------------------------------------------------------------------
// Grouping by the topmost ignored directory
// ---------------------------------------------------------------------------

/// The directory a changed file is grouped under: its topmost ignored
/// ancestor, if any.
pub open spec fn file_key(f: FileChange, ignored: Seq<String>) -> Option<Seq<char>> {
    top_ignored_ancestor(f.path@, ignored)
}

/// Some key equals `k` as a `Path`.
pub open spec fn has_key(keys: Seq<Seq<char>>, k: Seq<char>) -> bool {
    exists|j: int| 0 <= j < keys.len() && same_path(#[trigger] keys[j], k)
}

/// The group directories, each once (as a `Path`), in the order in which
/// the files first name them.
pub open spec fn group_keys(fs: Seq<FileChange>, ignored: Seq<String>) -> Seq<Seq<char>>
    decreases fs.len(),
{
    if fs.len() == 0 {
        Seq::empty()
    } else {
        let prev = group_keys(fs.drop_last(), ignored);
        match file_key(fs.last(), ignored) {
            Some(k) => if has_key(prev, k) {
                prev
            } else {
                prev.push(k)
            },
            None => prev,
        }
    }
}

/// The file belongs to the group of directory `k`.
pub open spec fn in_group(f: FileChange, ignored: Seq<String>, k: Seq<char>) -> bool {
    match file_key(f, ignored) {
        Some(k2) => same_path(k2, k),
        None => false,
    }
}

/// The files of the group of directory `k`, in order.
pub open spec fn group_files(fs: Seq<FileChange>, ignored: Seq<String>, k: Seq<char>) -> Seq<
    FileChange,
>
    decreases fs.len(),
{
    if fs.len() == 0 {
        Seq::empty()
    } else if in_group(fs.last(), ignored, k) {
        group_files(fs.drop_last(), ignored, k).push(fs.last())
    } else {
        group_files(fs.drop_last(), ignored, k)
    }
}

/// The files under no ignored directory, in order.
pub open spec fn loose_files(fs: Seq<FileChange>, ignored: Seq<String>) -> Seq<FileChange>
    decreases fs.len(),
{
    if fs.len() == 0 {
        Seq::empty()
    } else if file_key(fs.last(), ignored) is None {
        loose_files(fs.drop_last(), ignored).push(fs.last())
    } else {
        loose_files(fs.drop_last(), ignored)
    }
}

/// How many of the files have the given kind of change.
pub open spec fn count_change(files: Seq<FileChange>, t: ChangeType) -> nat
    decreases files.len(),
{
    if files.len() == 0 {
        0
    } else {
        count_change(files.drop_last(), t) + if files.last().change_type == t {
            1nat
        } else {
            0nat
        }
    }
}

/// The item for a group: a single file stays a file; several become a
/// directory entry with the files and their counts by kind.
pub open spec fn group_item(item: ChangeItem, key: Seq<char>, files: Seq<FileChange>) -> bool {
    if files.len() == 1 {
        item == ChangeItem::File(files[0])
    } else {
        &&& item matches ChangeItem::Directory(d)
        &&& d.path@ == key
        &&& d.files@ == files
        &&& d.modified_count == count_change(files, ChangeType::Modified)
        &&& d.added_count == count_change(files, ChangeType::Added)
        &&& d.deleted_count == count_change(files, ChangeType::Deleted)
    }
}

/// What `aggregate_changes` returns: one item per group directory (in
/// order of first appearance), then every file under no ignored directory,
/// and the number of symlinks left out.
pub open spec fn aggregated(
    r: AggregateResult,
    muts: Seq<(String, MutationType)>,
    is_symlink: Seq<bool>,
    ignored: Seq<String>,
) -> bool {
    let fs = change_files(muts, is_symlink);
    let ks = group_keys(fs, ignored);
    let loose = loose_files(fs, ignored);
    &&& r.symlinks_skipped == count_true(is_symlink)
    &&& r.items@.len() == ks.len() + loose.len()
    &&& forall|j: int|
        0 <= j < ks.len() ==> group_item(#[trigger] r.items@[j], ks[j], group_files(fs, ignored, ks[j]))
    &&& forall|j: int|
        0 <= j < loose.len() ==> #[trigger] r.items@[ks.len() + j] == ChangeItem::File(loose[j])
}

/// How many of the files have the given kind of change.
fn count_changes(files: &Vec<FileChange>, t: ChangeType) -> (r: usize)
    ensures
        r == count_change(files@, t),
{
    let mut n: usize = 0;
    let mut i: usize = 0;
    while i < files.len()
        invariant
            i <= files.len(),
            n == count_change(files@.take(i as int), t),
            n <= i,
        decreases files.len() - i,
    {
        assert(files@.take(i + 1).drop_last() =~= files@.take(i as int));
        if files[i].change_type == t {
            n = n + 1;
        }
        i = i + 1;
    }
    assert(files@.take(files.len() as int) =~= files@);
    n
}

/// The views of a list of strings.
spec fn key_views(v: Seq<String>) -> Seq<Seq<char>> {
    v.map_values(|s: String| s@)
}

/// No path is recorded twice (the overlay records one change per path).
pub open spec fn distinct_mutation_paths(mutations: Seq<(String, MutationType)>) -> bool {
    forall|j: int, k: int|
        0 <= j < k < mutations.len() ==> !crate::path::same_path(
            #[trigger] mutations[j].0@,
            #[trigger] mutations[k].0@,
        )
}

/// Groups the changed files by their topmost ignored ancestor directory.
///
/// `mutations` are the overlay's mutations, `is_symlink` tells for each
/// whether its path is a symlink in the worktree (symlinks cannot be
/// synced and are only counted), and `ignored_dirs` are the directories
/// that git ignores. A group of one file stays a file entry; files under
/// no ignored directory are listed last, each on its own.
pub fn aggregate_changes(
    mutations: &Vec<(String, MutationType)>,
    is_symlink: &Vec<bool>,
    ignored_dirs: &Vec<String>,
) -> (r: AggregateResult)
    requires
        is_symlink@.len() == mutations@.len(),
        distinct_mutation_paths(mutations@),
    ensures
        aggregated(r, mutations@, is_symlink@, ignored_dirs@),
{
    let (files, symlinks_skipped) = collect_changes(mutations, is_symlink);
    let ghost fs = files@;
    let ghost ig = ignored_dirs@;
    // The group directory of each file.
    let mut keys: Vec<Option<String>> = Vec::new();
    let mut i: usize = 0;
    while i < files.len()
        invariant
            i <= files.len(),
            keys@.len() == i,
            fs == files@,
            ig == ignored_dirs@,
            forall|j: int| 0 <= j < i ==> opt_string_view(#[trigger] keys@[j]) == file_key(fs[j], ig),
        decreases files.len() - i,
    {
        keys.push(find_top_ignored_ancestor(files[i].path.as_str(), ignored_dirs));
        i = i + 1;
    }
    // The group directories, each once.
    let mut dkeys: Vec<String> = Vec::new();
    i = 0;
    while i < files.len()
        invariant
            i <= files.len(),
            keys@.len() == files@.len(),
            fs == files@,
            ig == ignored_dirs@,
            forall|j: int| 0 <= j < files@.len() ==> opt_string_view(#[trigger] keys@[j]) == file_key(fs[j], ig),
            key_views(dkeys@) == group_keys(fs.take(i as int), ig),
        decreases files.len() - i,
    {
        assert(fs.take(i + 1).drop_last() =~= fs.take(i as int));
        assert(fs.take(i + 1).last() == fs[i as int]);
        assert(opt_string_view(keys@[i as int]) == file_key(fs[i as int], ig));
        match &keys[i] {
            Some(k) => {
                let known = path_in_set(&dkeys, k.as_str());
                assert(known == has_key(key_views(dkeys@), k@)) by {
                    if known {
                        let w = choose|w: int| 0 <= w < dkeys@.len() && same_path(#[trigger] dkeys@[w]@, k@);
                        assert(key_views(dkeys@)[w] == dkeys@[w]@);
                    }
                    if has_key(key_views(dkeys@), k@) {
                        let w = choose|w: int| 0 <= w < key_views(dkeys@).len() && same_path(#[trigger] key_views(dkeys@)[w], k@);
                        assert(key_views(dkeys@)[w] == dkeys@[w]@);
                    }
                }
                if !known {
                    let ghost before = dkeys@;
                    dkeys.push(k.clone());
                    assert(key_views(dkeys@) =~= key_views(before).push(k@));
                }
            },
            None => {},
        }
        i = i + 1;
    }
    assert(fs.take(files.len() as int) =~= fs);
    let ghost ks = group_keys(fs, ig);
    // One item per group directory.
    let mut items: Vec<ChangeItem> = Vec::new();
    let mut g: usize = 0;
    while g < dkeys.len()
        invariant
            g <= dkeys.len(),
            items@.len() == g,
            keys@.len() == files@.len(),
            fs == files@,
            ig == ignored_dirs@,
            forall|j: int| 0 <= j < files@.len() ==> opt_string_view(#[trigger] keys@[j]) == file_key(fs[j], ig),
            key_views(dkeys@) == ks,
            ks == group_keys(fs, ig),
            forall|j: int| 0 <= j < g ==> group_item(#[trigger] items@[j], ks[j], group_files(fs, ig, ks[j])),
        decreases dkeys.len() - g,
    {
        let d = &dkeys[g];
        assert(ks[g as int] == d@);
        let mut group: Vec<FileChange> = Vec::new();
        let mut j: usize = 0;
        while j < files.len()
            invariant
                j <= files.len(),
                keys@.len() == files@.len(),
                fs == files@,
                forall|m: int| 0 <= m < files@.len() ==> opt_string_view(#[trigger] keys@[m]) == file_key(fs[m], ig),
                group@ == group_files(fs.take(j as int), ig, d@),
            decreases files.len() - j,
        {
            assert(fs.take(j + 1).drop_last() =~= fs.take(j as int));
            assert(fs.take(j + 1).last() == fs[j as int]);
            assert(opt_string_view(keys@[j as int]) == file_key(fs[j as int], ig));
            let belongs = match &keys[j] {
                Some(k) => paths_equal(k.as_str(), d.as_str()),
                None => false,
            };
            if belongs {
                group.push(files[j].duplicate());
            }
            j = j + 1;
        }
        assert(fs.take(files.len() as int) =~= fs);
        let ghost gf = group@;
        if group.len() == 1 {
            let only = group.pop().unwrap();
            assert(only == gf[0]);
            items.push(ChangeItem::File(only));
        } else {
            let modified_count = count_changes(&group, ChangeType::Modified);
            let added_count = count_changes(&group, ChangeType::Added);
            let deleted_count = count_changes(&group, ChangeType::Deleted);
            items.push(
                ChangeItem::Directory(
                    DirectoryChange {
                        path: d.clone(),
                        files: group,
                        modified_count,
                        added_count,
                        deleted_count,
                    },
                ),
            );
        }
        g = g + 1;
    }
    // Then every file under no ignored directory.
    let ghost nk = items@.len();
    let mut j: usize = 0;
    let ghost mut nloose: int = 0;
    while j < files.len()
        invariant
            j <= files.len(),
            keys@.len() == files@.len(),
            fs == files@,
            nk == ks.len(),
            items@.len() == nk + loose_files(fs.take(j as int), ig).len(),
            forall|m: int| 0 <= m < files@.len() ==> opt_string_view(#[trigger] keys@[m]) == file_key(fs[m], ig),
            forall|m: int| 0 <= m < ks.len() ==> group_item(#[trigger] items@[m], ks[m], group_files(fs, ig, ks[m])),
            forall|m: int|
                0 <= m < loose_files(fs.take(j as int), ig).len() ==> #[trigger] items@[nk + m]
                    == ChangeItem::File(loose_files(fs.take(j as int), ig)[m]),
        decreases files.len() - j,
    {
        assert(fs.take(j + 1).drop_last() =~= fs.take(j as int));
        assert(fs.take(j + 1).last() == fs[j as int]);
        assert(opt_string_view(keys@[j as int]) == file_key(fs[j as int], ig));
        if keys[j].is_none() {
            items.push(ChangeItem::File(files[j].duplicate()));
        }
        j = j + 1;
    }
    assert(fs.take(files.len() as int) =~= fs);
    AggregateResult { items, symlinks_skipped }
}

// ---------------------------------------------------------------------------
// Laws of the grouping
// ---------------------------------------------------------------------------

/// How many changed files an item stands for.
pub open spec fn item_file_count(item: ChangeItem) -> nat {
    match item {
        ChangeItem::File(_) => 1,
        ChangeItem::Directory(d) => d.files@.len(),
    }
}

/// How many changed files the items stand for together.
pub open spec fn items_file_total(items: Seq<ChangeItem>) -> nat
    decreases items.len(),
{
    if items.len() == 0 {
        0
    } else {
        items_file_total(items.drop_last()) + item_file_count(items.last())
    }
}

/// The sizes of the groups of the given directories, added up.
spec fn groups_total(ks: Seq<Seq<char>>, fs: Seq<FileChange>, ignored: Seq<String>) -> nat
    decreases ks.len(),
{
    if ks.len() == 0 {
        0
    } else {
        groups_total(ks.drop_last(), fs, ignored) + group_files(fs, ignored, ks.last()).len()
    }
}

/// How many of the directories the file belongs to.
spec fn memberships(ks: Seq<Seq<char>>, f: FileChange, ignored: Seq<String>) -> nat
    decreases ks.len(),
{
    if ks.len() == 0 {
        0
    } else {
        memberships(ks.drop_last(), f, ignored) + if in_group(f, ignored, ks.last()) {
            1nat
        } else {
            0nat
        }
    }
}

/// No two directories are the same `Path`.
spec fn distinct_paths(ks: Seq<Seq<char>>) -> bool {
    forall|a: int, b: int| 0 <= a < b < ks.len() ==> !same_path(#[trigger] ks[a], #[trigger] ks[b])
}

/// Adding a file adds its memberships to the total.
proof fn lemma_groups_total_push(ks: Seq<Seq<char>>, fs: Seq<FileChange>, f: FileChange, ignored: Seq<String>)
    ensures
        groups_total(ks, fs.push(f), ignored) == groups_total(ks, fs, ignored) + memberships(
            ks,
            f,
            ignored,
        ),
    decreases ks.len(),
{
    if ks.len() > 0 {
        lemma_groups_total_push(ks.drop_last(), fs, f, ignored);
        assert(fs.push(f).drop_last() =~= fs);
    }
}

/// A file belongs to no directory that is not among the keys.
proof fn lemma_memberships_none(ks: Seq<Seq<char>>, f: FileChange, ignored: Seq<String>)
    requires
        forall|j: int| 0 <= j < ks.len() ==> !in_group(f, ignored, #[trigger] ks[j]),
    ensures
        memberships(ks, f, ignored) == 0,
    decreases ks.len(),
{
    if ks.len() > 0 {
        assert(!in_group(f, ignored, ks[ks.len() - 1]));
        lemma_memberships_none(ks.drop_last(), f, ignored);
    }
}

/// A file whose directory is among distinct keys belongs to exactly one.
proof fn lemma_memberships_one(ks: Seq<Seq<char>>, f: FileChange, ignored: Seq<String>, k: Seq<char>)
    requires
        distinct_paths(ks),
        file_key(f, ignored) == Some(k),
        has_key(ks, k),
    ensures
        memberships(ks, f, ignored) == 1,
    decreases ks.len(),
{
    let last = ks.len() - 1;
    if in_group(f, ignored, ks[last]) {
        assert forall|j: int| 0 <= j < ks.drop_last().len() implies !in_group(
            f,
            ignored,
            #[trigger] ks.drop_last()[j],
        ) by {
            assert(ks.drop_last()[j] == ks[j]);
            if in_group(f, ignored, ks[j]) {
                assert(same_path(ks[j], ks[last]));
            }
        }
        lemma_memberships_none(ks.drop_last(), f, ignored);
    } else {
        let w = choose|w: int| 0 <= w < ks.len() && same_path(#[trigger] ks[w], k);
        assert(w != last);
        assert(ks.drop_last()[w] == ks[w]);
        assert(has_key(ks.drop_last(), k));
        lemma_memberships_one(ks.drop_last(), f, ignored, k);
    }
}

/// The group keys are distinct, every grouped file's directory is among
/// them, and a directory not among them has an empty group.
proof fn lemma_group_keys_facts(fs: Seq<FileChange>, ignored: Seq<String>)
    ensures
        distinct_paths(group_keys(fs, ignored)),
        forall|i: int|
            0 <= i < fs.len() && (#[trigger] file_key(fs[i], ignored)) is Some ==> has_key(
                group_keys(fs, ignored),
                file_key(fs[i], ignored)->0,
            ),
        forall|k: Seq<char>|
            !has_key(group_keys(fs, ignored), k) ==> (#[trigger] group_files(fs, ignored, k)).len()
                == 0,
    decreases fs.len(),
{
    if fs.len() > 0 {
        let prev = fs.drop_last();
        lemma_group_keys_facts(prev, ignored);
        let pk = group_keys(prev, ignored);
        let ks = group_keys(fs, ignored);
        let f = fs.last();
        // Keys of the prefix stay keys.
        assert forall|k: Seq<char>| has_key(pk, k) implies has_key(ks, k) by {
            let w = choose|w: int| 0 <= w < pk.len() && same_path(#[trigger] pk[w], k);
            assert(ks[w] == pk[w]);
        }
        assert forall|i: int|
            0 <= i < fs.len() && (#[trigger] file_key(fs[i], ignored)) is Some implies has_key(
                ks,
                file_key(fs[i], ignored)->0,
            ) by {
            if i < fs.len() - 1 {
                assert(fs[i] == prev[i]);
                assert(file_key(prev[i], ignored) is Some);
            } else {
                let k = file_key(f, ignored)->0;
                if !has_key(pk, k) {
                    assert(ks[ks.len() - 1] == k);
                    assert(same_path(ks[ks.len() - 1], k));
                }
            }
        }
        assert forall|k: Seq<char>| !has_key(ks, k) implies (#[trigger] group_files(
            fs,
            ignored,
            k,
        )).len() == 0 by {
            assert(!has_key(pk, k));
            assert(group_files(prev, ignored, k).len() == 0);
            if in_group(f, ignored, k) {
                let k2 = file_key(f, ignored)->0;
                assert(same_path(k2, k));
                if has_key(pk, k2) {
                    let w = choose|w: int| 0 <= w < pk.len() && same_path(#[trigger] pk[w], k2);
                    assert(same_path(pk[w], k));
                    assert(has_key(pk, k));
                } else {
                    assert(ks[ks.len() - 1] == k2);
                    assert(same_path(ks[ks.len() - 1], k));
                }
            }
            assert(group_files(fs, ignored, k) == group_files(prev, ignored, k));
        }
        match file_key(f, ignored) {
            Some(k) => {
                if !has_key(pk, k) {
                    assert forall|a: int, b: int| 0 <= a < b < ks.len() implies !same_path(
                        #[trigger] ks[a],
                        #[trigger] ks[b],
                    ) by {
                        if b == ks.len() - 1 {
                            assert(pk[a] == ks[a]);
                            if same_path(ks[a], ks[b]) {
                                assert(same_path(pk[a], k));
                            }
                        } else {
                            assert(pk[a] == ks[a] && pk[b] == ks[b]);
                        }
                    }
                }
            },
            None => {},
        }
    }
}

/// The groups and the loose files together hold every file once.
proof fn lemma_groups_cover(fs: Seq<FileChange>, ignored: Seq<String>)
    ensures
        groups_total(group_keys(fs, ignored), fs, ignored) + loose_files(fs, ignored).len()
            == fs.len(),
    decreases fs.len(),
{
    if fs.len() > 0 {
        let prev = fs.drop_last();
        let f = fs.last();
        lemma_groups_cover(prev, ignored);
        lemma_group_keys_facts(prev, ignored);
        let pk = group_keys(prev, ignored);
        assert(prev.push(f) =~= fs);
        lemma_groups_total_push(pk, prev, f, ignored);
        match file_key(f, ignored) {
            None => {
                assert forall|j: int| 0 <= j < pk.len() implies !in_group(f, ignored, #[trigger] pk[j]) by {
                }
                lemma_memberships_none(pk, f, ignored);
            },
            Some(k) => {
                if has_key(pk, k) {
                    lemma_memberships_one(pk, f, ignored, k);
                } else {
                    assert forall|j: int| 0 <= j < pk.len() implies !in_group(
                        f,
                        ignored,
                        #[trigger] pk[j],
                    ) by {
                        if in_group(f, ignored, pk[j]) {
                            assert(same_path(pk[j], k));
                        }
                    }
                    lemma_memberships_none(pk, f, ignored);
                    assert(group_files(prev, ignored, k).len() == 0);
                    assert(in_group(f, ignored, k));
                    let ks = group_keys(fs, ignored);
                    assert(ks.drop_last() =~= pk);
                }
            },
        }
    }
}

/// An item made for a group stands for the group's files.
proof fn lemma_group_item_count(item: ChangeItem, key: Seq<char>, files: Seq<FileChange>)
    requires
        group_item(item, key, files),
    ensures
        item_file_count(item) == files.len(),
{
}

/// The items up to `n` stand for the groups of the first `n` keys.
proof fn lemma_items_total_groups(items: Seq<ChangeItem>, ks: Seq<Seq<char>>, fs: Seq<FileChange>, ignored: Seq<String>, n: int)
    requires
        0 <= n <= ks.len(),
        n <= items.len(),
        forall|j: int| 0 <= j < ks.len() ==> group_item(#[trigger] items[j], ks[j], group_files(fs, ignored, ks[j])),
    ensures
        items_file_total(items.take(n)) == groups_total(ks.take(n), fs, ignored),
    decreases n,
{
    if n > 0 {
        lemma_items_total_groups(items, ks, fs, ignored, n - 1);
        assert(items.take(n).drop_last() =~= items.take(n - 1));
        assert(ks.take(n).drop_last() =~= ks.take(n - 1));
        lemma_group_item_count(items[n - 1], ks[n - 1], group_files(fs, ignored, ks[n - 1]));
    }
}

/// The items from `start` on are single files, one per loose file.
proof fn lemma_items_total_tail(items: Seq<ChangeItem>, start: int, n: int)
    requires
        0 <= start,
        0 <= n,
        start + n <= items.len(),
        forall|j: int| 0 <= j < n ==> (#[trigger] items[start + j]) is File,
    ensures
        items_file_total(items.take(start + n)) == items_file_total(items.take(start)) + n,
    decreases n,
{
    if n > 0 {
        lemma_items_total_tail(items, start, n - 1);
        assert(items.take(start + n).drop_last() =~= items.take(start + n - 1));
        assert(items[start + (n - 1)] is File);
    }
}

/// Nothing is lost or counted twice: the items stand for every mutation
/// that is not a symlink, once, and the symlinks are counted.
pub proof fn lemma_aggregate_accounts_for_every_mutation(
    r: AggregateResult,
    muts: Seq<(String, MutationType)>,
    is_symlink: Seq<bool>,
    ignored: Seq<String>,
)
    requires
        is_symlink.len() == muts.len(),
        aggregated(r, muts, is_symlink, ignored),
    ensures
        items_file_total(r.items@) + r.symlinks_skipped == muts.len(),
{
    let fs = change_files(muts, is_symlink);
    let ks = group_keys(fs, ignored);
    let loose = loose_files(fs, ignored);
    let items = r.items@;
    lemma_change_files_len(muts, is_symlink);
    lemma_groups_cover(fs, ignored);
    lemma_items_total_groups(items, ks, fs, ignored, ks.len() as int);
    assert(ks.take(ks.len() as int) =~= ks);
    assert forall|j: int| 0 <= j < loose.len() implies (#[trigger] items[ks.len() + j]) is File by {
        assert(items[ks.len() + j] == ChangeItem::File(loose[j]));
    }
    lemma_items_total_tail(items, ks.len() as int, loose.len() as int);
    assert(items.take(items.len() as int) =~= items);
}

/// The counts of a list of changes by kind add up to its length.
pub proof fn lemma_change_counts_add_up(files: Seq<FileChange>)
    ensures
        count_change(files, ChangeType::Modified) + count_change(files, ChangeType::Added)
            + count_change(files, ChangeType::Deleted) == files.len(),
    decreases files.len(),
{
    if files.len() > 0 {
        lemma_change_counts_add_up(files.drop_last());
    }
}

/// A directory entry's counts by kind add up to its number of files.
pub proof fn lemma_directory_counts_add_up(
    r: AggregateResult,
    muts: Seq<(String, MutationType)>,
    is_symlink: Seq<bool>,
    ignored: Seq<String>,
    j: int,
)
    requires
        aggregated(r, muts, is_symlink, ignored),
        0 <= j < r.items@.len(),
        r.items@[j] is Directory,
    ensures
        r.items@[j]->Directory_0.modified_count + r.items@[j]->Directory_0.added_count
            + r.items@[j]->Directory_0.deleted_count == r.items@[j]->Directory_0.files@.len(),
{
    let fs = change_files(muts, is_symlink);
    let ks = group_keys(fs, ignored);
    if j < ks.len() {
        let files = group_files(fs, ignored, ks[j]);
        assert(group_item(r.items@[j], ks[j], files));
        lemma_change_counts_add_up(files);
    } else {
        assert(r.items@[ks.len() + (j - ks.len())] == ChangeItem::File(
            loose_files(fs, ignored)[j - ks.len()],
        ));
    }
}

// ---------------------------------------------------------------------------
// Asking git which paths it ignores
// ---------------------------------------------------------------------------

/// `git check-ignore` could not answer.
#[derive(Debug)]
pub struct GitCheckIgnoreError {
    pub message: String,
}

impl GitCheckIgnoreError {
    /// The error as it is displayed.
    pub fn to_string(&self) -> (r: String)
        ensures
            r@ == "git check-ignore failed: "@ + self.message@,
    {
        let mut out: Vec<char> = Vec::new();
        push_str(&mut out, "git check-ignore failed: ");
        push_str(&mut out, self.message.as_str());
        chars_to_string(&out)
    }
}

/// The input of `git check-ignore --stdin -z` for the given paths: each
/// non-empty path's UTF-8 bytes followed by a NUL byte.
pub open spec fn check_ignore_request_spec(paths: Seq<String>) -> Seq<u8>
    decreases paths.len(),
{
    if paths.len() == 0 {
        Seq::empty()
    } else if paths.last()@.len() == 0 {
        check_ignore_request_spec(paths.drop_last())
    } else {
        check_ignore_request_spec(paths.drop_last()) + vstd::utf8::encode_utf8(paths.last()@) + seq![0u8]
    }
}

/// Builds the input of `git check-ignore --stdin -z` (empty paths are left
/// out). An empty result means there is nothing to ask.
pub fn check_ignore_request(paths: &Vec<String>) -> (r: Vec<u8>)
    ensures
        r@ == check_ignore_request_spec(paths@),
{
    let mut out: Vec<u8> = Vec::new();
    let mut i: usize = 0;
    while i < paths.len()
        invariant
            i <= paths.len(),
            out@ == check_ignore_request_spec(paths@.take(i as int)),
        decreases paths.len() - i,
    {
        assert(paths@.take(i + 1).drop_last() =~= paths@.take(i as int));
        assert(paths@.take(i + 1).last() == paths@[i as int]);
        let p = paths[i].as_str();
        if p.unicode_len() > 0 {
            let bytes = p.as_bytes();
            let mut k: usize = 0;
            let ghost mid = out@;
            while k < bytes.len()
                invariant
                    k <= bytes@.len(),
                    bytes@ == p.spec_bytes(),
                    out@ == mid + bytes@.take(k as int),
                decreases bytes.len() - k,
            {
                out.push(bytes[k]);
                k = k + 1;
                assert(bytes@.take(k as int) =~= bytes@.take(k - 1).push(bytes@[k - 1]));
            }
            assert(bytes@.take(bytes@.len() as int) =~= bytes@);
            out.push(0u8);
        }
        i = i + 1;
    }
    assert(paths@.take(paths.len() as int) =~= paths@);
    out
}

/// The NUL-separated pieces of a byte string (`split(|b| b == 0)`).
pub open spec fn nul_pieces(b: Seq<u8>) -> Seq<Seq<u8>>
    decreases b.len(),
{
    if b.len() == 0 {
        seq![Seq::empty()]
    } else {
        let prev = nul_pieces(b.drop_last());
        if b.last() == 0 {
            prev.push(Seq::empty())
        } else {
            prev.update(prev.len() - 1, prev.last().push(b.last()))
        }
    }
}

/// The paths that `git check-ignore -z` printed: the non-empty pieces that
/// are valid UTF-8, decoded.
pub open spec fn ignored_paths_spec(pieces: Seq<Seq<u8>>) -> Seq<Seq<char>>
    decreases pieces.len(),
{
    if pieces.len() == 0 {
        Seq::empty()
    } else {
        let prev = ignored_paths_spec(pieces.drop_last());
        let p = pieces.last();
        if p.len() > 0 && vstd::utf8::valid_utf8(p) {
            prev.push(vstd::utf8::decode_utf8(p))
        } else {
            prev
        }
    }
}

proof fn lemma_nul_pieces_nonempty(b: Seq<u8>)
    ensures
        nul_pieces(b).len() >= 1,
    decreases b.len(),
{
    if b.len() > 0 {
        lemma_nul_pieces_nonempty(b.drop_last());
    }
}

/// Splits bytes at NUL bytes.
fn split_nul(b: &Vec<u8>) -> (r: Vec<Vec<u8>>)
    ensures
        r@.map_values(|v: Vec<u8>| v@) == nul_pieces(b@),
{
    let mut out: Vec<Vec<u8>> = Vec::new();
    let mut cur: Vec<u8> = Vec::new();
    let mut i: usize = 0;
    assert(b@.take(0) =~= Seq::<u8>::empty());
    while i < b.len()
        invariant
            i <= b.len(),
            out@.map_values(|v: Vec<u8>| v@).push(cur@) == nul_pieces(b@.take(i as int)),
        decreases b.len() - i,
    {
        let ghost before = out@.map_values(|v: Vec<u8>| v@).push(cur@);
        assert(b@.take(i + 1).drop_last() =~= b@.take(i as int));
        assert(b@.take(i + 1).last() == b@[i as int]);
        if b[i] == 0 {
            let done = cur;
            let ghost dv = done@;
            out.push(done);
            cur = Vec::new();
            assert(out@.map_values(|v: Vec<u8>| v@).push(cur@) =~= before.push(Seq::empty()));
        } else {
            cur.push(b[i]);
            assert(out@.map_values(|v: Vec<u8>| v@).push(cur@) =~= before.update(
                before.len() - 1,
                before.last().push(b@[i as int]),
            ));
        }
        i = i + 1;
    }
    assert(b@.take(b.len() as int) =~= b@);
    let ghost before = out@.map_values(|v: Vec<u8>| v@);
    out.push(cur);
    assert(out@.map_values(|v: Vec<u8>| v@) =~= before.push(cur@));
    out
}

/// Reads the output of `git check-ignore --stdin -z`: the NUL-separated
/// paths, leaving out empty pieces and pieces that are not UTF-8.
pub fn parse_check_ignore_output(stdout: &Vec<u8>) -> (r: Vec<String>)
    ensures
        r@.map_values(|s: String| s@) == ignored_paths_spec(nul_pieces(stdout@)),
{
    let pieces = split_nul(stdout);
    let ghost ps = nul_pieces(stdout@);
    let mut out: Vec<String> = Vec::new();
    let mut i: usize = 0;
    while i < pieces.len()
        invariant
            i <= pieces.len(),
            pieces@.map_values(|v: Vec<u8>| v@) == ps,
            out@.map_values(|s: String| s@) == ignored_paths_spec(ps.take(i as int)),
        decreases pieces.len() - i,
    {
        assert(ps.take(i + 1).drop_last() =~= ps.take(i as int));
        assert(ps.take(i + 1).last() == pieces@[i as int]@);
        let piece = &pieces[i];
        if piece.len() > 0 {
            match crate::text::utf8_str(piece.as_slice()) {
                Some(text) => {
                    let ghost before = out@;
                    out.push(String::from_str(text));
                    assert(out@.map_values(|s: String| s@) =~= before.map_values(|s: String| s@).push(
                        text@,
                    ));
                },
                None => {},
            }
        }
        i = i + 1;
    }
    assert(ps.take(pieces.len() as int) =~= ps);
    out
}

// ---------------------------------------------------------------------------
// Which items are offered
// ---------------------------------------------------------------------------

/// The paths of the files that the items stand for, in order.
pub open spec fn item_paths(items: Seq<ChangeItem>) -> Seq<String>
    decreases items.len(),
{
    if items.len() == 0 {
        Seq::empty()
    } else {
        item_paths(items.drop_last()) + match items.last() {
            ChangeItem::File(f) => seq![f.path],
            ChangeItem::Directory(d) => d.files@.map_values(|f: FileChange| f.path),
        }
    }
}

/// The paths of the files that the items stand for (what git is asked
/// about).
pub fn syncable_file_paths(items: &Vec<ChangeItem>) -> (r: Vec<String>)
    ensures
        r@ == item_paths(items@),
{
    let mut out: Vec<String> = Vec::new();
    let mut i: usize = 0;
    while i < items.len()
        invariant
            i <= items.len(),
            out@ == item_paths(items@.take(i as int)),
        decreases items.len() - i,
    {
        assert(items@.take(i + 1).drop_last() =~= items@.take(i as int));
        assert(items@.take(i + 1).last() == items@[i as int]);
        match &items[i] {
            ChangeItem::File(f) => {
                out.push(f.path.clone());
            },
            ChangeItem::Directory(d) => {
                let ghost start = out@;
                let mut k: usize = 0;
                while k < d.files.len()
                    invariant
                        k <= d.files.len(),
                        out@ == start + d.files@.take(k as int).map_values(|f: FileChange| f.path),
                    decreases d.files.len() - k,
                {
                    out.push(d.files[k].path.clone());
                    k = k + 1;
                    assert(d.files@.take(k as int).map_values(|f: FileChange| f.path) =~= d.files@.take(
                        k - 1,
                    ).map_values(|f: FileChange| f.path).push(d.files@[k - 1].path));
                }
                assert(d.files@.take(d.files.len() as int) =~= d.files@);
            },
        }
        i = i + 1;
    }
    assert(items@.take(items.len() as int) =~= items@);
    out
}

/// Git ignores the item: the file, or one of the directory's files.
pub open spec fn item_is_ignored(item: ChangeItem, ignored: Seq<String>) -> bool {
    match item {
        ChangeItem::File(f) => in_path_set(ignored, f.path@),
        ChangeItem::Directory(d) => exists|i: int|
            0 <= i < d.files@.len() && in_path_set(ignored, (#[trigger] d.files@[i]).path@),
    }
}

/// The path that the skip patterns are matched against.
pub open spec fn item_path(item: ChangeItem) -> Seq<char> {
    match item {
        ChangeItem::File(f) => f.path@,
        ChangeItem::Directory(d) => d.path@,
    }
}

/// The items git ignores, in order.
pub open spec fn ignored_items(items: Seq<ChangeItem>, ignored: Seq<String>) -> Seq<ChangeItem>
    decreases items.len(),
{
    if items.len() == 0 {
        Seq::empty()
    } else if item_is_ignored(items.last(), ignored) {
        ignored_items(items.drop_last(), ignored).push(items.last())
    } else {
        ignored_items(items.drop_last(), ignored)
    }
}

/// The items whose path some skip pattern matches (`skip`), or that none
/// matches (`!skip`), in order.
pub open spec fn skip_split(items: Seq<ChangeItem>, patterns: Seq<Seq<char>>, skip: bool) -> Seq<
    ChangeItem,
>
    decreases items.len(),
{
    if items.len() == 0 {
        Seq::empty()
    } else if any_pattern_matches(patterns, item_path(items.last())) == skip {
        skip_split(items.drop_last(), patterns, skip).push(items.last())
    } else {
        skip_split(items.drop_last(), patterns, skip)
    }
}

/// Two lists hold the same items, in order.
pub open spec fn same_items(a: Seq<ChangeItem>, b: Seq<ChangeItem>) -> bool {
    a.len() == b.len() && forall|j: int| 0 <= j < a.len() ==> crate::sync::types::same_item(
        #[trigger] a[j],
        b[j],
    )
}

/// The items to show, and those that the skip patterns set aside.
pub struct FilteredItems {
    pub items_to_show: Vec<ChangeItem>,
    pub auto_skipped: Vec<ChangeItem>,
}

/// Keeps the items that git ignores (only ignored files are synced back)
/// and splits them by the configured skip patterns.
///
/// `ignored_files` is git's answer for the items' files (see
/// `syncable_file_paths`); when git could not answer, its error is passed
/// on.
pub fn filter_syncable_items(
    change_items: Vec<ChangeItem>,
    ignored_files: Result<Vec<String>, GitCheckIgnoreError>,
    sync_config: &SyncConfig,
) -> (r: Result<FilteredItems, GitCheckIgnoreError>)
    ensures
        ignored_files is Err <==> r is Err,
        r matches Err(e) ==> ignored_files matches Err(e2) && e.message == e2.message,
        r matches Ok(f) ==> ignored_files matches Ok(ig) && ({
            let kept = ignored_items(change_items@, ig@);
            let patterns = valid_patterns(list_or_empty(sync_config.sync_always_skip));
            &&& same_items(f.items_to_show@, skip_split(kept, patterns, false))
            &&& same_items(f.auto_skipped@, skip_split(kept, patterns, true))
        }),
        r matches Ok(f) ==> ignored_files matches Ok(ig) && ({
            let kept = ignored_items(change_items@, ig@);
            let patterns = valid_patterns(list_or_empty(sync_config.sync_always_skip));
            &&& forall|k: int|
                0 <= k < f.auto_skipped@.len() ==> any_pattern_matches(
                    patterns,
                    item_path(#[trigger] f.auto_skipped@[k]),
                )
            &&& forall|k: int|
                0 <= k < f.items_to_show@.len() ==> !any_pattern_matches(
                    patterns,
                    item_path(#[trigger] f.items_to_show@[k]),
                )
            &&& f.auto_skipped@.len() + f.items_to_show@.len() == kept.len()
        }),
{
    let ignored = match ignored_files {
        Ok(v) => v,
        Err(e) => {
            return Err(e);
        },
    };
    let skip_list = sync_config.get_sync_always_skip();
    let skip_patterns = CompiledPatterns::new(skip_list.as_slice());
    let ghost patterns = skip_patterns@;
    let ghost items = change_items@;
    let ghost ig = ignored@;
    let mut kept: Vec<ChangeItem> = Vec::new();
    let mut i: usize = 0;
    while i < change_items.len()
        invariant
            i <= change_items.len(),
            items == change_items@,
            ig == ignored@,
            same_items(kept@, ignored_items(items.take(i as int), ig)),
        decreases change_items.len() - i,
    {
        assert(items.take(i + 1).drop_last() =~= items.take(i as int));
        assert(items.take(i + 1).last() == items[i as int]);
        let item = &change_items[i];
        let is_ignored = match item {
            ChangeItem::File(f) => path_in_set(&ignored, f.path.as_str()),
            ChangeItem::Directory(d) => {
                let mut found = false;
                let mut k: usize = 0;
                while k < d.files.len()
                    invariant
                        k <= d.files.len(),
                        ig == ignored@,
                        !found ==> forall|m: int| 0 <= m < k ==> !in_path_set(ig, (#[trigger] d.files@[m]).path@),
                        found ==> exists|m: int| 0 <= m < d.files@.len() && in_path_set(ig, (#[trigger] d.files@[m]).path@),
                    decreases d.files.len() - k,
                {
                    if !found && path_in_set(&ignored, d.files[k].path.as_str()) {
                        found = true;
                    }
                    k = k + 1;
                }
                found
            },
        };
        assert(is_ignored == item_is_ignored(items[i as int], ig));
        if is_ignored {
            let ghost before = kept@;
            kept.push(item.duplicate());
            assert(same_items(kept@, ignored_items(items.take(i + 1), ig))) by {
                assert forall|j: int| 0 <= j < kept@.len() implies crate::sync::types::same_item(
                    #[trigger] kept@[j],
                    ignored_items(items.take(i + 1), ig)[j],
                ) by {
                    if j < before.len() {
                        assert(kept@[j] == before[j]);
                    }
                }
            }
        }
        i = i + 1;
    }
    assert(items.take(change_items.len() as int) =~= items);
    let ghost kept_spec = ignored_items(items, ig);
    let mut items_to_show: Vec<ChangeItem> = Vec::new();
    let mut auto_skipped: Vec<ChangeItem> = Vec::new();
    let mut j: usize = 0;
    while j < kept.len()
        invariant
            j <= kept.len(),
            patterns == skip_patterns@,
            same_items(kept@, kept_spec),
            same_items(items_to_show@, skip_split(kept_spec.take(j as int), patterns, false)),
            same_items(auto_skipped@, skip_split(kept_spec.take(j as int), patterns, true)),
        decreases kept.len() - j,
    {
        assert(kept_spec.take(j + 1).drop_last() =~= kept_spec.take(j as int));
        assert(kept_spec.take(j + 1).last() == kept_spec[j as int]);
        let item = &kept[j];
        assert(crate::sync::types::same_item(kept@[j as int], kept_spec[j as int]));
        assert(item_path(kept@[j as int]) == item_path(kept_spec[j as int]));
        let skip = skip_patterns.matches(item.path().as_str());
        if skip {
            let ghost before = auto_skipped@;
            auto_skipped.push(item.duplicate());
            assert forall|m: int| 0 <= m < auto_skipped@.len() implies crate::sync::types::same_item(
                #[trigger] auto_skipped@[m],
                skip_split(kept_spec.take(j + 1), patterns, true)[m],
            ) by {
                if m < before.len() {
                    assert(auto_skipped@[m] == before[m]);
                }
            }
        } else {
            let ghost before = items_to_show@;
            items_to_show.push(item.duplicate());
            assert forall|m: int| 0 <= m < items_to_show@.len() implies crate::sync::types::same_item(
                #[trigger] items_to_show@[m],
                skip_split(kept_spec.take(j + 1), patterns, false)[m],
            ) by {
                if m < before.len() {
                    assert(items_to_show@[m] == before[m]);
                }
            }
        }
        j = j + 1;
    }
    assert(kept_spec.take(kept.len() as int) =~= kept_spec);
    proof {
        lemma_auto_skipped_exactly_when_matched(kept_spec, patterns);
        lemma_skip_split_partitions(kept_spec, patterns);
        let t = skip_split(kept_spec, patterns, true);
        let f = skip_split(kept_spec, patterns, false);
        assert forall|k: int| 0 <= k < auto_skipped@.len() implies any_pattern_matches(
            patterns,
            item_path(#[trigger] auto_skipped@[k]),
        ) by {
            assert(crate::sync::types::same_item(auto_skipped@[k], t[k]));
            assert(any_pattern_matches(patterns, item_path(t[k])));
        }
        assert forall|k: int| 0 <= k < items_to_show@.len() implies !any_pattern_matches(
            patterns,
            item_path(#[trigger] items_to_show@[k]),
        ) by {
            assert(crate::sync::types::same_item(items_to_show@[k], f[k]));
            assert(!any_pattern_matches(patterns, item_path(f[k])));
        }
    }
    Ok(FilteredItems { items_to_show, auto_skipped })
}

/// Every item that git ignores is either shown or set aside by a skip
/// pattern, never both: the two lists together are as long as the list of
/// ignored items.
pub proof fn lemma_skip_split_partitions(items: Seq<ChangeItem>, patterns: Seq<Seq<char>>)
    ensures
        skip_split(items, patterns, false).len() + skip_split(items, patterns, true).len()
            == items.len(),
    decreases items.len(),
{
    if items.len() > 0 {
        lemma_skip_split_partitions(items.drop_last(), patterns);
    }
}

/// The skip patterns decide each ignored item by its own path, a file's
/// or a directory's alike: every item set aside is matched by some skip
/// pattern, every item shown is matched by none, and each item of the list
/// lands on the side that its path decides.
pub proof fn lemma_auto_skipped_exactly_when_matched(items: Seq<ChangeItem>, patterns: Seq<Seq<char>>)
    ensures
        forall|k: int|
            0 <= k < skip_split(items, patterns, true).len() ==> any_pattern_matches(
                patterns,
                item_path(#[trigger] skip_split(items, patterns, true)[k]),
            ),
        forall|k: int|
            0 <= k < skip_split(items, patterns, false).len() ==> !any_pattern_matches(
                patterns,
                item_path(#[trigger] skip_split(items, patterns, false)[k]),
            ),
        forall|j: int|
            0 <= j < items.len() ==> (if any_pattern_matches(patterns, item_path(#[trigger] items[j])) {
                skip_split(items, patterns, true).contains(items[j])
            } else {
                skip_split(items, patterns, false).contains(items[j])
            }),
    decreases items.len(),
{
    if items.len() > 0 {
        let d = items.drop_last();
        lemma_auto_skipped_exactly_when_matched(d, patterns);
        let t = skip_split(items, patterns, true);
        let f = skip_split(items, patterns, false);
        let td = skip_split(d, patterns, true);
        let fd = skip_split(d, patterns, false);
        let last = items.last();
        if any_pattern_matches(patterns, item_path(last)) {
            assert(t == td.push(last));
            assert(f == fd);
        } else {
            assert(t == td);
            assert(f == fd.push(last));
        }
        assert forall|k: int| 0 <= k < t.len() implies any_pattern_matches(
            patterns,
            item_path(#[trigger] t[k]),
        ) by {
            if k < td.len() {
                assert(t[k] == td[k]);
            }
        }
        assert forall|k: int| 0 <= k < f.len() implies !any_pattern_matches(
            patterns,
            item_path(#[trigger] f[k]),
        ) by {
            if k < fd.len() {
                assert(f[k] == fd[k]);
            }
        }
        assert forall|j: int| 0 <= j < items.len() implies (if any_pattern_matches(
            patterns,
            item_path(#[trigger] items[j]),
        ) {
            t.contains(items[j])
        } else {
            f.contains(items[j])
        }) by {
            if j == items.len() - 1 {
                if any_pattern_matches(patterns, item_path(last)) {
                    assert(t[t.len() - 1] == items[j]);
                } else {
                    assert(f[f.len() - 1] == items[j]);
                }
            } else {
                assert(items[j] == d[j]);
                if any_pattern_matches(patterns, item_path(d[j])) {
                    let i = choose|i: int| 0 <= i < td.len() && td[i] == d[j];
                    assert(t[i] == td[i]);
                } else {
                    let i = choose|i: int| 0 <= i < fd.len() && fd[i] == d[j];
                    assert(f[i] == fd[i]);
                }
            }
        }
    }
}

} // verus!
