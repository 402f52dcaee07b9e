//! Tallying the outcome of a sync, and choosing the items to sync.
//!
//! Copying and removing files is the caller's; it reports for every file
//! whether that worked, and this module turns the reports into the result.
use vstd::prelude::*;

use super::types::{same_item, ChangeItem, SyncProgress, SyncResult};

verus! {

/// What happened to each file of a sync so far.
pub struct SyncStats {
    pub synced_files: Vec<String>,
    pub failed_files: Vec<(String, String)>,
    pub total_count: usize,
}

/// The paths of the files an item stands for, in order.
pub open spec fn item_file_paths(item: ChangeItem) -> Seq<String> {
    match item {
        ChangeItem::File(f) => seq![f.path],
        ChangeItem::Directory(d) => d.files@.map_values(|f: crate::sync::types::FileChange| f.path),
    }
}

/// The outcome reported for one file: `None` when it was synced, the error
/// text when it failed.
pub type FileOutcome = Option<String>;

/// The outcomes fit the items: one per file of each item.
pub open spec fn outcomes_fit(items: Seq<ChangeItem>, outcomes: Seq<Vec<FileOutcome>>) -> bool {
    &&& outcomes.len() == items.len()
    &&& forall|i: int|
        0 <= i < items.len() ==> (#[trigger] outcomes[i])@.len() == item_file_paths(items[i]).len()
}

/// The synced paths of one item.
pub open spec fn synced_of(paths: Seq<String>, outs: Seq<FileOutcome>) -> Seq<String>
    decreases paths.len(),
{
    if paths.len() == 0 || outs.len() == 0 {
        Seq::empty()
    } else {
        let prev = synced_of(paths.drop_last(), outs.drop_last());
        if outs.last() is None {
            prev.push(paths.last())
        } else {
            prev
        }
    }
}

/// The failed paths of one item, with their errors.
pub open spec fn failed_of(paths: Seq<String>, outs: Seq<FileOutcome>) -> Seq<(String, String)>
    decreases paths.len(),
{
    if paths.len() == 0 || outs.len() == 0 {
        Seq::empty()
    } else {
        let prev = failed_of(paths.drop_last(), outs.drop_last());
        match outs.last() {
            Some(e) => prev.push((paths.last(), e)),
            None => prev,
        }
    }
}

/// How much an item adds to the total: a file only when it was synced, a
/// directory always all its files.
pub open spec fn total_of(item: ChangeItem, outs: Seq<FileOutcome>) -> nat {
    match item {
        ChangeItem::File(_) => if outs.len() > 0 && outs[0] is None {
            1
        } else {
            0
        },
        ChangeItem::Directory(d) => d.files@.len(),
    }
}

/// The tallies over the first items.
pub open spec fn tally_spec(items: Seq<ChangeItem>, outcomes: Seq<Vec<FileOutcome>>) -> (
    Seq<String>,
    Seq<(String, String)>,
    nat,
)
    decreases items.len(),
{
    if items.len() == 0 || outcomes.len() == 0 {
        (Seq::empty(), Seq::empty(), 0)
    } else {
        let (s, f, t) = tally_spec(items.drop_last(), outcomes.drop_last());
        let paths = item_file_paths(items.last());
        let outs = outcomes.last()@;
        (s + synced_of(paths, outs), f + failed_of(paths, outs), t + total_of(items.last(), outs))
    }
}

/// Collects the outcomes of one item's files.
fn tally_item(
    stats: &mut SyncStats,
    paths: &Vec<String>,
    outs: &Vec<FileOutcome>,
)
    requires
        paths@.len() == outs@.len(),
    ensures
        final(stats).synced_files@ == old(stats).synced_files@ + synced_of(paths@, outs@),
        final(stats).failed_files@ == old(stats).failed_files@ + failed_of(paths@, outs@),
        final(stats).total_count == old(stats).total_count,
{
    let mut i: usize = 0;
    while i < paths.len()
        invariant
            i <= paths.len(),
            paths@.len() == outs@.len(),
            stats.synced_files@ == old(stats).synced_files@ + synced_of(
                paths@.take(i as int),
                outs@.take(i as int),
            ),
            stats.failed_files@ == old(stats).failed_files@ + failed_of(
                paths@.take(i as int),
                outs@.take(i as int),
            ),
            stats.total_count == old(stats).total_count,
        decreases paths.len() - i,
    {
        assert(paths@.take(i + 1).drop_last() =~= paths@.take(i as int));
        assert(outs@.take(i + 1).drop_last() =~= outs@.take(i as int));
        assert(paths@.take(i + 1).last() == paths@[i as int]);
        assert(outs@.take(i + 1).last() == outs@[i as int]);
        match &outs[i] {
            None => {
                stats.synced_files.push(paths[i].clone());
            },
            Some(e) => {
                stats.failed_files.push((paths[i].clone(), e.clone()));
            },
        }
        i = i + 1;
    }
    assert(paths@.take(paths.len() as int) =~= paths@);
    assert(outs@.take(paths.len() as int) =~= outs@);
}

/// The paths of an item's files.
fn item_paths_of(item: &ChangeItem) -> (r: Vec<String>)
    ensures
        r@ == item_file_paths(*item),
{
    match item {
        ChangeItem::File(f) => {
            let mut v: Vec<String> = Vec::new();
            v.push(f.path.clone());
            v
        },
        ChangeItem::Directory(d) => {
            let mut v: Vec<String> = Vec::new();
            let mut k: usize = 0;
            while k < d.files.len()
                invariant
                    k <= d.files.len(),
                    v@ == d.files@.take(k as int).map_values(
                        |f: crate::sync::types::FileChange| f.path,
                    ),
                decreases d.files.len() - k,
            {
                v.push(d.files[k].path.clone());
                k = k + 1;
                assert(d.files@.take(k as int).map_values(|f: crate::sync::types::FileChange| f.path)
                    =~= d.files@.take(k - 1).map_values(
                    |f: crate::sync::types::FileChange| f.path,
                ).push(d.files@[k - 1].path));
            }
            assert(d.files@.take(d.files.len() as int) =~= d.files@);
            v
        },
    }
}

/// Tallies the reported outcomes of syncing the items: the synced paths,
/// the failed paths with their errors, and the total (a file counts when
/// it was synced, a directory with all its files).
pub fn tally_sync(items: &Vec<ChangeItem>, outcomes: &Vec<Vec<FileOutcome>>) -> (r: SyncStats)
    requires
        outcomes_fit(items@, outcomes@),
        tally_spec(items@, outcomes@).2 <= usize::MAX,
    ensures
        (r.synced_files@, r.failed_files@, r.total_count as nat) == tally_spec(items@, outcomes@),
{
    let mut stats = SyncStats { synced_files: Vec::new(), failed_files: Vec::new(), total_count: 0 };
    let mut i: usize = 0;
    while i < items.len()
        invariant
            i <= items.len(),
            outcomes_fit(items@, outcomes@),
            tally_spec(items@, outcomes@).2 <= usize::MAX,
            (stats.synced_files@, stats.failed_files@, stats.total_count as nat) == tally_spec(
                items@.take(i as int),
                outcomes@.take(i as int),
            ),
        decreases items.len() - i,
    {
        assert(items@.take(i + 1).drop_last() =~= items@.take(i as int));
        assert(outcomes@.take(i + 1).drop_last() =~= outcomes@.take(i as int));
        assert(items@.take(i + 1).last() == items@[i as int]);
        assert(outcomes@.take(i + 1).last() == outcomes@[i as int]);
        proof {
            lemma_tally_total_monotone(items@, outcomes@, i + 1);
        }
        let paths = item_paths_of(&items[i]);
        let outs = &outcomes[i];
        assert(outs@.len() == paths@.len());
        tally_item(&mut stats, &paths, outs);
        let add: usize = match &items[i] {
            ChangeItem::File(_) => if outs.len() > 0 && outs[0].is_none() {
                1
            } else {
                0
            },
            ChangeItem::Directory(d) => d.files.len(),
        };
        stats.total_count = stats.total_count + add;
        i = i + 1;
    }
    assert(items@.take(items.len() as int) =~= items@);
    assert(outcomes@.take(items.len() as int) =~= outcomes@);
    stats
}

/// The total over a prefix is at most the total over all.
proof fn lemma_tally_total_monotone(items: Seq<ChangeItem>, outcomes: Seq<Vec<FileOutcome>>, n: int)
    requires
        0 <= n <= items.len(),
        outcomes.len() == items.len(),
    ensures
        tally_spec(items.take(n), outcomes.take(n)).2 <= tally_spec(items, outcomes).2,
    decreases items.len() - n,
{
    if n < items.len() {
        lemma_tally_total_monotone(items, outcomes, n + 1);
        assert(items.take(n + 1).drop_last() =~= items.take(n));
        assert(outcomes.take(n + 1).drop_last() =~= outcomes.take(n));
    } else {
        assert(items.take(n) =~= items);
        assert(outcomes.take(n) =~= outcomes);
    }
}

/// The result of a sync: partial when some file failed, else the number
/// synced.
pub fn create_sync_result(stats: SyncStats) -> (r: SyncResult)
    ensures
        stats.failed_files@.len() > 0 ==> (r matches SyncResult::Partial(p) && p.synced_files@
            == stats.synced_files@ && p.failed_files@ == stats.failed_files@ && p.total_count
            == stats.total_count),
        stats.failed_files@.len() == 0 ==> r == SyncResult::Synced(stats.total_count),
{
    if stats.failed_files.len() > 0 {
        SyncResult::Partial(
            SyncProgress {
                total_count: stats.total_count,
                synced_files: stats.synced_files,
                failed_files: stats.failed_files,
            },
        )
    } else {
        SyncResult::Synced(stats.total_count)
    }
}

/// Splits the items into those selected (by index) and the rest, both in
/// order.
pub fn split_selected(items: &Vec<ChangeItem>, selected: &std::collections::HashSet<usize>) -> (r: (
    Vec<ChangeItem>,
    Vec<ChangeItem>,
))
    ensures
        r.0@.len() == selected_indices(items@.len(), selected@).len(),
        forall|j: int|
            0 <= j < r.0@.len() ==> same_item(
                #[trigger] r.0@[j],
                items@[selected_indices(items@.len(), selected@)[j]],
            ),
        r.1@.len() == unselected_indices(items@.len(), selected@).len(),
        forall|j: int|
            0 <= j < r.1@.len() ==> same_item(
                #[trigger] r.1@[j],
                items@[unselected_indices(items@.len(), selected@)[j]],
            ),
{
    broadcast use vstd::std_specs::hash::group_hash_axioms;

    let mut to_sync: Vec<ChangeItem> = Vec::new();
    let mut skipped: Vec<ChangeItem> = Vec::new();
    let mut i: usize = 0;
    while i < items.len()
        invariant
            i <= items.len(),
            vstd::std_specs::hash::obeys_key_model::<usize>(),
            to_sync@.len() == selected_indices(i as nat, selected@).len(),
            forall|j: int|
                0 <= j < to_sync@.len() ==> same_item(
                    #[trigger] to_sync@[j],
                    items@[selected_indices(i as nat, selected@)[j]],
                ),
            skipped@.len() == unselected_indices(i as nat, selected@).len(),
            forall|j: int|
                0 <= j < skipped@.len() ==> same_item(
                    #[trigger] skipped@[j],
                    items@[unselected_indices(i as nat, selected@)[j]],
                ),
        decreases items.len() - i,
    {
        if selected.contains(&i) {
            let ghost before = to_sync@;
            to_sync.push(items[i].duplicate());
            assert forall|j: int| 0 <= j < to_sync@.len() implies same_item(
                #[trigger] to_sync@[j],
                items@[selected_indices((i + 1) as nat, selected@)[j]],
            ) by {
                if j < before.len() {
                    assert(to_sync@[j] == before[j]);
                }
            }
        } else {
            let ghost before = skipped@;
            skipped.push(items[i].duplicate());
            assert forall|j: int| 0 <= j < skipped@.len() implies same_item(
                #[trigger] skipped@[j],
                items@[unselected_indices((i + 1) as nat, selected@)[j]],
            ) by {
                if j < before.len() {
                    assert(skipped@[j] == before[j]);
                }
            }
        }
        i = i + 1;
    }
    (to_sync, skipped)
}

/// The indices below `n` that are selected, in increasing order.
pub open spec fn selected_indices(n: nat, selected: Set<usize>) -> Seq<int>
    decreases n,
{
    if n == 0 {
        Seq::empty()
    } else if selected.contains((n - 1) as usize) {
        selected_indices((n - 1) as nat, selected).push(n - 1)
    } else {
        selected_indices((n - 1) as nat, selected)
    }
}

/// The indices below `n` that are not selected, in increasing order.
pub open spec fn unselected_indices(n: nat, selected: Set<usize>) -> Seq<int>
    decreases n,
{
    if n == 0 {
        Seq::empty()
    } else if !selected.contains((n - 1) as usize) {
        unselected_indices((n - 1) as nat, selected).push(n - 1)
    } else {
        unselected_indices((n - 1) as nat, selected)
    }
}

/// Every file of an item is reported once: either among the synced or
/// among the failed.
pub proof fn lemma_outcomes_partition_files(paths: Seq<String>, outs: Seq<FileOutcome>)
    requires
        paths.len() == outs.len(),
    ensures
        synced_of(paths, outs).len() + failed_of(paths, outs).len() == paths.len(),
    decreases paths.len(),
{
    if paths.len() > 0 {
        lemma_outcomes_partition_files(paths.drop_last(), outs.drop_last());
    }
}

/// The selected and the unselected indices together are all indices.
pub proof fn lemma_selection_partitions(n: nat, selected: Set<usize>)
    ensures
        selected_indices(n, selected).len() + unselected_indices(n, selected).len() == n,
    decreases n,
{
    if n > 0 {
        lemma_selection_partitions((n - 1) as nat, selected);
    }
}

/// What the sync dialog does once the changes are filtered.
#[derive(Debug, Clone, Copy, PartialEq, Eq, Structural)]
pub enum SyncFlowStep {
    /// Nothing to offer: no ignored file was modified.
    NothingModified,
    /// Git could not tell which files are ignored; warn and report it.
    GitCheckFailed,
    /// Everything was set aside by the skip patterns; list what was skipped.
    AllAutoSkipped,
    /// A single file: preview it and ask about it alone.
    SingleFile,
    /// Several entries: show the summary and ask what to sync.
    Summary,
}

/// Chooses how the sync dialog goes on after filtering.
pub fn sync_flow_step(
    filtered: &Result<super::aggregation::FilteredItems, super::aggregation::GitCheckIgnoreError>,
) -> (r: SyncFlowStep)
    ensures
        r == (match filtered {
            Err(_) => SyncFlowStep::GitCheckFailed,
            Ok(f) => if f.items_to_show@.len() == 0 {
                if f.auto_skipped@.len() > 0 {
                    SyncFlowStep::AllAutoSkipped
                } else {
                    SyncFlowStep::NothingModified
                }
            } else if f.items_to_show@.len() == 1 && f.items_to_show@[0] is File {
                SyncFlowStep::SingleFile
            } else {
                SyncFlowStep::Summary
            },
        }),
{
    match filtered {
        Err(_) => SyncFlowStep::GitCheckFailed,
        Ok(f) => {
            if f.items_to_show.len() == 0 {
                if f.auto_skipped.len() > 0 {
                    SyncFlowStep::AllAutoSkipped
                } else {
                    SyncFlowStep::NothingModified
                }
            } else if f.items_to_show.len() == 1 && matches!(f.items_to_show[0], ChangeItem::File(_)) {
                SyncFlowStep::SingleFile
            } else {
                SyncFlowStep::Summary
            }
        },
    }
}

} // verus!
