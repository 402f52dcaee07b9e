//! The kinds of change that a sync deals with.
use vstd::prelude::*;

use crate::overlay::types::MutationType;
use crate::text::{push_decimal, push_str, chars_to_string, decimal};

verus! {

/// How a file differs between the worktree and the main repository.
#[derive(Debug, Clone, Copy, PartialEq, Eq, Structural)]
pub enum ChangeType {
    Modified,
    Added,
    Deleted,
}

impl ChangeType {
    /// The change's name in listings.
    pub fn as_str(&self) -> (r: &'static str)
        ensures
            *self == ChangeType::Modified ==> r@ == "modified"@,
            *self == ChangeType::Added ==> r@ == "added"@,
            *self == ChangeType::Deleted ==> r@ == "deleted"@,
    {
        match self {
            ChangeType::Modified => "modified",
            ChangeType::Added => "added",
            ChangeType::Deleted => "deleted",
        }
    }

    /// The one-character marker of the change in listings.
    pub fn as_prefix(&self) -> (r: &'static str)
        ensures
            *self == ChangeType::Modified ==> r@ == "~"@,
            *self == ChangeType::Added ==> r@ == "+"@,
            *self == ChangeType::Deleted ==> r@ == "-"@,
    {
        match self {
            ChangeType::Modified => "~",
            ChangeType::Added => "+",
            ChangeType::Deleted => "-",
        }
    }

    /// The change that an overlay mutation amounts to: a copied-up file was
    /// modified, a created one added, a deleted one deleted.
    pub open spec fn of_mutation(mt: MutationType) -> ChangeType {
        match mt {
            MutationType::CopiedUp => ChangeType::Modified,
            MutationType::Created => ChangeType::Added,
            MutationType::Deleted => ChangeType::Deleted,
        }
    }

    /// The change that an overlay mutation amounts to.
    pub fn from_mutation(mt: MutationType) -> (r: ChangeType)
        ensures
            r == Self::of_mutation(mt),
    {
        match mt {
            MutationType::CopiedUp => ChangeType::Modified,
            MutationType::Created => ChangeType::Added,
            MutationType::Deleted => ChangeType::Deleted,
        }
    }
}

impl From<MutationType> for ChangeType {
    fn from(mt: MutationType) -> (r: ChangeType) {
        Self::from_mutation(mt)
    }
}

impl vstd::std_specs::convert::FromSpecImpl<MutationType> for ChangeType {
    open spec fn obeys_from_spec() -> bool {
        true
    }

    open spec fn from_spec(mt: MutationType) -> ChangeType {
        ChangeType::of_mutation(mt)
    }
}

/// One changed file, by its path relative to the worktree.
#[derive(Debug, Clone)]
pub struct FileChange {
    pub path: String,
    pub change_type: ChangeType,
}

impl FileChange {
    /// An equal copy.
    pub fn duplicate(&self) -> (r: FileChange)
        ensures
            r == *self,
    {
        FileChange { path: self.path.clone(), change_type: self.change_type }
    }
}

/// Changed files grouped under an ignored directory.
#[derive(Debug, Clone)]
pub struct DirectoryChange {
    pub path: String,
    pub files: Vec<FileChange>,
    pub modified_count: usize,
    pub added_count: usize,
    pub deleted_count: usize,
}

/// An entry of the list offered for syncing.
#[derive(Debug, Clone)]
pub enum ChangeItem {
    File(FileChange),
    Directory(DirectoryChange),
}

/// A copy of a list of file changes.
pub fn duplicate_files(files: &Vec<FileChange>) -> (r: Vec<FileChange>)
    ensures
        r@ == files@,
{
    let mut r: Vec<FileChange> = Vec::new();
    let mut i: usize = 0;
    while i < files.len()
        invariant
            i <= files.len(),
            r@ == files@.take(i as int),
        decreases files.len() - i,
    {
        r.push(files[i].duplicate());
        i = i + 1;
        assert(files@.take(i as int) =~= files@.take(i - 1).push(files@[i - 1]));
    }
    assert(files@.take(files.len() as int) =~= files@);
    r
}

impl DirectoryChange {
    /// An equal copy.
    pub fn duplicate(&self) -> (r: DirectoryChange)
        ensures
            r.path == self.path,
            r.files@ == self.files@,
            r.modified_count == self.modified_count,
            r.added_count == self.added_count,
            r.deleted_count == self.deleted_count,
    {
        DirectoryChange {
            path: self.path.clone(),
            files: duplicate_files(&self.files),
            modified_count: self.modified_count,
            added_count: self.added_count,
            deleted_count: self.deleted_count,
        }
    }
}

/// Two items are the same entry: the same file, or the same directory with
/// the same files and counts.
pub open spec fn same_item(a: ChangeItem, b: ChangeItem) -> bool {
    match (a, b) {
        (ChangeItem::File(x), ChangeItem::File(y)) => x == y,
        (ChangeItem::Directory(x), ChangeItem::Directory(y)) => {
            &&& x.path == y.path
            &&& x.files@ == y.files@
            &&& x.modified_count == y.modified_count
            &&& x.added_count == y.added_count
            &&& x.deleted_count == y.deleted_count
        },
        _ => false,
    }
}

/// The text of an item in listings: the path, and for a directory the
/// number of its files.
pub open spec fn item_text(item: ChangeItem) -> Seq<char> {
    match item {
        ChangeItem::File(f) => f.path@,
        ChangeItem::Directory(d) => d.path@ + " ("@ + decimal(d.files@.len()) + " files)"@,
    }
}

impl ChangeItem {
    /// An equal copy.
    pub fn duplicate(&self) -> (r: ChangeItem)
        ensures
            same_item(r, *self),
    {
        match self {
            ChangeItem::File(f) => ChangeItem::File(f.duplicate()),
            ChangeItem::Directory(d) => ChangeItem::Directory(d.duplicate()),
        }
    }

    /// The path that the item stands for (a file's, or a directory's).
    pub fn path(&self) -> (r: &String)
        ensures
            r == (match *self {
                ChangeItem::File(f) => f.path,
                ChangeItem::Directory(d) => d.path,
            }),
    {
        match self {
            ChangeItem::File(f) => &f.path,
            ChangeItem::Directory(d) => &d.path,
        }
    }

    /// The item as listings show it (its `Display` text).
    pub fn to_string(&self) -> (r: String)
        ensures
            r@ == item_text(*self),
    {
        match self {
            ChangeItem::File(f) => f.path.clone(),
            ChangeItem::Directory(d) => {
                let mut out: Vec<char> = Vec::new();
                push_str(&mut out, d.path.as_str());
                push_str(&mut out, " (");
                push_decimal(&mut out, d.files.len() as u64);
                push_str(&mut out, " files)");
                chars_to_string(&out)
            },
        }
    }
}

/// What a sync achieved so far, when some files failed.
#[derive(Debug, Clone, PartialEq, Eq)]
pub struct SyncProgress {
    pub synced_files: Vec<String>,
    pub failed_files: Vec<(String, String)>,
    pub total_count: usize,
}

/// How a sync ended.
#[derive(Debug, Clone, PartialEq, Eq)]
pub enum SyncResult {
    Synced(usize),
    Cancelled,
    Skipped,
    /// Some files were synced, others failed; the caller shows the failures.
    Partial(SyncProgress),
    /// `git check-ignore` failed, so which files are ignored is unknown; the
    /// caller warns that modified files may not have been shown and asks for
    /// extra confirmation before destructive actions.
    GitCheckFailed,
}

/// The grouped changes, and how many symlinks were left out.
pub struct AggregateResult {
    pub items: Vec<ChangeItem>,
    pub symlinks_skipped: usize,
}

} // verus!
