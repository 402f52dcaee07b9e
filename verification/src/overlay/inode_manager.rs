//! The overlay's inodes: numbering, the table of what each inode is,
//! directory children, open handles, hard links and deletion. No
//! filesystem I/O happens here.
use vstd::prelude::*;

use std::collections::HashSet;

use super::types::{
    child_lookup, entry_of, spec_name_hash, touched, with_child, without, without_child,
    FileKind, InodeAttrs, InodeData, InodeTable, InodeView, LayerType,
};

verus! {

/// What a key's entry becomes under `f`, when it has one.
pub open spec fn changed(s: Seq<(u64, InodeView)>, ino: u64, f: spec_fn(InodeView) -> InodeView) -> Seq<
    (u64, InodeView),
> {
    match entry_of(s, ino) {
        Some(v) => touched(s, ino, f(v)),
        None => s,
    }
}

/// One more file handle open.
pub open spec fn opened(v: InodeView) -> InodeView {
    InodeView { open_file_handles: (v.open_file_handles + 1) as u64, ..v }
}

/// One file handle fewer open (never below zero).
pub open spec fn released(v: InodeView) -> InodeView {
    InodeView {
        open_file_handles: if v.open_file_handles > 0 {
            (v.open_file_handles - 1) as u64
        } else {
            0
        },
        ..v
    }
}

/// One more hard link, in the count and in the attributes.
pub open spec fn linked(v: InodeView) -> InodeView {
    InodeView {
        hardlinks: (v.hardlinks + 1) as u32,
        attrs: InodeAttrs { nlink: (v.attrs.nlink + 1) as u32, ..v.attrs },
        ..v
    }
}

/// One hard link fewer (never below zero), in the count and in the
/// attributes.
pub open spec fn unlinked(v: InodeView) -> InodeView {
    InodeView {
        hardlinks: if v.hardlinks > 0 {
            (v.hardlinks - 1) as u32
        } else {
            0
        },
        attrs: InodeAttrs {
            nlink: if v.attrs.nlink > 0 {
                (v.attrs.nlink - 1) as u32
            } else {
                0
            },
            ..v.attrs
        },
        ..v
    }
}

/// Closing a file handle undoes opening one.
pub proof fn lemma_close_undoes_open(v: InodeView)
    requires
        v.open_file_handles < u64::MAX,
    ensures
        released(opened(v)) == v,
{
}

/// Removing a hard link undoes adding one.
pub proof fn lemma_unlink_undoes_link(v: InodeView)
    requires
        v.hardlinks < u32::MAX,
        v.attrs.nlink < u32::MAX,
    ensures
        unlinked(linked(v)) == v,
{
}

/// The inode numbers handed out, the table of inodes, and the inodes
/// deleted while files were still open on them.
pub struct InodeManager {
    inodes: InodeTable,
    next_ino: u64,
    deleted: HashSet<u64>,
}

impl InodeManager {
    /// The next inode number to hand out.
    pub closed spec fn next(&self) -> u64 {
        self.next_ino
    }

    /// The inodes marked deleted.
    pub closed spec fn deleted_set(&self) -> Set<u64> {
        self.deleted@
    }

    /// The table of inodes.
    pub closed spec fn table(&self) -> InodeTable {
        self.inodes
    }

    /// The table is well formed.
    pub closed spec fn well_formed(&self) -> bool {
        self.inodes.well_formed()
    }

    /// Nothing known yet; numbering starts at 2 (FUSE reserves 1 for the
    /// root).
    pub fn new() -> (r: Self)
        ensures
            r.well_formed(),
            r.next() == 2,
            r.table().entries() == Seq::<(u64, InodeView)>::empty(),
            r.table().children_view() == Map::<u64, Map<u64, u64>>::empty(),
            r.deleted_set() == Set::<u64>::empty(),
    {
        InodeManager { inodes: InodeTable::new(), next_ino: 2, deleted: HashSet::new() }
    }

    /// Hands out the next inode number; after the largest one numbering
    /// wraps to 0.
    pub fn alloc_inode(&mut self) -> (r: u64)
        ensures
            r == old(self).next(),
            final(self).next() == (if old(self).next() == u64::MAX {
                0
            } else {
                (old(self).next() + 1) as u64
            }),
            final(self).table() == old(self).table(),
            final(self).deleted_set() == old(self).deleted_set(),
    {
        let ino = self.next_ino;
        self.next_ino = self.next_ino.wrapping_add(1);
        ino
    }

    /// Stores an inode (see `InodeTable::insert`).
    pub fn insert(&mut self, inode: InodeData)
        requires
            old(self).well_formed(),
        ensures
            final(self).well_formed(),
            final(self).table().entries() == super::types::put_spec(
                old(self).table().entries(),
                old(self).table().capacity(),
                inode.inode,
                inode@,
            ),
            final(self).table().capacity() == old(self).table().capacity(),
            inode.inode != super::types::FUSE_ROOT_ID ==> final(self).table().children_view()
                == with_child(
                old(self).table().children_view(),
                inode.parent,
                spec_name_hash(inode.name@),
                inode.inode,
            ),
            inode.inode == super::types::FUSE_ROOT_ID ==> final(self).table().children_view() == old(
                self,
            ).table().children_view(),
            final(self).next() == old(self).next(),
            final(self).deleted_set() == old(self).deleted_set(),
    {
        self.inodes.insert(inode);
    }

    /// An inode's relative path, layer, and whether files are open on it.
    pub fn get_inode_info(&self, ino: u64) -> (r: Option<(String, LayerType, bool)>)
        ensures
            match entry_of(self.table().entries(), ino) {
                Some(v) => r matches Some((p, l, open)) && p@ == v.path && l == v.layer && open == (
                v.open_file_handles > 0),
                None => r is None,
            },
    {
        match self.inodes.peek(ino) {
            Some(d) => Some((d.path.clone(), d.layer, d.open_file_handles > 0)),
            None => None,
        }
    }

    /// The inode is known and lives in the upper layer.
    pub fn is_in_upper_layer(&self, ino: u64) -> (r: bool)
        ensures
            r == (entry_of(self.table().entries(), ino) matches Some(v) && v.layer == LayerType::Upper),
    {
        match self.inodes.peek(ino) {
            Some(d) => d.layer == LayerType::Upper,
            None => false,
        }
    }

    /// The child of a directory under a name (see `InodeTable::lookup_child`).
    pub fn lookup_child(&self, parent: u64, name: &[u8]) -> (r: Option<u64>)
        ensures
            r == child_lookup(
                self.table().children_view(),
                self.table().entries(),
                parent,
                spec_name_hash(name@),
            ),
    {
        self.inodes.lookup_child(parent, name)
    }

    /// Records a child of a directory.
    pub fn add_child(&mut self, parent: u64, name: &[u8], ino: u64)
        requires
            old(self).well_formed(),
        ensures
            final(self).well_formed(),
            final(self).table().entries() == old(self).table().entries(),
            final(self).table().capacity() == old(self).table().capacity(),
            final(self).table().children_view() == with_child(
                old(self).table().children_view(),
                parent,
                spec_name_hash(name@),
                ino,
            ),
            final(self).next() == old(self).next(),
            final(self).deleted_set() == old(self).deleted_set(),
    {
        self.inodes.add_child(parent, name, ino);
    }

    /// Forgets a child of a directory.
    pub fn remove_child(&mut self, parent: u64, name: &[u8])
        requires
            old(self).well_formed(),
        ensures
            final(self).well_formed(),
            final(self).table().entries() == old(self).table().entries(),
            final(self).table().capacity() == old(self).table().capacity(),
            final(self).table().children_view() == without_child(
                old(self).table().children_view(),
                parent,
                spec_name_hash(name@),
            ),
            final(self).next() == old(self).next(),
            final(self).deleted_set() == old(self).deleted_set(),
    {
        self.inodes.remove_child(parent, name);
    }

    /// After a copy-up: the inode lives in the upper layer at `path`, with
    /// new attributes.
    pub fn update_after_copy_up(&mut self, ino: u64, path: String, attrs: InodeAttrs)
        requires
            old(self).well_formed(),
        ensures
            final(self).well_formed(),
            final(self).table().entries() == changed(
                old(self).table().entries(),
                ino,
                |v: InodeView| (InodeView { layer: LayerType::Upper, path: path@, attrs, ..v }),
            ),
            final(self).table().capacity() == old(self).table().capacity(),
            final(self).table().children_view() == old(self).table().children_view(),
            final(self).next() == old(self).next(),
            final(self).deleted_set() == old(self).deleted_set(),
    {
        match self.inodes.take(ino) {
            Some(mut d) => {
                d.layer = LayerType::Upper;
                d.path = path;
                d.attrs = attrs;
                self.inodes.put_back(d);
            },
            None => {},
        }
    }

    /// Replaces an inode's attributes.
    pub fn update_attrs(&mut self, ino: u64, attrs: InodeAttrs)
        requires
            old(self).well_formed(),
        ensures
            final(self).well_formed(),
            final(self).table().entries() == changed(
                old(self).table().entries(),
                ino,
                |v: InodeView| (InodeView { attrs, ..v }),
            ),
            final(self).table().capacity() == old(self).table().capacity(),
            final(self).table().children_view() == old(self).table().children_view(),
            final(self).next() == old(self).next(),
            final(self).deleted_set() == old(self).deleted_set(),
    {
        self.inodes.update_attrs(ino, attrs);
    }

    /// Sets an inode's size.
    pub fn update_size(&mut self, ino: u64, new_size: u64)
        requires
            old(self).well_formed(),
        ensures
            final(self).well_formed(),
            final(self).table().entries() == changed(
                old(self).table().entries(),
                ino,
                |v: InodeView| (InodeView { attrs: InodeAttrs { size: new_size, ..v.attrs }, ..v }),
            ),
            final(self).table().capacity() == old(self).table().capacity(),
            final(self).table().children_view() == old(self).table().children_view(),
            final(self).next() == old(self).next(),
            final(self).deleted_set() == old(self).deleted_set(),
    {
        self.inodes.update_size(ino, new_size);
    }

    /// Whether one more handle can be counted for the inode (its count is
    /// below the largest `u64`), as `increment_open_handles` requires.
    pub fn can_count_open_handle(&self, ino: u64) -> (r: bool)
        ensures
            r == (entry_of(self.table().entries(), ino) matches Some(v) ==> v.open_file_handles
                < u64::MAX),
    {
        match self.inodes.peek(ino) {
            Some(d) => d.open_file_handles < u64::MAX,
            None => true,
        }
    }

    /// Whether one more link can be counted for the inode (both its counts
    /// are below the largest `u32`), as `increment_hardlinks` requires.
    pub fn can_count_hardlink(&self, ino: u64) -> (r: bool)
        ensures
            r == (entry_of(self.table().entries(), ino) matches Some(v) ==> v.hardlinks < u32::MAX
                && v.attrs.nlink < u32::MAX),
    {
        match self.inodes.peek(ino) {
            Some(d) => d.hardlinks < u32::MAX && d.attrs.nlink < u32::MAX,
            None => true,
        }
    }

    /// One more file handle is open on the inode.
    pub fn increment_open_handles(&mut self, ino: u64)
        requires
            old(self).well_formed(),
            entry_of(old(self).table().entries(), ino) matches Some(v) ==> v.open_file_handles
                < u64::MAX,
        ensures
            final(self).well_formed(),
            final(self).table().entries() == changed(
                old(self).table().entries(),
                ino,
                |v: InodeView| opened(v),
            ),
            final(self).table().capacity() == old(self).table().capacity(),
            final(self).table().children_view() == old(self).table().children_view(),
            final(self).next() == old(self).next(),
            final(self).deleted_set() == old(self).deleted_set(),
    {
        match self.inodes.take(ino) {
            Some(mut d) => {
                d.open_file_handles = d.open_file_handles + 1;
                self.inodes.put_back(d);
            },
            None => {},
        }
    }

    /// One file handle fewer is open on the inode (never below zero).
    /// Returns whether the inode is now to be collected: no hard link and
    /// no open handle is left (false for an unknown inode).
    pub fn decrement_open_handles(&mut self, ino: u64) -> (r: bool)
        requires
            old(self).well_formed(),
        ensures
            final(self).well_formed(),
            final(self).table().entries() == changed(
                old(self).table().entries(),
                ino,
                |v: InodeView| released(v),
            ),
            r == (match entry_of(old(self).table().entries(), ino) {
                Some(v) => v.hardlinks == 0 && v.open_file_handles <= 1,
                None => false,
            }),
            final(self).table().capacity() == old(self).table().capacity(),
            final(self).table().children_view() == old(self).table().children_view(),
            final(self).next() == old(self).next(),
            final(self).deleted_set() == old(self).deleted_set(),
    {
        match self.inodes.take(ino) {
            Some(mut d) => {
                d.open_file_handles = d.open_file_handles.saturating_sub(1);
                let gc = d.hardlinks == 0 && d.open_file_handles == 0;
                self.inodes.put_back(d);
                gc
            },
            None => false,
        }
    }

    /// One hard link fewer names the inode (never below zero), in its
    /// count and in its attributes.
    pub fn decrement_hardlinks(&mut self, ino: u64)
        requires
            old(self).well_formed(),
        ensures
            final(self).well_formed(),
            final(self).table().entries() == changed(
                old(self).table().entries(),
                ino,
                |v: InodeView| unlinked(v),
            ),
            final(self).table().capacity() == old(self).table().capacity(),
            final(self).table().children_view() == old(self).table().children_view(),
            final(self).next() == old(self).next(),
            final(self).deleted_set() == old(self).deleted_set(),
    {
        match self.inodes.take(ino) {
            Some(mut d) => {
                d.hardlinks = d.hardlinks.saturating_sub(1);
                d.attrs.nlink = d.attrs.nlink.saturating_sub(1);
                self.inodes.put_back(d);
            },
            None => {},
        }
    }

    /// One more hard link names the inode, in its count and in its
    /// attributes.
    pub fn increment_hardlinks(&mut self, ino: u64)
        requires
            old(self).well_formed(),
            entry_of(old(self).table().entries(), ino) matches Some(v) ==> v.hardlinks < u32::MAX
                && v.attrs.nlink < u32::MAX,
        ensures
            final(self).well_formed(),
            final(self).table().entries() == changed(
                old(self).table().entries(),
                ino,
                |v: InodeView| linked(v),
            ),
            final(self).table().capacity() == old(self).table().capacity(),
            final(self).table().children_view() == old(self).table().children_view(),
            final(self).next() == old(self).next(),
            final(self).deleted_set() == old(self).deleted_set(),
    {
        match self.inodes.take(ino) {
            Some(mut d) => {
                d.hardlinks = d.hardlinks + 1;
                d.attrs.nlink = d.attrs.nlink + 1;
                self.inodes.put_back(d);
            },
            None => {},
        }
    }

    /// Records the layer an inode was actually found in.
    pub fn update_layer_if_needed(&mut self, ino: u64, layer: LayerType)
        requires
            old(self).well_formed(),
        ensures
            final(self).well_formed(),
            final(self).table().entries() == changed(
                old(self).table().entries(),
                ino,
                |v: InodeView| (InodeView { layer, ..v }),
            ),
            final(self).table().capacity() == old(self).table().capacity(),
            final(self).table().children_view() == old(self).table().children_view(),
            final(self).next() == old(self).next(),
            final(self).deleted_set() == old(self).deleted_set(),
    {
        match self.inodes.take(ino) {
            Some(mut d) => {
                if d.layer != layer {
                    d.layer = layer;
                }
                self.inodes.put_back(d);
            },
            None => {},
        }
    }

    /// After a rename: the old name is forgotten, the new one recorded, and
    /// the inode's path, parent, name and layer follow.
    pub fn update_after_rename(
        &mut self,
        ino: u64,
        old_parent: u64,
        old_name: &[u8],
        new_parent: u64,
        new_name: Vec<u8>,
        new_path: String,
        layer: LayerType,
    )
        requires
            old(self).well_formed(),
        ensures
            final(self).well_formed(),
            final(self).table().children_view() == with_child(
                without_child(
                    old(self).table().children_view(),
                    old_parent,
                    spec_name_hash(old_name@),
                ),
                new_parent,
                spec_name_hash(new_name@),
                ino,
            ),
            final(self).table().entries() == changed(
                old(self).table().entries(),
                ino,
                |v: InodeView|
                    (InodeView {
                        path: new_path@,
                        parent: new_parent,
                        name: new_name@,
                        layer,
                        ..v
                    }),
            ),
            final(self).table().capacity() == old(self).table().capacity(),
            final(self).next() == old(self).next(),
            final(self).deleted_set() == old(self).deleted_set(),
    {
        self.inodes.remove_child(old_parent, old_name);
        self.inodes.add_child(new_parent, new_name.as_slice(), ino);
        match self.inodes.take(ino) {
            Some(mut d) => {
                d.path = new_path;
                d.parent = new_parent;
                d.name = new_name;
                d.layer = layer;
                self.inodes.put_back(d);
            },
            None => {},
        }
    }

    /// Marks an inode deleted while files are still open on it.
    pub fn mark_deleted(&mut self, ino: u64)
        ensures
            final(self).deleted_set() == old(self).deleted_set().insert(ino),
            final(self).table() == old(self).table(),
            final(self).next() == old(self).next(),
    {
        broadcast use vstd::std_specs::hash::group_hash_axioms;

        self.deleted.insert(ino);
    }

    /// Whether the inode is marked deleted.
    pub fn is_deleted(&self, ino: u64) -> (r: bool)
        ensures
            r == self.deleted_set().contains(ino),
    {
        broadcast use vstd::std_specs::hash::group_hash_axioms;

        self.deleted.contains(&ino)
    }

    /// Clears the inode's deleted mark.
    pub fn unmark_deleted(&mut self, ino: u64)
        ensures
            final(self).deleted_set() == old(self).deleted_set().remove(ino),
            final(self).table() == old(self).table(),
            final(self).next() == old(self).next(),
    {
        broadcast use vstd::std_specs::hash::group_hash_axioms;

        self.deleted.remove(&ino);
    }

    /// Removes an inode (see `InodeTable::remove`).
    pub fn remove(&mut self, ino: u64)
        requires
            old(self).well_formed(),
        ensures
            final(self).well_formed(),
            final(self).table().entries() == without(old(self).table().entries(), ino),
            final(self).table().capacity() == old(self).table().capacity(),
            match entry_of(old(self).table().entries(), ino) {
                Some(v) => final(self).table().children_view() == without_child(
                    old(self).table().children_view(),
                    v.parent,
                    spec_name_hash(v.name),
                ),
                None => final(self).table().children_view() == old(self).table().children_view(),
            },
            final(self).next() == old(self).next(),
            final(self).deleted_set() == old(self).deleted_set(),
    {
        self.inodes.remove(ino);
    }

    /// Whether the inode is to be collected: no hard link and no open
    /// handle is left (false for an unknown inode).
    pub fn should_gc(&self, ino: u64) -> (r: bool)
        ensures
            r == (entry_of(self.table().entries(), ino) matches Some(v) && v.hardlinks == 0
                && v.open_file_handles == 0),
    {
        match self.inodes.peek(ino) {
            Some(d) => d.hardlinks == 0 && d.open_file_handles == 0,
            None => false,
        }
    }

    /// The data of a new inode: no open handle, and two links for a
    /// directory (its entry and `.`), one otherwise.
    pub fn create_inode_data(
        inode: u64,
        parent: u64,
        name: Vec<u8>,
        layer: LayerType,
        path: String,
        attrs: InodeAttrs,
    ) -> (r: InodeData)
        ensures
            r@ == (InodeView {
                inode,
                parent,
                name: name@,
                layer,
                path: path@,
                attrs,
                open_file_handles: 0,
                hardlinks: if attrs.kind == FileKind::Directory {
                    2
                } else {
                    1
                },
            }),
    {
        let hardlinks: u32 = if attrs.kind == FileKind::Directory {
            2
        } else {
            1
        };
        InodeData { inode, parent, name, layer, path, attrs, open_file_handles: 0, hardlinks }
    }

    /// An inode's attributes.
    pub fn get_attrs(&self, ino: u64) -> (r: Option<InodeAttrs>)
        ensures
            r == (match entry_of(self.table().entries(), ino) {
                Some(v) => Some(v.attrs),
                None => None,
            }),
    {
        match self.inodes.peek(ino) {
            Some(d) => Some(d.attrs),
            None => None,
        }
    }

    /// An inode's relative path.
    pub fn get_path(&self, ino: u64) -> (r: Option<String>)
        ensures
            match entry_of(self.table().entries(), ino) {
                Some(v) => r matches Some(p) && p@ == v.path,
                None => r is None,
            },
    {
        match self.inodes.peek(ino) {
            Some(d) => Some(d.path.clone()),
            None => None,
        }
    }

    /// An inode's layer.
    pub fn get_layer(&self, ino: u64) -> (r: Option<LayerType>)
        ensures
            r == (match entry_of(self.table().entries(), ino) {
                Some(v) => Some(v.layer),
                None => None,
            }),
    {
        match self.inodes.peek(ino) {
            Some(d) => Some(d.layer),
            None => None,
        }
    }
}

} // verus!
