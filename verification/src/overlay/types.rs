//! Kinds of mutation and of layer in the overlay, and the table of the
//! overlay's inodes.
use vstd::prelude::*;

use std::collections::HashMap;

use lru::LruCache;

verus! {

/// What the overlay did to a path.
#[derive(Debug, Clone, Copy, PartialEq, Eq, Structural)]
pub enum MutationType {
    CopiedUp,
    Created,
    Deleted,
}

/// The layer a path lives in: the writable upper layer or the read-only
/// lower one.
#[derive(Debug, Clone, Copy, PartialEq, Eq, Structural)]
pub enum LayerType {
    Upper,
    Lower,
}

/// The inode number FUSE gives the root of a mounted filesystem.
pub const FUSE_ROOT_ID: u64 = 1;

/// How many inodes the table keeps before it forgets the least recently
/// used one.
pub const DEFAULT_INODE_CACHE_CAPACITY: usize = 10000;

/// The kind of a file, as FUSE reports it.
#[derive(Debug, Clone, Copy, PartialEq, Eq, Structural)]
pub enum FileKind {
    NamedPipe,
    CharDevice,
    BlockDevice,
    Directory,
    RegularFile,
    Symlink,
    Socket,
}

/// A point in time: seconds and nanoseconds since the Unix epoch (the
/// seconds are negative before it).
#[derive(Debug, Clone, Copy, PartialEq, Eq, Structural)]
pub struct FileTime {
    pub secs: i64,
    pub nanos: u32,
}

/// The attributes of a file, as FUSE reports them.
#[derive(Debug, Clone, Copy, PartialEq, Eq, Structural)]
pub struct InodeAttrs {
    pub ino: u64,
    pub size: u64,
    pub blocks: u64,
    pub atime: FileTime,
    pub mtime: FileTime,
    pub ctime: FileTime,
    pub crtime: FileTime,
    pub kind: FileKind,
    pub perm: u16,
    pub nlink: u32,
    pub uid: u32,
    pub gid: u32,
    pub rdev: u32,
    pub blksize: u32,
    pub flags: u32,
}

/// What the overlay knows of an inode: where it is in the tree (parent and
/// name), which layer and relative path hold it, its attributes, how many
/// file handles are open on it and how many hard links name it.
#[derive(Debug, Clone)]
pub struct InodeData {
    pub inode: u64,
    pub parent: u64,
    /// The name in the parent directory, as raw bytes.
    pub name: Vec<u8>,
    pub layer: LayerType,
    pub path: String,
    pub attrs: InodeAttrs,
    pub open_file_handles: u64,
    pub hardlinks: u32,
}

/// An inode as a mathematical value.
pub ghost struct InodeView {
    pub inode: u64,
    pub parent: u64,
    pub name: Seq<u8>,
    pub layer: LayerType,
    pub path: Seq<char>,
    pub attrs: InodeAttrs,
    pub open_file_handles: u64,
    pub hardlinks: u32,
}

impl View for InodeData {
    type V = InodeView;

    open spec fn view(&self) -> InodeView {
        InodeView {
            inode: self.inode,
            parent: self.parent,
            name: self.name@,
            layer: self.layer,
            path: self.path@,
            attrs: self.attrs,
            open_file_handles: self.open_file_handles,
            hardlinks: self.hardlinks,
        }
    }
}

#[verifier::external_type_specification]
#[verifier::external_body]
#[verifier::reject_recursive_types(K)]
#[verifier::reject_recursive_types(V)]
#[verifier::reject_recursive_types(S)]
pub struct ExLruCache<K, V, S>(lru::LruCache<K, V, S>);

#[verifier::external_type_specification]
#[verifier::external_body]
pub struct ExLruDefaultHasher(lru::DefaultHasher);

/// The entries of an inode cache, from the least to the most recently
/// used.
pub uninterp spec fn lru_entries(cache: LruCache<u64, InodeData>) -> Seq<(u64, InodeView)>;

/// The number of entries an inode cache was made to hold.
pub uninterp spec fn lru_capacity(cache: LruCache<u64, InodeData>) -> nat;

/// No key occurs twice, and there are no more entries than the capacity.
pub open spec fn lru_valid(entries: Seq<(u64, InodeView)>, cap: nat) -> bool {
    &&& entries.len() <= cap
    &&& 0 < cap
    &&& forall|i: int, j: int| 0 <= i < j < entries.len() ==> (#[trigger] entries[i]).0 != (#[trigger] entries[j]).0
}

/// The value stored for a key, if any (the last entry with that key).
pub open spec fn entry_of(s: Seq<(u64, InodeView)>, k: u64) -> Option<InodeView>
    decreases s.len(),
{
    if s.len() == 0 {
        None
    } else if s.last().0 == k {
        Some(s.last().1)
    } else {
        entry_of(s.drop_last(), k)
    }
}

/// The entries without those of a key, in order.
pub open spec fn without(s: Seq<(u64, InodeView)>, k: u64) -> Seq<(u64, InodeView)>
    decreases s.len(),
{
    if s.len() == 0 {
        s
    } else if s.last().0 == k {
        without(s.drop_last(), k)
    } else {
        without(s.drop_last(), k).push(s.last())
    }
}

/// No key occurs twice.
pub open spec fn keys_distinct(s: Seq<(u64, InodeView)>) -> bool {
    forall|i: int, j: int| 0 <= i < j < s.len() ==> (#[trigger] s[i]).0 != (#[trigger] s[j]).0
}

/// What putting `(k, v)` into a cache of capacity `cap` leaves: an entry
/// for `k` is replaced and becomes the most recently used one; a new key is
/// added as the most recently used, after the least recently used entry
/// was dropped when the cache was full.
pub open spec fn put_spec(s: Seq<(u64, InodeView)>, cap: nat, k: u64, v: InodeView) -> Seq<
    (u64, InodeView),
> {
    if entry_of(s, k) is Some {
        without(s, k).push((k, v))
    } else if s.len() >= cap {
        s.skip(1).push((k, v))
    } else {
        s.push((k, v))
    }
}

/// `lru::LruCache::new`: an empty cache holding at most `cap` entries.
#[verifier::external_body]
fn lru_new(cap: usize) -> (r: LruCache<u64, InodeData>)
    requires
        cap > 0,
    ensures
        lru_entries(r) == Seq::<(u64, InodeView)>::empty(),
        lru_capacity(r) == cap,
{
    LruCache::new(std::num::NonZeroUsize::new(cap).unwrap())
}

/// `lru::LruCache::put`: stores the entry as the most recently used one
/// (see `put_spec`) and gives back the value it replaced.
#[verifier::external_body]
fn lru_put(cache: &mut LruCache<u64, InodeData>, k: u64, v: InodeData) -> (r: Option<InodeData>)
    ensures
        lru_capacity(*final(cache)) == lru_capacity(*old(cache)),
        lru_entries(*final(cache)) == put_spec(
            lru_entries(*old(cache)),
            lru_capacity(*old(cache)),
            k,
            v@,
        ),
        match r {
            Some(o) => entry_of(lru_entries(*old(cache)), k) == Some(o@),
            None => entry_of(lru_entries(*old(cache)), k) is None,
        },
{
    cache.put(k, v)
}

/// `lru::LruCache::pop`: removes a key's entry and gives back its value.
#[verifier::external_body]
fn lru_pop(cache: &mut LruCache<u64, InodeData>, k: u64) -> (r: Option<InodeData>)
    ensures
        lru_capacity(*final(cache)) == lru_capacity(*old(cache)),
        lru_entries(*final(cache)) == without(lru_entries(*old(cache)), k),
        match r {
            Some(d) => entry_of(lru_entries(*old(cache)), k) == Some(d@),
            None => entry_of(lru_entries(*old(cache)), k) is None,
        },
{
    cache.pop(&k)
}

/// `lru::LruCache::peek`: a key's value, leaving the order of use as it
/// is.
#[verifier::external_body]
fn lru_peek(cache: &LruCache<u64, InodeData>, k: u64) -> (r: Option<&InodeData>)
    ensures
        match r {
            Some(d) => entry_of(lru_entries(*cache), k) == Some(d@),
            None => entry_of(lru_entries(*cache), k) is None,
        },
{
    cache.peek(&k)
}

/// `lru::LruCache::len`: the number of entries.
#[verifier::external_body]
fn lru_len(cache: &LruCache<u64, InodeData>) -> (r: usize)
    ensures
        r == lru_entries(*cache).len(),
{
    cache.len()
}

/// `lru::LruCache::cap`: the capacity.
#[verifier::external_body]
fn lru_cap(cache: &LruCache<u64, InodeData>) -> (r: usize)
    ensures
        r == lru_capacity(*cache),
{
    cache.cap().get()
}

/// The hash that names a child in its parent directory.
pub uninterp spec fn spec_name_hash(name: Seq<u8>) -> u64;

/// `fxhash::hash64` of a name's bytes.
#[verifier::external_body]
fn name_hash(name: &[u8]) -> (r: u64)
    ensures
        r == spec_name_hash(name@),
{
    fxhash::hash64(name)
}

// ---------------------------------------------------------------------------
// Facts about the entries
// ---------------------------------------------------------------------------

/// Removing a key's entries leaves no entry for it and keeps the others.
pub proof fn lemma_without_entry(s: Seq<(u64, InodeView)>, k: u64, j: u64)
    ensures
        entry_of(without(s, k), k) is None,
        j != k ==> entry_of(without(s, k), j) == entry_of(s, j),
    decreases s.len(),
{
    if s.len() > 0 {
        let p = s.drop_last();
        lemma_without_entry(p, k, j);
        if s.last().0 != k {
            let w = without(p, k);
            assert(w.push(s.last()).drop_last() =~= w);
        }
    }
}

/// A key has no entry exactly when no entry has that key.
pub proof fn lemma_entry_absent(s: Seq<(u64, InodeView)>, k: u64)
    ensures
        entry_of(s, k) is None <==> (forall|i: int| 0 <= i < s.len() ==> (#[trigger] s[i]).0 != k),
    decreases s.len(),
{
    if s.len() > 0 {
        let p = s.drop_last();
        lemma_entry_absent(p, k);
        assert forall|i: int| 0 <= i < p.len() implies #[trigger] p[i] == s[i] by {}
        assert(s[s.len() - 1] == s.last());
        if entry_of(s, k) is None {
            assert forall|i: int| 0 <= i < s.len() implies (#[trigger] s[i]).0 != k by {
                if i < p.len() {
                    assert(p[i] == s[i]);
                }
            }
        }
        if forall|i: int| 0 <= i < s.len() ==> (#[trigger] s[i]).0 != k {
            assert forall|i: int| 0 <= i < p.len() implies (#[trigger] p[i]).0 != k by {
                assert(p[i] == s[i]);
            }
            assert(s[s.len() - 1].0 != k);
        }
    }
}

/// Removing a key keeps the keys distinct, keeps only entries that were
/// there (of other keys), and removes exactly one entry when the key was
/// there.
pub proof fn lemma_without_len(s: Seq<(u64, InodeView)>, k: u64)
    requires
        keys_distinct(s),
    ensures
        keys_distinct(without(s, k)),
        entry_of(s, k) is Some ==> without(s, k).len() == s.len() - 1,
        entry_of(s, k) is None ==> without(s, k) == s,
        forall|i: int|
            0 <= i < without(s, k).len() ==> s.contains(#[trigger] without(s, k)[i]) && without(
                s,
                k,
            )[i].0 != k,
    decreases s.len(),
{
    if s.len() > 0 {
        let p = s.drop_last();
        let n = s.len() - 1;
        assert forall|i: int| 0 <= i < p.len() implies #[trigger] p[i] == s[i] by {}
        assert(s[n] == s.last());
        assert(keys_distinct(p)) by {
            assert forall|a: int, b: int| 0 <= a < b < p.len() implies (#[trigger] p[a]).0 != (
            #[trigger] p[b]).0 by {
                assert(p[a] == s[a] && p[b] == s[b]);
            }
        }
        lemma_without_len(p, k);
        let w = without(p, k);
        assert forall|i: int| 0 <= i < w.len() implies s.contains(#[trigger] w[i]) && w[i].0
            != s.last().0 by {
            assert(p.contains(w[i]));
            let t = choose|t: int| 0 <= t < p.len() && p[t] == w[i];
            assert(s[t] == w[i]);
            assert(s[t].0 != s[n].0);
        }
        if s.last().0 == k {
            assert(entry_of(p, k) is None) by {
                lemma_entry_absent(p, k);
                assert forall|i: int| 0 <= i < p.len() implies (#[trigger] p[i]).0 != k by {
                    assert(s[i].0 != s[n].0);
                }
            }
        } else {
            let w2 = w.push(s.last());
            assert(without(s, k) == w2);
            assert forall|a: int, b: int| 0 <= a < b < w2.len() implies (#[trigger] w2[a]).0 != (
            #[trigger] w2[b]).0 by {
                if b == w.len() {
                    assert(w2[a] == w[a]);
                } else {
                    assert(w2[a] == w[a] && w2[b] == w[b]);
                }
            }
            assert forall|i: int| 0 <= i < w2.len() implies s.contains(#[trigger] w2[i]) && w2[i].0
                != k by {
                if i == w.len() {
                    assert(s[n] == w2[i]);
                } else {
                    assert(w2[i] == w[i]);
                }
            }
            if entry_of(p, k) is None {
                assert(w2 =~= s);
            }
        }
    }
}

/// Dropping the least recently used entry forgets its key and keeps the
/// others.
pub proof fn lemma_skip_first(s: Seq<(u64, InodeView)>, j: u64)
    requires
        keys_distinct(s),
        s.len() > 0,
    ensures
        entry_of(s.skip(1), j) == (if j == s[0].0 {
            None
        } else {
            entry_of(s, j)
        }),
    decreases s.len(),
{
    if s.len() == 1 {
        assert(s.skip(1).len() == 0);
        if j != s[0].0 {
            assert(s.drop_last().len() == 0);
            assert(s.last() == s[0]);
        }
    } else {
        let p = s.drop_last();
        assert forall|a: int, b: int| 0 <= a < b < p.len() implies (#[trigger] p[a]).0 != (
        #[trigger] p[b]).0 by {
            assert(p[a] == s[a] && p[b] == s[b]);
        }
        lemma_skip_first(p, j);
        assert(s.skip(1).drop_last() =~= p.skip(1));
        assert(s.skip(1).last() == s.last());
        assert(p[0] == s[0]);
        assert(s[s.len() - 1] == s.last());
        assert(s[0].0 != s.last().0);
    }
}

/// Putting an entry keeps the cache valid, stores the value, and keeps
/// every other key's value, but for the least recently used entry, which a
/// full cache drops to make room for a new key.
pub proof fn lemma_put_entries(s: Seq<(u64, InodeView)>, cap: nat, k: u64, v: InodeView, j: u64)
    requires
        lru_valid(s, cap),
    ensures
        lru_valid(put_spec(s, cap, k, v), cap),
        entry_of(put_spec(s, cap, k, v), k) == Some(v),
        j != k ==> entry_of(put_spec(s, cap, k, v), j) == (if entry_of(s, k) is None && s.len()
            >= cap && j == s[0].0 {
            None
        } else {
            entry_of(s, j)
        }),
{
    let r = put_spec(s, cap, k, v);
    assert(keys_distinct(s));
    lemma_entry_absent(s, k);
    if entry_of(s, k) is Some {
        let w = without(s, k);
        lemma_without_len(s, k);
        lemma_without_entry(s, k, j);
        assert(r.drop_last() =~= w);
        assert forall|a: int, b: int| 0 <= a < b < r.len() implies (#[trigger] r[a]).0 != (
        #[trigger] r[b]).0 by {
            assert(r[a] == w[a]);
            if b < w.len() {
                assert(r[b] == w[b]);
            }
        }
    } else if s.len() >= cap {
        let t = s.skip(1);
        lemma_skip_first(s, j);
        assert(r.drop_last() =~= t);
        assert forall|a: int, b: int| 0 <= a < b < r.len() implies (#[trigger] r[a]).0 != (
        #[trigger] r[b]).0 by {
            assert(r[a] == s[a + 1]);
            if b < t.len() {
                assert(r[b] == s[b + 1]);
            }
        }
    } else {
        assert(r.drop_last() =~= s);
        assert forall|a: int, b: int| 0 <= a < b < r.len() implies (#[trigger] r[a]).0 != (
        #[trigger] r[b]).0 by {
            assert(r[a] == s[a]);
            if b < s.len() {
                assert(r[b] == s[b]);
            }
        }
    }
}

/// Removing a key keeps the cache valid.
pub proof fn lemma_without_valid(s: Seq<(u64, InodeView)>, cap: nat, k: u64)
    requires
        lru_valid(s, cap),
    ensures
        lru_valid(without(s, k), cap),
        entry_of(s, k) is Some ==> without(s, k).len() < cap,
{
    lemma_without_len(s, k);
}

// ---------------------------------------------------------------------------
// The inode table
// ---------------------------------------------------------------------------

/// A directory's children as a map from name hashes to inodes, empty when
/// the directory has none.
pub open spec fn children_in(children: Map<u64, Map<u64, u64>>, parent: u64) -> Map<u64, u64> {
    if children.dom().contains(parent) {
        children[parent]
    } else {
        Map::empty()
    }
}

/// The children after `(hash -> ino)` was recorded under a parent.
pub open spec fn with_child(children: Map<u64, Map<u64, u64>>, parent: u64, h: u64, ino: u64) -> Map<
    u64,
    Map<u64, u64>,
> {
    children.insert(parent, children_in(children, parent).insert(h, ino))
}

/// The children after the hash was forgotten under a parent (nothing
/// changes when the parent has no children recorded).
pub open spec fn without_child(children: Map<u64, Map<u64, u64>>, parent: u64, h: u64) -> Map<
    u64,
    Map<u64, u64>,
> {
    if children.dom().contains(parent) {
        children.insert(parent, children[parent].remove(h))
    } else {
        children
    }
}

/// The inode recorded under a parent for a name hash, when that inode is
/// still in the table.
pub open spec fn child_lookup(
    children: Map<u64, Map<u64, u64>>,
    entries: Seq<(u64, InodeView)>,
    parent: u64,
    h: u64,
) -> Option<u64> {
    let m = children_in(children, parent);
    if m.dom().contains(h) && entry_of(entries, m[h]) is Some {
        Some(m[h])
    } else {
        None
    }
}

/// The inodes the overlay knows, kept in a cache that forgets the least
/// recently used one when full, and each directory's children by name
/// hash.
pub struct InodeTable {
    inodes: LruCache<u64, InodeData>,
    children: HashMap<u64, HashMap<u64, u64>>,
}

impl InodeTable {
    /// The entries, from the least to the most recently used.
    pub closed spec fn entries(&self) -> Seq<(u64, InodeView)> {
        lru_entries(self.inodes)
    }

    /// How many inodes the table holds at most.
    pub closed spec fn capacity(&self) -> nat {
        lru_capacity(self.inodes)
    }

    /// The children of each directory, by name hash.
    pub closed spec fn children_view(&self) -> Map<u64, Map<u64, u64>> {
        self.children@.map_values(|m: HashMap<u64, u64>| m@)
    }

    /// The entries are valid (no key twice, no more than the capacity)
    /// and each is stored under its own inode number.
    pub closed spec fn well_formed(&self) -> bool {
        &&& lru_valid(lru_entries(self.inodes), lru_capacity(self.inodes))
        &&& forall|i: int|
            0 <= i < lru_entries(self.inodes).len() ==> (#[trigger] lru_entries(self.inodes)[i]).0
                == lru_entries(self.inodes)[i].1.inode
    }

    /// An empty table holding up to `DEFAULT_INODE_CACHE_CAPACITY` inodes.
    pub fn new() -> (r: Self)
        ensures
            r.entries() == Seq::<(u64, InodeView)>::empty(),
            r.capacity() == DEFAULT_INODE_CACHE_CAPACITY,
            r.children_view() == Map::<u64, Map<u64, u64>>::empty(),
            r.well_formed(),
    {
        let r = InodeTable { inodes: lru_new(DEFAULT_INODE_CACHE_CAPACITY), children: HashMap::new() };
        assert(r.children_view() =~= Map::<u64, Map<u64, u64>>::empty());
        r
    }

    /// Records `(hash -> ino)` under a parent.
    fn add_child_hash(&mut self, parent: u64, h: u64, ino: u64)
        requires
            old(self).well_formed(),
        ensures
            final(self).well_formed(),
            final(self).entries() == old(self).entries(),
            final(self).capacity() == old(self).capacity(),
            final(self).children_view() == with_child(old(self).children_view(), parent, h, ino),
    {
        broadcast use vstd::std_specs::hash::group_hash_axioms;

        let ghost before = self.children_view();
        let mut inner = match self.children.remove(&parent) {
            Some(m) => m,
            None => HashMap::new(),
        };
        assert(inner@ == children_in(before, parent));
        inner.insert(h, ino);
        self.children.insert(parent, inner);
        assert(self.children_view() =~= with_child(before, parent, h, ino));
    }

    /// Forgets `hash` under a parent.
    fn remove_child_hash(&mut self, parent: u64, h: u64)
        requires
            old(self).well_formed(),
        ensures
            final(self).well_formed(),
            final(self).entries() == old(self).entries(),
            final(self).capacity() == old(self).capacity(),
            final(self).children_view() == without_child(old(self).children_view(), parent, h),
    {
        broadcast use vstd::std_specs::hash::group_hash_axioms;

        let ghost before = self.children_view();
        match self.children.remove(&parent) {
            Some(mut m) => {
                m.remove(&h);
                self.children.insert(parent, m);
                assert(self.children_view() =~= without_child(before, parent, h));
            },
            None => {
                assert(self.children_view() =~= before);
            },
        }
    }

    /// Stores an inode as the most recently used one (a full table forgets
    /// its least recently used inode first) and, but for the root, records
    /// it as its parent's child under its name.
    pub fn insert(&mut self, inode: InodeData)
        requires
            old(self).well_formed(),
        ensures
            final(self).well_formed(),
            final(self).entries() == put_spec(old(self).entries(), old(self).capacity(), inode.inode, inode@),
            final(self).capacity() == old(self).capacity(),
            inode.inode != FUSE_ROOT_ID ==> final(self).children_view() == with_child(
                old(self).children_view(),
                inode.parent,
                spec_name_hash(inode.name@),
                inode.inode,
            ),
            inode.inode == FUSE_ROOT_ID ==> final(self).children_view() == old(self).children_view(),
    {
        proof {
            lemma_put_entries(lru_entries(self.inodes), lru_capacity(self.inodes), inode.inode, inode@, 0);
        }
        if inode.inode != FUSE_ROOT_ID {
            let h = name_hash(inode.name.as_slice());
            self.add_child_hash(inode.parent, h, inode.inode);
        }
        let ghost s = lru_entries(self.inodes);
        let ino = inode.inode;
        lru_put(&mut self.inodes, ino, inode);
        proof {
            let r = lru_entries(self.inodes);
            assert forall|i: int| 0 <= i < r.len() implies (#[trigger] r[i]).0 == r[i].1.inode by {
                if i < r.len() - 1 {
                    if entry_of(s, ino) is Some {
                        lemma_without_len(s, ino);
                        assert(r[i] == without(s, ino)[i]);
                        assert(s.contains(r[i]));
                    } else if s.len() >= lru_capacity(self.inodes) {
                        assert(r[i] == s[i + 1]);
                    } else {
                        assert(r[i] == s[i]);
                    }
                }
            }
        }
    }

    /// An inode's data, leaving the order of use as it is.
    pub fn peek(&self, ino: u64) -> (r: Option<&InodeData>)
        ensures
            match r {
                Some(d) => entry_of(self.entries(), ino) == Some(d@),
                None => entry_of(self.entries(), ino) is None,
            },
    {
        lru_peek(&self.inodes, ino)
    }

    /// Takes an inode's data out of the table (its place among the
    /// children stays); `put_back` returns it.
    pub fn take(&mut self, ino: u64) -> (r: Option<InodeData>)
        requires
            old(self).well_formed(),
        ensures
            final(self).well_formed(),
            final(self).entries() == without(old(self).entries(), ino),
            entry_of(final(self).entries(), ino) is None,
            final(self).capacity() == old(self).capacity(),
            final(self).children_view() == old(self).children_view(),
            match r {
                Some(d) => entry_of(old(self).entries(), ino) == Some(d@) && d.inode == ino
                    && final(self).entries().len() < final(self).capacity(),
                None => entry_of(old(self).entries(), ino) is None && final(self).entries() == old(
                    self,
                ).entries(),
            },
    {
        proof {
            lemma_without_valid(lru_entries(self.inodes), lru_capacity(self.inodes), ino);
            lemma_entry_inode(lru_entries(self.inodes), ino);
            lemma_without_entry(lru_entries(self.inodes), ino, ino);
        }
        let ghost s = lru_entries(self.inodes);
        let r = lru_pop(&mut self.inodes, ino);
        proof {
            lemma_without_len(s, ino);
            let w = lru_entries(self.inodes);
            assert forall|i: int| 0 <= i < w.len() implies (#[trigger] w[i]).0 == w[i].1.inode by {
                assert(s.contains(w[i]));
            }
        }
        r
    }

    /// Stores data taken out with `take` as the most recently used entry
    /// (nothing is evicted), leaving the children as they are.
    pub fn put_back(&mut self, inode: InodeData)
        requires
            old(self).well_formed(),
            entry_of(old(self).entries(), inode.inode) is None,
            old(self).entries().len() < old(self).capacity(),
        ensures
            final(self).well_formed(),
            final(self).entries() == old(self).entries().push((inode.inode, inode@)),
            final(self).capacity() == old(self).capacity(),
            final(self).children_view() == old(self).children_view(),
    {
        proof {
            lemma_put_entries(lru_entries(self.inodes), lru_capacity(self.inodes), inode.inode, inode@, 0);
        }
        let ghost s = lru_entries(self.inodes);
        let ino = inode.inode;
        lru_put(&mut self.inodes, ino, inode);
        proof {
            let r = lru_entries(self.inodes);
            assert forall|i: int| 0 <= i < r.len() implies (#[trigger] r[i]).0 == r[i].1.inode by {
                if i < r.len() - 1 {
                    if entry_of(s, ino) is Some {
                        lemma_without_len(s, ino);
                        assert(r[i] == without(s, ino)[i]);
                        assert(s.contains(r[i]));
                    } else if s.len() >= lru_capacity(self.inodes) {
                        assert(r[i] == s[i + 1]);
                    } else {
                        assert(r[i] == s[i]);
                    }
                }
            }
        }
    }
}

impl InodeTable {
    /// The number of inodes held; never more than the capacity.
    pub fn len(&self) -> (r: usize)
        requires
            self.well_formed(),
        ensures
            r == self.entries().len(),
            r <= self.capacity(),
    {
        lru_len(&self.inodes)
    }

    /// The capacity.
    pub fn cap(&self) -> (r: usize)
        ensures
            r == self.capacity(),
    {
        lru_cap(&self.inodes)
    }

    /// The inode recorded under a name in a directory, if it is still in
    /// the table. Names are told apart by their hash alone: a hard link
    /// may give an inode several names, so the inode's own name is not
    /// compared.
    pub fn lookup_child(&self, parent: u64, name: &[u8]) -> (r: Option<u64>)
        ensures
            r == child_lookup(self.children_view(), self.entries(), parent, spec_name_hash(name@)),
    {
        broadcast use vstd::std_specs::hash::group_hash_axioms;

        let h = name_hash(name);
        match self.children.get(&parent) {
            Some(m) => {
                assert(m@ == children_in(self.children_view(), parent));
                match m.get(&h) {
                    Some(ino) => {
                        if lru_peek(&self.inodes, *ino).is_some() {
                            Some(*ino)
                        } else {
                            None
                        }
                    },
                    None => None,
                }
            },
            None => {
                assert(children_in(self.children_view(), parent) =~= Map::<u64, u64>::empty());
                None
            },
        }
    }

    /// Records an inode as a directory's child under a name.
    pub fn add_child(&mut self, parent: u64, name: &[u8], ino: u64)
        requires
            old(self).well_formed(),
        ensures
            final(self).well_formed(),
            final(self).entries() == old(self).entries(),
            final(self).capacity() == old(self).capacity(),
            final(self).children_view() == with_child(
                old(self).children_view(),
                parent,
                spec_name_hash(name@),
                ino,
            ),
    {
        let h = name_hash(name);
        self.add_child_hash(parent, h, ino);
    }

    /// Forgets a name in a directory.
    pub fn remove_child(&mut self, parent: u64, name: &[u8])
        requires
            old(self).well_formed(),
        ensures
            final(self).well_formed(),
            final(self).entries() == old(self).entries(),
            final(self).capacity() == old(self).capacity(),
            final(self).children_view() == without_child(
                old(self).children_view(),
                parent,
                spec_name_hash(name@),
            ),
    {
        let h = name_hash(name);
        self.remove_child_hash(parent, h);
    }

    /// Removes an inode, and its name from its parent's children.
    pub fn remove(&mut self, ino: u64)
        requires
            old(self).well_formed(),
        ensures
            final(self).well_formed(),
            final(self).entries() == without(old(self).entries(), ino),
            final(self).capacity() == old(self).capacity(),
            match entry_of(old(self).entries(), ino) {
                Some(v) => final(self).children_view() == without_child(
                    old(self).children_view(),
                    v.parent,
                    spec_name_hash(v.name),
                ),
                None => final(self).children_view() == old(self).children_view(),
            },
    {
        match self.take(ino) {
            Some(d) => {
                let h = name_hash(d.name.as_slice());
                self.remove_child_hash(d.parent, h);
            },
            None => {},
        }
    }

    /// Replaces an inode's attributes (it becomes the most recently used).
    pub fn update_attrs(&mut self, ino: u64, attrs: InodeAttrs)
        requires
            old(self).well_formed(),
        ensures
            final(self).well_formed(),
            final(self).capacity() == old(self).capacity(),
            final(self).children_view() == old(self).children_view(),
            final(self).entries() == touched(
                old(self).entries(),
                ino,
                match entry_of(old(self).entries(), ino) {
                    Some(v) => (InodeView { attrs, ..v }),
                    None => arbitrary(),
                },
            ),
    {
        match self.take(ino) {
            Some(mut d) => {
                d.attrs = attrs;
                self.put_back(d);
            },
            None => {},
        }
    }

    /// Sets an inode's size (it becomes the most recently used).
    pub fn update_size(&mut self, ino: u64, new_size: u64)
        requires
            old(self).well_formed(),
        ensures
            final(self).well_formed(),
            final(self).capacity() == old(self).capacity(),
            final(self).children_view() == old(self).children_view(),
            final(self).entries() == touched(
                old(self).entries(),
                ino,
                match entry_of(old(self).entries(), ino) {
                    Some(v) => (InodeView { attrs: InodeAttrs { size: new_size, ..v.attrs }, ..v }),
                    None => arbitrary(),
                },
            ),
    {
        match self.take(ino) {
            Some(mut d) => {
                d.attrs.size = new_size;
                self.put_back(d);
            },
            None => {},
        }
    }
}

/// The entries after a key's value was replaced and the key became the
/// most recently used (nothing changes when the key has no entry).
pub open spec fn touched(s: Seq<(u64, InodeView)>, k: u64, v: InodeView) -> Seq<(u64, InodeView)> {
    if entry_of(s, k) is Some {
        without(s, k).push((k, v))
    } else {
        s
    }
}

/// An entry found for a key is stored under its own inode number, when
/// every entry is.
proof fn lemma_entry_inode(s: Seq<(u64, InodeView)>, k: u64)
    requires
        forall|i: int| 0 <= i < s.len() ==> (#[trigger] s[i]).0 == s[i].1.inode,
    ensures
        entry_of(s, k) matches Some(v) ==> v.inode == k,
    decreases s.len(),
{
    if s.len() > 0 {
        assert(s[s.len() - 1] == s.last());
        let p = s.drop_last();
        assert forall|i: int| 0 <= i < p.len() implies (#[trigger] p[i]).0 == p[i].1.inode by {
            assert(p[i] == s[i]);
        }
        lemma_entry_inode(p, k);
    }
}

} // verus!
