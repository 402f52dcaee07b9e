//! Listing a directory of the overlay: the entries of the lower layer,
//! then those of the upper layer, which replace lower entries of the same
//! name; a whiteout marker in the upper layer hides the name. The listing
//! comes out sorted by name (byte order), each name once.
use vstd::prelude::*;

use super::types::{FileKind, LayerType};

verus! {

// ---------------------------------------------------------------------------
// Byte order
// ---------------------------------------------------------------------------

/// `a` comes before `b` in byte order (a proper prefix comes first).
pub open spec fn lex_lt(a: Seq<u8>, b: Seq<u8>) -> bool
    decreases a.len(),
{
    if a.len() == 0 {
        b.len() > 0
    } else if b.len() == 0 {
        false
    } else if a[0] < b[0] {
        true
    } else if a[0] > b[0] {
        false
    } else {
        lex_lt(a.skip(1), b.skip(1))
    }
}

/// Nothing comes before itself.
pub proof fn lemma_lex_irreflexive(a: Seq<u8>)
    ensures
        !lex_lt(a, a),
    decreases a.len(),
{
    if a.len() > 0 {
        lemma_lex_irreflexive(a.skip(1));
    }
}

/// Byte order is transitive.
pub proof fn lemma_lex_transitive(a: Seq<u8>, b: Seq<u8>, c: Seq<u8>)
    requires
        lex_lt(a, b),
        lex_lt(b, c),
    ensures
        lex_lt(a, c),
    decreases a.len(),
{
    if a.len() > 0 && b.len() > 0 && c.len() > 0 && a[0] == b[0] && b[0] == c[0] {
        lemma_lex_transitive(a.skip(1), b.skip(1), c.skip(1));
    }
}

/// Two different texts are ordered one way or the other, never both.
pub proof fn lemma_lex_total(a: Seq<u8>, b: Seq<u8>)
    ensures
        a != b ==> (lex_lt(a, b) || lex_lt(b, a)),
        !(lex_lt(a, b) && lex_lt(b, a)),
    decreases a.len(),
{
    if a.len() > 0 && b.len() > 0 && a[0] == b[0] {
        lemma_lex_total(a.skip(1), b.skip(1));
        if a.skip(1) == b.skip(1) {
            assert(a =~= seq![a[0]] + a.skip(1));
            assert(b =~= seq![b[0]] + b.skip(1));
        }
    } else if a.len() == 0 && b.len() == 0 {
        assert(a =~= b);
    }
}

/// How two texts compare.
#[derive(Debug, Clone, Copy, PartialEq, Eq, Structural)]
pub enum ByteOrder {
    Less,
    Equal,
    Greater,
}

/// Compares two texts in byte order.
pub fn compare_bytes(a: &Vec<u8>, b: &Vec<u8>) -> (r: ByteOrder)
    ensures
        r == ByteOrder::Less <==> lex_lt(a@, b@),
        r == ByteOrder::Equal <==> a@ == b@,
        r == ByteOrder::Greater <==> lex_lt(b@, a@),
{
    proof {
        lemma_lex_total(a@, b@);
        lemma_lex_irreflexive(a@);
    }
    let mut i: usize = 0;
    assert(a@.skip(0) =~= a@);
    assert(b@.skip(0) =~= b@);
    while i < a.len() && i < b.len()
        invariant
            i <= a@.len(),
            i <= b@.len(),
            a@.subrange(0, i as int) == b@.subrange(0, i as int),
            lex_lt(a@, b@) == lex_lt(a@.skip(i as int), b@.skip(i as int)),
            lex_lt(b@, a@) == lex_lt(b@.skip(i as int), a@.skip(i as int)),
        decreases a.len() - i,
    {
        assert(a@.skip(i as int)[0] == a@[i as int]);
        assert(b@.skip(i as int)[0] == b@[i as int]);
        if a[i] < b[i] {
            assert(a@ != b@);
            return ByteOrder::Less;
        }
        if a[i] > b[i] {
            assert(a@ != b@);
            return ByteOrder::Greater;
        }
        assert(a@.skip(i as int).skip(1) =~= a@.skip(i + 1));
        assert(b@.skip(i as int).skip(1) =~= b@.skip(i + 1));
        assert(a@.subrange(0, i + 1) =~= a@.subrange(0, i as int).push(a@[i as int]));
        assert(b@.subrange(0, i + 1) =~= b@.subrange(0, i as int).push(b@[i as int]));
        i = i + 1;
    }
    if a.len() == b.len() {
        assert(a@ =~= a@.subrange(0, i as int));
        assert(b@ =~= b@.subrange(0, i as int));
        ByteOrder::Equal
    } else if a.len() < b.len() {
        assert(a@.skip(i as int).len() == 0);
        ByteOrder::Less
    } else {
        assert(b@.skip(i as int).len() == 0);
        ByteOrder::Greater
    }
}

// ---------------------------------------------------------------------------
// Entries
// ---------------------------------------------------------------------------

/// What scanning a layer's directory found, in the order found.
#[derive(Debug, Clone)]
pub enum ScannedEntry {
    /// A whiteout marker (in the upper layer) hiding this name.
    Whiteout(Vec<u8>),
    /// An entry: its name, the inode it was given, its kind.
    Entry(Vec<u8>, u64, FileKind),
}

/// An entry of the listing.
#[derive(Debug, Clone)]
pub struct ListingEntry {
    pub name: Vec<u8>,
    pub ino: u64,
    pub kind: FileKind,
    pub layer: LayerType,
}

/// An entry's inode, kind and layer.
pub open spec fn data_of(e: ListingEntry) -> (u64, FileKind, LayerType) {
    (e.ino, e.kind, e.layer)
}

/// The names are in strictly increasing byte order (so none occurs twice).
pub open spec fn sorted_names(v: Seq<ListingEntry>) -> bool {
    forall|a: int, b: int| 0 <= a < b < v.len() ==> lex_lt((#[trigger] v[a]).name@, (#[trigger] v[b]).name@)
}

/// What the listing says of a name (its last entry of that name).
pub open spec fn find(v: Seq<ListingEntry>, k: Seq<u8>) -> Option<(u64, FileKind, LayerType)>
    decreases v.len(),
{
    if v.len() == 0 {
        None
    } else if v.last().name@ == k {
        Some(data_of(v.last()))
    } else {
        find(v.drop_last(), k)
    }
}

/// The last thing a layer's scan said of a name: hidden (`Some(None)`),
/// an entry (`Some(Some(..))`), or nothing (`None`).
pub open spec fn last_event(s: Seq<ScannedEntry>, layer: LayerType, k: Seq<u8>) -> Option<
    Option<(u64, FileKind, LayerType)>,
>
    decreases s.len(),
{
    if s.len() == 0 {
        None
    } else {
        match s.last() {
            ScannedEntry::Whiteout(n) => if n@ == k {
                Some(None)
            } else {
                last_event(s.drop_last(), layer, k)
            },
            ScannedEntry::Entry(n, ino, kind) => if n@ == k {
                Some(Some((ino, kind, layer)))
            } else {
                last_event(s.drop_last(), layer, k)
            },
        }
    }
}

/// What the merged listing says of a name: the upper layer's last word
/// about it, else the lower layer's.
pub open spec fn merged(lower: Seq<ScannedEntry>, upper: Seq<ScannedEntry>, k: Seq<u8>) -> Option<
    (u64, FileKind, LayerType),
> {
    match last_event(upper, LayerType::Upper, k) {
        Some(e) => e,
        None => match last_event(lower, LayerType::Lower, k) {
            Some(e) => e,
            None => None,
        },
    }
}

/// A prefix of a sorted listing is sorted.
proof fn lemma_sorted_drop_last(v: Seq<ListingEntry>)
    requires
        sorted_names(v),
        v.len() > 0,
    ensures
        sorted_names(v.drop_last()),
{
    let p = v.drop_last();
    assert forall|a: int, b: int| 0 <= a < b < p.len() implies lex_lt(
        (#[trigger] p[a]).name@,
        (#[trigger] p[b]).name@,
    ) by {
        assert(p[a] == v[a] && p[b] == v[b]);
    }
}

/// In a sorted listing a name's entry is the one at its index.
proof fn lemma_find_index(v: Seq<ListingEntry>, i: int)
    requires
        sorted_names(v),
        0 <= i < v.len(),
    ensures
        find(v, v[i].name@) == Some(data_of(v[i])),
    decreases v.len(),
{
    let n = v.len() - 1;
    assert(v[n] == v.last());
    if i < n {
        lemma_lex_irreflexive(v[i].name@);
        assert(lex_lt(v[i].name@, v[n].name@));
        lemma_sorted_drop_last(v);
        assert(v.drop_last()[i] == v[i]);
        lemma_find_index(v.drop_last(), i);
    }
}

/// A name without an entry is not found.
proof fn lemma_find_absent(v: Seq<ListingEntry>, k: Seq<u8>)
    requires
        forall|i: int| 0 <= i < v.len() ==> (#[trigger] v[i]).name@ != k,
    ensures
        find(v, k) is None,
    decreases v.len(),
{
    if v.len() > 0 {
        assert(v[v.len() - 1] == v.last());
        let p = v.drop_last();
        assert forall|i: int| 0 <= i < p.len() implies (#[trigger] p[i]).name@ != k by {
            assert(p[i] == v[i]);
        }
        lemma_find_absent(p, k);
    }
}

/// Where a name is or would go: every earlier name comes before it; the
/// name is there when `found`; otherwise the name at the position (if
/// any) comes after it.
fn position(v: &Vec<ListingEntry>, name: &Vec<u8>) -> (r: (usize, bool))
    requires
        sorted_names(v@),
    ensures
        r.0 <= v@.len(),
        forall|a: int| 0 <= a < r.0 ==> lex_lt((#[trigger] v@[a]).name@, name@),
        r.1 <==> (r.0 < v@.len() && v@[r.0 as int].name@ == name@),
        !r.1 && r.0 < v@.len() ==> lex_lt(name@, v@[r.0 as int].name@),
{
    let mut i: usize = 0;
    while i < v.len()
        invariant
            i <= v@.len(),
            forall|a: int| 0 <= a < i ==> lex_lt((#[trigger] v@[a]).name@, name@),
        decreases v.len() - i,
    {
        match compare_bytes(&v[i].name, name) {
            ByteOrder::Less => {},
            ByteOrder::Equal => {
                return (i, true);
            },
            ByteOrder::Greater => {
                proof {
                    lemma_lex_total(name@, v@[i as int].name@);
                }
                return (i, false);
            },
        }
        i = i + 1;
    }
    (i, false)
}

/// Records an entry under its name, replacing an entry of the same name.
fn put_entry(out: &mut Vec<ListingEntry>, e: ListingEntry)
    requires
        sorted_names(old(out)@),
    ensures
        sorted_names(final(out)@),
        forall|k: Seq<u8>|
            #![trigger find(final(out)@, k)]
            find(final(out)@, k) == if k == e.name@ {
                Some(data_of(e))
            } else {
                find(old(out)@, k)
            },
{
    let ghost v = out@;
    let (p, found) = position(out, &e.name);
    let ghost en = e.name@;
    if found {
        out.set(p, e);
        let ghost w = out@;
        assert(sorted_names(w)) by {
            assert forall|a: int, b: int| 0 <= a < b < w.len() implies lex_lt(
                (#[trigger] w[a]).name@,
                (#[trigger] w[b]).name@,
            ) by {
                assert(lex_lt(v[a].name@, v[b].name@));
            }
        }
        assert forall|k: Seq<u8>| #[trigger]
            find(w, k) == if k == en {
                Some(data_of(e))
            } else {
                find(v, k)
            } by {
            if k == en {
                lemma_find_index(w, p as int);
            } else if exists|j: int| 0 <= j < v.len() && v[j].name@ == k {
                let j = choose|j: int| 0 <= j < v.len() && v[j].name@ == k;
                lemma_find_index(v, j);
                assert(j != p);
                lemma_find_index(w, j);
            } else {
                assert forall|i: int| 0 <= i < w.len() implies (#[trigger] w[i]).name@ != k by {
                    if i != p {
                        assert(w[i] == v[i]);
                    }
                }
                lemma_find_absent(w, k);
                lemma_find_absent(v, k);
            }
        }
    } else {
        out.insert(p, e);
        let ghost w = out@;
        assert(sorted_names(w)) by {
            assert forall|a: int, b: int| 0 <= a < b < w.len() implies lex_lt(
                (#[trigger] w[a]).name@,
                (#[trigger] w[b]).name@,
            ) by {
                if b < p {
                    assert(lex_lt(v[a].name@, v[b].name@));
                } else if b == p {
                    assert(lex_lt(v[a].name@, en));
                } else if a == p {
                    assert(lex_lt(en, v[p as int].name@));
                    if b - 1 > p {
                        assert(lex_lt(v[p as int].name@, v[b - 1].name@));
                        lemma_lex_transitive(en, v[p as int].name@, v[b - 1].name@);
                    }
                } else if a < p {
                    assert(lex_lt(v[a].name@, v[b - 1].name@));
                } else {
                    assert(lex_lt(v[a - 1].name@, v[b - 1].name@));
                }
            }
        }
        assert forall|k: Seq<u8>| #[trigger]
            find(w, k) == if k == en {
                Some(data_of(e))
            } else {
                find(v, k)
            } by {
            if k == en {
                lemma_find_index(w, p as int);
            } else if exists|j: int| 0 <= j < v.len() && v[j].name@ == k {
                let j = choose|j: int| 0 <= j < v.len() && v[j].name@ == k;
                lemma_find_index(v, j);
                if j < p {
                    assert(w[j] == v[j]);
                    lemma_find_index(w, j);
                } else {
                    assert(w[j + 1] == v[j]);
                    lemma_find_index(w, j + 1);
                }
            } else {
                assert forall|i: int| 0 <= i < w.len() implies (#[trigger] w[i]).name@ != k by {
                    if i < p {
                        assert(w[i] == v[i]);
                    } else if i > p {
                        assert(w[i] == v[i - 1]);
                    }
                }
                lemma_find_absent(w, k);
                lemma_find_absent(v, k);
            }
        }
    }
}

/// Forgets the entry of a name, if there is one.
fn hide_entry(out: &mut Vec<ListingEntry>, name: &Vec<u8>)
    requires
        sorted_names(old(out)@),
    ensures
        sorted_names(final(out)@),
        forall|k: Seq<u8>|
            #![trigger find(final(out)@, k)]
            find(final(out)@, k) == if k == name@ {
                None
            } else {
                find(old(out)@, k)
            },
{
    let ghost v = out@;
    let (p, found) = position(out, name);
    if found {
        out.remove(p);
        let ghost w = out@;
        assert(sorted_names(w)) by {
            assert forall|a: int, b: int| 0 <= a < b < w.len() implies lex_lt(
                (#[trigger] w[a]).name@,
                (#[trigger] w[b]).name@,
            ) by {
                if b < p {
                    assert(lex_lt(v[a].name@, v[b].name@));
                } else if a < p {
                    assert(lex_lt(v[a].name@, v[b + 1].name@));
                } else {
                    assert(lex_lt(v[a + 1].name@, v[b + 1].name@));
                }
            }
        }
        assert forall|k: Seq<u8>| #[trigger]
            find(w, k) == if k == name@ {
                None
            } else {
                find(v, k)
            } by {
            if exists|j: int| 0 <= j < v.len() && v[j].name@ == k && k != name@ {
                let j = choose|j: int| 0 <= j < v.len() && v[j].name@ == k && k != name@;
                lemma_find_index(v, j);
                if j < p {
                    assert(w[j] == v[j]);
                    lemma_find_index(w, j);
                } else {
                    assert(w[j - 1] == v[j]);
                    lemma_find_index(w, j - 1);
                }
            } else {
                assert forall|i: int| 0 <= i < w.len() implies (#[trigger] w[i]).name@ != k by {
                    if i < p {
                        assert(w[i] == v[i]);
                        if k == name@ {
                            lemma_lex_irreflexive(k);
                            assert(lex_lt(v[i].name@, v[p as int].name@));
                        }
                    } else {
                        assert(w[i] == v[i + 1]);
                        if k == name@ {
                            lemma_lex_irreflexive(k);
                            assert(lex_lt(v[p as int].name@, v[i + 1].name@));
                        }
                    }
                }
                lemma_find_absent(w, k);
                if k != name@ {
                    lemma_find_absent(v, k);
                }
            }
        }
    } else {
        proof {
            assert forall|i: int| 0 <= i < v.len() implies (#[trigger] v[i]).name@ != name@ by {
                lemma_lex_irreflexive(name@);
                if i < p {
                    assert(lex_lt(v[i].name@, name@));
                } else if i > p {
                    assert(lex_lt(name@, v[p as int].name@));
                    assert(lex_lt(v[p as int].name@, v[i].name@));
                    lemma_lex_transitive(name@, v[p as int].name@, v[i].name@);
                }
            }
            lemma_find_absent(v, name@);
        }
    }
}

/// Applies a layer's scan to the listing: entries are recorded (replacing
/// entries of the same name), whiteouts hide their names.
fn apply_scan(out: &mut Vec<ListingEntry>, scan: &Vec<ScannedEntry>, layer: LayerType)
    requires
        sorted_names(old(out)@),
    ensures
        sorted_names(final(out)@),
        forall|k: Seq<u8>|
            #![trigger find(final(out)@, k)]
            find(final(out)@, k) == match last_event(scan@, layer, k) {
                Some(e) => e,
                None => find(old(out)@, k),
            },
{
    let ghost start = out@;
    let mut i: usize = 0;
    while i < scan.len()
        invariant
            i <= scan@.len(),
            sorted_names(out@),
            forall|k: Seq<u8>|
                #![trigger find(out@, k)]
                find(out@, k) == match last_event(scan@.take(i as int), layer, k) {
                    Some(e) => e,
                    None => find(start, k),
                },
        decreases scan.len() - i,
    {
        let ghost before = out@;
        assert(scan@.take(i + 1).drop_last() =~= scan@.take(i as int));
        assert(scan@.take(i + 1).last() == scan@[i as int]);
        match &scan[i] {
            ScannedEntry::Whiteout(n) => {
                hide_entry(out, n);
                assert forall|k: Seq<u8>| #[trigger]
                    find(out@, k) == match last_event(scan@.take(i + 1), layer, k) {
                        Some(e) => e,
                        None => find(start, k),
                    } by {
                    assert(find(before, k) == match last_event(scan@.take(i as int), layer, k) {
                        Some(e) => e,
                        None => find(start, k),
                    });
                }
            },
            ScannedEntry::Entry(n, ino, kind) => {
                let e = ListingEntry { name: n.clone(), ino: *ino, kind: *kind, layer };
                put_entry(out, e);
                assert forall|k: Seq<u8>| #[trigger]
                    find(out@, k) == match last_event(scan@.take(i + 1), layer, k) {
                        Some(e) => e,
                        None => find(start, k),
                    } by {
                    assert(find(before, k) == match last_event(scan@.take(i as int), layer, k) {
                        Some(e) => e,
                        None => find(start, k),
                    });
                }
            },
        }
        i = i + 1;
    }
    assert(scan@.take(scan@.len() as int) =~= scan@);
}

/// The listing of a directory from the scans of its two layers (the upper
/// scan is empty for a passthrough directory): sorted by name, each name
/// once, the upper layer's word winning over the lower's.
pub fn merge_listing(lower: &Vec<ScannedEntry>, upper: &Vec<ScannedEntry>) -> (r: Vec<
    ListingEntry,
>)
    ensures
        sorted_names(r@),
        forall|k: Seq<u8>| #[trigger] find(r@, k) == merged(lower@, upper@, k),
{
    let mut out: Vec<ListingEntry> = Vec::new();
    apply_scan(&mut out, lower, LayerType::Lower);
    let ghost mid = out@;
    apply_scan(&mut out, upper, LayerType::Upper);
    assert forall|k: Seq<u8>| #[trigger] find(out@, k) == merged(lower@, upper@, k) by {
        assert(find(mid, k) == match last_event(lower@, LayerType::Lower, k) {
            Some(e) => e,
            None => find(Seq::<ListingEntry>::empty(), k),
        });
    }
    out
}

} // verus!
