//! Unix paths as text: components, joining, prefixes.
//!
//! A path is a `String`; its components follow what `std::path::Path`
//! documents for Unix: a leading `/` is the root, a leading `.` (alone or
//! before `/`) is the current directory, repeated separators and interior
//! `.` components are ignored, and a trailing separator is ignored.
//! A component is represented by its text: `/` (root), `.` (current
//! directory), `..` (parent directory), or a name.
use vstd::prelude::*;

use crate::text::{chars_eq, chars_to_string, split_at_char, split_char, str_to_chars};

verus! {

/// The views of a sequence of character vectors.
pub open spec fn views(vs: Seq<Vec<char>>) -> Seq<Seq<char>> {
    vs.map_values(|v: Vec<char>| v@)
}

/// The path starts at the root.
pub open spec fn is_absolute(s: Seq<char>) -> bool {
    s.len() > 0 && s[0] == '/'
}

/// The relative path begins with a `.` component.
pub open spec fn has_leading_cur_dir(s: Seq<char>) -> bool {
    !is_absolute(s) && s.len() > 0 && s[0] == '.' && (s.len() == 1 || s[1] == '/')
}

/// The separator-delimited pieces after the root or the leading `.`.
pub open spec fn raw_pieces(s: Seq<char>) -> Seq<Seq<char>> {
    if is_absolute(s) {
        split_char(s.skip(1), '/')
    } else if has_leading_cur_dir(s) {
        split_char(s, '/').skip(1)
    } else {
        split_char(s, '/')
    }
}

/// Pieces that produce no component: empty ones and interior `.`.
pub open spec fn is_dropped_piece(p: Seq<char>) -> bool {
    p.len() == 0 || p == seq!['.']
}

/// The pieces that are components, in order.
pub open spec fn keep_pieces(ps: Seq<Seq<char>>) -> Seq<Seq<char>>
    decreases ps.len(),
{
    if ps.len() == 0 {
        Seq::empty()
    } else if is_dropped_piece(ps.last()) {
        keep_pieces(ps.drop_last())
    } else {
        keep_pieces(ps.drop_last()).push(ps.last())
    }
}

/// The root component's text.
pub open spec fn root_comp() -> Seq<char> {
    seq!['/']
}

/// The current-directory component's text.
pub open spec fn cur_comp() -> Seq<char> {
    seq!['.']
}

/// The parent-directory component's text.
pub open spec fn parent_comp() -> Seq<char> {
    seq!['.', '.']
}

/// `Path::components` for a Unix path.
pub open spec fn components(s: Seq<char>) -> Seq<Seq<char>> {
    let head: Seq<Seq<char>> = if is_absolute(s) {
        seq![root_comp()]
    } else if has_leading_cur_dir(s) {
        seq![cur_comp()]
    } else {
        Seq::empty()
    };
    head + keep_pieces(raw_pieces(s))
}

/// The characters of `v` from `start` on.
pub fn subvec_from(v: &Vec<char>, start: usize) -> (r: Vec<char>)
    requires
        start <= v.len(),
    ensures
        r@ == v@.skip(start as int),
{
    let mut r: Vec<char> = Vec::new();
    let mut i = start;
    while i < v.len()
        invariant
            start <= i <= v.len(),
            r@ == v@.subrange(start as int, i as int),
        decreases v.len() - i,
    {
        r.push(v[i]);
        i = i + 1;
        assert(v@.subrange(start as int, i as int) =~= v@.subrange(start as int, i - 1).push(
            v@[i - 1],
        ));
    }
    r
}

fn is_dropped(p: &Vec<char>) -> (r: bool)
    ensures
        r == is_dropped_piece(p@),
{
    if p.len() == 0 {
        return true;
    }
    let dot = vec!['.'];
    assert(dot@ =~= seq!['.']);
    chars_eq(p, &dot)
}

/// `Path::components`, each component as its text.
pub fn path_components(s: &str) -> (r: Vec<Vec<char>>)
    ensures
        views(r@) == components(s@),
{
    let v = str_to_chars(s);
    let abs = v.len() > 0 && v[0] == '/';
    let cur = !abs && v.len() > 0 && v[0] == '.' && (v.len() == 1 || v[1] == '/');
    let mut out: Vec<Vec<char>> = Vec::new();
    let pieces: Vec<Vec<char>>;
    let mut first: usize = 0;
    if abs {
        let root = vec!['/'];
        assert(root@ =~= root_comp());
        out.push(root);
        let rest = subvec_from(&v, 1);
        pieces = split_at_char(&rest, '/');
    } else if cur {
        let dot = vec!['.'];
        assert(dot@ =~= cur_comp());
        out.push(dot);
        pieces = split_at_char(&v, '/');
        first = 1;
    } else {
        pieces = split_at_char(&v, '/');
    }
    let ghost head = views(out@);
    let ghost all = raw_pieces(s@);
    proof {
        if abs {
            assert(head =~= seq![root_comp()]);
        } else if cur {
            assert(head =~= seq![cur_comp()]);
        } else {
            assert(head =~= Seq::<Seq<char>>::empty());
        }
        assert(split_char(v@, '/').len() >= 1);
        assert(all =~= views(pieces@).skip(first as int));
        assert(keep_pieces(all.take(0)) =~= Seq::<Seq<char>>::empty());
    }
    let mut i = first;
    while i < pieces.len()
        invariant
            first <= i <= pieces.len(),
            first <= 1,
            all =~= views(pieces@).skip(first as int),
            views(out@) == head + keep_pieces(all.take(i - first)),
        decreases pieces.len() - i,
    {
        let ghost before = views(out@);
        assert(all.take(i - first + 1).drop_last() =~= all.take(i - first));
        assert(all.take(i - first + 1).last() == pieces@[i as int]@);
        if !is_dropped(&pieces[i]) {
            let p = subvec_from(&pieces[i], 0);
            assert(p@ =~= pieces@[i as int]@);
            out.push(p);
            assert(views(out@) =~= before.push(pieces@[i as int]@));
        }
        i = i + 1;
    }
    assert(all.take(i - first) =~= all);
    out
}

/// The text of a component list made into a path by `PathBuf::push`: the
/// root (if any) followed by the names separated by `/`.
pub open spec fn join_parts(ps: Seq<Seq<char>>) -> Seq<char>
    decreases ps.len(),
{
    if ps.len() == 0 {
        Seq::empty()
    } else if ps.len() == 1 {
        ps[0]
    } else {
        join_parts(ps.drop_last()) + seq!['/'] + ps.last()
    }
}

/// A path built from the root flag and its names.
pub open spec fn render(absolute: bool, parts: Seq<Seq<char>>) -> Seq<char> {
    if absolute {
        seq!['/'] + join_parts(parts)
    } else {
        join_parts(parts)
    }
}

/// Builds the text of a path from its root flag and names.
pub fn render_path(absolute: bool, parts: &Vec<Vec<char>>) -> (r: String)
    ensures
        r@ == render(absolute, views(parts@)),
{
    let mut out: Vec<char> = Vec::new();
    if absolute {
        out.push('/');
    }
    let ghost head = out@;
    let mut i: usize = 0;
    assert(views(parts@).take(0) =~= Seq::<Seq<char>>::empty());
    assert(out@ =~= head + join_parts(views(parts@).take(0)));
    while i < parts.len()
        invariant
            i <= parts.len(),
            head == (if absolute {
                seq!['/']
            } else {
                Seq::<char>::empty()
            }),
            out@ == head + join_parts(views(parts@).take(i as int)),
        decreases parts.len() - i,
    {
        let ghost ps = views(parts@);
        assert(ps.take(i + 1).drop_last() =~= ps.take(i as int));
        if i > 0 {
            out.push('/');
        }
        let part = &parts[i];
        let mut k: usize = 0;
        let ghost mid = out@;
        while k < part.len()
            invariant
                k <= part.len(),
                out@ == mid + part@.take(k as int),
            decreases part.len() - k,
        {
            out.push(part[k]);
            k = k + 1;
            assert(part@.take(k as int) =~= part@.take(k - 1).push(part@[k - 1]));
        }
        assert(part@.take(part.len() as int) =~= part@);
        i = i + 1;
        proof {
            if i == 1 {
                assert(ps.take(1) =~= seq![ps[0]]);
                assert(out@ =~= head + join_parts(ps.take(1)));
            } else {
                assert(out@ =~= head + join_parts(ps.take(i as int)));
            }
        }
    }
    assert(views(parts@).take(parts.len() as int) =~= views(parts@));
    assert(render(absolute, views(parts@)) =~= out@);
    chars_to_string(out.as_slice())
}

/// `Path::join` (`PathBuf::push`) on Unix: an absolute `rel` replaces
/// `base`; otherwise `rel` is appended, after a `/` unless `base` is empty
/// or already ends with one.
pub open spec fn join(base: Seq<char>, rel: Seq<char>) -> Seq<char> {
    if is_absolute(rel) {
        rel
    } else if base.len() > 0 && base.last() != '/' {
        base + seq!['/'] + rel
    } else {
        base + rel
    }
}

/// `Path::join` on Unix.
pub fn path_join(base: &str, rel: &str) -> (r: String)
    ensures
        r@ == join(base@, rel@),
{
    let b = str_to_chars(base);
    let rv = str_to_chars(rel);
    if rv.len() > 0 && rv[0] == '/' {
        return chars_to_string(rv.as_slice());
    }
    let mut out = b;
    if out.len() > 0 && out[out.len() - 1] != '/' {
        out.push('/');
    }
    crate::text::push_chars(&mut out, &rv);
    chars_to_string(out.as_slice())
}

/// `base`'s components are a prefix of `path`'s (`Path::starts_with`).
pub open spec fn path_starts_with_spec(path: Seq<char>, base: Seq<char>) -> bool {
    let pc = components(path);
    let bc = components(base);
    bc.len() <= pc.len() && pc.take(bc.len() as int) == bc
}

/// `Path::starts_with`: only whole components match.
pub fn path_starts_with(path: &str, base: &str) -> (r: bool)
    ensures
        r == path_starts_with_spec(path@, base@),
{
    let pc = path_components(path);
    let bc = path_components(base);
    if bc.len() > pc.len() {
        return false;
    }
    let mut i: usize = 0;
    while i < bc.len()
        invariant
            i <= bc.len() <= pc.len(),
            views(pc@) == components(path@),
            views(bc@) == components(base@),
            forall|j: int| 0 <= j < i ==> views(pc@)[j] == views(bc@)[j],
        decreases bc.len() - i,
    {
        if !chars_eq(&pc[i], &bc[i]) {
            assert(views(pc@).take(bc.len() as int)[i as int] != views(bc@)[i as int]);
            assert(views(pc@).take(bc.len() as int) != views(bc@));
            assert(views(bc@).len() == bc.len());
            return false;
        }
        i = i + 1;
    }
    assert(views(pc@).take(bc.len() as int) =~= views(bc@));
    true
}

/// Two paths are equal as `Path`s: they have the same components.
pub open spec fn same_path(a: Seq<char>, b: Seq<char>) -> bool {
    components(a) == components(b)
}

/// `Path` equality: the same components.
pub fn paths_equal(a: &str, b: &str) -> (r: bool)
    ensures
        r == same_path(a@, b@),
{
    let ac = path_components(a);
    let bc = path_components(b);
    if ac.len() != bc.len() {
        assert(views(ac@).len() != views(bc@).len());
        return false;
    }
    let mut i: usize = 0;
    while i < ac.len()
        invariant
            i <= ac.len() == bc.len(),
            views(ac@) == components(a@),
            views(bc@) == components(b@),
            forall|j: int| 0 <= j < i ==> views(ac@)[j] == views(bc@)[j],
        decreases ac.len() - i,
    {
        if !chars_eq(&ac[i], &bc[i]) {
            assert(views(ac@)[i as int] != views(bc@)[i as int]);
            return false;
        }
        i = i + 1;
    }
    assert(views(ac@) =~= views(bc@));
    true
}

/// Some path of the list equals `p` as a `Path` (what a `HashSet<PathBuf>`
/// answers to `contains`).
pub open spec fn in_path_set(set: Seq<String>, p: Seq<char>) -> bool {
    exists|i: int| 0 <= i < set.len() && same_path(#[trigger] set[i]@, p)
}

/// Whether some path of the list equals `p` as a `Path`.
pub fn path_in_set(set: &Vec<String>, p: &str) -> (r: bool)
    ensures
        r == in_path_set(set@, p@),
{
    let mut i: usize = 0;
    while i < set.len()
        invariant
            i <= set.len(),
            forall|j: int| 0 <= j < i ==> !same_path(#[trigger] set@[j]@, p@),
        decreases set.len() - i,
    {
        if paths_equal(set[i].as_str(), p) {
            return true;
        }
        i = i + 1;
    }
    false
}

/// The last component of a path when it is a name (`Path::file_name`).
pub open spec fn file_name_spec(s: Seq<char>) -> Option<Seq<char>> {
    let c = components(s);
    if c.len() > 0 && c.last() != root_comp() && c.last() != cur_comp() && c.last()
        != parent_comp() {
        Some(c.last())
    } else {
        None
    }
}

/// `Path::file_name`.
pub fn path_file_name(s: &str) -> (r: Option<String>)
    ensures
        r matches Some(n) ==> file_name_spec(s@) == Some(n@),
        r is None ==> file_name_spec(s@) is None,
{
    let c = path_components(s);
    if c.len() == 0 {
        return None;
    }
    let last = &c[c.len() - 1];
    let root = vec!['/'];
    let cur = vec!['.'];
    let parent = vec!['.', '.'];
    assert(root@ =~= root_comp());
    assert(cur@ =~= cur_comp());
    assert(parent@ =~= parent_comp());
    assert(views(c@).last() == last@);
    if chars_eq(last, &root) || chars_eq(last, &cur) || chars_eq(last, &parent) {
        None
    } else {
        Some(chars_to_string(last.as_slice()))
    }
}

/// What `Path::parent` returns, as text (`None` for the empty path and for
/// a path that is only the root).
pub uninterp spec fn spec_path_parent(s: Seq<char>) -> Option<Seq<char>>;

/// `Path::parent` of std. Its documentation: the path without its final
/// component, if there is one; none when the path ends in the root or is
/// empty. The parent is a strictly shorter beginning of the text.
#[verifier::external_body]
pub(crate) fn path_parent(s: &str) -> (r: Option<String>)
    ensures
        r matches Some(p) ==> spec_path_parent(s@) == Some(p@) && p@.len() < s@.len()
            && crate::text::starts_with(s@, p@) && components(s@).len() > 0 && components(
            s@,
        ).last() != root_comp() && components(p@) == components(s@).drop_last(),
        r is None ==> (components(s@).len() == 0 || components(s@).last() == root_comp()),
        r is None ==> spec_path_parent(s@) is None,
        s@.len() == 0 ==> r is None,
{
    match std::path::Path::new(s).parent() {
        Some(p) => Some(p.to_string_lossy().into_owned()),
        None => None,
    }
}

} // verus!
