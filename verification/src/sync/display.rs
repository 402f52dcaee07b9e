//! Diffs of changed files, and what of them can be shown.
use vstd::prelude::*;

use super::{MAX_DIFF_LINES, MAX_LINE_LENGTH};
use crate::text::{chars_to_string, lines, push_str, split_lines, str_to_chars};
use vstd::string::StringSliceAdditionalSpecFns;

verus! {

/// Whether a line of a diff was removed, added, or kept.
#[derive(Debug, Clone, Copy, PartialEq, Eq, Structural)]
pub enum DiffTag {
    Delete,
    Insert,
    Equal,
}

/// What `similar` computes for two texts: `TextDiff::from_lines(old, new)`,
/// its operations grouped with `context` lines of context
/// (`grouped_ops(context)`), and for each group the changes of its
/// operations (`iter_changes`), each as its tag and its line (with the
/// line's ending).
pub uninterp spec fn spec_grouped_line_diff(old: Seq<char>, new: Seq<char>, context: nat) -> Seq<
    Seq<(DiffTag, Seq<char>)>,
>;

/// The lines of context around each change in a shown diff.
pub const DIFF_CONTEXT_LINES: usize = 3;

/// The view of grouped changes.
pub open spec fn groups_view(groups: Seq<Vec<(DiffTag, String)>>) -> Seq<Seq<(DiffTag, Seq<char>)>> {
    groups.map_values(
        |g: Vec<(DiffTag, String)>| g@.map_values(|c: (DiffTag, String)| (c.0, c.1@)),
    )
}

/// The line diff of two texts, grouped into hunks with `context` lines of
/// context, as `similar` computes it (see `spec_grouped_line_diff`). The
/// result is named; it depends on the arguments alone (no deadline is set).
#[verifier::external_body]
fn grouped_line_diff(old: &str, new: &str, context: usize) -> (r: Vec<Vec<(DiffTag, String)>>)
    ensures
        groups_view(r@) == spec_grouped_line_diff(old@, new@, context as nat),
{
    let diff = similar::TextDiff::from_lines(old, new);
    diff.grouped_ops(context).iter().map(|group| {
        group.iter().flat_map(|op| diff.iter_changes(op)).map(|c| {
            let tag = match c.tag() {
                similar::ChangeTag::Delete => DiffTag::Delete,
                similar::ChangeTag::Insert => DiffTag::Insert,
                similar::ChangeTag::Equal => DiffTag::Equal,
            };
            (tag, c.value().to_string())
        }).collect()
    }).collect()
}

/// The marker of a line in a diff.
pub open spec fn tag_marker(t: DiffTag) -> char {
    match t {
        DiffTag::Delete => '-',
        DiffTag::Insert => '+',
        DiffTag::Equal => ' ',
    }
}

/// The lines of one hunk, each after its marker.
pub open spec fn render_hunk(changes: Seq<(DiffTag, Seq<char>)>) -> Seq<char>
    decreases changes.len(),
{
    if changes.len() == 0 {
        Seq::empty()
    } else {
        render_hunk(changes.drop_last()) + seq![tag_marker(changes.last().0)] + changes.last().1
    }
}

/// The hunks, separated by `...` lines.
pub open spec fn render_diff(groups: Seq<Seq<(DiffTag, Seq<char>)>>) -> Seq<char>
    decreases groups.len(),
{
    if groups.len() == 0 {
        Seq::empty()
    } else if groups.len() == 1 {
        render_hunk(groups[0])
    } else {
        render_diff(groups.drop_last()) + "...\n"@ + render_hunk(groups.last())
    }
}

/// Renders grouped changes: each line after its marker (`-`, `+` or a
/// space), hunks separated by `...` lines.
pub fn render_diff_groups(groups: &Vec<Vec<(DiffTag, String)>>) -> (r: String)
    ensures
        r@ == render_diff(groups_view(groups@)),
{
    let ghost gv = groups_view(groups@);
    let mut out: Vec<char> = Vec::new();
    let mut i: usize = 0;
    while i < groups.len()
        invariant
            i <= groups.len(),
            gv == groups_view(groups@),
            out@ == render_diff(gv.take(i as int)),
        decreases groups.len() - i,
    {
        assert(gv.take(i + 1).drop_last() =~= gv.take(i as int));
        assert(gv.take(i + 1).last() == gv[i as int]);
        if i > 0 {
            push_str(&mut out, "...\n");
        }
        let group = &groups[i];
        let ghost hv = gv[i as int];
        let ghost start = out@;
        let mut k: usize = 0;
        while k < group.len()
            invariant
                k <= group.len(),
                hv == group@.map_values(|c: (DiffTag, String)| (c.0, c.1@)),
                out@ == start + render_hunk(hv.take(k as int)),
            decreases group.len() - k,
        {
            assert(hv.take(k + 1).drop_last() =~= hv.take(k as int));
            let (tag, value) = &group[k];
            let marker = match tag {
                DiffTag::Delete => '-',
                DiffTag::Insert => '+',
                DiffTag::Equal => ' ',
            };
            out.push(marker);
            push_str(&mut out, value.as_str());
            k = k + 1;
            assert(out@ =~= start + render_hunk(hv.take(k as int)));
        }
        assert(hv.take(group.len() as int) =~= hv);
        proof {
            if i == 0 {
                assert(gv.take(1) =~= seq![gv[0]]);
                assert(out@ =~= render_diff(gv.take(1)));
            }
        }
        i = i + 1;
    }
    assert(gv.take(groups.len() as int) =~= gv);
    chars_to_string(&out)
}

/// The diff of two texts as shown to the user: hunks of changed lines with
/// three lines of context, each line after its marker, hunks separated by
/// `...` lines.
pub fn format_diff(old_content: &str, new_content: &str) -> (r: String)
    ensures
        r@ == render_diff(
            spec_grouped_line_diff(old_content@, new_content@, DIFF_CONTEXT_LINES as nat),
        ),
{
    let groups = grouped_line_diff(old_content, new_content, DIFF_CONTEXT_LINES);
    render_diff_groups(&groups)
}

/// The length of a text in bytes (UTF-8).
pub open spec fn byte_len(s: Seq<char>) -> nat {
    vstd::utf8::encode_utf8(s).len()
}

/// A diff is too large to show when it has more than 15 lines or a line
/// longer than 200 bytes.
pub open spec fn diff_too_large_spec(diff: Seq<char>) -> bool {
    let ls = lines(diff);
    ls.len() > MAX_DIFF_LINES || exists|i: int| 0 <= i < ls.len() && byte_len(#[trigger] ls[i]) > MAX_LINE_LENGTH
}

/// Whether a diff is too large to show.
pub fn diff_too_large(diff_output: &str) -> (r: bool)
    ensures
        r == diff_too_large_spec(diff_output@),
{
    let chars = str_to_chars(diff_output);
    let ls = split_lines(&chars);
    if ls.len() > MAX_DIFF_LINES {
        return true;
    }
    let mut i: usize = 0;
    while i < ls.len()
        invariant
            i <= ls.len(),
            ls@.map_values(|v: Vec<char>| v@) == lines(diff_output@),
            forall|j: int| 0 <= j < i ==> byte_len(#[trigger] lines(diff_output@)[j]) <= MAX_LINE_LENGTH,
        decreases ls.len() - i,
    {
        let line = chars_to_string(ls[i].as_slice());
        let n = line.as_str().as_bytes().len();
        assert(lines(diff_output@)[i as int] == ls@[i as int]@);
        if n > MAX_LINE_LENGTH {
            return true;
        }
        i = i + 1;
    }
    false
}

} // verus!
