//! Whiteouts: AUFS-style markers that hide a lower-layer file. A whiteout
//! for `foo` is an empty file named `.wh.foo` in the same directory of the
//! upper layer.
use vstd::prelude::*;

use crate::path::{file_name_spec, join, path_file_name, path_join, path_parent, spec_path_parent};
use crate::text::{chars_to_string, push_str, starts_with, str_starts_with, strip_prefix_str};

verus! {

/// The prefix of whiteout marker names.
pub const WHITEOUT_PREFIX: &'static str = ".wh.";

/// Whiteout handling.
pub struct Whiteout;

/// The marker name of a file name: `.wh.<name>`.
pub open spec fn marker_name_spec(name: Seq<char>) -> Seq<char> {
    ".wh."@ + name
}

impl Whiteout {
    /// The marker name for a file name: `.wh.<name>`.
    pub fn marker_name(name: &str) -> (r: String)
        ensures
            r@ == marker_name_spec(name@),
    {
        let mut out: Vec<char> = Vec::new();
        push_str(&mut out, ".wh.");
        push_str(&mut out, name);
        chars_to_string(&out)
    }

    /// Whether a file name is a whiteout marker (starts with `.wh.`).
    pub fn is_whiteout_marker(name: &str) -> (r: bool)
        ensures
            r == starts_with(name@, ".wh."@),
    {
        str_starts_with(name, ".wh.")
    }

    /// The file that a marker hides: the name without `.wh.`, or `None`
    /// when the name is not a marker.
    pub fn extract_target(whiteout_name: &str) -> (r: Option<String>)
        ensures
            starts_with(whiteout_name@, ".wh."@) ==> (r matches Some(t) && t@ == whiteout_name@.skip(
                4,
            )),
            !starts_with(whiteout_name@, ".wh."@) ==> r is None,
    {
        proof {
            reveal_strlit(".wh.");
        }
        strip_prefix_str(whiteout_name, ".wh.")
    }

    /// Where the marker that would hide a path is, as text.
    pub open spec fn marker_path_spec(path: Seq<char>) -> Option<Seq<char>> {
        match (spec_path_parent(path), file_name_spec(path)) {
            (Some(parent), Some(name)) => Some(join(parent, marker_name_spec(name))),
            _ => None,
        }
    }

    /// Where the marker that would hide a path is: `.wh.<name>` beside it
    /// (`None` when the path has no parent or no name; such a path is never
    /// whited out). The path is whited out when that file exists.
    pub fn marker_path(path: &str) -> (r: Option<String>)
        ensures
            crate::sync::aggregation::opt_string_view(r) == Self::marker_path_spec(path@),
    {
        match (path_parent(path), path_file_name(path)) {
            (Some(parent), Some(name)) => {
                let marker = Self::marker_name(name.as_str());
                Some(path_join(parent.as_str(), marker.as_str()))
            },
            _ => None,
        }
    }
}

/// A marker name is recognized as one, and names the file it was made
/// for.
pub proof fn lemma_marker_round_trip(name: Seq<char>)
    ensures
        starts_with(marker_name_spec(name), ".wh."@),
        marker_name_spec(name).skip(4) == name,
{
    reveal_strlit(".wh.");
    assert(marker_name_spec(name).subrange(0, 4) =~= ".wh."@);
    assert(marker_name_spec(name).skip(4) =~= name);
}

/// Every marker is the marker of the name it hides.
pub proof fn lemma_marker_of_target(marker: Seq<char>)
    requires
        starts_with(marker, ".wh."@),
    ensures
        marker_name_spec(marker.skip(4)) == marker,
{
    reveal_strlit(".wh.");
    assert(marker.subrange(0, 4) == ".wh."@);
    assert(marker_name_spec(marker.skip(4)) =~= marker);
}

} // verus!
