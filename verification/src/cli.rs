//! Validation of command-line input.
use vstd::prelude::*;

use crate::error::TreebeardError;
use vstd::string::StringSliceAdditionalSpecFns;
use vstd::string::StringExecFns;
use crate::text::{bytes_contain, contains_seq};

verus! {

/// Number of substrings that a branch name may not contain.
pub const NUM_DISALLOWED_PATTERNS: usize = 9;

/// The `k`-th substring (as bytes) that a branch name may not contain:
/// `..`, `~`, `^`, `:`, `?`, `*`, `[`, `\`, and a space, in this order.
pub open spec fn disallowed_pattern(k: int) -> Seq<u8> {
    if k == 0 {
        seq![46u8, 46u8]
    } else if k == 1 {
        seq![126u8]
    } else if k == 2 {
        seq![94u8]
    } else if k == 3 {
        seq![58u8]
    } else if k == 4 {
        seq![63u8]
    } else if k == 5 {
        seq![42u8]
    } else if k == 6 {
        seq![91u8]
    } else if k == 7 {
        seq![92u8]
    } else {
        seq![32u8]
    }
}

/// The error text for the `k`-th disallowed substring.
pub open spec fn disallowed_message(k: int) -> Seq<char> {
    if k == 0 {
        "Branch name cannot contain '..'"@
    } else if k == 1 {
        "Branch name cannot contain '~'"@
    } else if k == 2 {
        "Branch name cannot contain '^'"@
    } else if k == 3 {
        "Branch name cannot contain ':'"@
    } else if k == 4 {
        "Branch name cannot contain '?'"@
    } else if k == 5 {
        "Branch name cannot contain '*'"@
    } else if k == 6 {
        "Branch name cannot contain '['"@
    } else if k == 7 {
        "Branch name cannot contain '\\'"@
    } else {
        "Branch name cannot contain ' '"@
    }
}

/// The first disallowed substring, counting from `k`, that occurs in `b`.
pub open spec fn first_disallowed_from(b: Seq<u8>, k: int) -> Option<int>
    decreases 9 - k,
{
    if k < 0 || k >= 9 {
        None
    } else if contains_seq(b, disallowed_pattern(k)) {
        Some(k)
    } else {
        first_disallowed_from(b, k + 1)
    }
}

/// A byte below 32 or equal to 127.
pub open spec fn is_control_byte(x: u8) -> bool {
    x < 32 || x == 127
}

/// Why a branch name (given as its UTF-8 bytes) is refused, as the text of
/// the refusal; `None` when the name is acceptable. The rules are checked in
/// this order: empty, leading `-`, control characters, disallowed substrings,
/// leading or trailing `/`, `//`, leading or trailing `.`.
pub open spec fn branch_name_error(b: Seq<u8>) -> Option<Seq<char>> {
    if b.len() == 0 {
        Some("Branch name cannot be empty"@)
    } else if b[0] == 45u8 {
        Some("Branch name cannot start with '-'"@)
    } else if exists|i: int| 0 <= i < b.len() && is_control_byte(#[trigger] b[i]) {
        Some("Branch name contains control characters"@)
    } else if first_disallowed_from(b, 0) is Some {
        Some(disallowed_message(first_disallowed_from(b, 0)->0))
    } else if b[0] == 47u8 || b.last() == 47u8 {
        Some("Branch name cannot start or end with '/'"@)
    } else if contains_seq(b, seq![47u8, 47u8]) {
        Some("Branch name cannot contain consecutive slashes"@)
    } else if b[0] == 46u8 || b.last() == 46u8 {
        Some("Branch name cannot start or end with '.'"@)
    } else {
        None
    }
}

fn disallowed_entry(k: usize) -> (r: (Vec<u8>, &'static str))
    requires
        k < 9,
    ensures
        r.0@ == disallowed_pattern(k as int),
        r.1@ == disallowed_message(k as int),
{
    if k == 0 {
        (vec![46u8, 46u8], "Branch name cannot contain '..'")
    } else if k == 1 {
        (vec![126u8], "Branch name cannot contain '~'")
    } else if k == 2 {
        (vec![94u8], "Branch name cannot contain '^'")
    } else if k == 3 {
        (vec![58u8], "Branch name cannot contain ':'")
    } else if k == 4 {
        (vec![63u8], "Branch name cannot contain '?'")
    } else if k == 5 {
        (vec![42u8], "Branch name cannot contain '*'")
    } else if k == 6 {
        (vec![91u8], "Branch name cannot contain '['")
    } else if k == 7 {
        (vec![92u8], "Branch name cannot contain '\\'")
    } else {
        (vec![32u8], "Branch name cannot contain ' '")
    }
}

fn config_error(msg: &str) -> (e: TreebeardError)
    ensures
        e matches TreebeardError::Config(m) && m@ == msg@,
{
    TreebeardError::Config(String::from_str(msg))
}

/// Checks that a name can be used for a new branch (and a directory named
/// after it). Exactly the names for which `branch_name_error` of their bytes
/// is `None` are accepted; any other name is refused with that text.
pub fn validate_branch_name(branch_name: &str) -> (r: Result<(), TreebeardError>)
    ensures
        r is Ok <==> branch_name_error(branch_name.spec_bytes()) is None,
        r matches Err(e) ==> (e matches TreebeardError::Config(m) && Some(m@) == branch_name_error(
            branch_name.spec_bytes(),
        )),
{
    let b = branch_name.as_bytes();
    let ghost bs = branch_name.spec_bytes();
    assert(b@ == bs);
    if b.len() == 0 {
        return Err(config_error("Branch name cannot be empty"));
    }
    if b[0] == 45u8 {
        return Err(config_error("Branch name cannot start with '-'"));
    }
    let mut i: usize = 0;
    while i < b.len()
        invariant
            i <= b.len(),
            b@ == bs,
            bs == branch_name.spec_bytes(),
            bs.len() > 0,
            bs[0] != 45u8,
            forall|j: int| 0 <= j < i ==> !is_control_byte(#[trigger] b@[j]),
        decreases b.len() - i,
    {
        if b[i] < 32u8 || b[i] == 127u8 {
            assert(is_control_byte(b@[i as int]));
            return Err(config_error("Branch name contains control characters"));
        }
        i = i + 1;
    }
    let mut k: usize = 0;
    while k < NUM_DISALLOWED_PATTERNS
        invariant
            k <= 9,
            first_disallowed_from(bs, 0) == first_disallowed_from(bs, k as int),
            b@ == bs,
            bs == branch_name.spec_bytes(),
            bs.len() > 0,
            bs[0] != 45u8,
            forall|j: int| 0 <= j < bs.len() ==> !is_control_byte(#[trigger] bs[j]),
        decreases 9 - k,
    {
        let (pattern, message) = disallowed_entry(k);
        if bytes_contain(b, pattern.as_slice()) {
            return Err(config_error(message));
        }
        k = k + 1;
    }
    if b[0] == 47u8 || b[b.len() - 1] == 47u8 {
        return Err(config_error("Branch name cannot start or end with '/'"));
    }
    let slashes: Vec<u8> = vec![47u8, 47u8];
    if bytes_contain(b, slashes.as_slice()) {
        assert(slashes@ =~= seq![47u8, 47u8]);
        return Err(config_error("Branch name cannot contain consecutive slashes"));
    }
    assert(slashes@ =~= seq![47u8, 47u8]);
    if b[0] == 46u8 || b[b.len() - 1] == 46u8 {
        return Err(config_error("Branch name cannot start or end with '.'"));
    }
    Ok(())
}

/// A byte that plain branch names are made of: an ASCII letter (either
/// case), a digit, `-`, `_`, `/` or `.`.
pub open spec fn is_plain_name_byte(x: u8) -> bool {
    (97u8 <= x && x <= 122u8) || (65u8 <= x && x <= 90u8) || (48u8 <= x && x <= 57u8) || x == 45u8
        || x == 95u8 || x == 47u8 || x == 46u8
}

/// A single byte that no plain name byte equals does not occur in a plain
/// name.
proof fn lemma_plain_lacks(b: Seq<u8>, x: u8)
    requires
        forall|i: int| 0 <= i < b.len() ==> is_plain_name_byte(#[trigger] b[i]),
        !is_plain_name_byte(x),
    ensures
        !contains_seq(b, seq![x]),
{
    if contains_seq(b, seq![x]) {
        let i = choose|i: int| crate::text::occurs_at(b, seq![x], i);
        assert(b.subrange(i, i + 1)[0] == b[i]);
        assert(is_plain_name_byte(b[i]));
    }
}

/// Every name made of ASCII letters, digits, `-`, `_`, `/` and inner `.`
/// is accepted, provided it does not start with `-`, `.` or `/`, does not
/// end with `.` or `/`, and has no `..` and no `//`: none of its bytes is a
/// control character (below 32 or 127) and no other rule refuses it.
pub proof fn lemma_plain_branch_names_accepted(b: Seq<u8>)
    requires
        b.len() > 0,
        forall|i: int| 0 <= i < b.len() ==> is_plain_name_byte(#[trigger] b[i]),
        b[0] != 45u8 && b[0] != 46u8 && b[0] != 47u8,
        b.last() != 46u8 && b.last() != 47u8,
        !contains_seq(b, seq![46u8, 46u8]),
        !contains_seq(b, seq![47u8, 47u8]),
    ensures
        branch_name_error(b) is None,
{
    assert forall|i: int| 0 <= i < b.len() implies !(#[trigger] b[i] < 32 || b[i] == 127) by {
        assert(is_plain_name_byte(b[i]));
    }
    lemma_plain_lacks(b, 126u8);
    lemma_plain_lacks(b, 94u8);
    lemma_plain_lacks(b, 58u8);
    lemma_plain_lacks(b, 63u8);
    lemma_plain_lacks(b, 42u8);
    lemma_plain_lacks(b, 91u8);
    lemma_plain_lacks(b, 92u8);
    lemma_plain_lacks(b, 32u8);
    reveal_with_fuel(first_disallowed_from, 10);
    assert(first_disallowed_from(b, 0) is None);
}

/// A name that is not empty and does not start with `-` is refused for
/// control characters when one of its bytes is below 32 or is 127.
pub proof fn lemma_control_bytes_refused(b: Seq<u8>, i: int)
    requires
        b.len() > 0,
        b[0] != 45u8,
        0 <= i < b.len(),
        b[i] < 32u8 || b[i] == 127u8,
    ensures
        branch_name_error(b) == Some("Branch name contains control characters"@),
{
    assert(is_control_byte(b[i]));
}

} // verus!
