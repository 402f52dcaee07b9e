//! Which paths the configured glob patterns select, and what can be diffed.
use vstd::prelude::*;

use super::MAX_DIFF_FILE_SIZE;

verus! {

/// What `glob::Pattern::new` answers for a pattern text: `None` when it
/// accepts it, else the text of its error (`PatternError`'s `Display`).
pub uninterp spec fn spec_glob_parse_error(pattern: Seq<char>) -> Option<Seq<char>>;

/// The text is a valid glob pattern.
pub open spec fn spec_glob_valid(pattern: Seq<char>) -> bool {
    spec_glob_parse_error(pattern) is None
}

/// What `glob::Pattern::matches` (default options) answers for the pattern
/// that `glob::Pattern::new` builds from `pattern`, and a path.
pub uninterp spec fn spec_glob_matches(pattern: Seq<char>, path: Seq<char>) -> bool;

/// `glob::Pattern::new`: `None` when the text is a valid pattern, else the
/// error's text. The answer is named; it depends on the text alone.
#[verifier::external_body]
pub(crate) fn glob_pattern_error(pattern: &str) -> (r: Option<String>)
    ensures
        crate::sync::aggregation::opt_string_view(r) == spec_glob_parse_error(pattern@),
{
    match glob::Pattern::new(pattern) {
        Ok(_) => None,
        Err(e) => Some(e.to_string()),
    }
}

/// `glob::Pattern::matches` on the pattern that `glob::Pattern::new` builds
/// from a valid text. The answer is named; it depends on the two texts alone.
#[verifier::external_body]
pub(crate) fn glob_pattern_matches(pattern: &str, path: &str) -> (r: bool)
    requires
        spec_glob_valid(pattern@),
    ensures
        r == spec_glob_matches(pattern@, path@),
{
    match glob::Pattern::new(pattern) {
        Ok(p) => p.matches(path),
        Err(_) => false,
    }
}

/// The texts that are valid glob patterns, in order.
pub open spec fn valid_patterns(texts: Seq<String>) -> Seq<Seq<char>>
    decreases texts.len(),
{
    if texts.len() == 0 {
        Seq::empty()
    } else if spec_glob_valid(texts.last()@) {
        valid_patterns(texts.drop_last()).push(texts.last()@)
    } else {
        valid_patterns(texts.drop_last())
    }
}

/// Some pattern matches the path.
pub open spec fn any_pattern_matches(patterns: Seq<Seq<char>>, path: Seq<char>) -> bool {
    exists|i: int| 0 <= i < patterns.len() && spec_glob_matches(#[trigger] patterns[i], path)
}

/// Valid glob patterns; invalid ones are dropped when compiling.
pub struct CompiledPatterns {
    patterns: Vec<String>,
}

impl View for CompiledPatterns {
    type V = Seq<Seq<char>>;

    closed spec fn view(&self) -> Seq<Seq<char>> {
        self.patterns@.map_values(|s: String| s@)
    }
}

impl CompiledPatterns {
    #[verifier::type_invariant]
    closed spec fn all_valid(self) -> bool {
        forall|i: int| 0 <= i < self.patterns@.len() ==> spec_glob_valid(#[trigger] self.patterns@[i]@)
    }

    /// Keeps the texts that are valid patterns, in order.
    pub fn new(pattern_strings: &[String]) -> (r: Self)
        ensures
            r@ == valid_patterns(pattern_strings@),
    {
        let mut patterns: Vec<String> = Vec::new();
        let mut i: usize = 0;
        while i < pattern_strings.len()
            invariant
                i <= pattern_strings.len(),
                patterns@.map_values(|s: String| s@) == valid_patterns(
                    pattern_strings@.take(i as int),
                ),
                forall|j: int| 0 <= j < patterns@.len() ==> spec_glob_valid(#[trigger] patterns@[j]@),
            decreases pattern_strings.len() - i,
        {
            let text = &pattern_strings[i];
            assert(pattern_strings@.take(i + 1).drop_last() =~= pattern_strings@.take(i as int));
            if glob_pattern_error(text.as_str()).is_none() {
                let ghost before = patterns@;
                patterns.push(text.clone());
                assert(patterns@.map_values(|s: String| s@) =~= before.map_values(|s: String| s@).push(
                    text@,
                ));
            }
            i = i + 1;
        }
        assert(pattern_strings@.take(pattern_strings.len() as int) =~= pattern_strings@);
        CompiledPatterns { patterns }
    }

    /// Whether some pattern matches the path.
    pub fn matches(&self, path: &str) -> (r: bool)
        ensures
            r == any_pattern_matches(self@, path@),
    {
        proof {
            use_type_invariant(self);
        }
        let mut i: usize = 0;
        while i < self.patterns.len()
            invariant
                i <= self.patterns@.len(),
                self@ == self.patterns@.map_values(|s: String| s@),
                forall|j: int| 0 <= j < self.patterns@.len() ==> spec_glob_valid(#[trigger] self.patterns@[j]@),
                forall|j: int| 0 <= j < i ==> !spec_glob_matches(#[trigger] self@[j], path@),
            decreases self.patterns.len() - i,
        {
            if glob_pattern_matches(self.patterns[i].as_str(), path) {
                assert(spec_glob_matches(self@[i as int], path@));
                return true;
            }
            i = i + 1;
        }
        false
    }
}

/// Whether one of the patterns (the valid ones) matches the path.
pub fn path_matches_pattern(path: &str, patterns: &[String]) -> (r: bool)
    ensures
        r == any_pattern_matches(valid_patterns(patterns@), path@),
{
    CompiledPatterns::new(patterns).matches(path)
}

/// How many leading bytes are searched for a NUL byte.
pub const BINARY_CHECK_LEN: usize = 8192;

/// Content is binary when a NUL byte occurs among its first 8192 bytes.
pub open spec fn is_binary(content: Seq<u8>) -> bool {
    exists|i: int| 0 <= i < content.len() && i < BINARY_CHECK_LEN && content[i] == 0
}

/// Whether the content looks binary (a NUL among its first 8192 bytes).
pub fn detect_binary(content: &[u8]) -> (r: bool)
    ensures
        r == is_binary(content@),
{
    let n = if content.len() < BINARY_CHECK_LEN {
        content.len()
    } else {
        BINARY_CHECK_LEN
    };
    let mut i: usize = 0;
    while i < n
        invariant
            i <= n,
            n <= content.len(),
            n <= BINARY_CHECK_LEN,
            n == content.len() || n == BINARY_CHECK_LEN,
            forall|j: int| 0 <= j < i ==> content@[j] != 0,
        decreases n - i,
    {
        if content[i] == 0 {
            return true;
        }
        i = i + 1;
    }
    false
}

/// Whether a modified file is too large to diff, given the sizes that could
/// be read: the worktree file's, and the main repository's (0 when it does
/// not exist). A size that could not be read means the diff is attempted.
pub fn should_skip_diff(worktree_size: Option<u64>, repo_size: Option<u64>) -> (r: bool)
    ensures
        r == (match (worktree_size, repo_size) {
            (Some(w), Some(p)) => w > MAX_DIFF_FILE_SIZE || p > MAX_DIFF_FILE_SIZE,
            _ => false,
        }),
{
    match (worktree_size, repo_size) {
        (Some(w), Some(p)) => w > MAX_DIFF_FILE_SIZE || p > MAX_DIFF_FILE_SIZE,
        _ => false,
    }
}

} // verus!
