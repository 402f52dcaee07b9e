//! Where a path of the overlay lives: the upper (writable) layer, the lower
//! (original) layer, or neither; and which paths bypass the upper layer.
use vstd::prelude::*;

use super::types::LayerType;
use crate::error::TreebeardError;
use crate::path::{has_leading_cur_dir, join, path_join};
use crate::sync::files::{glob_pattern_error, glob_pattern_matches, spec_glob_matches, spec_glob_valid};
use crate::text::{chars_to_string, ends_with, push_str, starts_with, str_to_chars};

verus! {

/// Drops empty and `.` pieces from the front of a path's text.
pub open spec fn trim_front(s: Seq<char>) -> Seq<char>
    decreases s.len(),
{
    if s.len() == 0 {
        s
    } else if s[0] == '/' {
        trim_front(s.skip(1))
    } else if s[0] == '.' && (s.len() == 1 || s[1] == '/') {
        trim_front(s.skip(1))
    } else {
        s
    }
}

/// Drops empty and `.` pieces from the back of a path's text.
pub open spec fn trim_back(s: Seq<char>) -> Seq<char>
    decreases s.len(),
{
    if s.len() == 0 {
        s
    } else if s.last() == '/' {
        trim_back(s.drop_last())
    } else if s.last() == '.' && (s.len() == 1 || s[s.len() - 2] == '/') {
        trim_back(s.drop_last())
    } else {
        s
    }
}

/// The text a relative path is matched with: without a leading `.`
/// component (`Path::strip_prefix(".")`, whose remainder drops empty and
/// `.` pieces at both ends), else the path as it is.
pub open spec fn match_text(rel: Seq<char>) -> Seq<char> {
    if has_leading_cur_dir(rel) {
        trim_back(trim_front(rel.skip(1)))
    } else {
        rel
    }
}

/// Drops empty and `.` pieces from the front.
fn trim_front_exec(s: &Vec<char>, start: usize) -> (r: usize)
    requires
        start <= s@.len(),
    ensures
        start <= r <= s@.len(),
        trim_front(s@.skip(start as int)) == s@.skip(r as int),
    decreases s.len() - start,
{
    if start == s.len() {
        return start;
    }
    assert(s@.skip(start as int)[0] == s@[start as int]);
    assert(s@.skip(start as int).skip(1) =~= s@.skip(start + 1));
    if s[start] == '/' {
        trim_front_exec(s, start + 1)
    } else if s[start] == '.' && (start + 1 == s.len() || s[start + 1] == '/') {
        assert(start + 1 < s@.len() ==> s@.skip(start as int)[1] == s@[start + 1]);
        trim_front_exec(s, start + 1)
    } else {
        assert(start + 1 < s@.len() ==> s@.skip(start as int)[1] == s@[start + 1]);
        start
    }
}

/// Drops empty and `.` pieces from the back.
fn trim_back_exec(s: &Vec<char>, start: usize, end: usize) -> (r: usize)
    requires
        start <= end <= s@.len(),
    ensures
        start <= r <= end,
        trim_back(s@.subrange(start as int, end as int)) == s@.subrange(start as int, r as int),
    decreases end - start,
{
    if end == start {
        return end;
    }
    let ghost t = s@.subrange(start as int, end as int);
    assert(t.last() == s@[end - 1]);
    assert(t.drop_last() =~= s@.subrange(start as int, end - 1));
    if s[end - 1] == '/' {
        trim_back_exec(s, start, end - 1)
    } else if s[end - 1] == '.' && (end - start == 1 || s[end - 2] == '/') {
        assert(end - start >= 2 ==> t[t.len() - 2] == s@[end - 2]);
        trim_back_exec(s, start, end - 1)
    } else {
        assert(end - start >= 2 ==> t[t.len() - 2] == s@[end - 2]);
        end
    }
}

/// The text a relative path is matched with.
pub fn match_text_of(rel: &str) -> (r: String)
    ensures
        r@ == match_text(rel@),
{
    let v = str_to_chars(rel);
    let leading = v.len() > 0 && v[0] == '.' && (v.len() == 1 || v[1] == '/');
    if leading {
        let a = trim_front_exec(&v, 1);
        let b = trim_back_exec(&v, a, v.len());
        assert(s_skip_sub(v@, a as int));
        let mut out: Vec<char> = Vec::new();
        let mut i: usize = a;
        while i < b
            invariant
                a <= i <= b <= v@.len(),
                out@ == v@.subrange(a as int, i as int),
            decreases b - i,
        {
            out.push(v[i]);
            i = i + 1;
            assert(v@.subrange(a as int, i as int) =~= v@.subrange(a as int, i - 1).push(
                v@[i - 1],
            ));
        }
        chars_to_string(&out)
    } else {
        chars_to_string(&v)
    }
}

/// A suffix of a sequence is the subrange to its end.
spec fn s_skip_sub(s: Seq<char>, a: int) -> bool {
    0 <= a <= s.len() ==> s.skip(a) == s.subrange(a, s.len() as int)
}

/// The pattern is `<prefix>/**` and the path is the prefix or one of its
/// ancestors.
pub open spec fn parent_of_pattern(pattern: Seq<char>, text: Seq<char>) -> bool {
    ends_with(pattern, "/**"@) && {
        let prefix = pattern.take(pattern.len() - 3);
        text == prefix || starts_with(prefix, text + "/"@)
    }
}

/// A relative path bypasses the upper layer when a passthrough pattern
/// matches it, or when it is a directory above what a `<dir>/**` pattern
/// covers.
pub open spec fn is_passthrough_spec(patterns: Seq<Seq<char>>, rel: Seq<char>) -> bool {
    exists|i: int|
        0 <= i < patterns.len() && (spec_glob_matches(#[trigger] patterns[i], match_text(rel))
            || parent_of_pattern(patterns[i], match_text(rel)))
}

/// A `<dir>/**` passthrough pattern makes `<dir>` itself and every
/// directory above it (a path `t` with `<dir>` starting with `t/`)
/// passthrough too, so that walking down to the directory reaches the
/// lower layer.
pub proof fn lemma_passthrough_covers_parents(
    patterns: Seq<Seq<char>>,
    i: int,
    dir: Seq<char>,
    t: Seq<char>,
)
    requires
        0 <= i < patterns.len(),
        patterns[i] == dir + "/**"@,
        !has_leading_cur_dir(t),
        t == dir || starts_with(dir, t + "/"@),
    ensures
        is_passthrough_spec(patterns, t),
{
    reveal_strlit("/**");
    let pat = patterns[i];
    assert(pat.len() == dir.len() + 3);
    assert(pat.subrange(pat.len() - 3, pat.len() as int) =~= "/**"@);
    assert(ends_with(pat, "/**"@));
    assert(pat.take(pat.len() - 3) =~= dir);
    assert(match_text(t) == t);
    assert(parent_of_pattern(patterns[i], match_text(t)));
}

/// What the caller found about a path in the layers.
pub struct ResolveProbe {
    /// The path exists in the lower layer.
    pub lower_exists: bool,
    /// A whiteout marker hides the path in the upper layer.
    pub upper_whiteout: bool,
    /// The path exists in the upper layer.
    pub upper_exists: bool,
    /// The upper-layer path with symlinks resolved, when that worked.
    pub canonical_upper: Option<String>,
    /// The lower-layer path with symlinks resolved, when that worked.
    pub canonical_lower: Option<String>,
}

/// Paths within the two layers.
pub struct PathResolver {
    upper_layer: String,
    lower_layer: String,
    passthrough_patterns: Vec<String>,
}

impl View for PathResolver {
    type V = Seq<Seq<char>>;

    /// The passthrough patterns.
    closed spec fn view(&self) -> Seq<Seq<char>> {
        self.passthrough_patterns@.map_values(|s: String| s@)
    }
}

/// The first invalid pattern, with its error, if any.
pub open spec fn first_invalid(patterns: Seq<String>) -> Option<(Seq<char>, Seq<char>)>
    decreases patterns.len(),
{
    if patterns.len() == 0 {
        None
    } else {
        match crate::sync::files::spec_glob_parse_error(patterns[0]@) {
            Some(e) => Some((patterns[0]@, e)),
            None => first_invalid(patterns.skip(1)),
        }
    }
}

impl PathResolver {
    /// The upper layer's directory.
    pub closed spec fn upper(&self) -> String {
        self.upper_layer
    }

    /// The lower layer's directory.
    pub closed spec fn lower(&self) -> String {
        self.lower_layer
    }

    #[verifier::type_invariant]
    closed spec fn patterns_valid(self) -> bool {
        forall|i: int|
            0 <= i < self.passthrough_patterns@.len() ==> spec_glob_valid(
                #[trigger] self.passthrough_patterns@[i]@,
            )
    }

    /// A resolver for two layers; every passthrough pattern must be a valid
    /// glob pattern.
    pub fn new(upper_layer: String, lower_layer: String, passthrough_patterns: Vec<String>) -> (r:
        Result<PathResolver, TreebeardError>)
        ensures
            match first_invalid(passthrough_patterns@) {
                None => r matches Ok(pr) && pr.upper() == upper_layer && pr.lower()
                    == lower_layer && pr@ == passthrough_patterns@.map_values(|s: String| s@),
                Some((p, e)) => r matches Err(TreebeardError::Config(m)) && m@
                    == "Invalid passthrough glob pattern '"@ + p + "': "@ + e,
            },
    {
        let mut i: usize = 0;
        assert(passthrough_patterns@.skip(0) =~= passthrough_patterns@);
        while i < passthrough_patterns.len()
            invariant
                i <= passthrough_patterns@.len(),
                forall|j: int| 0 <= j < i ==> spec_glob_valid(#[trigger] passthrough_patterns@[j]@),
                first_invalid(passthrough_patterns@) == first_invalid(
                    passthrough_patterns@.skip(i as int),
                ),
            decreases passthrough_patterns.len() - i,
        {
            assert(passthrough_patterns@.skip(i as int)[0] == passthrough_patterns@[i as int]);
            assert(passthrough_patterns@.skip(i as int).skip(1) =~= passthrough_patterns@.skip(
                i + 1,
            ));
            match glob_pattern_error(passthrough_patterns[i].as_str()) {
                Some(e) => {
                    let mut out: Vec<char> = Vec::new();
                    push_str(&mut out, "Invalid passthrough glob pattern '");
                    push_str(&mut out, passthrough_patterns[i].as_str());
                    push_str(&mut out, "': ");
                    push_str(&mut out, e.as_str());
                    return Err(TreebeardError::Config(chars_to_string(&out)));
                },
                None => {},
            }
            i = i + 1;
        }
        Ok(PathResolver { upper_layer, lower_layer, passthrough_patterns })
    }

    /// The directory of a layer.
    pub fn layer_base_path(&self, layer: LayerType) -> (r: String)
        ensures
            layer == LayerType::Upper ==> r == self.upper(),
            layer == LayerType::Lower ==> r == self.lower(),
    {
        match layer {
            LayerType::Upper => self.upper_layer.clone(),
            LayerType::Lower => self.lower_layer.clone(),
        }
    }

    /// A relative path within the upper layer.
    pub fn upper_path(&self, relative_path: &str) -> (r: String)
        ensures
            r@ == join(self.upper()@, relative_path@),
    {
        path_join(self.upper_layer.as_str(), relative_path)
    }

    /// A relative path within the lower layer.
    pub fn lower_path(&self, relative_path: &str) -> (r: String)
        ensures
            r@ == join(self.lower()@, relative_path@),
    {
        path_join(self.lower_layer.as_str(), relative_path)
    }

    /// Whether a relative path bypasses the upper layer.
    pub fn is_passthrough(&self, relative_path: &str) -> (r: bool)
        ensures
            r == is_passthrough_spec(self@, relative_path@),
    {
        proof {
            use_type_invariant(self);
        }
        let text = match_text_of(relative_path);
        let mut i: usize = 0;
        while i < self.passthrough_patterns.len()
            invariant
                i <= self.passthrough_patterns@.len(),
                text@ == match_text(relative_path@),
                self@ == self.passthrough_patterns@.map_values(|s: String| s@),
                forall|j: int|
                    0 <= j < self.passthrough_patterns@.len() ==> spec_glob_valid(
                        #[trigger] self.passthrough_patterns@[j]@,
                    ),
                forall|j: int|
                    0 <= j < i ==> !(spec_glob_matches(#[trigger] self@[j], text@) || parent_of_pattern(
                        self@[j],
                        text@,
                    )),
            decreases self.passthrough_patterns.len() - i,
        {
            let p = self.passthrough_patterns[i].as_str();
            assert(self@[i as int] == p@);
            if glob_pattern_matches(p, text.as_str()) {
                return true;
            }
            if pattern_covers_parent(p, text.as_str()) {
                return true;
            }
            i = i + 1;
        }
        false
    }

    /// Where a relative path is found: a passthrough path only in the lower
    /// layer; otherwise a whiteout hides it, else the upper layer shadows
    /// the lower one. A found path is given with symlinks resolved when
    /// that worked.
    pub fn resolve_path(&self, relative_path: &str, probe: &ResolveProbe) -> (r: Option<
        (String, LayerType),
    >)
        ensures
            is_passthrough_spec(self@, relative_path@) ==> (if probe.lower_exists {
                r matches Some((p, l)) && l == LayerType::Lower && p@ == join(
                    self.lower()@,
                    relative_path@,
                )
            } else {
                r is None
            }),
            !is_passthrough_spec(self@, relative_path@) ==> (if probe.upper_whiteout {
                r is None
            } else if probe.upper_exists {
                r matches Some((p, l)) && l == LayerType::Upper && p@ == (match probe.canonical_upper {
                    Some(c) => c@,
                    None => join(self.upper()@, relative_path@),
                })
            } else if probe.lower_exists {
                r matches Some((p, l)) && l == LayerType::Lower && p@ == (match probe.canonical_lower {
                    Some(c) => c@,
                    None => join(self.lower()@, relative_path@),
                })
            } else {
                r is None
            }),
    {
        if self.is_passthrough(relative_path) {
            if probe.lower_exists {
                return Some((self.lower_path(relative_path), LayerType::Lower));
            }
            return None;
        }
        if probe.upper_whiteout {
            return None;
        }
        if probe.upper_exists {
            let p = match &probe.canonical_upper {
                Some(c) => c.clone(),
                None => self.upper_path(relative_path),
            };
            return Some((p, LayerType::Upper));
        }
        if probe.lower_exists {
            let p = match &probe.canonical_lower {
                Some(c) => c.clone(),
                None => self.lower_path(relative_path),
            };
            return Some((p, LayerType::Lower));
        }
        None
    }
}

/// Whether the pattern is `<prefix>/**` with the path equal to the prefix
/// or above it.
fn pattern_covers_parent(pattern: &str, text: &str) -> (r: bool)
    ensures
        r == parent_of_pattern(pattern@, text@),
{
    let p = str_to_chars(pattern);
    let t = str_to_chars(text);
    let n = p.len();
    proof {
        reveal_strlit("/**");
    }
    if n < 3 || p[n - 3] != '/' || p[n - 2] != '*' || p[n - 1] != '*' {
        assert(!ends_with(pattern@, "/**"@)) by {
            if ends_with(pattern@, "/**"@) {
                assert(pattern@.subrange(n - 3, n as int)[0] == p@[n - 3]);
                assert(pattern@.subrange(n - 3, n as int)[1] == p@[n - 2]);
                assert(pattern@.subrange(n - 3, n as int)[2] == p@[n - 1]);
            }
        }
        return false;
    }
    assert(ends_with(pattern@, "/**"@)) by {
        assert(pattern@.subrange(n - 3, n as int) =~= "/**"@);
    }
    let mut prefix: Vec<char> = Vec::new();
    let mut i: usize = 0;
    while i < n - 3
        invariant
            n == p@.len(),
            3 <= n,
            i <= n - 3,
            prefix@ == p@.take(i as int),
        decreases n - 3 - i,
    {
        prefix.push(p[i]);
        i = i + 1;
        assert(p@.take(i as int) =~= p@.take(i - 1).push(p@[i - 1]));
    }
    if crate::text::chars_eq(&prefix, &t) {
        return true;
    }
    let mut with_slash = t;
    with_slash.push('/');
    proof {
        reveal_strlit("/");
        assert(with_slash@ =~= text@ + "/"@);
    }
    if with_slash.len() > prefix.len() {
        return false;
    }
    let r = crate::text::matches_at(&prefix, 0, &with_slash);
    assert(r == starts_with(prefix@, with_slash@)) by {
        if r {
            assert(prefix@.subrange(0, with_slash@.len() as int) == with_slash@);
        }
        if starts_with(prefix@, with_slash@) {
            assert(crate::text::occurs_at(prefix@, with_slash@, 0));
        }
    }
    r
}

} // verus!
