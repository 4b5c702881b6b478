//! Hierarchical command paths and command-level metadata.

use crate::text::{chars_of, lemma_split_join, split_on, has_char, has_char_exec, join_vec, join_with, owned, push_str, seqs, string_of, strings, strs};
use crate::spec::arg_spec::ArgSpec;
use crate::spec::diagnostic::{diag_views, Diagnostic};
use crate::spec::validation::{validate_args, validation, FloatBreach};
use crate::spec::value::ArgValues;
use vstd::prelude::*;

verus! {

/// Command-level metadata for typed spec-driven commands.
#[derive(Debug, Default)]
pub struct CommandSpec {
    pub summary: String,
    pub long_about: Option<String>,
    pub examples: Vec<String>,
    pub aliases: Vec<String>,
    pub hidden_aliases: Vec<String>,
    pub hidden: bool,
    /// Deprecation message, if this command is deprecated.
    pub deprecated: Option<String>,
    pub env_vars: Vec<EnvVarEntry>,
    pub exit_codes: Vec<ExitCodeEntry>,
    pub args: Vec<ArgSpec>,
    pub notes: Option<String>,
    /// Optional grouping label for help output.
    pub category: Option<String>,
    /// Usage hint shown in help, e.g. `"cmd [--flag] <pos>"`.
    pub syntax: Option<String>,
}

impl CommandSpec {
    /// Validate typed args against the spec's constraints: required args,
    /// value types, integer bounds, patterns, conflicts and requirements.
    /// How `Float` values compare with their bounds comes from the caller
    /// in `float_breaches`.
    pub fn validate_typed_args(&self, args: &ArgValues, float_breaches: &[FloatBreach]) -> (out: Vec<
        Diagnostic,
    >)
        ensures
            diag_views(out@) == validation(self.args@, args@, float_breaches@),
    {
        validate_args(&self.args, args, float_breaches)
    }
}

/// An environment variable referenced by a command.
#[derive(Debug, Clone)]
pub struct EnvVarEntry {
    pub name: String,
    pub description: String,
}

/// An exit code documented by a command.
#[derive(Debug, Clone)]
pub struct ExitCodeEntry {
    pub code: i32,
    pub description: String,
}

/// Metadata for a command group (non-leaf path node).
#[derive(Debug, Clone, Default)]
pub struct GroupMetadata {
    pub summary: String,
    pub hidden: bool,
    pub category: Option<String>,
}

/// Hierarchical command path (e.g. `["cluster", "get"]` is `"cluster/get"`).
#[derive(Debug, Clone, PartialEq, Eq, Hash, Default)]
pub struct CommandPath(pub Vec<String>);

/// Error constructing a [`CommandPath`].
#[derive(Debug, Clone, PartialEq, Eq)]
pub enum CommandPathError {
    /// A segment contained `/`.
    InvalidSegment { segment: String },
}

impl CommandPathError {
    /// The message the error displays.
    pub fn message(&self) -> (out: String)
        ensures
            out@ == "path segment '"@ + self->segment@ + "' must not contain '/'"@,
    {
        let CommandPathError::InvalidSegment { segment } = self;
        let mut out = owned("path segment '");
        push_str(&mut out, segment.as_str());
        push_str(&mut out, "' must not contain '/'");
        out
    }
}

/// A segment is valid when it holds no `/`.
pub open spec fn valid_segment(s: Seq<char>) -> bool {
    !has_char(s, '/')
}

/// The index of the first segment holding `/`, `v.len()` when there is none.
pub open spec fn first_invalid(v: Seq<Seq<char>>) -> int
    decreases v.len(),
{
    if v.len() == 0 {
        0
    } else if !valid_segment(v[0]) {
        0
    } else {
        1 + first_invalid(v.subrange(1, v.len() as int))
    }
}

pub proof fn lemma_first_invalid(v: Seq<Seq<char>>)
    ensures
        0 <= first_invalid(v) <= v.len(),
        forall|j: int| 0 <= j < first_invalid(v) ==> valid_segment(#[trigger] v[j]),
        first_invalid(v) < v.len() ==> !valid_segment(v[first_invalid(v)]),
    decreases v.len(),
{
    if v.len() > 0 && valid_segment(v[0]) {
        let t = v.subrange(1, v.len() as int);
        lemma_first_invalid(t);
        assert forall|j: int| 0 <= j < first_invalid(v) implies valid_segment(#[trigger] v[j]) by {
            if j > 0 {
                assert(v[j] == t[j - 1]);
            }
        }
    }
}

pub proof fn lemma_first_invalid_is(v: Seq<Seq<char>>, k: int)
    requires
        0 <= k <= v.len(),
        forall|j: int| 0 <= j < k ==> valid_segment(#[trigger] v[j]),
        k == v.len() || !valid_segment(v[k]),
    ensures
        first_invalid(v) == k,
{
    lemma_first_invalid(v);
    let f = first_invalid(v);
    if f < k {
        assert(valid_segment(v[f]));
    } else if f > k {
        assert(valid_segment(v[k]));
    }
}

impl View for CommandPath {
    type V = Seq<Seq<char>>;

    open spec fn view(&self) -> Seq<Seq<char>> {
        strings(self.0@)
    }
}

fn valid_segment_exec(s: &str) -> (r: bool)
    ensures
        r == valid_segment(s@),
{
    let v = chars_of(s);
    !has_char_exec(v.as_slice(), '/')
}

impl CommandPath {
    /// Construct from string slices. Fails on the first segment that holds
    /// a `/`.
    pub fn new(segments: &[&str]) -> (res: Result<CommandPath, CommandPathError>)
        ensures
            first_invalid(strs(segments@)) == segments@.len() <==> res is Ok,
            res matches Ok(p) ==> p@ == strs(segments@),
            res matches Err(CommandPathError::InvalidSegment { segment }) ==> segment@
                == segments@[first_invalid(strs(segments@))]@,
    {
        let ghost v = strs(segments@);
        let mut i: usize = 0;
        while i < segments.len()
            invariant
                v == strs(segments@),
                i <= segments.len(),
                forall|j: int| 0 <= j < i ==> valid_segment(#[trigger] v[j]),
            decreases segments.len() - i,
        {
            if !valid_segment_exec(segments[i]) {
                proof {
                    lemma_first_invalid_is(v, i as int);
                }
                return Err(CommandPathError::InvalidSegment { segment: owned(segments[i]) });
            }
            i = i + 1;
        }
        proof {
            lemma_first_invalid_is(v, v.len() as int);
        }
        let mut out: Vec<String> = Vec::new();
        let mut k: usize = 0;
        while k < segments.len()
            invariant
                k <= segments.len(),
                strings(out@) == strs(segments@.subrange(0, k as int)),
            decreases segments.len() - k,
        {
            out.push(owned(segments[k]));
            assert(strs(segments@.subrange(0, (k + 1) as int)) =~= strs(
                segments@.subrange(0, k as int),
            ).push(segments@[k as int]@));
            k = k + 1;
        }
        assert(segments@.subrange(0, segments@.len() as int) == segments@);
        Ok(CommandPath(out))
    }

    /// Convenience for a single root-level ID.
    pub fn root_for(id: &str) -> (p: CommandPath)
        ensures
            p@ == seq![id@],
    {
        let mut v: Vec<String> = Vec::new();
        v.push(owned(id));
        assert(strings(v@) =~= seq![id@]);
        CommandPath(v)
    }

    /// `"a/b/c"` for path `["a", "b", "c"]`.
    pub fn to_path_string(&self) -> (out: String)
        ensures
            out@ == join_with(self@, seq!['/']),
    {
        let mut parts: Vec<Vec<char>> = Vec::new();
        let mut i: usize = 0;
        while i < self.0.len()
            invariant
                i <= self.0.len(),
                seqs(parts@) == strings(self.0@.subrange(0, i as int)),
            decreases self.0.len() - i,
        {
            parts.push(chars_of(self.0[i].as_str()));
            assert(strings(self.0@.subrange(0, (i + 1) as int)) =~= strings(
                self.0@.subrange(0, i as int),
            ).push(self.0@[i as int]@));
            assert(seqs(parts@) =~= seqs(parts@.drop_last()).push(parts@.last()@));
            i = i + 1;
        }
        assert(self.0@.subrange(0, self.0@.len() as int) == self.0@);
        let sep = ['/'];
        let joined = join_vec(&parts, &sep);
        assert(sep@ == seq!['/']);
        string_of(joined.as_slice())
    }

    /// `None` for a root-level (single-segment) or empty path.
    pub fn parent(&self) -> (res: Option<CommandPath>)
        ensures
            self@.len() <= 1 <==> res is None,
            res matches Some(p) ==> p@ == self@.drop_last(),
    {
        if self.0.len() <= 1 {
            None
        } else {
            let n = self.0.len() - 1;
            let mut out: Vec<String> = Vec::new();
            let mut i: usize = 0;
            while i < n
                invariant
                    n == self.0.len() - 1,
                    i <= n,
                    strings(out@) == strings(self.0@.subrange(0, i as int)),
                decreases n - i,
            {
                out.push(owned(self.0[i].as_str()));
                assert(strings(self.0@.subrange(0, (i + 1) as int)) =~= strings(
                    self.0@.subrange(0, i as int),
                ).push(self.0@[i as int]@));
                i = i + 1;
            }
            assert(strings(self.0@.subrange(0, n as int)) =~= self@.drop_last());
            Some(CommandPath(out))
        }
    }

    /// A new path with `segment` appended; fails when it holds `/`.
    pub fn push(&self, segment: &str) -> (res: Result<CommandPath, CommandPathError>)
        ensures
            valid_segment(segment@) <==> res is Ok,
            res matches Ok(p) ==> p@ == self@.push(segment@),
            res matches Err(CommandPathError::InvalidSegment { segment: s }) ==> s@ == segment@,
    {
        if !valid_segment_exec(segment) {
            return Err(CommandPathError::InvalidSegment { segment: owned(segment) });
        }
        let mut out: Vec<String> = Vec::new();
        let mut i: usize = 0;
        while i < self.0.len()
            invariant
                i <= self.0.len(),
                strings(out@) == strings(self.0@.subrange(0, i as int)),
            decreases self.0.len() - i,
        {
            out.push(owned(self.0[i].as_str()));
            assert(strings(self.0@.subrange(0, (i + 1) as int)) =~= strings(
                self.0@.subrange(0, i as int),
            ).push(self.0@[i as int]@));
            i = i + 1;
        }
        assert(self.0@.subrange(0, self.0@.len() as int) == self.0@);
        out.push(owned(segment));
        assert(strings(out@) =~= self@.push(segment@));
        Ok(CommandPath(out))
    }

    /// The final segment (leaf command name).
    pub fn leaf(&self) -> (res: Option<&str>)
        ensures
            self@.len() == 0 <==> res is None,
            res matches Some(s) ==> s@ == self@.last(),
    {
        if self.0.len() == 0 {
            None
        } else {
            Some(self.0[self.0.len() - 1].as_str())
        }
    }
}

/// Appending a segment and then asking for the parent gives back the path,
/// and the appended segment is the new leaf.
pub proof fn law_push_then_parent(p: Seq<Seq<char>>, s: Seq<char>)
    requires
        p.len() >= 1,
    ensures
        p.push(s).len() > 1,
        p.push(s).drop_last() == p,
        p.push(s).last() == s,
{
    assert(p.push(s).drop_last() =~= p);
}

/// The path string of a non-empty path, split at `/`, gives the segments
/// back: every segment of a constructed path is free of `/`.
pub proof fn law_path_string_roundtrip(p: Seq<Seq<char>>)
    requires
        p.len() >= 1,
        forall|i: int| 0 <= i < p.len() ==> valid_segment(#[trigger] p[i]),
    ensures
        split_on(join_with(p, seq!['/']), '/') == p,
{
    lemma_split_join(p, '/');
}

} // verus!
