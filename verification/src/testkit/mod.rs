//! Captured output of one CLI run, and the checks a test makes on it.

use crate::text::{chars_of, contains, contains_seq, is_ascii_digit, owned, push_str};
use vstd::prelude::*;

verus! {

/// Captured output from a single run.
#[derive(Debug, Clone)]
pub struct TestOutput {
    pub stdout: String,
    pub stderr: String,
    pub exit_code: i32,
}

/// Output with timestamps stripped.
#[derive(Debug, Clone)]
pub struct NormalizedOutput {
    pub stdout: String,
    pub stderr: String,
}

/// `NNNN-NN-NNTNN:NN:NN`.
pub open spec fn is_timestamp(c: Seq<char>) -> bool {
    &&& c.len() == 19
    &&& forall|i: int|
        (0 <= i < 4 || 5 <= i < 7 || 8 <= i < 10 || 11 <= i < 13 || 14 <= i < 16 || 17 <= i < 19)
            ==> is_ascii_digit(#[trigger] c[i])
    &&& c[4] == '-'
    &&& c[7] == '-'
    &&& c[10] == 'T'
    &&& c[13] == ':'
    &&& c[16] == ':'
}

/// Every timestamp, scanning from the left, replaced by `<TIMESTAMP>`.
pub open spec fn strip_timestamps_spec(s: Seq<char>) -> Seq<char>
    decreases s.len(),
{
    if s.len() == 0 {
        Seq::empty()
    } else if s.len() >= 19 && is_timestamp(s.take(19)) {
        "<TIMESTAMP>"@ + strip_timestamps_spec(s.skip(19))
    } else {
        seq![s[0]] + strip_timestamps_spec(s.drop_first())
    }
}

fn is_timestamp_at(c: &Vec<char>, i: usize) -> (r: bool)
    requires
        i + 19 <= c@.len(),
    ensures
        r == is_timestamp(c@.subrange(i as int, i + 19)),
{
    let ghost w = c@.subrange(i as int, i + 19);
    let mut k: usize = 0;
    while k < 19
        invariant
            k <= 19,
            i + 19 <= c@.len(),
            c@.len() == c.len(),
            w == c@.subrange(i as int, i + 19),
            forall|j: int|
                0 <= j < k ==> (if j == 4 || j == 7 {
                    w[j] == '-'
                } else if j == 10 {
                    w[j] == 'T'
                } else if j == 13 || j == 16 {
                    w[j] == ':'
                } else {
                    is_ascii_digit(w[j])
                }),
        decreases 19 - k,
    {
        assert(i + k < c@.len());
        let ch = c[i + k];
        assert(w[k as int] == ch);
        let ok = if k == 4 || k == 7 {
            ch == '-'
        } else if k == 10 {
            ch == 'T'
        } else if k == 13 || k == 16 {
            ch == ':'
        } else {
            '0' <= ch && ch <= '9'
        };
        if !ok {
            proof {
                if is_timestamp(w) {
                    let j = k as int;
                    if !(j == 4 || j == 7 || j == 10 || j == 13 || j == 16) {
                        assert(is_ascii_digit(w[j]));
                    }
                }
            }
            return false;
        }
        k = k + 1;
    }
    assert forall|j: int|
        (0 <= j < 4 || 5 <= j < 7 || 8 <= j < 10 || 11 <= j < 13 || 14 <= j < 16 || 17 <= j < 19)
            implies is_ascii_digit(#[trigger] w[j]) by {}
    assert(w[4] == '-' && w[7] == '-' && w[10] == 'T' && w[13] == ':' && w[16] == ':');
    true
}

/// Strip timestamps of the form `NNNN-NN-NNTNN:NN:NN`.
pub fn strip_timestamps(s: &str) -> (out: String)
    ensures
        out@ == strip_timestamps_spec(s@),
{
    let c = chars_of(s);
    let mut out = String::new();
    let mut i: usize = 0;
    proof {
        reveal_strlit("<TIMESTAMP>");
    }
    assert(s@.skip(0) =~= s@);
    while i < c.len()
        invariant
            i <= c@.len(),
            c@ == s@,
            out@ + strip_timestamps_spec(s@.skip(i as int)) == strip_timestamps_spec(s@),
        decreases c.len() - i,
    {
        let ghost rest = s@.skip(i as int);
        if c.len() - i >= 19 && is_timestamp_at(&c, i) {
            assert(rest.take(19) =~= c@.subrange(i as int, i + 19));
            assert(rest.skip(19) =~= s@.skip(i + 19));
            let ghost before = out@;
            push_str(&mut out, "<TIMESTAMP>");
            assert(out@ + strip_timestamps_spec(s@.skip(i + 19)) =~= before + strip_timestamps_spec(rest));
            i = i + 19;
        } else {
            proof {
                if rest.len() >= 19 {
                    assert(rest.take(19) =~= c@.subrange(i as int, i + 19));
                }
            }
            assert(rest.drop_first() =~= s@.skip(i + 1));
            let ghost before = out@;
            out.push(c[i]);
            assert(out@ + strip_timestamps_spec(s@.skip(i + 1)) =~= before + strip_timestamps_spec(rest));
            i = i + 1;
        }
    }
    assert(s@.skip(i as int) =~= Seq::<char>::empty());
    assert(out@ + Seq::<char>::empty() =~= out@);
    out
}

impl TestOutput {
    pub fn stdout(&self) -> (r: &str)
        ensures
            r@ == self.stdout@,
    {
        self.stdout.as_str()
    }

    pub fn stderr(&self) -> (r: &str)
        ensures
            r@ == self.stderr@,
    {
        self.stderr.as_str()
    }

    pub fn exit_code(&self) -> (r: i32)
        ensures
            r == self.exit_code,
    {
        self.exit_code
    }

    /// Both streams with ISO 8601 timestamps stripped.
    pub fn normalize(&self) -> (n: NormalizedOutput)
        ensures
            n.stdout@ == strip_timestamps_spec(self.stdout@),
            n.stderr@ == strip_timestamps_spec(self.stderr@),
    {
        NormalizedOutput {
            stdout: strip_timestamps(self.stdout.as_str()),
            stderr: strip_timestamps(self.stderr.as_str()),
        }
    }

    /// Whether `code` appears in stderr.
    pub fn has_diagnostic_code(&self, code: &str) -> (r: bool)
        ensures
            r == contains_seq(self.stderr@, code@),
    {
        contains(chars_of(self.stderr.as_str()).as_slice(), chars_of(code).as_slice())
    }

    /// The test's assertion that `code` appears in stderr. A caller meets
    /// it by proof, or at run time by testing `has_diagnostic_code` first.
    pub fn assert_diagnostic_code(&self, code: &str)
        requires
            contains_seq(self.stderr@, code@),
    {
    }

    /// The test's assertion on the exit code; `exit_code` reads it.
    pub fn assert_exit_code(&self, code: i32)
        requires
            self.exit_code == code,
    {
    }

    /// The test's assertion that stdout holds `needle`; `stdout_contains`
    /// tests it.
    pub fn assert_stdout_contains(&self, needle: &str)
        requires
            contains_seq(self.stdout@, needle@),
    {
    }

    /// The test's assertion that stderr holds `needle`; `stderr_contains`
    /// tests it.
    pub fn assert_stderr_contains(&self, needle: &str)
        requires
            contains_seq(self.stderr@, needle@),
    {
    }

    /// Whether stdout holds `needle`.
    pub fn stdout_contains(&self, needle: &str) -> (r: bool)
        ensures
            r == contains_seq(self.stdout@, needle@),
    {
        contains(chars_of(self.stdout.as_str()).as_slice(), chars_of(needle).as_slice())
    }

    /// Whether stderr holds `needle`.
    pub fn stderr_contains(&self, needle: &str) -> (r: bool)
        ensures
            r == contains_seq(self.stderr@, needle@),
    {
        contains(chars_of(self.stderr.as_str()).as_slice(), chars_of(needle).as_slice())
    }
}

/// How one run of the app ended, as the harness tells them apart.
#[derive(Debug, Clone, Copy, PartialEq, Eq, Structural)]
pub enum RunEnd {
    Success,
    /// The parser refused the invocation.
    UsageError,
    /// Any other error.
    Failure,
}

/// The exit code a run reports: 0 on success, 2 for a usage error, 1
/// otherwise.
pub fn exit_code_for(end: RunEnd) -> (code: i32)
    ensures
        code == exit_code_for_spec(end),
{
    match end {
        RunEnd::Success => 0,
        RunEnd::UsageError => 2,
        RunEnd::Failure => 1,
    }
}

/// The captured output of a run: stdout decoded as UTF-8 (empty when it is
/// not), stderr, and the exit code for how the run ended.
pub fn test_output(stdout: Option<String>, stderr: String, end: RunEnd) -> (o: TestOutput)
    ensures
        o.stdout@ == match stdout {
            Some(s) => s@,
            None => Seq::<char>::empty(),
        },
        o.stderr@ == stderr@,
        o.exit_code == exit_code_for_spec(end),
{
    TestOutput {
        stdout: match stdout {
            Some(s) => s,
            None => String::new(),
        },
        stderr,
        exit_code: exit_code_for(end),
    }
}

pub open spec fn exit_code_for_spec(end: RunEnd) -> i32 {
    match end {
        RunEnd::Success => 0i32,
        RunEnd::UsageError => 2i32,
        RunEnd::Failure => 1i32,
    }
}

} // verus!
