//! Character-sequence helpers shared by every module: case folding,
//! prefix and substring tests, replacement, splitting, joining and decimal
//! rendering, each with the mathematical definition it computes.

use vstd::prelude::*;

verus! {

pub assume_specification[ String::push ](s: &mut String, ch: char)
    ensures
        final(s)@ == old(s)@.push(ch),
;

// ───────────────────────── definitions ─────────────────────────

pub open spec fn ascii_lower(c: char) -> char {
    if 'A' <= c && c <= 'Z' {
        ((c as u32) + 32) as char
    } else {
        c
    }
}

pub open spec fn ascii_upper(c: char) -> char {
    if 'a' <= c && c <= 'z' {
        ((c as u32) - 32) as char
    } else {
        c
    }
}

pub open spec fn lower_seq(s: Seq<char>) -> Seq<char> {
    s.map_values(|c: char| ascii_lower(c))
}

pub open spec fn upper_seq(s: Seq<char>) -> Seq<char> {
    s.map_values(|c: char| ascii_upper(c))
}

pub open spec fn is_prefix_of(p: Seq<char>, s: Seq<char>) -> bool {
    p.len() <= s.len() && s.subrange(0, p.len() as int) == p
}

pub open spec fn is_suffix_of(p: Seq<char>, s: Seq<char>) -> bool {
    p.len() <= s.len() && s.subrange(s.len() - p.len(), s.len() as int) == p
}

pub open spec fn occurs_at(s: Seq<char>, p: Seq<char>, i: int) -> bool {
    0 <= i && i + p.len() <= s.len() && s.subrange(i, i + p.len()) == p
}

pub open spec fn contains_seq(s: Seq<char>, p: Seq<char>) -> bool {
    exists|i: int| #[trigger] occurs_at(s, p, i)
}

pub open spec fn has_char(s: Seq<char>, c: char) -> bool {
    exists|i: int| 0 <= i < s.len() && s[i] == c
}

/// Every non-overlapping occurrence of `from`, leftmost first, replaced by
/// `to`: what `str::replace` computes for a non-empty pattern.
pub open spec fn replace_all(s: Seq<char>, from: Seq<char>, to: Seq<char>) -> Seq<char>
    decreases s.len(),
{
    if s.len() == 0 || from.len() == 0 {
        s
    } else if is_prefix_of(from, s) {
        to + replace_all(s.subrange(from.len() as int, s.len() as int), from, to)
    } else {
        seq![s[0]] + replace_all(s.subrange(1, s.len() as int), from, to)
    }
}

/// Each character of `set` replaced by `to`.
pub open spec fn map_chars(s: Seq<char>, set: Seq<char>, to: char) -> Seq<char> {
    s.map_values(|c: char| if set.contains(c) { to } else { c })
}

/// The index of the first `c` in `s`, or `s.len()` when there is none.
pub open spec fn first_index_of(s: Seq<char>, c: char) -> int
    decreases s.len(),
{
    if s.len() == 0 {
        0
    } else if s[0] == c {
        0
    } else {
        1 + first_index_of(s.subrange(1, s.len() as int), c)
    }
}

pub proof fn lemma_first_index_bounds(s: Seq<char>, c: char)
    ensures
        0 <= first_index_of(s, c) <= s.len(),
        first_index_of(s, c) < s.len() ==> s[first_index_of(s, c)] == c,
        forall|j: int| 0 <= j < first_index_of(s, c) ==> s[j] != c,
    decreases s.len(),
{
    if s.len() > 0 && s[0] != c {
        let t = s.subrange(1, s.len() as int);
        lemma_first_index_bounds(t, c);
        assert forall|j: int| 0 <= j < first_index_of(s, c) implies s[j] != c by {
            if j > 0 {
                assert(s[j] == t[j - 1]);
            }
        }
    }
}

/// The character sequences a vector of character vectors holds.
pub open spec fn seqs(v: Seq<Vec<char>>) -> Seq<Seq<char>> {
    v.map_values(|x: Vec<char>| x@)
}

/// The pieces of `s` between occurrences of `sep`, empty pieces included:
/// what `str::split` with a character computes.
pub open spec fn split_on(s: Seq<char>, sep: char) -> Seq<Seq<char>>
    decreases s.len(),
{
    let i = first_index_of(s, sep);
    proof {
        lemma_first_index_bounds(s, sep);
    }
    if i >= s.len() {
        seq![s]
    } else {
        seq![s.subrange(0, i)] + split_on(s.subrange(i + 1, s.len() as int), sep)
    }
}

/// The pieces joined with `sep` between them: what `[String]::join` computes.
pub open spec fn join_with(parts: Seq<Seq<char>>, sep: Seq<char>) -> Seq<char>
    decreases parts.len(),
{
    if parts.len() == 0 {
        Seq::empty()
    } else if parts.len() == 1 {
        parts[0]
    } else {
        join_with(parts.drop_last(), sep) + sep + parts.last()
    }
}

pub open spec fn digit_char(d: nat) -> char {
    ((d + 48) as u32) as char
}

/// Decimal rendering of `n`, no leading zeros (`"0"` for zero).
pub open spec fn decimal(n: nat) -> Seq<char>
    decreases n,
{
    if n < 10 {
        seq![digit_char(n)]
    } else {
        decimal(n / 10).push(digit_char(n % 10))
    }
}

/// `decimal(n)` left-padded with zeros to at least `width` characters.
pub open spec fn zero_pad(n: nat, width: nat) -> Seq<char> {
    let d = decimal(n);
    if d.len() >= width {
        d
    } else {
        Seq::new((width - d.len()) as nat, |i: int| '0') + d
    }
}

pub open spec fn is_ascii_digit(c: char) -> bool {
    '0' <= c && c <= '9'
}

pub open spec fn is_ascii_hex(c: char) -> bool {
    ('0' <= c && c <= '9') || ('a' <= c && c <= 'f') || ('A' <= c && c <= 'F')
}

/// The Unicode `White_Space` property, which `char::is_whitespace` and
/// therefore `str::trim` test.
pub open spec fn is_space(c: char) -> bool {
    ('\u{9}' <= c && c <= '\u{d}') || c == ' ' || c == '\u{85}' || c == '\u{a0}'
        || c == '\u{1680}' || ('\u{2000}' <= c && c <= '\u{200a}') || c == '\u{2028}'
        || c == '\u{2029}' || c == '\u{202f}' || c == '\u{205f}' || c == '\u{3000}'
}

/// Index of the first character that is not whitespace (`s.len()` if none).
pub open spec fn lead_space(s: Seq<char>) -> int
    decreases s.len(),
{
    if s.len() == 0 {
        0
    } else if is_space(s[0]) {
        1 + lead_space(s.subrange(1, s.len() as int))
    } else {
        0
    }
}

/// Number of whitespace characters at the end of `s`.
pub open spec fn trail_space(s: Seq<char>) -> int
    decreases s.len(),
{
    if s.len() == 0 {
        0
    } else if is_space(s.last()) {
        1 + trail_space(s.drop_last())
    } else {
        0
    }
}

pub open spec fn trim_start_seq(s: Seq<char>) -> Seq<char> {
    s.subrange(lead_space(s), s.len() as int)
}

pub open spec fn trim_end_seq(s: Seq<char>) -> Seq<char> {
    s.subrange(0, s.len() - trail_space(s))
}

/// What `str::trim` computes.
pub open spec fn trim_seq(s: Seq<char>) -> Seq<char> {
    trim_end_seq(trim_start_seq(s))
}

pub proof fn lemma_lead_space_bounds(s: Seq<char>)
    ensures
        0 <= lead_space(s) <= s.len(),
    decreases s.len(),
{
    if s.len() > 0 && is_space(s[0]) {
        lemma_lead_space_bounds(s.subrange(1, s.len() as int));
    }
}

pub proof fn lemma_trail_space_bounds(s: Seq<char>)
    ensures
        0 <= trail_space(s) <= s.len(),
    decreases s.len(),
{
    if s.len() > 0 && is_space(s.last()) {
        lemma_trail_space_bounds(s.drop_last());
    }
}

pub proof fn lemma_first_index_is(s: Seq<char>, c: char, k: int)
    requires
        0 <= k <= s.len(),
        forall|j: int| 0 <= j < k ==> s[j] != c,
        k == s.len() || s[k] == c,
    ensures
        first_index_of(s, c) == k,
{
    lemma_first_index_bounds(s, c);
    let f = first_index_of(s, c);
    if f < k {
        assert(s[f] == c);
    } else if f > k {
        assert(s[k] != c);
    }
}

// ───────────────────────── conversions ─────────────────────────

/// The characters of `s`, in order.
pub fn chars_of(s: &str) -> (out: Vec<char>)
    ensures
        out@ == s@,
{
    let n = s.unicode_len();
    let mut out: Vec<char> = Vec::new();
    let mut i: usize = 0;
    while i < n
        invariant
            n == s@.len(),
            i <= n,
            out@ == s@.subrange(0, i as int),
        decreases n - i,
    {
        let c = s.get_char(i);
        out.push(c);
        i = i + 1;
    }
    out
}

/// A `String` holding exactly `v`.
pub fn string_of(v: &[char]) -> (out: String)
    ensures
        out@ == v@,
{
    let mut out = String::new();
    let mut i: usize = 0;
    while i < v.len()
        invariant
            i <= v.len(),
            out@ == v@.subrange(0, i as int),
        decreases v.len() - i,
    {
        out.push(v[i]);
        i = i + 1;
    }
    out
}

/// `s` with `v` appended.
pub fn push_all(s: &mut String, v: &[char])
    ensures
        final(s)@ == old(s)@ + v@,
{
    let mut i: usize = 0;
    while i < v.len()
        invariant
            i <= v.len(),
            s@ == old(s)@ + v@.subrange(0, i as int),
        decreases v.len() - i,
    {
        s.push(v[i]);
        i = i + 1;
    }
}

/// `s` with the characters of `t` appended.
pub fn push_str(s: &mut String, t: &str)
    ensures
        final(s)@ == old(s)@ + t@,
{
    let v = chars_of(t);
    push_all(s, v.as_slice());
}

/// A fresh `String` equal to `t`.
pub fn owned(t: &str) -> (out: String)
    ensures
        out@ == t@,
{
    let mut out = String::new();
    push_str(&mut out, t);
    out
}

/// Concatenation of two strings.
pub fn concat2(a: &str, b: &str) -> (out: String)
    ensures
        out@ == a@ + b@,
{
    let mut out = owned(a);
    push_str(&mut out, b);
    out
}

/// Concatenation of three strings.
pub fn concat3(a: &str, b: &str, c: &str) -> (out: String)
    ensures
        out@ == a@ + b@ + c@,
{
    let mut out = concat2(a, b);
    push_str(&mut out, c);
    out
}

// ───────────────────────── comparisons ─────────────────────────

pub fn seq_eq(a: &[char], b: &[char]) -> (r: bool)
    ensures
        r == (a@ == b@),
{
    if a.len() != b.len() {
        return false;
    }
    let mut i: usize = 0;
    while i < a.len()
        invariant
            a.len() == b.len(),
            i <= a.len(),
            a@.subrange(0, i as int) == b@.subrange(0, i as int),
        decreases a.len() - i,
    {
        if a[i] != b[i] {
            assert(a@[i as int] != b@[i as int]);
            return false;
        }
        assert(a@.subrange(0, (i + 1) as int) == a@.subrange(0, i as int).push(a@[i as int]));
        assert(b@.subrange(0, (i + 1) as int) == b@.subrange(0, i as int).push(b@[i as int]));
        i = i + 1;
    }
    assert(a@ == a@.subrange(0, a.len() as int));
    assert(b@ == b@.subrange(0, b.len() as int));
    true
}

pub fn str_eq(a: &str, b: &str) -> (r: bool)
    ensures
        r == (a@ == b@),
{
    let va = chars_of(a);
    let vb = chars_of(b);
    seq_eq(va.as_slice(), vb.as_slice())
}

/// Whether `s` has `p` at offset `i`.
pub fn occurs_at_exec(s: &[char], p: &[char], i: usize) -> (r: bool)
    ensures
        r == occurs_at(s@, p@, i as int),
{
    if i > s.len() || p.len() > s.len() - i {
        return false;
    }
    let mut k: usize = 0;
    while k < p.len()
        invariant
            i + p.len() <= s.len(),
            k <= p.len(),
            forall|j: int| 0 <= j < k ==> s@[i + j] == p@[j],
        decreases p.len() - k,
    {
        if s[i + k] != p[k] {
            assert(s@.subrange(i as int, i + p.len())[k as int] != p@[k as int]);
            return false;
        }
        k = k + 1;
    }
    assert(s@.subrange(i as int, i + p.len()) =~= p@);
    true
}

pub fn starts_with(s: &[char], p: &[char]) -> (r: bool)
    ensures
        r == is_prefix_of(p@, s@),
{
    occurs_at_exec(s, p, 0)
}

pub fn ends_with(s: &[char], p: &[char]) -> (r: bool)
    ensures
        r == is_suffix_of(p@, s@),
{
    if p.len() > s.len() {
        return false;
    }
    occurs_at_exec(s, p, s.len() - p.len())
}

pub fn contains(s: &[char], p: &[char]) -> (r: bool)
    ensures
        r == contains_seq(s@, p@),
{
    if p.len() > s.len() {
        assert forall|i: int| !occurs_at(s@, p@, i) by {}
        return false;
    }
    let last = s.len() - p.len();
    let mut i: usize = 0;
    loop
        invariant
            last == s.len() - p.len(),
            i <= last,
            forall|j: int| 0 <= j < i ==> !occurs_at(s@, p@, j),
        ensures
            forall|j: int| 0 <= j <= last ==> !occurs_at(s@, p@, j),
        decreases last - i,
    {
        if occurs_at_exec(s, p, i) {
            return true;
        }
        if i == last {
            break;
        }
        i = i + 1;
    }
    false
}

pub fn has_char_exec(s: &[char], c: char) -> (r: bool)
    ensures
        r == has_char(s@, c),
{
    let mut i: usize = 0;
    while i < s.len()
        invariant
            i <= s.len(),
            forall|j: int| 0 <= j < i ==> s@[j] != c,
        decreases s.len() - i,
    {
        if s[i] == c {
            return true;
        }
        i = i + 1;
    }
    false
}

// ───────────────────────── transformations ─────────────────────────

pub fn lower_char(c: char) -> (r: char)
    ensures
        r == ascii_lower(c),
{
    if 'A' <= c && c <= 'Z' {
        let b: u8 = (c as u32 + 32) as u8;
        b as char
    } else {
        c
    }
}

pub fn upper_char(c: char) -> (r: char)
    ensures
        r == ascii_upper(c),
{
    if 'a' <= c && c <= 'z' {
        let b: u8 = (c as u32 - 32) as u8;
        b as char
    } else {
        c
    }
}

pub fn lower_vec(s: &[char]) -> (out: Vec<char>)
    ensures
        out@ == lower_seq(s@),
{
    let mut out: Vec<char> = Vec::new();
    let mut i: usize = 0;
    while i < s.len()
        invariant
            i <= s.len(),
            out@ == lower_seq(s@.subrange(0, i as int)),
        decreases s.len() - i,
    {
        out.push(lower_char(s[i]));
        assert(s@.subrange(0, (i + 1) as int) == s@.subrange(0, i as int).push(s@[i as int]));
        i = i + 1;
    }
    assert(s@.subrange(0, s.len() as int) == s@);
    out
}

pub fn upper_vec(s: &[char]) -> (out: Vec<char>)
    ensures
        out@ == upper_seq(s@),
{
    let mut out: Vec<char> = Vec::new();
    let mut i: usize = 0;
    while i < s.len()
        invariant
            i <= s.len(),
            out@ == upper_seq(s@.subrange(0, i as int)),
        decreases s.len() - i,
    {
        out.push(upper_char(s[i]));
        assert(s@.subrange(0, (i + 1) as int) == s@.subrange(0, i as int).push(s@[i as int]));
        i = i + 1;
    }
    assert(s@.subrange(0, s.len() as int) == s@);
    out
}

pub fn map_chars_vec(s: &[char], set: &[char], to: char) -> (out: Vec<char>)
    ensures
        out@ == map_chars(s@, set@, to),
{
    let mut out: Vec<char> = Vec::new();
    let mut i: usize = 0;
    while i < s.len()
        invariant
            i <= s.len(),
            out@ == map_chars(s@.subrange(0, i as int), set@, to),
        decreases s.len() - i,
    {
        let c = s[i];
        let hit = has_char_exec(set, c);
        assert(hit == set@.contains(c));
        out.push(if hit { to } else { c });
        assert(s@.subrange(0, (i + 1) as int) == s@.subrange(0, i as int).push(c));
        i = i + 1;
    }
    assert(s@.subrange(0, s.len() as int) == s@);
    out
}

proof fn lemma_replace_all_append_char(s: Seq<char>, from: Seq<char>, to: Seq<char>)
    requires
        from.len() > 0,
        s.len() > 0,
        !is_prefix_of(from, s),
    ensures
        replace_all(s, from, to) == seq![s[0]] + replace_all(s.subrange(1, s.len() as int), from, to),
{
}

/// `out` with `v` appended.
pub fn extend_vec(out: &mut Vec<char>, v: &[char])
    ensures
        final(out)@ == old(out)@ + v@,
{
    let mut k: usize = 0;
    while k < v.len()
        invariant
            k <= v.len(),
            out@ == old(out)@ + v@.subrange(0, k as int),
        decreases v.len() - k,
    {
        out.push(v[k]);
        k = k + 1;
    }
}

/// `s` with every non-overlapping occurrence of `from` replaced by `to`.
pub fn replace_vec(s: &[char], from: &[char], to: &[char]) -> (out: Vec<char>)
    requires
        from@.len() > 0,
    ensures
        out@ == replace_all(s@, from@, to@),
{
    let mut out: Vec<char> = Vec::new();
    let mut i: usize = 0;
    assert(s@.subrange(0, s.len() as int) == s@);
    while i < s.len()
        invariant
            from@.len() > 0,
            i <= s.len(),
            out@ + replace_all(s@.subrange(i as int, s.len() as int), from@, to@)
                == replace_all(s@, from@, to@),
        decreases s.len() - i,
    {
        let ghost rest = s@.subrange(i as int, s.len() as int);
        if occurs_at_exec(s, from, i) {
            assert(rest.subrange(0, from@.len() as int) == s@.subrange(i as int, i + from@.len()));
            assert(is_prefix_of(from@, rest));
            assert(rest.subrange(from@.len() as int, rest.len() as int)
                == s@.subrange(i + from@.len(), s.len() as int));
            extend_vec(&mut out, to);
            i = i + from.len();
        } else {
            assert(!is_prefix_of(from@, rest)) by {
                if is_prefix_of(from@, rest) {
                    assert(rest.subrange(0, from@.len() as int)
                        == s@.subrange(i as int, i + from@.len()));
                }
            }
            assert(rest.subrange(1, rest.len() as int) == s@.subrange(i + 1, s.len() as int));
            out.push(s[i]);
            i = i + 1;
        }
    }
    out
}

pub fn is_space_exec(c: char) -> (r: bool)
    ensures
        r == is_space(c),
{
    ('\u{9}' <= c && c <= '\u{d}') || c == ' ' || c == '\u{85}' || c == '\u{a0}'
        || c == '\u{1680}' || ('\u{2000}' <= c && c <= '\u{200a}') || c == '\u{2028}'
        || c == '\u{2029}' || c == '\u{202f}' || c == '\u{205f}' || c == '\u{3000}'
}

/// `s` without leading whitespace.
pub fn trim_start_vec(s: &[char]) -> (out: Vec<char>)
    ensures
        out@ == trim_start_seq(s@),
{
    let mut i: usize = 0;
    assert(s@.subrange(0, s.len() as int) == s@);
    while i < s.len() && is_space_exec(s[i])
        invariant
            i <= s.len(),
            lead_space(s@) == i + lead_space(s@.subrange(i as int, s.len() as int)),
        decreases s.len() - i,
    {
        let ghost t = s@.subrange(i as int, s.len() as int);
        assert(t.subrange(1, t.len() as int) == s@.subrange(i + 1, s.len() as int));
        i = i + 1;
    }
    proof {
        let t = s@.subrange(i as int, s.len() as int);
        assert(s@.subrange(0, s.len() as int) == s@);
        if i < s.len() {
            assert(t[0] == s@[i as int]);
        }
        assert(lead_space(t) == 0);
    }
    slice_range(s, i, s.len())
}

/// `s` without trailing whitespace.
pub fn trim_end_vec(s: &[char]) -> (out: Vec<char>)
    ensures
        out@ == trim_end_seq(s@),
{
    let mut n: usize = s.len();
    assert(s@.subrange(0, s.len() as int) == s@);
    while n > 0 && is_space_exec(s[n - 1])
        invariant
            n <= s.len(),
            trail_space(s@) == (s.len() - n) + trail_space(s@.subrange(0, n as int)),
        decreases n,
    {
        let ghost t = s@.subrange(0, n as int);
        assert(t.drop_last() == s@.subrange(0, n - 1));
        n = n - 1;
    }
    proof {
        let t = s@.subrange(0, n as int);
        if n > 0 {
            assert(t.last() == s@[n - 1]);
        }
        assert(trail_space(t) == 0);
    }
    slice_range(s, 0, n)
}

/// What `str::trim` computes.
pub fn trim_vec(s: &[char]) -> (out: Vec<char>)
    ensures
        out@ == trim_seq(s@),
{
    let a = trim_start_vec(s);
    trim_end_vec(a.as_slice())
}

/// A copy of `s[lo..hi]`.
pub fn slice_range(s: &[char], lo: usize, hi: usize) -> (out: Vec<char>)
    requires
        lo <= hi <= s.len(),
    ensures
        out@ == s@.subrange(lo as int, hi as int),
{
    let mut out: Vec<char> = Vec::new();
    let mut i: usize = lo;
    while i < hi
        invariant
            lo <= i <= hi <= s.len(),
            out@ == s@.subrange(lo as int, i as int),
        decreases hi - i,
    {
        out.push(s[i]);
        i = i + 1;
    }
    out
}

/// Index of the first `c` in `s`, `s.len()` when absent.
pub fn find_char(s: &[char], c: char) -> (r: usize)
    ensures
        r as int == first_index_of(s@, c),
{
    let mut i: usize = 0;
    while i < s.len() && s[i] != c
        invariant
            i <= s.len(),
            forall|j: int| 0 <= j < i ==> s@[j] != c,
        decreases s.len() - i,
    {
        i = i + 1;
    }
    proof {
        lemma_first_index_is(s@, c, i as int);
    }
    i
}

/// The pieces of `s` between occurrences of `sep`.
pub fn split_char(s: &[char], sep: char) -> (out: Vec<Vec<char>>)
    ensures
        seqs(out@) == split_on(s@, sep),
{
    let mut out: Vec<Vec<char>> = Vec::new();
    let mut start: usize = 0;
    let mut i: usize = 0;
    assert(s@.subrange(0, s.len() as int) == s@);
    while i < s.len()
        invariant
            start <= i <= s.len(),
            forall|j: int| start <= j < i ==> s@[j] != sep,
            seqs(out@) + split_on(s@.subrange(start as int, s.len() as int), sep)
                == split_on(s@, sep),
        decreases s.len() - i,
    {
        if s[i] == sep {
            let ghost t = s@.subrange(start as int, s.len() as int);
            proof {
                lemma_first_index_is(t, sep, i - start);
                assert(t.subrange(0, i - start) == s@.subrange(start as int, i as int));
                assert(t.subrange(i - start + 1, t.len() as int)
                    == s@.subrange(i + 1, s.len() as int));
            }
            let piece = slice_range(s, start, i);
            let ghost before = seqs(out@);
            out.push(piece);
            assert(seqs(out@) =~= before.push(piece@));
            assert(split_on(t, sep) == seq![piece@] + split_on(
                s@.subrange(i + 1, s.len() as int), sep));
            assert(before + split_on(t, sep) == seqs(out@) + split_on(
                s@.subrange(i + 1, s.len() as int), sep));
            start = i + 1;
        }
        i = i + 1;
    }
    let ghost t = s@.subrange(start as int, s.len() as int);
    proof {
        lemma_first_index_is(t, sep, t.len() as int);
    }
    let piece = slice_range(s, start, s.len());
    let ghost before = seqs(out@);
    out.push(piece);
    assert(seqs(out@) =~= before.push(piece@));
    assert(split_on(t, sep) == seq![t]);
    out
}

/// The pieces joined with `sep`.
pub fn join_vec(parts: &Vec<Vec<char>>, sep: &[char]) -> (out: Vec<char>)
    ensures
        out@ == join_with(seqs(parts@), sep@),
{
    let mut out: Vec<char> = Vec::new();
    if parts.len() == 0 {
        return out;
    }
    extend_vec(&mut out, parts[0].as_slice());
    let mut i: usize = 1;
    assert(seqs(parts@).subrange(0, 1) =~= seq![parts[0]@]);
    while i < parts.len()
        invariant
            1 <= i <= parts.len(),
            out@ == join_with(seqs(parts@).subrange(0, i as int), sep@),
        decreases parts.len() - i,
    {
        extend_vec(&mut out, sep);
        extend_vec(&mut out, parts[i].as_slice());
        let ghost p = seqs(parts@).subrange(0, i + 1);
        assert(p.drop_last() == seqs(parts@).subrange(0, i as int));
        assert(p.last() == parts[i as int]@);
        i = i + 1;
    }
    assert(seqs(parts@).subrange(0, parts.len() as int) == seqs(parts@));
    out
}

pub fn digit(d: u64) -> (c: char)
    requires
        d < 10,
    ensures
        c == digit_char(d as nat),
{
    let b: u8 = (d as u8) + 48;
    b as char
}

/// Decimal rendering of `n`.
pub fn decimal_vec(n: u64) -> (out: Vec<char>)
    ensures
        out@ == decimal(n as nat),
    decreases n,
{
    if n < 10 {
        let mut v: Vec<char> = Vec::new();
        v.push(digit(n));
        v
    } else {
        let mut v = decimal_vec(n / 10);
        v.push(digit(n % 10));
        v
    }
}

/// Decimal rendering of `n`, zero-padded to `width`.
pub fn zero_pad_vec(n: u64, width: usize) -> (out: Vec<char>)
    ensures
        out@ == zero_pad(n as nat, width as nat),
{
    let d = decimal_vec(n);
    if d.len() >= width {
        return d;
    }
    let k = width - d.len();
    let mut out: Vec<char> = Vec::new();
    let mut i: usize = 0;
    while i < k
        invariant
            i <= k,
            out@ == Seq::new(i as nat, |j: int| '0'),
        decreases k - i,
    {
        out.push('0');
        assert(out@ =~= Seq::new((i + 1) as nat, |j: int| '0'));
        i = i + 1;
    }
    extend_vec(&mut out, d.as_slice());
    out
}

/// Splitting at a separator that was placed between two pieces splits each
/// piece on its own.
pub proof fn lemma_split_concat(x: Seq<char>, sep: char, y: Seq<char>)
    ensures
        split_on(x + seq![sep] + y, sep) == split_on(x, sep) + split_on(y, sep),
    decreases x.len(),
{
    let z = x + seq![sep] + y;
    lemma_first_index_bounds(x, sep);
    let i = first_index_of(x, sep);
    if i >= x.len() {
        assert forall|j: int| 0 <= j < x.len() implies z[j] != sep by {
            assert(z[j] == x[j]);
        }
        lemma_first_index_is(z, sep, x.len() as int);
        assert(z.subrange(0, x.len() as int) == x);
        assert(z.subrange(x.len() as int + 1, z.len() as int) == y);
    } else {
        assert forall|j: int| 0 <= j < i implies z[j] != sep by {
            assert(z[j] == x[j]);
        }
        lemma_first_index_is(z, sep, i);
        let rest = x.subrange(i + 1, x.len() as int);
        lemma_split_concat(rest, sep, y);
        assert(z.subrange(0, i) == x.subrange(0, i));
        assert(z.subrange(i + 1, z.len() as int) == rest + seq![sep] + y);
    }
}

/// A piece without the separator splits to itself.
pub proof fn lemma_split_plain(x: Seq<char>, sep: char)
    requires
        !has_char(x, sep),
    ensures
        split_on(x, sep) == seq![x],
{
    lemma_first_index_is(x, sep, x.len() as int);
    assert(x.subrange(0, x.len() as int) == x);
}

/// Joining pieces that hold no separator and splitting the result gives the
/// pieces back.
pub proof fn lemma_split_join(parts: Seq<Seq<char>>, sep: char)
    requires
        parts.len() >= 1,
        forall|i: int| 0 <= i < parts.len() ==> !has_char(#[trigger] parts[i], sep),
    ensures
        split_on(join_with(parts, seq![sep]), sep) == parts,
    decreases parts.len(),
{
    if parts.len() == 1 {
        lemma_split_plain(parts[0], sep);
        assert(seq![parts[0]] =~= parts);
    } else {
        let init = parts.drop_last();
        assert forall|i: int| 0 <= i < init.len() implies !has_char(#[trigger] init[i], sep) by {
            assert(init[i] == parts[i]);
        }
        lemma_split_join(init, sep);
        lemma_split_concat(join_with(init, seq![sep]), sep, parts.last());
        lemma_split_plain(parts.last(), sep);
        assert(init + seq![parts.last()] =~= parts);
    }
}


/// Every split yields at least one piece.
pub proof fn lemma_split_nonempty(s: Seq<char>, sep: char)
    ensures
        split_on(s, sep).len() >= 1,
        split_on(s, sep)[0] == s.subrange(0, first_index_of(s, sep)) || (
            first_index_of(s, sep) >= s.len() && split_on(s, sep)[0] == s),
    decreases s.len(),
{
    lemma_first_index_bounds(s, sep);
}

/// Lexicographic order on character sequences by code point: the order
/// `str`'s `Ord` gives.
pub open spec fn seq_less(a: Seq<char>, b: Seq<char>) -> bool
    decreases a.len(),
{
    if a.len() == 0 {
        b.len() > 0
    } else if b.len() == 0 {
        false
    } else if a[0] < b[0] {
        true
    } else if a[0] > b[0] {
        false
    } else {
        seq_less(a.drop_first(), b.drop_first())
    }
}

pub proof fn lemma_seq_less_irreflexive(a: Seq<char>)
    ensures
        !seq_less(a, a),
    decreases a.len(),
{
    if a.len() > 0 {
        lemma_seq_less_irreflexive(a.drop_first());
    }
}

pub proof fn lemma_seq_less_total(a: Seq<char>, b: Seq<char>)
    ensures
        a == b || seq_less(a, b) || seq_less(b, a),
        !(seq_less(a, b) && seq_less(b, a)),
    decreases a.len(),
{
    if a.len() > 0 && b.len() > 0 {
        lemma_seq_less_total(a.drop_first(), b.drop_first());
        if a[0] == b[0] && a.drop_first() == b.drop_first() {
            assert(a =~= seq![a[0]] + a.drop_first());
            assert(b =~= seq![b[0]] + b.drop_first());
        }
    } else if a.len() == 0 && b.len() == 0 {
        assert(a =~= b);
    }
}

pub proof fn lemma_seq_less_transitive(a: Seq<char>, b: Seq<char>, c: Seq<char>)
    requires
        seq_less(a, b),
        seq_less(b, c),
    ensures
        seq_less(a, c),
    decreases a.len(),
{
    if a.len() > 0 && b.len() > 0 && c.len() > 0 {
        if a[0] == b[0] && b[0] == c[0] {
            lemma_seq_less_transitive(a.drop_first(), b.drop_first(), c.drop_first());
        }
    }
}

/// `a < b` in the order of `seq_less`.
pub fn str_less(a: &str, b: &str) -> (r: bool)
    ensures
        r == seq_less(a@, b@),
{
    let va = chars_of(a);
    let vb = chars_of(b);
    let mut i: usize = 0;
    assert(a@.subrange(0, a@.len() as int) =~= a@);
    assert(b@.subrange(0, b@.len() as int) =~= b@);
    while i < va.len() && i < vb.len() && va[i] == vb[i]
        invariant
            i <= va.len(),
            i <= vb.len(),
            va@ == a@,
            vb@ == b@,
            seq_less(a@, b@) == seq_less(a@.subrange(i as int, a@.len() as int), b@.subrange(
                i as int,
                b@.len() as int,
            )),
        decreases va.len() - i,
    {
        let ghost sa = a@.subrange(i as int, a@.len() as int);
        let ghost sb = b@.subrange(i as int, b@.len() as int);
        assert(sa.drop_first() =~= a@.subrange(i + 1, a@.len() as int));
        assert(sb.drop_first() =~= b@.subrange(i + 1, b@.len() as int));
        i = i + 1;
    }
    let ghost sa = a@.subrange(i as int, a@.len() as int);
    let ghost sb = b@.subrange(i as int, b@.len() as int);
    if i == va.len() {
        i < vb.len()
    } else if i == vb.len() {
        false
    } else {
        assert(sa[0] == va@[i as int]);
        assert(sb[0] == vb@[i as int]);
        va[i] < vb[i]
    }
}

/// The character sequences of a sequence of string slices.
pub open spec fn strs(v: Seq<&str>) -> Seq<Seq<char>> {
    v.map_values(|s: &str| s@)
}

/// The character sequences of a sequence of strings.
pub open spec fn strings(v: Seq<String>) -> Seq<Seq<char>> {
    v.map_values(|s: String| s@)
}

/// Whether `s` is one of `v`.
pub fn string_in(v: &[String], s: &str) -> (r: bool)
    ensures
        r == strings(v@).contains(s@),
{
    let mut i: usize = 0;
    while i < v.len()
        invariant
            i <= v.len(),
            forall|j: int| 0 <= j < i ==> v@[j]@ != s@,
        decreases v.len() - i,
    {
        if str_eq(v[i].as_str(), s) {
            assert(strings(v@)[i as int] == s@);
            return true;
        }
        i = i + 1;
    }
    assert forall|j: int| 0 <= j < strings(v@).len() implies strings(v@)[j] != s@ by {
        assert(strings(v@)[j] == v@[j]@);
    }
    false
}

/// Whether `s` is one of `v`.
pub fn str_in(v: &[&str], s: &str) -> (r: bool)
    ensures
        r == strs(v@).contains(s@),
{
    let mut i: usize = 0;
    while i < v.len()
        invariant
            i <= v.len(),
            forall|j: int| 0 <= j < i ==> v@[j]@ != s@,
        decreases v.len() - i,
    {
        if str_eq(v[i], s) {
            assert(strs(v@)[i as int] == s@);
            return true;
        }
        i = i + 1;
    }
    assert forall|j: int| 0 <= j < strs(v@).len() implies strs(v@)[j] != s@ by {
        assert(strs(v@)[j] == v@[j]@);
    }
    false
}

/// The value of the first pair whose key is `k`.
pub open spec fn pair_get(env: Seq<(String, String)>, k: Seq<char>) -> Option<Seq<char>>
    decreases env.len(),
{
    if env.len() == 0 {
        None
    } else if env[0].0@ == k {
        Some(env[0].1@)
    } else {
        pair_get(env.drop_first(), k)
    }
}

/// The value of the first pair whose key is `k`.
pub fn lookup<'a>(env: &'a [(String, String)], k: &str) -> (r: Option<&'a str>)
    ensures
        match r {
            Some(v) => pair_get(env@, k@) == Some(v@),
            None => pair_get(env@, k@) is None,
        },
{
    let mut i: usize = 0;
    assert(env@.subrange(0, env@.len() as int) =~= env@);
    while i < env.len()
        invariant
            i <= env@.len(),
            pair_get(env@, k@) == pair_get(env@.subrange(i as int, env@.len() as int), k@),
        decreases env.len() - i,
    {
        let ghost rest = env@.subrange(i as int, env@.len() as int);
        assert(rest.drop_first() =~= env@.subrange(i + 1, env@.len() as int));
        if str_eq(env[i].0.as_str(), k) {
            return Some(env[i].1.as_str());
        }
        i = i + 1;
    }
    None
}

/// What `str`'s `Debug` writes for a string: the text quoted and escaped.
pub uninterp spec fn debug_repr(s: Seq<char>) -> Seq<char>;

/// `format!("{:?}", s)`: `str`'s `Debug`, whose result is `debug_repr` of the
/// text and depends on nothing else.
#[verifier::external_body]
pub(crate) fn debug_quoted(s: &str) -> (r: String)
    ensures
        r@ == debug_repr(s@),
{
    format!("{:?}", s)
}

/// A copy of a list of strings.
pub fn clone_strings(v: &Vec<String>) -> (out: Vec<String>)
    ensures
        out@ == v@,
{
    let mut out: Vec<String> = Vec::new();
    let mut i: usize = 0;
    while i < v.len()
        invariant
            i <= v@.len(),
            out@ == v@.subrange(0, i as int),
        decreases v.len() - i,
    {
        out.push(v[i].clone());
        i = i + 1;
    }
    assert(out@ =~= v@);
    out
}

/// A copy of an optional string.
pub fn clone_opt(v: &Option<String>) -> (out: Option<String>)
    ensures
        out == *v,
{
    match v {
        Some(s) => Some(s.clone()),
        None => None,
    }
}

/// Full Unicode lower-casing, as `str::to_lowercase` performs it.
pub uninterp spec fn unicode_lower(s: Seq<char>) -> Seq<char>;

/// `str::to_lowercase`: Unicode lower-casing by std's tables; the result
/// depends on the text alone. On ASCII text Unicode's lower-case mapping
/// is ASCII's: `A`-`Z` become `a`-`z`, everything else stays.
#[verifier::external_body]
pub(crate) fn to_lowercase(s: &str) -> (r: String)
    ensures
        r@ == unicode_lower(s@),
        (forall|i: int| 0 <= i < s@.len() ==> (#[trigger] s@[i] as u32) < 128) ==> r@ == lower_seq(s@),
{
    s.to_lowercase()
}

/// Joining a path component onto a base by the Unix rule: an absolute
/// component replaces the base, an empty base gives the component, and one
/// `/` separates the two otherwise.
pub open spec fn path_join(base: Seq<char>, part: Seq<char>) -> Seq<char> {
    if part.len() > 0 && part[0] == '/' {
        part
    } else if base.len() == 0 {
        part
    } else if base.last() == '/' {
        base + part
    } else {
        base + seq!['/'] + part
    }
}

/// `base` joined with `part` by the Unix rule.
pub fn join_path(base: &str, part: &str) -> (r: String)
    ensures
        r@ == path_join(base@, part@),
{
    let b = chars_of(base);
    let p = chars_of(part);
    if p.len() > 0 && p[0] == '/' {
        return owned(part);
    }
    if b.len() == 0 {
        return owned(part);
    }
    let mut out = owned(base);
    if b[b.len() - 1] != '/' {
        out.push('/');
    }
    push_str(&mut out, part);
    out
}

/// The strings joined with `sep` between them, as `[String]::join` does.
pub fn join_strings(parts: &Vec<String>, sep: &str) -> (r: String)
    ensures
        r@ == join_with(strings(parts@), sep@),
{
    let ghost ps = strings(parts@);
    let mut r = String::new();
    let mut i: usize = 0;
    while i < parts.len()
        invariant
            i <= parts@.len(),
            ps == strings(parts@),
            r@ == join_with(ps.take(i as int), sep@),
        decreases parts.len() - i,
    {
        if i > 0 {
            push_str(&mut r, sep);
        }
        push_str(&mut r, parts[i].as_str());
        proof {
            let t = ps.take(i + 1);
            assert(t.drop_last() =~= ps.take(i as int));
            assert(t.last() == parts@[i as int]@);
            if i == 0 {
                assert(ps.take(0) =~= Seq::<Seq<char>>::empty());
                assert(r@ =~= t[0]);
            }
        }
        i = i + 1;
    }
    assert(ps.take(parts@.len() as int) =~= ps);
    r
}

/// Joining `a` in front of non-empty pieces puts one separator between.
pub proof fn lemma_join_cons(a: Seq<char>, rest: Seq<Seq<char>>, sep: Seq<char>)
    requires
        rest.len() >= 1,
    ensures
        join_with(seq![a] + rest, sep) == a + sep + join_with(rest, sep),
    decreases rest.len(),
{
    let all = seq![a] + rest;
    assert(all.drop_last() =~= seq![a] + rest.drop_last());
    assert(all.last() == rest.last());
    if rest.len() == 1 {
        assert(seq![a] + rest.drop_last() =~= seq![a]);
        assert(join_with(seq![a], sep) == a);
    } else {
        lemma_join_cons(a, rest.drop_last(), sep);
        assert(a + sep + join_with(rest.drop_last(), sep) + sep + rest.last() =~= a + sep + (join_with(
            rest.drop_last(),
            sep,
        ) + sep + rest.last()));
    }
}

/// Splitting at a separator and joining with it gives the text back.
pub proof fn lemma_join_split(s: Seq<char>, sep: char)
    ensures
        join_with(split_on(s, sep), seq![sep]) == s,
    decreases s.len(),
{
    let i = first_index_of(s, sep);
    lemma_first_index_bounds(s, sep);
    if i < s.len() {
        let rest = s.subrange(i + 1, s.len() as int);
        lemma_join_split(rest, sep);
        lemma_split_nonempty(rest, sep);
        lemma_join_cons(s.subrange(0, i), split_on(rest, sep), seq![sep]);
        assert(s.subrange(0, i) + seq![sep] + rest =~= s);
    }
}

/// A text cut at a separator, as owned strings.
pub fn split_strings(s: &str, sep: char) -> (r: Vec<String>)
    ensures
        strings(r@) == split_on(s@, sep),
{
    let parts = split_char(chars_of(s).as_slice(), sep);
    let mut r: Vec<String> = Vec::new();
    let mut i: usize = 0;
    while i < parts.len()
        invariant
            i <= parts@.len(),
            strings(r@) == seqs(parts@).take(i as int),
        decreases parts.len() - i,
    {
        let ghost before = strings(r@);
        let piece = string_of(parts[i].as_slice());
        assert(piece@ == seqs(parts@)[i as int]);
        r.push(piece);
        assert(strings(r@) =~= before.push(seqs(parts@)[i as int]));
        assert(seqs(parts@).take(i + 1) =~= seqs(parts@).take(i as int).push(seqs(parts@)[i as int]));
        i = i + 1;
    }
    assert(seqs(parts@).take(parts@.len() as int) =~= seqs(parts@));
    r
}

/// Non-decreasing in the order of `seq_less`.
pub open spec fn sorted_seqs(s: Seq<Seq<char>>) -> bool {
    forall|i: int, j: int| 0 <= i < j < s.len() ==> !seq_less(#[trigger] s[j], #[trigger] s[i])
}

/// Insert `x` into a sorted list after every element not greater than it,
/// as a stable sort places it.
pub fn insert_sorted(v: &mut Vec<String>, x: String)
    requires
        sorted_seqs(strings(old(v)@)),
    ensures
        sorted_seqs(strings(final(v)@)),
        strings(final(v)@).to_multiset() == strings(old(v)@).to_multiset().insert(x@),
{
    let ghost s = strings(v@);
    let mut k: usize = 0;
    while k < v.len() && !str_less(x.as_str(), v[k].as_str())
        invariant
            k <= v@.len(),
            s == strings(v@),
            forall|i: int| 0 <= i < k ==> !seq_less(x@, #[trigger] s[i]),
        decreases v.len() - k,
    {
        k = k + 1;
    }
    let ghost xv = x@;
    v.insert(k, x);
    proof {
        let t = strings(v@);
        assert(t =~= s.insert(k as int, xv));
        broadcast use vstd::seq_lib::to_multiset_insert;
        assert(t.to_multiset() == s.to_multiset().insert(xv));
        assert forall|i: int, j: int| 0 <= i < j < t.len() implies !seq_less(#[trigger] t[j], #[trigger] t[i]) by {
            if j < k {
                assert(t[i] == s[i] && t[j] == s[j]);
            } else if j == k {
                assert(t[i] == s[i]);
            } else if i < k {
                assert(t[i] == s[i] && t[j] == s[j - 1]);
            } else if i == k {
                assert(t[j] == s[j - 1]);
                assert(seq_less(xv, s[k as int]));
                if seq_less(s[j - 1], xv) {
                    lemma_seq_less_transitive(s[j - 1], xv, s[k as int]);
                    if j - 1 == k {
                        lemma_seq_less_irreflexive(s[k as int]);
                    }
                }
            } else {
                assert(t[i] == s[i - 1] && t[j] == s[j - 1]);
            }
        }
    }
}

} // verus!
