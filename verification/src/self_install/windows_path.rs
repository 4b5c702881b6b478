//! The per-user `Path` on Windows, as a list of entries: whether it holds a
//! directory, and the list with one added or removed. Reading and writing
//! the registry value is the caller's.

use crate::self_install::env::env_var;
use crate::text::{
    chars_of, find_char, first_index_of, lemma_first_index_bounds, map_chars, map_chars_vec, owned,
    pair_get, push_all, push_str, seq_eq, seqs, slice_range, split_char, split_on, string_of,
    strings, to_lowercase, trim_seq, trim_vec, unicode_lower, lookup,
};
use vstd::prelude::*;

verus! {

/// The entries of a `Path` value: pieces between `;`, blank ones dropped.
pub open spec fn entries_of(raw: Seq<char>) -> Seq<Seq<char>> {
    non_blank(split_on(raw, ';'))
}

pub open spec fn non_blank(parts: Seq<Seq<char>>) -> Seq<Seq<char>>
    decreases parts.len(),
{
    if parts.len() == 0 {
        Seq::empty()
    } else {
        let rest = non_blank(parts.drop_last());
        if trim_seq(parts.last()).len() > 0 {
            rest.push(parts.last())
        } else {
            rest
        }
    }
}

/// The entries of a `Path` value.
pub fn path_entries_of(raw: &str) -> (out: Vec<String>)
    ensures
        strings(out@) == entries_of(raw@),
{
    let parts = split_char(chars_of(raw).as_slice(), ';');
    let ghost ps = seqs(parts@);
    let mut out: Vec<String> = Vec::new();
    let mut i: usize = 0;
    while i < parts.len()
        invariant
            i <= parts@.len(),
            ps == seqs(parts@),
            ps == split_on(raw@, ';'),
            strings(out@) == non_blank(ps.take(i as int)),
        decreases parts.len() - i,
    {
        proof {
            assert(ps.take(i + 1).drop_last() =~= ps.take(i as int));
            assert(ps.take(i + 1).last() == parts@[i as int]@);
        }
        if trim_vec(parts[i].as_slice()).len() > 0 {
            let ghost before = strings(out@);
            out.push(string_of(parts[i].as_slice()));
            assert(strings(out@) =~= before.push(parts@[i as int]@));
        }
        i = i + 1;
    }
    assert(ps.take(ps.len() as int) =~= ps);
    out
}

/// `%NAME%` references replaced by the variable's value when it is set and
/// the name is not empty, left as written otherwise; a lone `%` stays.
pub open spec fn expand_env_spec(s: Seq<char>, vars: Seq<(String, String)>) -> Seq<char>
    decreases s.len(),
{
    let start = first_index_of(s, '%');
    if start >= s.len() {
        s
    } else {
        let after = s.subrange(start + 1, s.len() as int);
        let end = first_index_of(after, '%');
        if end >= after.len() {
            s
        } else {
            proof {
                lemma_first_index_bounds(s, '%');
                lemma_first_index_bounds(after, '%');
            }
            let name = after.subrange(0, end);
            let value = match pair_get(vars, name) {
                Some(v) => if name.len() > 0 {
                    v
                } else {
                    seq!['%'] + name + seq!['%']
                },
                None => seq!['%'] + name + seq!['%'],
            };
            s.subrange(0, start) + value + expand_env_spec(after.subrange(end + 1, after.len() as int), vars)
        }
    }
}

/// Expand `%NAME%` references from a snapshot of the environment.
pub fn expand_env(s: &str, vars: &[(String, String)]) -> (out: String)
    ensures
        out@ == expand_env_spec(s@, vars@),
{
    let c = chars_of(s);
    assert(c@.subrange(0, c@.len() as int) =~= c@);
    expand_from(&c, 0, vars)
}

fn expand_from(c: &Vec<char>, from: usize, vars: &[(String, String)]) -> (out: String)
    requires
        from <= c@.len(),
    ensures
        out@ == expand_env_spec(c@.subrange(from as int, c@.len() as int), vars@),
    decreases c@.len() - from,
{
    let ghost s = c@.subrange(from as int, c@.len() as int);
    let rest = slice_range(c.as_slice(), from, c.len());
    let start = find_char(rest.as_slice(), '%');
    proof {
        lemma_first_index_bounds(s, '%');
    }
    if start >= rest.len() {
        return string_of(rest.as_slice());
    }
    let after = slice_range(rest.as_slice(), start + 1, rest.len());
    let end = find_char(after.as_slice(), '%');
    proof {
        lemma_first_index_bounds(after@, '%');
    }
    if end >= after.len() {
        return string_of(rest.as_slice());
    }
    let name = slice_range(after.as_slice(), 0, end);
    let name_s = string_of(name.as_slice());
    let mut out = string_of(slice_range(rest.as_slice(), 0, start).as_slice());
    let found = lookup(vars, name_s.as_str());
    match found {
        Some(v) => {
            if name.len() > 0 {
                push_str(&mut out, v);
            } else {
                out.push('%');
                push_all(&mut out, name.as_slice());
                out.push('%');
            }
        },
        None => {
            out.push('%');
            push_all(&mut out, name.as_slice());
            out.push('%');
        },
    }
    let next = from + start + 1 + end + 1;
    assert(after@.subrange(end + 1, after@.len() as int) =~= c@.subrange(next as int, c@.len() as int));
    let tail = expand_from(c, next, vars);
    push_str(&mut out, tail.as_str());
    out
}

/// How entries are compared: environment references expanded, `/` as `\`,
/// trailing `\` dropped, lower-cased.
pub open spec fn normalized(entry: Seq<char>, vars: Seq<(String, String)>) -> Seq<char> {
    unicode_lower(strip_trailing(map_chars(expand_env_spec(trim_seq(entry), vars), seq!['/'], '\\'), '\\'))
}

/// All trailing `c` removed.
pub open spec fn strip_trailing(s: Seq<char>, c: char) -> Seq<char>
    decreases s.len(),
{
    if s.len() > 0 && s.last() == c {
        strip_trailing(s.drop_last(), c)
    } else {
        s
    }
}

pub(crate) fn strip_trailing_exec(v: &Vec<char>, c: char) -> (out: Vec<char>)
    ensures
        out@ == strip_trailing(v@, c),
{
    let mut n: usize = v.len();
    assert(v@.subrange(0, n as int) =~= v@);
    while n > 0 && v[n - 1] == c
        invariant
            n <= v@.len(),
            strip_trailing(v@, c) == strip_trailing(v@.subrange(0, n as int), c),
        decreases n,
    {
        assert(v@.subrange(0, n as int).drop_last() =~= v@.subrange(0, n - 1));
        n = n - 1;
    }
    slice_range(v.as_slice(), 0, n)
}

/// How an entry is compared.
pub fn normalize(entry: &str, vars: &[(String, String)]) -> (out: String)
    ensures
        out@ == normalized(entry@, vars@),
{
    let trimmed = string_of(trim_vec(chars_of(entry).as_slice()).as_slice());
    let expanded = expand_env(trimmed.as_str(), vars);
    let slash = ['/'];
    let mapped = map_chars_vec(chars_of(expanded.as_str()).as_slice(), &slash, '\\');
    assert(slash@ =~= seq!['/']);
    let stripped = strip_trailing_exec(&mapped, '\\');
    to_lowercase(string_of(stripped.as_slice()).as_str())
}

/// Whether some entry names the directory.
pub open spec fn holds_dir(entries: Seq<Seq<char>>, dir: Seq<char>, vars: Seq<(String, String)>) -> bool {
    exists|i: int| 0 <= i < entries.len() && normalized(#[trigger] entries[i], vars) == normalized(dir, vars)
}

/// Whether the user `Path` holds `dir`.
pub fn user_path_contains(entries: &[String], dir: &str, vars: &[(String, String)]) -> (r: bool)
    ensures
        r == holds_dir(strings(entries@), dir@, vars@),
{
    let wanted = normalize(dir, vars);
    let mut i: usize = 0;
    while i < entries.len()
        invariant
            i <= entries@.len(),
            wanted@ == normalized(dir@, vars@),
            forall|j: int|
                0 <= j < i ==> normalized(#[trigger] strings(entries@)[j], vars@) != normalized(dir@, vars@),
        decreases entries.len() - i,
    {
        let e = normalize(entries[i].as_str(), vars);
        assert(strings(entries@)[i as int] == entries@[i as int]@);
        if e == wanted {
            return true;
        }
        i = i + 1;
    }
    false
}

/// The entries with `dir` first, or `None` when it is already there.
pub fn add_to_user_path(entries: &[String], dir: &str, vars: &[(String, String)]) -> (r: Option<
    Vec<String>,
>)
    ensures
        holds_dir(strings(entries@), dir@, vars@) ==> r is None,
        !holds_dir(strings(entries@), dir@, vars@) ==> (r matches Some(v) && strings(v@) == seq![
            dir@,
        ] + strings(entries@)),
{
    if user_path_contains(entries, dir, vars) {
        return None;
    }
    let mut v: Vec<String> = Vec::new();
    v.push(owned(dir));
    let mut i: usize = 0;
    while i < entries.len()
        invariant
            i <= entries@.len(),
            strings(v@) == seq![dir@] + strings(entries@).take(i as int),
        decreases entries.len() - i,
    {
        let ghost before = strings(v@);
        v.push(entries[i].clone());
        assert(strings(v@) =~= before.push(entries@[i as int]@));
        assert(strings(entries@).take(i + 1) =~= strings(entries@).take(i as int).push(
            entries@[i as int]@,
        ));
        i = i + 1;
    }
    assert(strings(entries@).take(entries@.len() as int) =~= strings(entries@));
    Some(v)
}

/// The entries that do not name `dir`, in order.
pub open spec fn without_dir(entries: Seq<Seq<char>>, dir: Seq<char>, vars: Seq<(String, String)>) -> Seq<
    Seq<char>,
>
    decreases entries.len(),
{
    if entries.len() == 0 {
        Seq::empty()
    } else {
        let rest = without_dir(entries.drop_last(), dir, vars);
        if normalized(entries.last(), vars) != normalized(dir, vars) {
            rest.push(entries.last())
        } else {
            rest
        }
    }
}

/// The entries without `dir`, or `None` when none named it.
pub fn remove_from_user_path(entries: &[String], dir: &str, vars: &[(String, String)]) -> (r: Option<
    Vec<String>,
>)
    ensures
        match r {
            Some(v) => strings(v@) == without_dir(strings(entries@), dir@, vars@) && v@.len()
                < entries@.len(),
            None => without_dir(strings(entries@), dir@, vars@).len() == entries@.len(),
        },
{
    let wanted = normalize(dir, vars);
    let ghost es = strings(entries@);
    let mut kept: Vec<String> = Vec::new();
    let mut i: usize = 0;
    while i < entries.len()
        invariant
            i <= entries@.len(),
            es == strings(entries@),
            wanted@ == normalized(dir@, vars@),
            strings(kept@) == without_dir(es.take(i as int), dir@, vars@),
            kept@.len() <= i,
        decreases entries.len() - i,
    {
        proof {
            assert(es.take(i + 1).drop_last() =~= es.take(i as int));
            assert(es.take(i + 1).last() == entries@[i as int]@);
        }
        let e = normalize(entries[i].as_str(), vars);
        if e != wanted {
            let ghost before = strings(kept@);
            kept.push(entries[i].clone());
            assert(strings(kept@) =~= before.push(entries@[i as int]@));
        }
        i = i + 1;
    }
    assert(es.take(es.len() as int) =~= es);
    if kept.len() == entries.len() {
        return None;
    }
    Some(kept)
}

proof fn lemma_without_absent(es: Seq<Seq<char>>, dir: Seq<char>, vars: Seq<(String, String)>)
    requires
        !holds_dir(es, dir, vars),
    ensures
        without_dir(es, dir, vars) == es,
    decreases es.len(),
{
    if es.len() > 0 {
        assert(!holds_dir(es.drop_last(), dir, vars)) by {
            if holds_dir(es.drop_last(), dir, vars) {
                let i = choose|i: int|
                    0 <= i < es.drop_last().len() && normalized(#[trigger] es.drop_last()[i], vars)
                        == normalized(dir, vars);
                assert(es[i] == es.drop_last()[i]);
            }
        }
        lemma_without_absent(es.drop_last(), dir, vars);
        assert(normalized(es[es.len() - 1], vars) != normalized(dir, vars));
        assert(es.drop_last().push(es.last()) =~= es);
    }
}

proof fn lemma_without_prepend(x: Seq<char>, es: Seq<Seq<char>>, dir: Seq<char>, vars: Seq<(String, String)>)
    requires
        normalized(x, vars) == normalized(dir, vars),
    ensures
        without_dir(seq![x] + es, dir, vars) == without_dir(es, dir, vars),
    decreases es.len(),
{
    if es.len() == 0 {
        let e0 = Seq::<Seq<char>>::empty();
        assert((seq![x] + es).drop_last() =~= e0);
        assert(without_dir(e0, dir, vars) == e0);
        assert((seq![x] + es).last() == x);
        assert(es =~= e0);
    } else {
        lemma_without_prepend(x, es.drop_last(), dir, vars);
        assert((seq![x] + es).drop_last() =~= seq![x] + es.drop_last());
        assert((seq![x] + es).last() == es.last());
    }
}

/// Once `add_to_user_path` has put a directory first, the path holds it,
/// so adding it again changes nothing.
pub proof fn law_an_added_dir_is_found(entries: Seq<Seq<char>>, dir: Seq<char>, vars: Seq<(String, String)>)
    ensures
        holds_dir(seq![dir] + entries, dir, vars),
{
    assert((seq![dir] + entries)[0] == dir);
}

/// Adding a directory the path does not hold and then removing it gives
/// the entries back as they were.
pub proof fn law_add_then_remove_restores(entries: Seq<Seq<char>>, dir: Seq<char>, vars: Seq<(String, String)>)
    requires
        !holds_dir(entries, dir, vars),
    ensures
        without_dir(seq![dir] + entries, dir, vars) == entries,
        without_dir(seq![dir] + entries, dir, vars).len() < (seq![dir] + entries).len(),
{
    lemma_without_prepend(dir, entries, dir, vars);
    lemma_without_absent(entries, dir, vars);
}

} // verus!
