//! The environment layer of the `telemetry.` subtree. Variable names are
//! computed from the manifest paths, one per leaf, and then looked up:
//! computing forwards makes the mapping total, where reading a variable
//! back into a dotted path would be ambiguous (`a_b` and `a.b`).

use crate::config::manifest::{leaf_views, leaves_of, ConfigManifest, FieldKind, FieldManifest, Leaf};
use crate::telemetry::policy::{env_prefix, env_var_prefix};
use crate::text::{
    chars_of, is_ascii_digit, lower_seq, lower_vec, map_chars, map_chars_vec, owned, push_str, str_eq,
    string_of, upper_seq, upper_vec,
};
use vstd::prelude::*;

verus! {

/// The variable that sets `path` for `app`: the app prefix, `_`, and the
/// path upper-cased with `.` and `-` as `_`.
pub open spec fn env_var_name_spec(app: Seq<char>, path: Seq<char>) -> Seq<char> {
    env_prefix(app) + "_"@ + map_chars(upper_seq(path), seq!['.', '-'], '_')
}

/// The environment variable that sets `path` for `app`.
pub fn env_var_name(app: &str, path: &str) -> (r: String)
    ensures
        r@ == env_var_name_spec(app@, path@),
{
    let mut r = env_var_prefix(app);
    push_str(&mut r, "_");
    let up = upper_vec(chars_of(path).as_slice());
    let set: [char; 2] = ['.', '-'];
    let mapped = map_chars_vec(up.as_slice(), &set, '_');
    assert(set@ =~= seq!['.', '-']);
    crate::text::push_all(&mut r, mapped.as_slice());
    r
}

/// A variable's value, typed by the kind of the leaf it sets.
#[derive(Debug, Clone, PartialEq, Eq)]
pub enum EnvValue {
    Bool(bool),
    Int(i64),
    Text(String),
    /// The raw text of a float-valued leaf, which the caller reads as a
    /// number when it parses as a finite `f64`, as text otherwise.
    Float(String),
}

/// How a leaf's value is typed.
#[derive(Debug, Clone, Copy, PartialEq, Eq, Structural)]
pub enum ValueKind {
    Bool,
    /// Integers and durations.
    Int,
    Float,
    /// Everything else is text.
    Text,
}

/// The value of a string of ASCII digits.
pub open spec fn decimal_value(d: Seq<char>) -> int
    decreases d.len(),
{
    if d.len() == 0 {
        0
    } else {
        decimal_value(d.drop_last()) * 10 + (d.last() as int - '0' as int)
    }
}

/// Every character is an ASCII digit.
pub open spec fn digits_only(d: Seq<char>) -> bool {
    forall|j: int| 0 <= j < d.len() ==> is_ascii_digit(#[trigger] d[j])
}

/// The text after an optional leading sign.
pub open spec fn sign_free(s: Seq<char>) -> Seq<char> {
    if s.len() > 0 && (s[0] == '-' || s[0] == '+') {
        s.drop_first()
    } else {
        s
    }
}

/// Whether the text starts with `-`.
pub open spec fn negative(s: Seq<char>) -> bool {
    s.len() > 0 && s[0] == '-'
}

/// What `i64`'s `FromStr` reads: an optional sign, then one or more ASCII
/// digits whose signed value fits.
pub open spec fn parse_i64(s: Seq<char>) -> Option<int> {
    let d = sign_free(s);
    let v = if negative(s) {
        -decimal_value(d)
    } else {
        decimal_value(d)
    };
    if d.len() > 0 && digits_only(d) && i64::MIN <= v <= i64::MAX {
        Some(v)
    } else {
        None
    }
}

proof fn lemma_decimal_grows(d: Seq<char>, k: int)
    requires
        0 <= k <= d.len(),
        digits_only(d),
    ensures
        0 <= decimal_value(d.take(k)) <= decimal_value(d),
    decreases d.len() - k,
{
    if k < d.len() {
        lemma_decimal_grows(d, k + 1);
        assert(d.take(k + 1).drop_last() =~= d.take(k));
        assert(is_ascii_digit(d[k]));
    } else {
        assert(d.take(k) =~= d);
        lemma_decimal_nonneg(d);
    }
}

proof fn lemma_decimal_nonneg(d: Seq<char>)
    requires
        digits_only(d),
    ensures
        0 <= decimal_value(d),
    decreases d.len(),
{
    if d.len() > 0 {
        assert(is_ascii_digit(d[d.len() - 1]));
        assert(digits_only(d.drop_last()));
        lemma_decimal_nonneg(d.drop_last());
    }
}

/// Read an `i64` as `str::parse` does.
pub fn parse_i64_exec(s: &[char]) -> (r: Option<i64>)
    ensures
        match r {
            Some(v) => parse_i64(s@) == Some(v as int),
            None => parse_i64(s@) is None,
        },
{
    let neg = s.len() > 0 && s[0] == '-';
    let signed = s.len() > 0 && (s[0] == '-' || s[0] == '+');
    let start: usize = if signed {
        1
    } else {
        0
    };
    let ghost d = sign_free(s@);
    assert(d =~= s@.subrange(start as int, s@.len() as int));
    if start >= s.len() {
        return None;
    }
    let limit: i128 = if neg {
        9223372036854775808
    } else {
        9223372036854775807
    };
    let mut i: usize = start;
    let mut acc: i128 = 0;
    while i < s.len()
        invariant
            start <= i <= s@.len(),
            d =~= s@.subrange(start as int, s@.len() as int),
            forall|j: int| 0 <= j < i - start ==> is_ascii_digit(#[trigger] d[j]),
            acc as int == decimal_value(d.take(i - start)),
            0 <= acc <= limit,
            limit == (if neg {
                9223372036854775808i128
            } else {
                9223372036854775807i128
            }),
            d == sign_free(s@),
            neg == negative(s@),
        decreases s.len() - i,
    {
        let c = s[i];
        assert(d[i - start] == s@[i as int]);
        if !('0' <= c && c <= '9') {
            assert(!is_ascii_digit(d[i - start]));
            assert(!digits_only(d));
            return None;
        }
        assert(d.take(i - start + 1).drop_last() =~= d.take(i - start));
        assert(d.take(i - start + 1).last() == c);
        let next: i128 = acc * 10 + (c as u32 - '0' as u32) as i128;
        if next > limit {
            proof {
                if digits_only(d) {
                    lemma_decimal_grows(d, i - start + 1);
                }
            }
            return None;
        }
        acc = next;
        i = i + 1;
    }
    assert(d.take(d.len() as int) =~= d);
    assert(digits_only(d));
    if neg {
        Some((0 - acc) as i64)
    } else {
        Some(acc as i64)
    }
}

/// A variable's raw text typed for its leaf: a boolean leaf reads the
/// usual spellings, case-insensitively; an integer leaf reads an `i64`;
/// anything that does not read stays text.
pub open spec fn typed_spec(kind: ValueKind, raw: Seq<char>) -> EnvValueView {
    match kind {
        ValueKind::Bool => {
            let l = lower_seq(raw);
            if l == "1"@ || l == "true"@ || l == "yes"@ || l == "on"@ {
                EnvValueView::Bool(true)
            } else if l == "0"@ || l == "false"@ || l == "no"@ || l == "off"@ {
                EnvValueView::Bool(false)
            } else {
                EnvValueView::Text(raw)
            }
        },
        ValueKind::Int => match parse_i64(raw) {
            Some(n) => EnvValueView::Int(n),
            None => EnvValueView::Text(raw),
        },
        ValueKind::Float => EnvValueView::Float(raw),
        ValueKind::Text => EnvValueView::Text(raw),
    }
}

/// A typed value as plain values.
pub enum EnvValueView {
    Bool(bool),
    Int(int),
    Text(Seq<char>),
    Float(Seq<char>),
}

pub open spec fn env_value_view(v: EnvValue) -> EnvValueView {
    match v {
        EnvValue::Bool(b) => EnvValueView::Bool(b),
        EnvValue::Int(n) => EnvValueView::Int(n as int),
        EnvValue::Text(s) => EnvValueView::Text(s@),
        EnvValue::Float(s) => EnvValueView::Float(s@),
    }
}

/// Type a variable's raw text for its leaf.
pub fn typed(kind: ValueKind, raw: &str) -> (r: EnvValue)
    ensures
        env_value_view(r) == typed_spec(kind, raw@),
{
    match kind {
        ValueKind::Bool => {
            let l = string_of(lower_vec(chars_of(raw).as_slice()).as_slice());
            let t = l.as_str();
            if str_eq(t, "1") || str_eq(t, "true") || str_eq(t, "yes") || str_eq(t, "on") {
                EnvValue::Bool(true)
            } else if str_eq(t, "0") || str_eq(t, "false") || str_eq(t, "no") || str_eq(t, "off") {
                EnvValue::Bool(false)
            } else {
                EnvValue::Text(owned(raw))
            }
        },
        ValueKind::Int => match parse_i64_exec(chars_of(raw).as_slice()) {
            Some(n) => EnvValue::Int(n),
            None => EnvValue::Text(owned(raw)),
        },
        ValueKind::Float => EnvValue::Float(owned(raw)),
        ValueKind::Text => EnvValue::Text(owned(raw)),
    }
}

// ───────────────────────── help ─────────────────────────

pub open spec fn off_help() -> Seq<char> {
    "Set to 1 to turn telemetry off entirely."@
}

/// The rows every application's help lists: the kill switches and the
/// `OTEL_*` variables the exporter reads.
pub open spec fn fixed_rows(app: Seq<char>) -> Seq<(Seq<char>, Seq<char>)> {
    seq![
        (env_prefix(app) + "_TELEMETRY_DISABLED"@, off_help()),
        ("DO_NOT_TRACK"@, off_help()),
        ("OTEL_SDK_DISABLED"@, "Set to true to turn telemetry off entirely."@),
        ("OTEL_EXPORTER_OTLP_ENDPOINT"@, "OTLP collector URL; overrides the telemetry endpoint setting."@),
        ("OTEL_EXPORTER_OTLP_HEADERS"@, "Headers sent with every export, as comma-separated key=value pairs."@),
        ("OTEL_TRACES_SAMPLER_ARG"@, "Fraction of traces exported, 0.0 to 1.0."@),
        ("OTEL_SERVICE_NAME"@, "Service name reported to the collector; defaults to the application name."@),
        ("OTEL_RESOURCE_ATTRIBUTES"@, "Extra resource attributes, as comma-separated key=value pairs."@),
    ]
}

/// The part of a leaf's path after `telemetry.`, for a leaf under it.
pub open spec fn telemetry_rest(path: Seq<char>) -> Option<Seq<char>> {
    if crate::text::is_prefix_of("telemetry."@, path) {
        Some(path.subrange(10, path.len() as int))
    } else {
        None
    }
}

/// A settable leaf directly under `telemetry`.
pub open spec fn settable_leaf(l: (Seq<char>, FieldManifest)) -> bool {
    telemetry_rest(l.0) matches Some(r) && !l.1.local_only && !crate::text::has_char(r, '.')
}

/// A probe switch: a settable leaf nested below a probe id.
pub open spec fn switch_leaf(l: (Seq<char>, FieldManifest)) -> bool {
    telemetry_rest(l.0) matches Some(r) && !l.1.local_only && crate::text::has_char(r, '.')
}

/// A leaf's help text: its description, else its label, else its path.
pub open spec fn leaf_help(l: (Seq<char>, FieldManifest)) -> Seq<char> {
    match l.1.description {
        Some(d) => d@,
        None => match l.1.label {
            Some(t) => t@,
            None => l.0,
        },
    }
}

/// One row per settable leaf, in manifest order.
pub open spec fn leaf_rows(app: Seq<char>, leaves: Seq<(Seq<char>, FieldManifest)>) -> Seq<(Seq<char>, Seq<char>)>
    decreases leaves.len(),
{
    if leaves.len() == 0 {
        Seq::empty()
    } else {
        let l = leaves.last();
        leaf_rows(app, leaves.drop_last()) + if settable_leaf(l) {
            seq![(env_var_name_spec(app, l.0), leaf_help(l))]
        } else {
            Seq::empty()
        }
    }
}

/// The one row standing for every probe switch.
pub open spec fn probe_pattern_row(app: Seq<char>) -> (Seq<char>, Seq<char>) {
    (
        env_prefix(app) + "_TELEMETRY_<PROBE>_ENABLED"@,
        "Set to 0 to disable one telemetry probe; <PROBE> is its id upper-cased with dots as underscores."@,
    )
}

/// The framework's variables for the application's root `--help`: the
/// kill switches and `OTEL_*` rows, one row per settable `telemetry.*`
/// leaf, and one pattern row when any probe switch exists.
pub open spec fn help_rows(app: Seq<char>, leaves: Seq<(Seq<char>, FieldManifest)>) -> Seq<(Seq<char>, Seq<char>)> {
    fixed_rows(app) + leaf_rows(app, leaves) + if exists|k: int| 0 <= k < leaves.len() && switch_leaf(#[trigger] leaves[k]) {
        seq![probe_pattern_row(app)]
    } else {
        Seq::empty()
    }
}

pub open spec fn row_views(v: Seq<(String, String)>) -> Seq<(Seq<char>, Seq<char>)> {
    v.map_values(|p: (String, String)| (p.0@, p.1@))
}

fn push_row(out: &mut Vec<(String, String)>, name: String, text: String)
    ensures
        row_views(final(out)@) == row_views(old(out)@).push((name@, text@)),
{
    let ghost before = out@;
    out.push((name, text));
    assert(row_views(out@) =~= row_views(before).push((name@, text@)));
}

fn rest_after_telemetry(path: &str) -> (r: Option<Vec<char>>)
    ensures
        match r {
            Some(v) => telemetry_rest(path@) == Some(v@),
            None => telemetry_rest(path@) is None,
        },
{
    proof {
        reveal_strlit("telemetry.");
    }
    let p = chars_of(path);
    if crate::text::starts_with(p.as_slice(), chars_of("telemetry.").as_slice()) {
        Some(crate::text::slice_range(p.as_slice(), 10, p.len()))
    } else {
        None
    }
}

/// The framework's own variables for the application's root `--help`,
/// derived from the published manifest so that help lists exactly what
/// the environment layer honours.
pub fn help_entries(app: &str, manifest: &ConfigManifest) -> (out: Vec<(String, String)>)
    ensures
        row_views(out@) == help_rows(app@, leaves_of(manifest.fields@, Seq::empty())),
{
    let prefix = env_var_prefix(app);
    let mut out: Vec<(String, String)> = Vec::new();
    let mut first = prefix.clone();
    push_str(&mut first, "_TELEMETRY_DISABLED");
    push_row(&mut out, first, owned("Set to 1 to turn telemetry off entirely."));
    push_row(&mut out, owned("DO_NOT_TRACK"), owned("Set to 1 to turn telemetry off entirely."));
    push_row(&mut out, owned("OTEL_SDK_DISABLED"), owned("Set to true to turn telemetry off entirely."));
    push_row(
        &mut out,
        owned("OTEL_EXPORTER_OTLP_ENDPOINT"),
        owned("OTLP collector URL; overrides the telemetry endpoint setting."),
    );
    push_row(
        &mut out,
        owned("OTEL_EXPORTER_OTLP_HEADERS"),
        owned("Headers sent with every export, as comma-separated key=value pairs."),
    );
    push_row(&mut out, owned("OTEL_TRACES_SAMPLER_ARG"), owned("Fraction of traces exported, 0.0 to 1.0."));
    push_row(
        &mut out,
        owned("OTEL_SERVICE_NAME"),
        owned("Service name reported to the collector; defaults to the application name."),
    );
    push_row(
        &mut out,
        owned("OTEL_RESOURCE_ATTRIBUTES"),
        owned("Extra resource attributes, as comma-separated key=value pairs."),
    );
    let ghost fixed = row_views(out@);
    assert(fixed =~= fixed_rows(app@));
    let leaves = manifest.iter_leaves();
    let ghost lv = leaf_views(leaves@);
    let mut has_switch = false;
    let mut i: usize = 0;
    while i < leaves.len()
        invariant
            i <= leaves@.len(),
            lv == leaf_views(leaves@),
            row_views(out@) == fixed + leaf_rows(app@, lv.take(i as int)),
            has_switch == exists|k: int| 0 <= k < i && switch_leaf(#[trigger] lv[k]),
        decreases leaves.len() - i,
    {
        let ghost before = row_views(out@);
        let l = &leaves[i];
        assert(lv[i as int] == (l.path@, *l.field));
        proof {
            assert(lv.take(i + 1).drop_last() =~= lv.take(i as int));
            assert(lv.take(i + 1).last() == lv[i as int]);
        }
        match rest_after_telemetry(l.path.as_str()) {
            None => {},
            Some(rest) => {
                if !l.field.local_only {
                    if crate::text::has_char_exec(rest.as_slice(), '.') {
                        has_switch = true;
                    } else {
                        let help = match &l.field.description {
                            Some(d) => d.clone(),
                            None => match &l.field.label {
                                Some(t) => t.clone(),
                                None => l.path.clone(),
                            },
                        };
                        push_row(&mut out, env_var_name(app, l.path.as_str()), help);
                    }
                }
            },
        }
        assert(row_views(out@) =~= fixed + leaf_rows(app@, lv.take(i + 1)));
        i = i + 1;
    }
    assert(lv.take(lv.len() as int) =~= lv);
    let ghost mid = row_views(out@);
    if has_switch {
        let mut name = prefix;
        push_str(&mut name, "_TELEMETRY_<PROBE>_ENABLED");
        push_row(
            &mut out,
            name,
            owned("Set to 0 to disable one telemetry probe; <PROBE> is its id upper-cased with dots as underscores."),
        );
    }
    assert(row_views(out@) =~= help_rows(app@, leaves_of(manifest.fields@, Seq::empty())));
    out
}

// ───────────────────────── scanning ─────────────────────────

/// How a field's value is typed.
pub open spec fn kind_of(k: FieldKind) -> ValueKind {
    match k {
        FieldKind::Bool => ValueKind::Bool,
        FieldKind::Int | FieldKind::Duration => ValueKind::Int,
        FieldKind::Float => ValueKind::Float,
        _ => ValueKind::Text,
    }
}

fn kind_of_exec(k: &FieldKind) -> (r: ValueKind)
    ensures
        r == kind_of(*k),
{
    match k {
        FieldKind::Bool => ValueKind::Bool,
        FieldKind::Int | FieldKind::Duration => ValueKind::Int,
        FieldKind::Float => ValueKind::Float,
        _ => ValueKind::Text,
    }
}

/// What the environment had to say about the telemetry tree: typed values
/// keyed by dotted path (each path once; a later variable for the same
/// path replaces an earlier one), and the `<APP>_TELEMETRY_*` variables
/// that matched no leaf, sorted.
#[derive(Debug, Clone, PartialEq, Eq)]
pub struct EnvScan {
    pub values: Vec<(String, EnvValue)>,
    pub unmatched: Vec<String>,
}

/// A leaf the environment layer reads: `telemetry` or under it.
pub open spec fn telemetry_leaf(path: Seq<char>) -> bool {
    path == "telemetry"@ || crate::text::is_prefix_of("telemetry."@, path)
}

/// The first telemetry leaf whose variable is `name`.
pub open spec fn leaf_for(app: Seq<char>, leaves: Seq<(Seq<char>, FieldManifest)>, name: Seq<char>) -> Option<(Seq<char>, FieldManifest)>
    decreases leaves.len(),
{
    if leaves.len() == 0 {
        None
    } else if telemetry_leaf(leaves[0].0) && env_var_name_spec(app, leaves[0].0) == name {
        Some(leaves[0])
    } else {
        leaf_for(app, leaves.drop_first(), name)
    }
}

/// A variable that looks like a telemetry setting: under the app's
/// `_TELEMETRY_` prefix and not the kill switch.
pub open spec fn looks_like_setting(app: Seq<char>, name: Seq<char>) -> bool {
    crate::text::is_prefix_of(env_prefix(app) + "_TELEMETRY_"@, name) && name != env_prefix(app)
        + "_TELEMETRY_DISABLED"@
}

pub open spec fn value_views(v: Seq<(String, EnvValue)>) -> Seq<(Seq<char>, EnvValueView)> {
    v.map_values(|p: (String, EnvValue)| (p.0@, env_value_view(p.1)))
}

/// A value set at `path`: replacing the one already there, else appended.
pub open spec fn set_value(m: Seq<(Seq<char>, EnvValueView)>, path: Seq<char>, v: EnvValueView) -> Seq<(Seq<char>, EnvValueView)>
    decreases m.len(),
{
    if m.len() == 0 {
        seq![(path, v)]
    } else if m[0].0 == path {
        m.update(0, (path, v))
    } else {
        seq![m[0]] + set_value(m.drop_first(), path, v)
    }
}

/// The values the variables set, in order.
pub open spec fn scanned_values(app: Seq<char>, leaves: Seq<(Seq<char>, FieldManifest)>, vars: Seq<(String, String)>) -> Seq<(Seq<char>, EnvValueView)>
    decreases vars.len(),
{
    if vars.len() == 0 {
        Seq::empty()
    } else {
        let before = scanned_values(app, leaves, vars.drop_last());
        let (name, raw) = vars.last();
        match leaf_for(app, leaves, name@) {
            Some(l) => set_value(before, l.0, typed_spec(kind_of(l.1.kind), raw@)),
            None => before,
        }
    }
}

/// The variables that look like settings and matched no leaf, in order.
pub open spec fn unmatched_names(app: Seq<char>, leaves: Seq<(Seq<char>, FieldManifest)>, vars: Seq<(String, String)>) -> Seq<Seq<char>>
    decreases vars.len(),
{
    if vars.len() == 0 {
        Seq::empty()
    } else {
        let before = unmatched_names(app, leaves, vars.drop_last());
        let name = vars.last().0@;
        if leaf_for(app, leaves, name) is None && looks_like_setting(app, name) {
            before.push(name)
        } else {
            before
        }
    }
}

fn set_value_exec(m: &mut Vec<(String, EnvValue)>, path: String, v: EnvValue)
    ensures
        value_views(final(m)@) == set_value(value_views(old(m)@), path@, env_value_view(v)),
{
    let ghost mv = value_views(m@);
    let mut i: usize = 0;
    while i < m.len()
        invariant
            i <= m@.len(),
            m@ == old(m)@,
            mv == value_views(m@),
            forall|k: int| 0 <= k < i ==> (#[trigger] mv[k]).0 != path@,
        decreases m.len() - i,
    {
        if str_eq(m[i].0.as_str(), path.as_str()) {
            assert(mv[i as int].0 == m@[i as int].0@);
            let ghost pv = path@;
            let ghost vv = env_value_view(v);
            proof {
                lemma_set_value_at(mv, pv, vv, i as int);
            }
            m.set(i, (path, v));
            assert(value_views(m@) =~= mv.update(i as int, (pv, vv)));
            return;
        }
        i = i + 1;
    }
    proof {
        lemma_set_value_at(mv, path@, env_value_view(v), i as int);
    }
    let ghost pv = path@;
    m.push((path, v));
    assert(value_views(m@) =~= mv.push((pv, env_value_view(v))));
}

proof fn lemma_set_value_at(m: Seq<(Seq<char>, EnvValueView)>, path: Seq<char>, v: EnvValueView, k: int)
    requires
        0 <= k <= m.len(),
        forall|j: int| 0 <= j < k ==> (#[trigger] m[j]).0 != path,
        k < m.len() ==> m[k].0 == path,
    ensures
        k < m.len() ==> set_value(m, path, v) == m.update(k, (path, v)),
        k == m.len() ==> set_value(m, path, v) == m.push((path, v)),
    decreases m.len(),
{
    if m.len() > 0 && k > 0 {
        let t = m.drop_first();
        assert forall|j: int| 0 <= j < k - 1 implies (#[trigger] t[j]).0 != path by {
            assert(t[j] == m[j + 1]);
        }
        lemma_set_value_at(t, path, v, k - 1);
        if k < m.len() {
            assert(seq![m[0]] + t.update(k - 1, (path, v)) =~= m.update(k, (path, v)));
        } else {
            assert(seq![m[0]] + t.push((path, v)) =~= m.push((path, v)));
        }
    } else if m.len() == 0 {
        assert(seq![(path, v)] =~= m.push((path, v)));
    }
}

fn leaf_for_exec<'a>(app: &str, leaves: &Vec<Leaf<'a>>, name: &str) -> (r: Option<usize>)
    ensures
        match r {
            Some(k) => k < leaves@.len() && leaf_for(app@, leaf_views(leaves@), name@) == Some(
                leaf_views(leaves@)[k as int],
            ),
            None => leaf_for(app@, leaf_views(leaves@), name@) is None,
        },
{
    let ghost lv = leaf_views(leaves@);
    let mut i: usize = 0;
    assert(lv.subrange(0, lv.len() as int) =~= lv);
    while i < leaves.len()
        invariant
            i <= leaves@.len(),
            lv == leaf_views(leaves@),
            leaf_for(app@, lv, name@) == leaf_for(app@, lv.subrange(i as int, lv.len() as int), name@),
        decreases leaves.len() - i,
    {
        let ghost rest = lv.subrange(i as int, lv.len() as int);
        assert(rest[0] == lv[i as int]);
        assert(rest.drop_first() =~= lv.subrange(i + 1, lv.len() as int));
        proof {
            reveal_strlit("telemetry");
            reveal_strlit("telemetry.");
        }
        let p = leaves[i].path.as_str();
        let under = str_eq(p, "telemetry") || crate::text::starts_with(
            chars_of(p).as_slice(),
            chars_of("telemetry.").as_slice(),
        );
        if under {
            let var = env_var_name(app, p);
            if str_eq(var.as_str(), name) {
                return Some(i);
            }
        }
        i = i + 1;
    }
    None
}

/// Read the telemetry subtree out of a snapshot of the environment.
pub fn scan_environment(app: &str, manifest: &ConfigManifest, vars: &[(String, String)]) -> (r: EnvScan)
    ensures
        value_views(r.values@) == scanned_values(app@, leaves_of(manifest.fields@, Seq::empty()), vars@),
        crate::text::sorted_seqs(crate::text::strings(r.unmatched@)),
        crate::text::strings(r.unmatched@).to_multiset() == unmatched_names(
            app@,
            leaves_of(manifest.fields@, Seq::empty()),
            vars@,
        ).to_multiset(),
{
    let leaves = manifest.iter_leaves();
    let ghost lv = leaf_views(leaves@);
    let prefix = env_var_prefix(app);
    let mut setting_prefix = prefix.clone();
    push_str(&mut setting_prefix, "_TELEMETRY_");
    let mut kill = prefix;
    push_str(&mut kill, "_TELEMETRY_DISABLED");
    let mut values: Vec<(String, EnvValue)> = Vec::new();
    let mut unmatched: Vec<String> = Vec::new();
    let mut i: usize = 0;
    assert(value_views(values@) =~= Seq::empty());
    assert(crate::text::strings(unmatched@) =~= Seq::empty());
    while i < vars.len()
        invariant
            i <= vars@.len(),
            lv == leaf_views(leaves@),
            lv == leaves_of(manifest.fields@, Seq::empty()),
            setting_prefix@ == env_prefix(app@) + "_TELEMETRY_"@,
            kill@ == env_prefix(app@) + "_TELEMETRY_DISABLED"@,
            value_views(values@) == scanned_values(app@, lv, vars@.take(i as int)),
            crate::text::sorted_seqs(crate::text::strings(unmatched@)),
            crate::text::strings(unmatched@).to_multiset() == unmatched_names(app@, lv, vars@.take(i as int)).to_multiset(),
        decreases vars.len() - i,
    {
        proof {
            assert(vars@.take(i + 1).drop_last() =~= vars@.take(i as int));
            assert(vars@.take(i + 1).last() == vars@[i as int]);
        }
        let name = vars[i].0.as_str();
        let raw = vars[i].1.as_str();
        match leaf_for_exec(app, &leaves, name) {
            Some(k) => {
                let l = &leaves[k];
                let v = typed(kind_of_exec(&l.field.kind), raw);
                set_value_exec(&mut values, l.path.clone(), v);
            },
            None => {
                let looks = crate::text::starts_with(
                    chars_of(name).as_slice(),
                    chars_of(setting_prefix.as_str()).as_slice(),
                ) && !str_eq(name, kill.as_str());
                if looks {
                    let ghost before = unmatched_names(app@, lv, vars@.take(i as int));
                    crate::text::insert_sorted(&mut unmatched, owned(name));
                    proof {
                        assert(unmatched_names(app@, lv, vars@.take(i + 1)) == before.push(name@));
                        vstd::seq_lib::to_multiset_build(before, name@);
                    }
                }
            },
        }
        i = i + 1;
    }
    assert(vars@.take(vars@.len() as int) =~= vars@);
    EnvScan { values, unmatched }
}

/// A switch leaf reads the usual spellings of a yes and a no, in any
/// case: `1`, `true`, `yes`, `on` switch it on, `0`, `false`, `no`, `off`
/// switch it off; anything else is kept as text.
pub proof fn law_switch_spellings(raw: Seq<char>)
    ensures
        (lower_seq(raw) == "1"@ || lower_seq(raw) == "true"@ || lower_seq(raw) == "yes"@ || lower_seq(raw)
            == "on"@) ==> typed_spec(ValueKind::Bool, raw) == EnvValueView::Bool(true),
        (lower_seq(raw) == "0"@ || lower_seq(raw) == "false"@ || lower_seq(raw) == "no"@ || lower_seq(raw)
            == "off"@) ==> typed_spec(ValueKind::Bool, raw) == EnvValueView::Bool(false),
        typed_spec(ValueKind::Bool, raw) is Text ==> typed_spec(ValueKind::Bool, raw) == EnvValueView::Text(
            raw,
        ),
{
    reveal_strlit("1");
    reveal_strlit("true");
    reveal_strlit("yes");
    reveal_strlit("on");
    reveal_strlit("0");
    reveal_strlit("false");
    reveal_strlit("no");
    reveal_strlit("off");
    assert("0"@[0] != "1"@[0]);
    assert("0"@.len() != "true"@.len());
    assert("0"@.len() != "yes"@.len());
    assert("0"@.len() != "on"@.len());
    assert("false"@.len() != "1"@.len());
    assert("false"@.len() != "true"@.len());
    assert("false"@.len() != "yes"@.len());
    assert("false"@.len() != "on"@.len());
    assert("no"@.len() != "1"@.len());
    assert("no"@.len() != "true"@.len());
    assert("no"@.len() != "yes"@.len());
    assert("no"@[0] != "on"@[0]);
    assert("off"@.len() != "1"@.len());
    assert("off"@.len() != "true"@.len());
    assert("off"@[0] != "yes"@[0]);
    assert("off"@.len() != "on"@.len());
}

} // verus!
