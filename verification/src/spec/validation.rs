//! Checking typed argument values against their declarations: required
//! args, value types, numeric ranges, patterns, conflicts and requirements.

use crate::spec::arg_spec::{ArgSpec, ArgValueType, Cardinality};
use crate::spec::diagnostic::{
    diag_views, make_diag, push_diag, spec_diag, Diagnostic, DiagnosticView, E_CONFLICT,
    E_INVALID_VALUE, E_MISSING_REQUIRED, E_UNSATISFIED_REQUIRES,
};
use crate::spec::value::{has_value, value_of, ArgValue, ArgValues};
use crate::telemetry::probes::int_text;
use crate::text::{debug_quoted, debug_repr, decimal, decimal_vec, join_with, owned, push_all, push_str, str_eq, strings};
use vstd::prelude::*;

verus! {

// ───────────────────────── patterns ─────────────────────────

/// Whether `regex::Regex::new` accepts the pattern.
pub uninterp spec fn pattern_compiles(pattern: Seq<char>) -> bool;

/// Whether the compiled pattern matches somewhere in the text
/// (`regex::Regex::is_match`).
pub uninterp spec fn pattern_matches(pattern: Seq<char>, text: Seq<char>) -> bool;

/// The `Display` text of the error `regex::Regex::new` gives for a pattern
/// it refuses.
pub uninterp spec fn pattern_error(pattern: Seq<char>) -> Seq<char>;

/// What checking `text` against `pattern` gives: whether it matched, or the
/// compile error's text.
pub open spec fn pattern_outcome(pattern: Seq<char>, text: Seq<char>) -> Result<bool, Seq<char>> {
    if pattern_compiles(pattern) {
        Ok(pattern_matches(pattern, text))
    } else {
        Err(pattern_error(pattern))
    }
}

/// `regex::Regex::new(pattern)`, then `is_match(text)` on the compiled
/// regex, or the error's `Display` text. Compiling and matching depend on
/// the pattern and the text alone.
#[verifier::external_body]
fn match_pattern(pattern: &str, text: &str) -> (r: Result<bool, String>)
    ensures
        r is Ok <==> pattern_compiles(pattern@),
        r matches Ok(b) ==> b == pattern_matches(pattern@, text@),
        r matches Err(e) ==> e@ == pattern_error(pattern@),
{
    match regex::Regex::new(pattern) {
        Ok(re) => Ok(re.is_match(text)),
        Err(e) => Err(e.to_string()),
    }
}

/// The outcome as text.
pub open spec fn outcome_view(r: Result<bool, String>) -> Result<bool, Seq<char>> {
    match r {
        Ok(b) => Ok(b),
        Err(e) => Err(e@),
    }
}

// ───────────────────────── messages ─────────────────────────

pub open spec fn missing_diag(name: Seq<char>) -> DiagnosticView {
    spec_diag(
        "E003"@,
        "missing required argument '--"@ + name + "'"@,
        "Provide --"@ + name + " <value>"@,
    )
}

/// How `{:?}` writes a declared value type.
pub open spec fn type_debug(t: ArgValueType) -> Seq<char> {
    match t {
        ArgValueType::Str => "String"@,
        ArgValueType::Bool => "Bool"@,
        ArgValueType::Int => "Int"@,
        ArgValueType::Float => "Float"@,
        ArgValueType::Enum(vs) => "Enum(["@ + join_with(
            strings(vs@).map_values(|s: Seq<char>| debug_repr(s)),
            ", "@,
        ) + "])"@,
    }
}

pub open spec fn type_diag(name: Seq<char>, t: ArgValueType) -> DiagnosticView {
    spec_diag(
        "E004"@,
        "invalid value type for '--"@ + name + "': expected "@ + type_debug(t),
        "Provide a valid value for --"@ + name,
    )
}

pub open spec fn below_diag(name: Seq<char>, value: Seq<char>, bound: Seq<char>) -> DiagnosticView {
    spec_diag(
        "E004"@,
        "value "@ + value + " for '--"@ + name + "' is below minimum "@ + bound,
        "Provide a value >= "@ + bound + " for --"@ + name,
    )
}

pub open spec fn above_diag(name: Seq<char>, value: Seq<char>, bound: Seq<char>) -> DiagnosticView {
    spec_diag(
        "E004"@,
        "value "@ + value + " for '--"@ + name + "' is above maximum "@ + bound,
        "Provide a value <= "@ + bound + " for --"@ + name,
    )
}

pub open spec fn mismatch_diag(name: Seq<char>, text: Seq<char>, pattern: Seq<char>) -> DiagnosticView {
    spec_diag(
        "E004"@,
        "value '"@ + text + "' for '--"@ + name + "' does not match pattern '"@ + pattern + "'"@,
        "Provide a value matching '"@ + pattern + "' for --"@ + name,
    )
}

pub open spec fn bad_pattern_diag(name: Seq<char>, pattern: Seq<char>, error: Seq<char>) -> DiagnosticView {
    spec_diag(
        "E004"@,
        "invalid pattern '"@ + pattern + "' for '--"@ + name + "': "@ + error,
        "Fix the pattern spec for --"@ + name,
    )
}

pub open spec fn conflict_diag(a: Seq<char>, b: Seq<char>) -> DiagnosticView {
    spec_diag("E005"@, "--"@ + a + " conflicts with --"@ + b, "Remove --"@ + a + " or --"@ + b)
}

pub open spec fn requires_diag(a: Seq<char>, b: Seq<char>) -> DiagnosticView {
    spec_diag("E006"@, "--"@ + a + " requires --"@ + b, "Also provide --"@ + b)
}

/// `format!("{}", i)` for an `i64`.
pub fn i64_text(n: i64) -> (out: String)
    ensures
        out@ == int_text(n as int),
{
    if n < 0 {
        let m: u64 = (0i128 - n as i128) as u64;
        let mut out = owned("-");
        proof {
            reveal_strlit("-");
        }
        push_all(&mut out, decimal_vec(m).as_slice());
        assert(m as int == -(n as int));
        assert(out@ =~= seq!['-'] + decimal(m as nat));
        out
    } else {
        let mut out = String::new();
        push_all(&mut out, decimal_vec(n as u64).as_slice());
        assert(out@ =~= decimal(n as nat));
        out
    }
}

fn missing_exec(name: &str) -> (d: Diagnostic)
    ensures
        d@ == missing_diag(name@),
{
    let mut m = owned("missing required argument '--");
    push_str(&mut m, name);
    push_str(&mut m, "'");
    let mut s = owned("Provide --");
    push_str(&mut s, name);
    push_str(&mut s, " <value>");
    proof {
        reveal_strlit("E003");
    }
    make_diag(E_MISSING_REQUIRED, m, s)
}

fn type_debug_exec(t: &ArgValueType) -> (out: String)
    ensures
        out@ == type_debug(*t),
{
    match t {
        ArgValueType::Str => owned("String"),
        ArgValueType::Bool => owned("Bool"),
        ArgValueType::Int => owned("Int"),
        ArgValueType::Float => owned("Float"),
        ArgValueType::Enum(vs) => {
            let ghost parts = strings(vs@).map_values(|s: Seq<char>| debug_repr(s));
            let mut out = owned("Enum([");
            let ghost start = out@;
            let mut i: usize = 0;
            while i < vs.len()
                invariant
                    i <= vs@.len(),
                    parts == strings(vs@).map_values(|s: Seq<char>| debug_repr(s)),
                    parts.len() == vs@.len(),
                    out@ == start + join_with(parts.take(i as int), ", "@),
                decreases vs.len() - i,
            {
                let ghost before = out@;
                if i > 0 {
                    push_str(&mut out, ", ");
                }
                let q = debug_quoted(vs[i].as_str());
                push_str(&mut out, q.as_str());
                proof {
                    let t = parts.take(i + 1);
                    assert(t.drop_last() =~= parts.take(i as int));
                    assert(t.last() == debug_repr(vs@[i as int]@));
                    if i == 0 {
                        assert(t.len() == 1);
                        assert(out@ =~= start + t[0]);
                    } else {
                        assert(out@ =~= start + (join_with(t.drop_last(), ", "@) + ", "@ + t.last()));
                    }
                }
                i = i + 1;
            }
            assert(parts.take(vs@.len() as int) =~= parts);
            push_str(&mut out, "])");
            out
        },
    }
}

fn type_exec(name: &str, t: &ArgValueType) -> (d: Diagnostic)
    ensures
        d@ == type_diag(name@, *t),
{
    let mut m = owned("invalid value type for '--");
    push_str(&mut m, name);
    push_str(&mut m, "': expected ");
    let td = type_debug_exec(t);
    push_str(&mut m, td.as_str());
    let mut s = owned("Provide a valid value for --");
    push_str(&mut s, name);
    proof {
        reveal_strlit("E004");
    }
    make_diag(E_INVALID_VALUE, m, s)
}

fn range_exec(name: &str, value: &str, bound: &str, below: bool) -> (d: Diagnostic)
    ensures
        below ==> d@ == below_diag(name@, value@, bound@),
        !below ==> d@ == above_diag(name@, value@, bound@),
{
    let mut m = owned("value ");
    push_str(&mut m, value);
    push_str(&mut m, " for '--");
    push_str(&mut m, name);
    let mut s = if below {
        push_str(&mut m, "' is below minimum ");
        owned("Provide a value >= ")
    } else {
        push_str(&mut m, "' is above maximum ");
        owned("Provide a value <= ")
    };
    push_str(&mut m, bound);
    push_str(&mut s, bound);
    push_str(&mut s, " for --");
    push_str(&mut s, name);
    proof {
        reveal_strlit("E004");
    }
    make_diag(E_INVALID_VALUE, m, s)
}

fn pair_exec(a: &str, b: &str, conflict: bool) -> (d: Diagnostic)
    ensures
        conflict ==> d@ == conflict_diag(a@, b@),
        !conflict ==> d@ == requires_diag(a@, b@),
{
    let mut m = owned("--");
    push_str(&mut m, a);
    if conflict {
        push_str(&mut m, " conflicts with --");
        push_str(&mut m, b);
        let mut s = owned("Remove --");
        push_str(&mut s, a);
        push_str(&mut s, " or --");
        push_str(&mut s, b);
        proof {
            reveal_strlit("E005");
        }
        make_diag(E_CONFLICT, m, s)
    } else {
        push_str(&mut m, " requires --");
        push_str(&mut m, b);
        let mut s = owned("Also provide --");
        push_str(&mut s, b);
        proof {
            reveal_strlit("E006");
        }
        make_diag(E_UNSATISFIED_REQUIRES, m, s)
    }
}

// ───────────────────────── value types ─────────────────────────

/// Whether a value has the declared type: counts always do, a list when
/// each element does, others by variant.
pub open spec fn value_matches(v: ArgValue, t: ArgValueType) -> bool
    decreases v,
{
    match v {
        ArgValue::Count(_) => true,
        ArgValue::List(vs) => all_match(vs@, t),
        ArgValue::Bool(_) => t is Bool,
        ArgValue::Str(_) => t is Str,
        ArgValue::Int(_) => t is Int,
        ArgValue::Float(_) => t is Float,
        ArgValue::Enum(_) => t is Enum,
    }
}

/// Whether every element has the declared type.
pub open spec fn all_match(vs: Seq<ArgValue>, t: ArgValueType) -> bool
    decreases vs,
{
    if vs.len() == 0 {
        true
    } else {
        value_matches(vs[0], t) && all_match(vs.subrange(1, vs.len() as int), t)
    }
}

/// Whether `value` has the type `t`.
pub fn value_matches_type(value: &ArgValue, t: &ArgValueType) -> (r: bool)
    ensures
        r == value_matches(*value, *t),
    decreases value,
{
    match value {
        ArgValue::Count(_) => true,
        ArgValue::List(vs) => {
            let mut i: usize = 0;
            assert(vs@.subrange(0, vs@.len() as int) =~= vs@);
            while i < vs.len()
                invariant
                    i <= vs@.len(),
                    *value == ArgValue::List(*vs),
                    value_matches(*value, *t) == all_match(vs@, *t),
                    all_match(vs@, *t) == all_match(vs@.subrange(i as int, vs@.len() as int), *t),
                decreases vs.len() - i,
            {
                let ghost rest = vs@.subrange(i as int, vs@.len() as int);
                assert(rest[0] == vs@[i as int]);
                assert(rest.subrange(1, rest.len() as int) =~= vs@.subrange(i + 1, vs@.len() as int));
                proof {
                    assert(decreases_to!(*value => vs));
                    assert(decreases_to!(vs => vs@));
                    assert(decreases_to!(vs@ => vs@[i as int]));
                }
                if !value_matches_type(&vs[i], t) {
                    return false;
                }
                i = i + 1;
            }
            true
        },
        ArgValue::Bool(_) => matches!(t, ArgValueType::Bool),
        ArgValue::Str(_) => matches!(t, ArgValueType::Str),
        ArgValue::Int(_) => matches!(t, ArgValueType::Int),
        ArgValue::Float(_) => matches!(t, ArgValueType::Float),
        ArgValue::Enum(_) => matches!(t, ArgValueType::Enum(_)),
    }
}

// ───────────────────────── the checks ─────────────────────────

/// What the caller found comparing a `Float` value with its arg's float
/// bounds, as rendered text: `(value, bound)` when the value is below the
/// minimum, or above the maximum.
#[derive(Debug, Clone)]
pub struct FloatBreach {
    pub arg: String,
    pub below_min: Option<(String, String)>,
    pub above_max: Option<(String, String)>,
}

/// The first finding reported for `name`.
pub open spec fn breach_for(bs: Seq<FloatBreach>, name: Seq<char>) -> Option<FloatBreach>
    decreases bs.len(),
{
    if bs.len() == 0 {
        None
    } else if bs[0].arg@ == name {
        Some(bs[0])
    } else {
        breach_for(bs.subrange(1, bs.len() as int), name)
    }
}

/// A required arg with no value.
pub open spec fn missing_of(s: ArgSpec, args: Seq<(Seq<char>, ArgValue)>) -> Seq<DiagnosticView> {
    if s.cardinality == Cardinality::Required && !has_value(args, s.name@) {
        seq![missing_diag(s.name@)]
    } else {
        Seq::empty()
    }
}

/// A value of the wrong type.
pub open spec fn types_of(s: ArgSpec, args: Seq<(Seq<char>, ArgValue)>) -> Seq<DiagnosticView> {
    match value_of(args, s.name@) {
        Some(v) => if !value_matches(v, s.value_type) {
            seq![type_diag(s.name@, s.value_type)]
        } else {
            Seq::empty()
        },
        None => Seq::empty(),
    }
}

/// An `Int` value outside the declared bounds.
pub open spec fn int_range_of(s: ArgSpec, i: i64) -> Seq<DiagnosticView> {
    (match s.min {
        Some(m) => if i < m {
            seq![below_diag(s.name@, int_text(i as int), int_text(m as int))]
        } else {
            Seq::empty()
        },
        None => Seq::empty(),
    }) + (match s.max {
        Some(m) => if i > m {
            seq![above_diag(s.name@, int_text(i as int), int_text(m as int))]
        } else {
            Seq::empty()
        },
        None => Seq::empty(),
    })
}

/// A `Float` value outside the declared bounds, as the caller found it.
pub open spec fn float_range_of(s: ArgSpec, b: Option<FloatBreach>) -> Seq<DiagnosticView> {
    match b {
        None => Seq::empty(),
        Some(b) => (match (s.min_f, b.below_min) {
            (Some(_), Some(p)) => seq![below_diag(s.name@, p.0@, p.1@)],
            _ => Seq::empty(),
        }) + (match (s.max_f, b.above_max) {
            (Some(_), Some(p)) => seq![above_diag(s.name@, p.0@, p.1@)],
            _ => Seq::empty(),
        }),
    }
}

/// What a pattern check found.
pub open spec fn pattern_of(name: Seq<char>, text: Seq<char>, pattern: Seq<char>, outcome: Result<
    bool,
    Seq<char>,
>) -> Seq<DiagnosticView> {
    match outcome {
        Ok(true) => Seq::empty(),
        Ok(false) => seq![mismatch_diag(name, text, pattern)],
        Err(e) => seq![bad_pattern_diag(name, pattern, e)],
    }
}

/// Range and pattern findings for the arg's value.
pub open spec fn constraints_of(s: ArgSpec, args: Seq<(Seq<char>, ArgValue)>, bs: Seq<FloatBreach>) -> Seq<
    DiagnosticView,
> {
    match value_of(args, s.name@) {
        Some(ArgValue::Int(i)) => int_range_of(s, i),
        Some(ArgValue::Float(_)) => float_range_of(s, breach_for(bs, s.name@)),
        Some(ArgValue::Str(t)) => match s.pattern {
            Some(p) => pattern_of(s.name@, t@, p@, pattern_outcome(p@, t@)),
            None => Seq::empty(),
        },
        _ => Seq::empty(),
    }
}

/// One diagnostic per name in `others` that has a value (`conflict`) or
/// lacks one (otherwise).
pub open spec fn pairs_of(a: Seq<char>, others: Seq<Seq<char>>, args: Seq<(Seq<char>, ArgValue)>, conflict: bool) -> Seq<
    DiagnosticView,
>
    decreases others.len(),
{
    if others.len() == 0 {
        Seq::empty()
    } else {
        let b = others.last();
        pairs_of(a, others.drop_last(), args, conflict) + if conflict && has_value(args, b) {
            seq![conflict_diag(a, b)]
        } else if !conflict && !has_value(args, b) {
            seq![requires_diag(a, b)]
        } else {
            Seq::empty()
        }
    }
}

/// Conflicting args given with a present arg.
pub open spec fn conflicts_of(s: ArgSpec, args: Seq<(Seq<char>, ArgValue)>) -> Seq<DiagnosticView> {
    if has_value(args, s.name@) {
        pairs_of(s.name@, strings(s.conflicts_with@), args, true)
    } else {
        Seq::empty()
    }
}

/// Args a present arg requires and that are missing.
pub open spec fn requires_of(s: ArgSpec, args: Seq<(Seq<char>, ArgValue)>) -> Seq<DiagnosticView> {
    if has_value(args, s.name@) {
        pairs_of(s.name@, strings(s.requires@), args, false)
    } else {
        Seq::empty()
    }
}

/// The findings of one check for one arg: required (0), type (1),
/// constraints (2), conflicts (3), requirements (4).
pub open spec fn check_of(stage: nat, s: ArgSpec, args: Seq<(Seq<char>, ArgValue)>, bs: Seq<FloatBreach>) -> Seq<
    DiagnosticView,
> {
    if stage == 0 {
        missing_of(s, args)
    } else if stage == 1 {
        types_of(s, args)
    } else if stage == 2 {
        constraints_of(s, args, bs)
    } else if stage == 3 {
        conflicts_of(s, args)
    } else {
        requires_of(s, args)
    }
}

/// One check run over the args in declaration order.
pub open spec fn check_over(stage: nat, specs: Seq<ArgSpec>, args: Seq<(Seq<char>, ArgValue)>, bs: Seq<FloatBreach>) -> Seq<
    DiagnosticView,
>
    decreases specs.len(),
{
    if specs.len() == 0 {
        Seq::empty()
    } else {
        check_over(stage, specs.drop_last(), args, bs) + check_of(stage, specs.last(), args, bs)
    }
}

/// All findings: every required arg first, then types, constraints,
/// conflicts and requirements, each over the args in declaration order.
pub open spec fn validation(specs: Seq<ArgSpec>, args: Seq<(Seq<char>, ArgValue)>, bs: Seq<FloatBreach>) -> Seq<
    DiagnosticView,
> {
    check_over(0, specs, args, bs) + check_over(1, specs, args, bs) + check_over(2, specs, args, bs)
        + check_over(3, specs, args, bs) + check_over(4, specs, args, bs)
}

/// The diagnostics for a pattern check's outcome.
pub fn pattern_findings(name: &str, text: &str, pattern: &str, outcome: &Result<bool, String>) -> (out: Vec<
    Diagnostic,
>)
    ensures
        diag_views(out@) == pattern_of(name@, text@, pattern@, outcome_view(*outcome)),
{
    let mut out: Vec<Diagnostic> = Vec::new();
    match outcome {
        Ok(true) => {},
        Ok(false) => {
            let mut m = owned("value '");
            push_str(&mut m, text);
            push_str(&mut m, "' for '--");
            push_str(&mut m, name);
            push_str(&mut m, "' does not match pattern '");
            push_str(&mut m, pattern);
            push_str(&mut m, "'");
            let mut s = owned("Provide a value matching '");
            push_str(&mut s, pattern);
            push_str(&mut s, "' for --");
            push_str(&mut s, name);
            proof {
                reveal_strlit("E004");
            }
            push_diag(&mut out, make_diag(E_INVALID_VALUE, m, s));
        },
        Err(e) => {
            let mut m = owned("invalid pattern '");
            push_str(&mut m, pattern);
            push_str(&mut m, "' for '--");
            push_str(&mut m, name);
            push_str(&mut m, "': ");
            push_str(&mut m, e.as_str());
            let mut s = owned("Fix the pattern spec for --");
            push_str(&mut s, name);
            proof {
                reveal_strlit("E004");
            }
            push_diag(&mut out, make_diag(E_INVALID_VALUE, m, s));
        },
    }
    assert(diag_views(out@) =~= pattern_of(name@, text@, pattern@, outcome_view(*outcome)));
    out
}

fn breach_lookup<'a>(bs: &'a [FloatBreach], name: &str) -> (r: Option<&'a FloatBreach>)
    ensures
        match r {
            Some(b) => breach_for(bs@, name@) == Some(*b),
            None => breach_for(bs@, name@) is None,
        },
{
    let mut i: usize = 0;
    assert(bs@.subrange(0, bs@.len() as int) =~= bs@);
    while i < bs.len()
        invariant
            i <= bs@.len(),
            breach_for(bs@, name@) == breach_for(bs@.subrange(i as int, bs@.len() as int), name@),
        decreases bs.len() - i,
    {
        let ghost rest = bs@.subrange(i as int, bs@.len() as int);
        assert(rest[0] == bs@[i as int]);
        assert(rest.subrange(1, rest.len() as int) =~= bs@.subrange(i + 1, bs@.len() as int));
        if str_eq(bs[i].arg.as_str(), name) {
            return Some(&bs[i]);
        }
        i = i + 1;
    }
    None
}

fn append_all(out: &mut Vec<Diagnostic>, more: Vec<Diagnostic>)
    ensures
        diag_views(final(out)@) == diag_views(old(out)@) + diag_views(more@),
{
    let ghost before = out@;
    let mut more = more;
    let ghost m = more@;
    out.append(&mut more);
    assert(diag_views(out@) =~= diag_views(before) + diag_views(m));
}

fn constraints_exec(s: &ArgSpec, args: &ArgValues, bs: &[FloatBreach], out: &mut Vec<Diagnostic>)
    ensures
        diag_views(final(out)@) == diag_views(old(out)@) + constraints_of(*s, args@, bs@),
{
    let ghost start = diag_views(out@);
    match args.get(s.name.as_str()) {
        Some(ArgValue::Int(i)) => {
            if let Some(m) = s.min {
                if *i < m {
                    let vt = i64_text(*i);
                    let bt = i64_text(m);
                    push_diag(out, range_exec(s.name.as_str(), vt.as_str(), bt.as_str(), true));
                }
            }
            let ghost mid = diag_views(out@);
            if let Some(m) = s.max {
                if *i > m {
                    let vt = i64_text(*i);
                    let bt = i64_text(m);
                    push_diag(out, range_exec(s.name.as_str(), vt.as_str(), bt.as_str(), false));
                }
            }
            assert(diag_views(out@) =~= start + constraints_of(*s, args@, bs@));
        },
        Some(ArgValue::Float(_)) => {
            match breach_lookup(bs, s.name.as_str()) {
                Some(b) => {
                    if s.min_f.is_some() {
                        if let Some(p) = &b.below_min {
                            push_diag(out, range_exec(s.name.as_str(), p.0.as_str(), p.1.as_str(), true));
                        }
                    }
                    if s.max_f.is_some() {
                        if let Some(p) = &b.above_max {
                            push_diag(out, range_exec(s.name.as_str(), p.0.as_str(), p.1.as_str(), false));
                        }
                    }
                },
                None => {},
            }
            assert(diag_views(out@) =~= start + constraints_of(*s, args@, bs@));
        },
        Some(ArgValue::Str(t)) => {
            match &s.pattern {
                Some(p) => {
                    let outcome = match_pattern(p.as_str(), t.as_str());
                    let found = pattern_findings(s.name.as_str(), t.as_str(), p.as_str(), &outcome);
                    append_all(out, found);
                },
                None => {},
            }
            assert(diag_views(out@) =~= start + constraints_of(*s, args@, bs@));
        },
        _ => {
            assert(diag_views(out@) =~= start + constraints_of(*s, args@, bs@));
        },
    }
}

fn pairs_exec(a: &str, others: &Vec<String>, args: &ArgValues, conflict: bool, out: &mut Vec<Diagnostic>)
    ensures
        diag_views(final(out)@) == diag_views(old(out)@) + pairs_of(a@, strings(others@), args@, conflict),
{
    let ghost start = diag_views(out@);
    let ghost os = strings(others@);
    let mut i: usize = 0;
    while i < others.len()
        invariant
            i <= others@.len(),
            os == strings(others@),
            diag_views(out@) == start + pairs_of(a@, os.take(i as int), args@, conflict),
        decreases others.len() - i,
    {
        let ghost before = diag_views(out@);
        proof {
            assert(os.take(i + 1).drop_last() =~= os.take(i as int));
            assert(os.take(i + 1).last() == others@[i as int]@);
        }
        let present = args.contains_key(others[i].as_str());
        if conflict && present {
            push_diag(out, pair_exec(a, others[i].as_str(), true));
        } else if !conflict && !present {
            push_diag(out, pair_exec(a, others[i].as_str(), false));
        }
        assert(diag_views(out@) =~= start + pairs_of(a@, os.take(i + 1), args@, conflict));
        i = i + 1;
    }
    assert(os.take(others@.len() as int) =~= os);
}

fn check_exec(stage: u8, s: &ArgSpec, args: &ArgValues, bs: &[FloatBreach], out: &mut Vec<Diagnostic>)
    requires
        stage <= 4,
    ensures
        diag_views(final(out)@) == diag_views(old(out)@) + check_of(stage as nat, *s, args@, bs@),
{
    let ghost start = diag_views(out@);
    if stage == 0 {
        if s.cardinality == Cardinality::Required && !args.contains_key(s.name.as_str()) {
            push_diag(out, missing_exec(s.name.as_str()));
        }
        assert(diag_views(out@) =~= start + check_of(stage as nat, *s, args@, bs@));
    } else if stage == 1 {
        match args.get(s.name.as_str()) {
            Some(v) => {
                if !value_matches_type(v, &s.value_type) {
                    push_diag(out, type_exec(s.name.as_str(), &s.value_type));
                }
            },
            None => {},
        }
        assert(diag_views(out@) =~= start + check_of(stage as nat, *s, args@, bs@));
    } else if stage == 2 {
        constraints_exec(s, args, bs, out);
    } else if stage == 3 {
        if args.contains_key(s.name.as_str()) {
            pairs_exec(s.name.as_str(), &s.conflicts_with, args, true, out);
        }
        assert(diag_views(out@) =~= start + check_of(stage as nat, *s, args@, bs@));
    } else {
        if args.contains_key(s.name.as_str()) {
            pairs_exec(s.name.as_str(), &s.requires, args, false, out);
        }
        assert(diag_views(out@) =~= start + check_of(stage as nat, *s, args@, bs@));
    }
}

/// Run one check over every declared arg, appending what it finds.
fn check_over_exec(stage: u8, specs: &Vec<ArgSpec>, args: &ArgValues, bs: &[FloatBreach], out: &mut Vec<Diagnostic>)
    requires
        stage <= 4,
    ensures
        diag_views(final(out)@) == diag_views(old(out)@) + check_over(stage as nat, specs@, args@, bs@),
{
    let ghost start = diag_views(out@);
    let mut i: usize = 0;
    while i < specs.len()
        invariant
            stage <= 4,
            i <= specs@.len(),
            diag_views(out@) == start + check_over(stage as nat, specs@.take(i as int), args@, bs@),
        decreases specs.len() - i,
    {
        let ghost before = diag_views(out@);
        check_exec(stage, &specs[i], args, bs, out);
        proof {
            let t = specs@.take(i + 1);
            assert(t.drop_last() =~= specs@.take(i as int));
            assert(t.last() == specs@[i as int]);
        }
        assert(diag_views(out@) =~= start + check_over(stage as nat, specs@.take(i + 1), args@, bs@));
        i = i + 1;
    }
    assert(specs@.take(specs@.len() as int) =~= specs@);
}

/// Check argument values against their declarations. Comparing `Float`
/// values with their bounds is the caller's: what it found comes in
/// `float_breaches`, by arg name.
pub fn validate_args(specs: &Vec<ArgSpec>, args: &ArgValues, float_breaches: &[FloatBreach]) -> (out: Vec<
    Diagnostic,
>)
    ensures
        diag_views(out@) == validation(specs@, args@, float_breaches@),
{
    let mut out: Vec<Diagnostic> = Vec::new();
    assert(diag_views(out@) =~= Seq::<DiagnosticView>::empty());
    check_over_exec(0, specs, args, float_breaches, &mut out);
    check_over_exec(1, specs, args, float_breaches, &mut out);
    check_over_exec(2, specs, args, float_breaches, &mut out);
    check_over_exec(3, specs, args, float_breaches, &mut out);
    check_over_exec(4, specs, args, float_breaches, &mut out);
    assert(diag_views(out@) =~= validation(specs@, args@, float_breaches@));
    out
}

proof fn lemma_check_over_has(
    stage: nat,
    specs: Seq<ArgSpec>,
    args: Seq<(Seq<char>, ArgValue)>,
    bs: Seq<FloatBreach>,
    k: int,
    x: DiagnosticView,
)
    requires
        0 <= k < specs.len(),
        check_of(stage, specs[k], args, bs).contains(x),
    ensures
        check_over(stage, specs, args, bs).contains(x),
    decreases specs.len(),
{
    let a = check_over(stage, specs.drop_last(), args, bs);
    let b = check_of(stage, specs.last(), args, bs);
    assert(check_over(stage, specs, args, bs) == a + b);
    if k == specs.len() - 1 {
        let j = choose|j: int| 0 <= j < b.len() && b[j] == x;
        assert((a + b)[a.len() + j] == x);
    } else {
        assert(specs.drop_last()[k] == specs[k]);
        lemma_check_over_has(stage, specs.drop_last(), args, bs, k, x);
        let j = choose|j: int| 0 <= j < a.len() && a[j] == x;
        assert((a + b)[j] == x);
    }
}

proof fn lemma_constraint_in_validation(
    specs: Seq<ArgSpec>,
    args: Seq<(Seq<char>, ArgValue)>,
    bs: Seq<FloatBreach>,
    k: int,
    x: DiagnosticView,
)
    requires
        0 <= k < specs.len(),
        constraints_of(specs[k], args, bs).contains(x),
    ensures
        validation(specs, args, bs).contains(x),
{
    lemma_check_over_has(2, specs, args, bs, k, x);
    let pre = check_over(0, specs, args, bs) + check_over(1, specs, args, bs);
    let c = check_over(2, specs, args, bs);
    let rest3 = check_over(3, specs, args, bs);
    let rest4 = check_over(4, specs, args, bs);
    let j = choose|j: int| 0 <= j < c.len() && c[j] == x;
    assert(validation(specs, args, bs) == pre + c + rest3 + rest4);
    assert((pre + c + rest3 + rest4)[pre.len() + j] == x);
}

/// A float argument outside a declared bound is reported: when the
/// caller's comparison found the value above the declared maximum (or
/// below the declared minimum), validation holds the E004 diagnostic that
/// names the argument, the value and the bound.
pub proof fn law_a_float_out_of_range_is_reported(
    specs: Seq<ArgSpec>,
    args: Seq<(Seq<char>, ArgValue)>,
    bs: Seq<FloatBreach>,
    k: int,
)
    requires
        0 <= k < specs.len(),
        value_of(args, specs[k].name@) matches Some(ArgValue::Float(_)),
        breach_for(bs, specs[k].name@) is Some,
    ensures
        ({
            let b = breach_for(bs, specs[k].name@)->0;
            &&& specs[k].max_f is Some ==> (b.above_max matches Some(p) ==> validation(specs, args, bs).contains(
                above_diag(specs[k].name@, p.0@, p.1@),
            ))
            &&& specs[k].min_f is Some ==> (b.below_min matches Some(p) ==> validation(specs, args, bs).contains(
                below_diag(specs[k].name@, p.0@, p.1@),
            ))
        }),
{
    let s = specs[k];
    let b = breach_for(bs, s.name@)->0;
    let c = constraints_of(s, args, bs);
    assert(c == float_range_of(s, Some(b)));
    if s.max_f is Some && b.above_max is Some {
        let p = b.above_max->0;
        let x = above_diag(s.name@, p.0@, p.1@);
        assert(c[c.len() - 1] == x);
        lemma_constraint_in_validation(specs, args, bs, k, x);
    }
    if s.min_f is Some && b.below_min is Some {
        let p = b.below_min->0;
        let x = below_diag(s.name@, p.0@, p.1@);
        assert(c[0] == x);
        lemma_constraint_in_validation(specs, args, bs, k, x);
    }
}

} // verus!
