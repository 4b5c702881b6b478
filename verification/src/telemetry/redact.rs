//! What may be recorded, as pure functions of a key and a telemetry level.
//!
//! Three rules compose, in this order:
//!
//! 1. **Never-list wins over everything.** A key whose name contains
//!    `password`, `secret`, `token`, `authorization`, `cookie` or `api_key`
//!    (case-insensitive substring, plus whatever the author added) is dropped
//!    at every telemetry level including debug. The whole keys of
//!    [`never_keys`] are dropped too, and [`never_list_exempt`] carves out the
//!    one framework key the substring rule would otherwise make unreachable.
//! 2. **A key has a minimum telemetry level.** `exception.message` is
//!    debug-only, `error.type` is diagnostic-and-up, everything else the
//!    framework declares is usage-and-up.
//! 3. **An application attribute needs the author's allowlist.** A
//!    framework-prefixed key is already governed by rule 2.

use crate::telemetry::axes::{level_rank, TelemetryLevel};
use crate::telemetry::policy::TelemetryPolicy;
use crate::text::{
    chars_of, clone_strings, contains, contains_seq, is_prefix_of, lower_seq, lower_vec,
    starts_with, str_eq, str_in, string_in, strings, strs, trim_seq, trim_vec,
};
use vstd::prelude::*;

verus! {

/// One recorded attribute: a key and its value as text.
#[derive(Debug, PartialEq, Eq)]
pub struct Attr {
    pub key: String,
    pub value: String,
}

impl Clone for Attr {
    fn clone(&self) -> (r: Self)
        ensures
            r == *self,
    {
        Attr { key: self.key.clone(), value: self.value.clone() }
    }
}

pub open spec fn attr_view(a: Attr) -> (Seq<char>, Seq<char>) {
    (a.key@, a.value@)
}

/// The keys and values of a list of attributes.
pub open spec fn attrs_view(v: Seq<Attr>) -> Seq<(Seq<char>, Seq<char>)> {
    v.map_values(|a: Attr| attr_view(a))
}

/// Fragments that make a key a credential at every level.
pub open spec fn never_list() -> Seq<Seq<char>> {
    seq!["password"@, "secret"@, "token"@, "authorization"@, "cookie"@, "api_key"@]
}

/// Whole keys forbidden at any level: raw URLs, the host name and the
/// command line. Exact matches, lower-cased.
pub open spec fn never_keys() -> Seq<Seq<char>> {
    seq!["url.full"@, "url.path"@, "url.query"@, "host.name"@, "process.command_line"@]
}

/// Framework keys exempt from the never-list's substring match.
pub open spec fn never_list_exempt() -> Seq<Seq<char>> {
    seq!["cli.usage_error.token"@]
}

pub open spec fn metric_label_allowlist() -> Seq<Seq<char>> {
    seq![
        "command"@,
        "surface"@,
        "status"@,
        "kind"@,
        "feature"@,
        "check"@,
        "severity"@,
        "tool"@,
        "plugin"@,
        "http.route"@,
        "http.request.method"@,
        "http.response.status_code"@,
    ]
}

pub open spec fn framework_prefixes() -> Seq<Seq<char>> {
    seq![
        "cli."@,
        "http."@,
        "mcp."@,
        "otel."@,
        "exception."@,
        "panic."@,
        "error."@,
        "session."@,
        "service."@,
        "telemetry."@,
        "url."@,
        "rpc."@,
        "server."@,
    ]
}

pub open spec fn framework_bare_keys() -> Seq<Seq<char>> {
    seq![
        "command"@,
        "surface"@,
        "status"@,
        "kind"@,
        "feature"@,
        "check"@,
        "severity"@,
        "tool"@,
        "plugin"@,
        "duration_ms"@,
    ]
}

/// Keys recorded only from a level above `usage`.
pub open spec fn elevated() -> Seq<(Seq<char>, TelemetryLevel)> {
    seq![
        ("exception.message"@, TelemetryLevel::Debug),
        ("exception.stacktrace"@, TelemetryLevel::Debug),
        ("panic.message"@, TelemetryLevel::Debug),
        ("cli.command.arg_values"@, TelemetryLevel::Debug),
        ("cli.usage_error.token"@, TelemetryLevel::Debug),
        ("error.type"@, TelemetryLevel::Diagnostic),
        ("cli.command.args"@, TelemetryLevel::Diagnostic),
        ("server.address"@, TelemetryLevel::Diagnostic),
        ("http.client.server_address"@, TelemetryLevel::Diagnostic),
    ]
}

/// The key every instrumentation site declares its probe under.
pub open spec fn probe_attr_key() -> Seq<char> {
    "cli.probe"@
}

pub fn never_list_fragments() -> (out: Vec<&'static str>)
    ensures
        strs(out@) == never_list(),
{
    let out = vec!["password", "secret", "token", "authorization", "cookie", "api_key"];
    assert(strs(out@) =~= never_list());
    out
}

pub fn never_whole_keys() -> (out: Vec<&'static str>)
    ensures
        strs(out@) == never_keys(),
{
    let out = vec!["url.full", "url.path", "url.query", "host.name", "process.command_line"];
    assert(strs(out@) =~= never_keys());
    out
}

pub fn metric_labels() -> (out: Vec<&'static str>)
    ensures
        strs(out@) == metric_label_allowlist(),
{
    let out = vec![
        "command",
        "surface",
        "status",
        "kind",
        "feature",
        "check",
        "severity",
        "tool",
        "plugin",
        "http.route",
        "http.request.method",
        "http.response.status_code",
    ];
    assert(strs(out@) =~= metric_label_allowlist());
    out
}

fn prefixes() -> (out: Vec<&'static str>)
    ensures
        strs(out@) == framework_prefixes(),
{
    let out = vec![
        "cli.",
        "http.",
        "mcp.",
        "otel.",
        "exception.",
        "panic.",
        "error.",
        "session.",
        "service.",
        "telemetry.",
        "url.",
        "rpc.",
        "server.",
    ];
    assert(strs(out@) =~= framework_prefixes());
    out
}

fn bare_keys() -> (out: Vec<&'static str>)
    ensures
        strs(out@) == framework_bare_keys(),
{
    let out = vec![
        "command",
        "surface",
        "status",
        "kind",
        "feature",
        "check",
        "severity",
        "tool",
        "plugin",
        "duration_ms",
    ];
    assert(strs(out@) =~= framework_bare_keys());
    out
}

fn elevated_table() -> (out: Vec<(&'static str, TelemetryLevel)>)
    ensures
        out@.map_values(|p: (&'static str, TelemetryLevel)| (p.0@, p.1)) == elevated(),
{
    let out = vec![
        ("exception.message", TelemetryLevel::Debug),
        ("exception.stacktrace", TelemetryLevel::Debug),
        ("panic.message", TelemetryLevel::Debug),
        ("cli.command.arg_values", TelemetryLevel::Debug),
        ("cli.usage_error.token", TelemetryLevel::Debug),
        ("error.type", TelemetryLevel::Diagnostic),
        ("cli.command.args", TelemetryLevel::Diagnostic),
        ("server.address", TelemetryLevel::Diagnostic),
        ("http.client.server_address", TelemetryLevel::Diagnostic),
    ];
    assert(out@.map_values(|p: (&'static str, TelemetryLevel)| (p.0@, p.1)) =~= elevated());
    out
}

/// Is this key on the never-list, built-in or author-extended? Blank
/// author fragments are ignored: a stray `""` would otherwise strip every
/// attribute.
pub open spec fn never_listed(key: Seq<char>, extra: Seq<Seq<char>>) -> bool {
    let lowered = lower_seq(key);
    ||| never_keys().contains(lowered)
    ||| exists|i: int|
        0 <= i < extra.len() && trim_seq(extra[i]).len() > 0 && contains_seq(
            lowered,
            lower_seq(#[trigger] extra[i]),
        )
    ||| (!never_list_exempt().contains(key) && exists|i: int|
        0 <= i < never_list().len() && contains_seq(lowered, #[trigger] never_list()[i]))
}

/// Whether some fragment of `frags` occurs in `s`.
fn any_fragment_in(s: &Vec<char>, frags: &Vec<&'static str>) -> (r: bool)
    ensures
        r == exists|i: int| 0 <= i < frags@.len() && contains_seq(s@, #[trigger] strs(frags@)[i]),
{
    let mut i: usize = 0;
    while i < frags.len()
        invariant
            i <= frags@.len(),
            forall|j: int| 0 <= j < i ==> !contains_seq(s@, #[trigger] strs(frags@)[j]),
        decreases frags.len() - i,
    {
        let f = chars_of(frags[i]);
        assert(strs(frags@)[i as int] == frags@[i as int]@);
        if contains(s.as_slice(), f.as_slice()) {
            return true;
        }
        i = i + 1;
    }
    false
}

/// Is this key on the never-list, built-in or author-extended?
pub fn is_never_listed(key: &str, extra: &[String]) -> (r: bool)
    ensures
        r == never_listed(key@, strings(extra@)),
{
    let lowered = lower_vec(chars_of(key).as_slice());
    let lowered_str = crate::text::string_of(lowered.as_slice());
    // Whole keys the specification forbids outright.
    if str_in(never_whole_keys().as_slice(), lowered_str.as_str()) {
        return true;
    }
    // The author's own additions, before the exemption.
    let mut i: usize = 0;
    while i < extra.len()
        invariant
            i <= extra@.len(),
            lowered@ == lower_seq(key@),
            forall|j: int|
                0 <= j < i ==> !(trim_seq(strings(extra@)[j]).len() > 0 && contains_seq(
                    lowered@,
                    lower_seq(#[trigger] strings(extra@)[j]),
                )),
        decreases extra.len() - i,
    {
        let f = chars_of(extra[i].as_str());
        assert(strings(extra@)[i as int] == extra@[i as int]@);
        let trimmed = trim_vec(f.as_slice());
        if trimmed.len() > 0 {
            let lf = lower_vec(f.as_slice());
            if contains(lowered.as_slice(), lf.as_slice()) {
                return true;
            }
        }
        i = i + 1;
    }
    if str_eq(key, "cli.usage_error.token") {
        assert(never_list_exempt().contains(key@)) by {
            assert(never_list_exempt()[0] == key@);
        }
        return false;
    }
    assert(!never_list_exempt().contains(key@)) by {
        if never_list_exempt().contains(key@) {
            assert(never_list_exempt()[0] == key@);
        }
    }
    let frags = never_list_fragments();
    any_fragment_in(&lowered, &frags)
}

/// The level an elevated key needs; `usage` for every other key.
pub open spec fn min_level_in(table: Seq<(Seq<char>, TelemetryLevel)>, key: Seq<char>) -> TelemetryLevel
    decreases table.len(),
{
    if table.len() == 0 {
        TelemetryLevel::Usage
    } else if table[0].0 == key {
        table[0].1
    } else {
        min_level_in(table.drop_first(), key)
    }
}

/// The lowest telemetry level at which this key may be recorded.
pub fn attribute_min_level(key: &str) -> (l: TelemetryLevel)
    ensures
        l == min_level_in(elevated(), key@),
{
    let table = elevated_table();
    let ghost t = table@.map_values(|p: (&'static str, TelemetryLevel)| (p.0@, p.1));
    let mut i: usize = 0;
    assert(t.subrange(0, t.len() as int) =~= t);
    while i < table.len()
        invariant
            i <= table@.len(),
            t == table@.map_values(|p: (&'static str, TelemetryLevel)| (p.0@, p.1)),
            t == elevated(),
            min_level_in(t, key@) == min_level_in(t.subrange(i as int, t.len() as int), key@),
        decreases table.len() - i,
    {
        let ghost rest = t.subrange(i as int, t.len() as int);
        assert(rest.drop_first() =~= t.subrange(i + 1, t.len() as int));
        assert(rest[0] == (table@[i as int].0@, table@[i as int].1));
        if str_eq(table[i].0, key) {
            return table[i].1;
        }
        i = i + 1;
    }
    TelemetryLevel::Usage
}

/// May this key appear as a metric label?
pub fn metric_label_is_allowed(key: &str) -> (r: bool)
    ensures
        r == metric_label_allowlist().contains(key@),
{
    str_in(metric_labels().as_slice(), key)
}

/// The probe id an instrumentation site declared: the value of the first
/// `cli.probe` attribute.
pub open spec fn probe_of_spec(attrs: Seq<Attr>) -> Option<Seq<char>>
    decreases attrs.len(),
{
    if attrs.len() == 0 {
        None
    } else if attrs[0].key@ == probe_attr_key() {
        Some(attrs[0].value@)
    } else {
        probe_of_spec(attrs.drop_first())
    }
}

/// Read the probe id an instrumentation site declared.
pub fn probe_of(attrs: &[Attr]) -> (r: Option<&str>)
    ensures
        match r {
            Some(v) => probe_of_spec(attrs@) == Some(v@),
            None => probe_of_spec(attrs@) is None,
        },
{
    let mut i: usize = 0;
    assert(attrs@.subrange(0, attrs@.len() as int) =~= attrs@);
    while i < attrs.len()
        invariant
            i <= attrs@.len(),
            probe_of_spec(attrs@) == probe_of_spec(attrs@.subrange(i as int, attrs@.len() as int)),
        decreases attrs.len() - i,
    {
        let ghost rest = attrs@.subrange(i as int, attrs@.len() as int);
        assert(rest.drop_first() =~= attrs@.subrange(i + 1, attrs@.len() as int));
        if str_eq(attrs[i].key.as_str(), "cli.probe") {
            return Some(attrs[i].value.as_str());
        }
        i = i + 1;
    }
    None
}

/// A key governed by the framework's own level table.
pub open spec fn is_framework_key(key: Seq<char>) -> bool {
    (exists|i: int|
        0 <= i < framework_prefixes().len() && is_prefix_of(#[trigger] framework_prefixes()[i], key))
        || framework_bare_keys().contains(key)
}

/// The whole decision for one attribute.
pub open spec fn keeps(
    level: TelemetryLevel,
    allow: Seq<Seq<char>>,
    extra: Seq<Seq<char>>,
    key: Seq<char>,
) -> bool {
    &&& !never_listed(key, extra)
    &&& level != TelemetryLevel::Off
    &&& (is_framework_key(key) || allow.contains(key))
    &&& level_rank(level) >= level_rank(min_level_in(elevated(), key))
}

/// The three rules, bound to one resolved policy.
#[derive(Debug, Clone)]
pub struct RedactionRules {
    pub level: TelemetryLevel,
    /// Application attribute keys the author declared.
    pub app_attr_allowlist: Vec<String>,
    /// Extra never-list fragments the author added.
    pub extra_never: Vec<String>,
}

fn is_framework_key_exec(key: &str) -> (r: bool)
    ensures
        r == is_framework_key(key@),
{
    let k = chars_of(key);
    let ps = prefixes();
    let mut i: usize = 0;
    while i < ps.len()
        invariant
            i <= ps@.len(),
            k@ == key@,
            strs(ps@) == framework_prefixes(),
            forall|j: int| 0 <= j < i ==> !is_prefix_of(#[trigger] framework_prefixes()[j], key@),
        decreases ps.len() - i,
    {
        let p = chars_of(ps[i]);
        assert(strs(ps@)[i as int] == ps@[i as int]@);
        if starts_with(k.as_slice(), p.as_slice()) {
            return true;
        }
        i = i + 1;
    }
    str_in(bare_keys().as_slice(), key)
}

impl RedactionRules {
    pub fn from_policy(policy: &TelemetryPolicy) -> (r: Self)
        ensures
            r.level == policy.level,
            r.app_attr_allowlist@ == policy.app_attr_allowlist@,
            r.extra_never@ == policy.extra_never@,
    {
        RedactionRules {
            level: policy.level,
            app_attr_allowlist: clone_strings(&policy.app_attr_allowlist),
            extra_never: clone_strings(&policy.extra_never),
        }
    }

    pub open spec fn keeps_spec(&self, key: Seq<char>) -> bool {
        keeps(self.level, strings(self.app_attr_allowlist@), strings(self.extra_never@), key)
    }

    /// The whole decision for one attribute.
    pub fn keeps_attribute(&self, key: &str) -> (r: bool)
        ensures
            r == self.keeps_spec(key@),
    {
        // 1. Never-list first, so nothing below can override it.
        if is_never_listed(key, self.extra_never.as_slice()) {
            return false;
        }
        // 2. Off records nothing at all.
        if self.level == TelemetryLevel::Off {
            return false;
        }
        // 3. Application attributes need the author's allowlist.
        if !is_framework_key_exec(key) && !string_in(self.app_attr_allowlist.as_slice(), key) {
            return false;
        }
        // 4. Framework keys carry a minimum telemetry level.
        self.level.rank() >= attribute_min_level(key).rank()
    }

    /// Drop everything `keeps_attribute` rejects, in place, keeping the order
    /// of the rest.
    pub fn retain_attributes(&self, attrs: &mut Vec<Attr>)
        ensures
            final(attrs)@ == old(attrs)@.filter(|a: Attr| self.keeps_spec(a.key@)),
    {
        let ghost pred = |a: Attr| self.keeps_spec(a.key@);
        let mut kept: Vec<Attr> = Vec::new();
        let mut i: usize = 0;
        let ghost orig = attrs@;
        while i < attrs.len()
            invariant
                i <= attrs@.len(),
                attrs@ == orig,
                kept@ == orig.take(i as int).filter(pred),
                pred == (|a: Attr| self.keeps_spec(a.key@)),
            decreases attrs.len() - i,
        {
            proof {
                reveal(Seq::filter);
                assert(orig.take(i + 1).drop_last() =~= orig.take(i as int));
                assert(orig.take(i + 1).last() == orig[i as int]);
            }
            if self.keeps_attribute(attrs[i].key.as_str()) {
                kept.push(attrs[i].clone());
            }
            i = i + 1;
        }
        assert(orig.take(orig.len() as int) =~= orig);
        *attrs = kept;
    }
}

/// A never-listed key is dropped at every level, whatever the allowlist says.
pub proof fn law_never_list_wins(
    level: TelemetryLevel,
    allow: Seq<Seq<char>>,
    extra: Seq<Seq<char>>,
    key: Seq<char>,
)
    requires
        never_listed(key, extra),
    ensures
        !keeps(level, allow, extra, key),
{
}

/// `off` records nothing at all.
pub proof fn law_off_keeps_nothing(allow: Seq<Seq<char>>, extra: Seq<Seq<char>>, key: Seq<char>)
    ensures
        !keeps(TelemetryLevel::Off, allow, extra, key),
{
}

/// Raising the level never drops an attribute that a lower level kept.
pub proof fn law_keeps_is_monotone_in_level(
    lo: TelemetryLevel,
    hi: TelemetryLevel,
    allow: Seq<Seq<char>>,
    extra: Seq<Seq<char>>,
    key: Seq<char>,
)
    requires
        level_rank(lo) <= level_rank(hi),
        keeps(lo, allow, extra, key),
    ensures
        keeps(hi, allow, extra, key),
{
}

/// Keys that carry raw user text (exception and panic messages, stack
/// traces, argument values, the token of a usage error) are recorded only
/// at the debug level; error types, argument names and server addresses
/// need at least the diagnostic level; nothing is recorded when telemetry
/// is off, nothing never-listed is recorded, and an application's own key
/// only when the author allowed it.
pub proof fn law_elevated_keys_need_their_level(
    level: TelemetryLevel,
    allow: Seq<Seq<char>>,
    extra: Seq<Seq<char>>,
    key: Seq<char>,
)
    ensures
        (key == "exception.message"@ || key == "exception.stacktrace"@ || key == "panic.message"@ || key == "cli.command.arg_values"@ || key == "cli.usage_error.token"@) && keeps(level, allow, extra, key) ==> level == TelemetryLevel::Debug,
        (key == "error.type"@ || key == "cli.command.args"@ || key == "server.address"@ || key == "http.client.server_address"@) && keeps(level, allow, extra, key) ==> level == TelemetryLevel::Diagnostic || level
            == TelemetryLevel::Debug,
        keeps(level, allow, extra, key) ==> level != TelemetryLevel::Off,
        keeps(level, allow, extra, key) ==> !never_listed(key, extra),
        keeps(level, allow, extra, key) ==> is_framework_key(key) || allow.contains(key),
{
    reveal_strlit("exception.message");
    reveal_strlit("exception.stacktrace");
    reveal_strlit("panic.message");
    reveal_strlit("cli.command.arg_values");
    reveal_strlit("cli.usage_error.token");
    reveal_strlit("error.type");
    reveal_strlit("cli.command.args");
    reveal_strlit("server.address");
    reveal_strlit("http.client.server_address");
    reveal_with_fuel(min_level_in, 10);
}

} // verus!
