//! The `telemetry` section of the application's published config manifest.
//! Telemetry contributes a section to the app's one manifest rather than
//! publishing its own. `telemetry.level` is recommendable but never
//! enforceable: an organisation may suggest a level, not mandate consent.

use crate::config::manifest::{
    child_path, field_leaves, leaves_of, ConfigManifest, FieldDefault, FieldKind, FieldManifest, Scope,
};
use crate::telemetry::probe::{registry_wf, ProbeRegistry, ProbeSpec};
use crate::text::{
    chars_of, first_index_of, join_with, lemma_first_index_bounds, lemma_join_cons, lemma_join_split,
    lemma_split_nonempty, owned, push_str, seqs, split_char, split_on, split_strings, str_eq,
    string_of, strings,
};
use vstd::prelude::*;

verus! {

/// The one top-level key the framework claims in an app's manifest.
pub open spec fn section_key() -> Seq<char> {
    "telemetry"@
}

/// Refused when building the manifest rather than papered over at runtime.
#[derive(Debug, Clone, Copy, PartialEq, Eq, Structural)]
pub enum ManifestMergeError {
    AppOwnsTelemetryKey,
}

impl ManifestMergeError {
    /// The error's text.
    pub fn message(&self) -> (r: &'static str)
        ensures
            r@ == "TM001: this application's config manifest already declares a top-level 'telemetry' key; the framework owns that key. Rename the application's field."@,
    {
        "TM001: this application's config manifest already declares a top-level 'telemetry' key; the framework owns that key. Rename the application's field."
    }
}

/// A field with the framework's defaults: machine scope, manageable and
/// enforceable, nothing else set.
pub open spec fn plain_field(f: FieldManifest) -> bool {
    &&& f.group is None
    &&& f.scope == Scope::Machine
    &&& f.platforms@.len() == 0
    &&& !f.secret
}

/// A field with those defaults.
pub fn field(key: &str, kind: FieldKind) -> (f: FieldManifest)
    ensures
        f.key@ == key@,
        f.kind == kind,
        plain_field(f),
        f.default is None && f.label is None && f.description is None,
        !f.local_only && !f.protected && f.manageable && f.enforceable && !f.restart_required,
{
    FieldManifest {
        key: owned(key),
        kind,
        default: None,
        label: None,
        description: None,
        group: None,
        scope: Scope::Machine,
        platforms: Vec::new(),
        secret: false,
        local_only: false,
        protected: false,
        manageable: true,
        enforceable: true,
        restart_required: false,
    }
}

fn text_default(s: &str) -> (d: Option<FieldDefault>)
    ensures
        d matches Some(FieldDefault::Str(t)) && t@ == s@,
{
    Some(FieldDefault::Str(owned(s)))
}

/// `telemetry.level`'s declaration.
pub open spec fn is_level_field(f: FieldManifest) -> bool {
    &&& f.key@ == "level"@
    &&& f.kind matches FieldKind::Enum { values } && crate::text::strings(values@) == seq![
        "off"@,
        "usage"@,
        "diagnostic"@,
        "debug"@,
    ]
    &&& f.default matches Some(FieldDefault::Str(d)) && d@ == "off"@
    &&& f.label matches Some(l) && l@ == "Telemetry level"@
    &&& f.description matches Some(d) && d@
        == "How much this application reports about its own operation. 'off' sends nothing."@
    &&& plain_field(f) && !f.local_only && !f.protected && f.manageable && !f.enforceable
        && f.restart_required
}

/// The level: recommendable, never enforceable.
pub fn level_field() -> (f: FieldManifest)
    ensures
        is_level_field(f),
{
    let values = vec![owned("off"), owned("usage"), owned("diagnostic"), owned("debug")];
    assert(crate::text::strings(values@) =~= seq!["off"@, "usage"@, "diagnostic"@, "debug"@]);
    let mut f = field("level", FieldKind::Enum { values });
    f.default = text_default("off");
    f.label = Some(owned("Telemetry level"));
    f.description = Some(
        owned("How much this application reports about its own operation. 'off' sends nothing."),
    );
    f.enforceable = false;
    f.restart_required = true;
    f
}

/// `telemetry.attribution`'s declaration.
pub open spec fn is_attribution_field(f: FieldManifest) -> bool {
    &&& f.key@ == "attribution"@
    &&& f.kind matches FieldKind::Enum { values } && crate::text::strings(values@) == seq![
        "anonymous"@,
        "pseudonymous"@,
        "identified"@,
    ]
    &&& f.default matches Some(FieldDefault::Str(d)) && d@ == "pseudonymous"@
    &&& f.label matches Some(l) && l@ == "Attribution"@
    &&& f.description matches Some(d) && d@
        == "Whether reports carry no identifier, a per-install identifier, or an account."@
    &&& plain_field(f) && !f.local_only && !f.protected && f.manageable && !f.enforceable
        && f.restart_required
}

/// The attribution mode.
pub fn attribution_field() -> (f: FieldManifest)
    ensures
        is_attribution_field(f),
{
    let values = vec![owned("anonymous"), owned("pseudonymous"), owned("identified")];
    assert(crate::text::strings(values@) =~= seq!["anonymous"@, "pseudonymous"@, "identified"@]);
    let mut f = field("attribution", FieldKind::Enum { values });
    f.default = text_default("pseudonymous");
    f.label = Some(owned("Attribution"));
    f.description = Some(
        owned("Whether reports carry no identifier, a per-install identifier, or an account."),
    );
    f.enforceable = false;
    f.restart_required = true;
    f
}

/// `telemetry.endpoint`'s declaration, defaulting to the app's endpoint or
/// empty.
pub open spec fn is_endpoint_field(f: FieldManifest, default_endpoint: Option<Seq<char>>) -> bool {
    &&& f.key@ == "endpoint"@
    &&& f.kind is Url
    &&& f.default matches Some(FieldDefault::Str(d)) && d@ == match default_endpoint {
        Some(e) => e,
        None => Seq::empty(),
    }
    &&& f.label matches Some(l) && l@ == "Telemetry endpoint"@
    &&& f.description matches Some(d) && d@
        == "The OTLP collector reports are sent to. Empty means nothing is sent."@
    &&& plain_field(f) && !f.local_only && !f.protected && f.manageable && f.enforceable
        && f.restart_required
}

/// The collector endpoint.
pub fn endpoint_field(default_endpoint: Option<&str>) -> (f: FieldManifest)
    ensures
        is_endpoint_field(
            f,
            match default_endpoint {
                Some(e) => Some(e@),
                None => None,
            },
        ),
{
    let mut f = field("endpoint", FieldKind::Url);
    f.default = match default_endpoint {
        Some(e) => text_default(e),
        None => Some(FieldDefault::Str(String::new())),
    };
    f.label = Some(owned("Telemetry endpoint"));
    f.description = Some(owned("The OTLP collector reports are sent to. Empty means nothing is sent."));
    f.restart_required = true;
    f
}

/// One of the two local-only state leaves the framework writes.
pub open spec fn is_state_field(f: FieldManifest, key: Seq<char>, label: Seq<char>, description: Seq<char>) -> bool {
    &&& f.key@ == key
    &&& f.kind is Str
    &&& f.default is None
    &&& f.label matches Some(l) && l@ == label
    &&& f.description matches Some(d) && d@ == description
    &&& plain_field(f) && f.local_only && f.protected && !f.manageable && !f.enforceable
        && !f.restart_required
}

pub open spec fn install_id_description() -> Seq<char> {
    "A random identifier for this installation. Never leaves this machine except inside this application's own reports."@
}

pub open spec fn notice_shown_description() -> Seq<char> {
    "The telemetry level this installation was last told about."@
}

/// The install id: local state, never managed.
pub fn install_id_field() -> (f: FieldManifest)
    ensures
        is_state_field(f, "install_id"@, "Install identifier"@, install_id_description()),
{
    let mut f = field("install_id", FieldKind::Str);
    f.label = Some(owned("Install identifier"));
    f.description = Some(
        owned(
            "A random identifier for this installation. Never leaves this machine except inside this application's own reports.",
        ),
    );
    f.local_only = true;
    f.protected = true;
    f.manageable = false;
    f.enforceable = false;
    f
}

/// The last level announced: local state, never managed.
pub fn notice_shown_field() -> (f: FieldManifest)
    ensures
        is_state_field(f, "notice_shown"@, "Notice shown"@, notice_shown_description()),
{
    let mut f = field("notice_shown", FieldKind::Str);
    f.label = Some(owned("Notice shown"));
    f.description = Some(owned("The telemetry level this installation was last told about."));
    f.local_only = true;
    f.protected = true;
    f.manageable = false;
    f.enforceable = false;
    f
}

/// A probe's `enabled` switch: on by default, labelled with the id and
/// described by what the probe sends.
pub open spec fn is_switch_for(f: FieldManifest, p: ProbeSpec) -> bool {
    &&& f.key@ == "enabled"@
    &&& f.kind is Bool
    &&& f.default == Some(FieldDefault::Bool(true))
    &&& f.label matches Some(l) && l@ == p.id@ + " probe"@
    &&& f.description matches Some(d) && d@ == p.summary@ + " Sends: "@ + p.sends@
    &&& plain_field(f) && !f.local_only && !f.protected && f.manageable && f.enforceable
        && f.restart_required
}

fn switch_field(p: &ProbeSpec) -> (f: FieldManifest)
    ensures
        is_switch_for(f, *p),
{
    let mut f = field("enabled", FieldKind::Bool);
    f.default = Some(FieldDefault::Bool(true));
    let mut label = owned(p.id);
    push_str(&mut label, " probe");
    f.label = Some(label);
    let mut d = owned(p.summary);
    push_str(&mut d, " Sends: ");
    push_str(&mut d, p.sends);
    f.description = Some(d);
    f.restart_required = true;
    f
}

/// The dotted path of a switch: the segments under `prefix`, then
/// `enabled`.
pub open spec fn switch_path(prefix: Seq<char>, segs: Seq<Seq<char>>) -> Seq<char>
    decreases segs.len(),
{
    if segs.len() == 0 {
        child_path(prefix, "enabled"@)
    } else {
        switch_path(child_path(prefix, segs[0]), segs.drop_first())
    }
}

/// The segments still to place, for each probe, with the probe's index.
pub open spec fn item_views(items: Seq<(Vec<String>, usize)>) -> Seq<(Seq<Seq<char>>, int)> {
    items.map_values(|it: (Vec<String>, usize)| (crate::text::strings(it.0@), it.1 as int))
}

/// How much is left to place: every item's segments, plus one each.
pub open spec fn weight(items: Seq<(Seq<Seq<char>>, int)>) -> nat
    decreases items.len(),
{
    if items.len() == 0 {
        0
    } else {
        weight(items.drop_last()) + items.last().0.len() + 1
    }
}

proof fn lemma_weight_take(items: Seq<(Seq<Seq<char>>, int)>, i: int)
    requires
        0 <= i <= items.len(),
    ensures
        weight(items.take(i)) <= weight(items),
    decreases items.len() - i,
{
    if i < items.len() {
        lemma_weight_take(items, i + 1);
        assert(items.take(i + 1).drop_last() =~= items.take(i));
    } else {
        assert(items.take(i) =~= items);
    }
}

/// The leaves a list of switch fields must have: one per item, in order,
/// at the item's path, switching the item's probe.
pub open spec fn switches_match(leaves: Seq<(Seq<char>, FieldManifest)>, prefix: Seq<char>, items: Seq<(Seq<Seq<char>>, int)>, specs: Seq<ProbeSpec>) -> bool {
    &&& leaves.len() == items.len()
    &&& forall|k: int|
        0 <= k < items.len() ==> (#[trigger] leaves[k]).0 == switch_path(prefix, items[k].0)
            && is_switch_for(leaves[k].1, specs[items[k].1])
}

proof fn lemma_leaves_push(fields: Seq<FieldManifest>, f: FieldManifest, prefix: Seq<char>)
    ensures
        leaves_of(fields.push(f), prefix) == leaves_of(fields, prefix) + field_leaves(f, prefix),
{
    assert(fields.push(f).drop_last() =~= fields);
}

/// Build the nested sections for the items, in order: an item with no
/// segments left is an `enabled` switch here; a run of items starting with
/// the same segment shares one section.
fn build_switches(items: &Vec<(Vec<String>, usize)>, specs: &[ProbeSpec], prefix: Ghost<Seq<char>>) -> (out: Vec<
    FieldManifest,
>)
    requires
        forall|k: int| 0 <= k < items@.len() ==> (#[trigger] items@[k]).1 < specs@.len(),
    ensures
        switches_match(leaves_of(out@, prefix@), prefix@, item_views(items@), specs@),
    decreases weight(item_views(items@)),
{
    let ghost iv = item_views(items@);
    let mut out: Vec<FieldManifest> = Vec::new();
    let mut i: usize = 0;
    while i < items.len()
        invariant
            i <= items@.len(),
            iv == item_views(items@),
            forall|k: int| 0 <= k < items@.len() ==> (#[trigger] items@[k]).1 < specs@.len(),
            switches_match(leaves_of(out@, prefix@), prefix@, iv.take(i as int), specs@),
        decreases items.len() - i,
    {
        let ghost before = leaves_of(out@, prefix@);
        let ghost i0 = i as int;
        if items[i].0.len() == 0 {
            let f = switch_field(&specs[items[i].1]);
            let ghost fv = f;
            proof {
                lemma_leaves_push(out@, f, prefix@);
            }
            out.push(f);
            i = i + 1;
            proof {
                assert(field_leaves(fv, prefix@) == seq![(child_path(prefix@, "enabled"@), fv)]);
                assert(iv.take(i as int) =~= iv.take(i0).push(iv[i0]));
                assert(iv[i0].0.len() == 0);
                let l = leaves_of(out@, prefix@);
                assert(l =~= before.push((child_path(prefix@, "enabled"@), fv)));
                assert forall|k: int| 0 <= k < iv.take(i as int).len() implies (#[trigger] l[k]).0
                    == switch_path(prefix@, iv.take(i as int)[k].0) && is_switch_for(
                    l[k].1,
                    specs@[iv.take(i as int)[k].1],
                ) by {
                    if k < i0 {
                        assert(l[k] == before[k]);
                        assert(iv.take(i as int)[k] == iv.take(i0)[k]);
                    }
                }
            }
        } else {
            let s = items[i].0[0].clone();
            let mut inner: Vec<(Vec<String>, usize)> = Vec::new();
            let mut j: usize = i;
            while j < items.len() && items[j].0.len() > 0 && str_eq(items[j].0[0].as_str(), s.as_str())
                invariant
                    i0 <= j <= items@.len(),
                    i0 < items@.len(),
                    iv == item_views(items@),
                    forall|k: int| 0 <= k < items@.len() ==> (#[trigger] items@[k]).1 < specs@.len(),
                    inner@.len() == j - i0,
                    forall|k: int|
                        0 <= k < inner@.len() ==> (#[trigger] inner@[k]).1 == items@[i0 + k].1 && iv[i0
                            + k].0.len() > 0 && iv[i0 + k].0[0] == s@ && crate::text::strings(
                            inner@[k].0@,
                        ) == iv[i0 + k].0.drop_first(),
                decreases items.len() - j,
            {
                let rest = tail_strings(&items[j].0);
                proof {
                    assert(iv[j as int] == (crate::text::strings(items@[j as int].0@), items@[j as int].1 as int));
                    assert(iv[j as int].0[0] == items@[j as int].0@[0]@);
                }
                let ghost old_inner = inner@;
                inner.push((rest, items[j].1));
                proof {
                    assert forall|k: int| 0 <= k < old_inner.len() implies inner@[k] == old_inner[k] by {}
                }
                j = j + 1;
            }
            proof {
                assert(inner@.len() > 0) by {
                    assert(iv[i0].0[0] == s@);
                }
                let inv = item_views(inner@);
                assert forall|k: int| 0 <= k < inv.len() implies (#[trigger] inv[k]).0.len() + 1 == iv[i0 + k].0.len() by {
                    assert(inv[k].0 == crate::text::strings(inner@[k].0@));
                }
                assert forall|k: int| 0 <= k < inner@.len() implies (#[trigger] inner@[k]).1 < specs@.len() by {
                    assert(items@[i0 + k].1 < specs@.len());
                }
                assert(weight(inv) < weight(iv)) by {
                    lemma_weight_run(iv, i0, j as int, inv);
                    lemma_weight_take(iv, j as int);
                }
            }
            let sub = build_switches(&inner, specs, Ghost(child_path(prefix@, s@)));
            let f = field(s.as_str(), FieldKind::Section { fields: sub });
            let ghost fv = f;
            proof {
                lemma_leaves_push(out@, f, prefix@);
            }
            out.push(f);
            i = j;
            proof {
                let inv = item_views(inner@);
                let sl = leaves_of(sub@, child_path(prefix@, s@));
                assert(field_leaves(fv, prefix@) == sl);
                let l = leaves_of(out@, prefix@);
                assert(l =~= before + sl);
                assert forall|k: int| 0 <= k < iv.take(i as int).len() implies (#[trigger] l[k]).0
                    == switch_path(prefix@, iv.take(i as int)[k].0) && is_switch_for(
                    l[k].1,
                    specs@[iv.take(i as int)[k].1],
                ) by {
                    if k < i0 {
                        assert(l[k] == before[k]);
                        assert(iv.take(i as int)[k] == iv.take(i0)[k]);
                    } else {
                        let q = k - i0;
                        assert(l[k] == sl[q]);
                        assert(inv[q] == (crate::text::strings(inner@[q].0@), inner@[q].1 as int));
                        assert(iv.take(i as int)[k] == iv[k]);
                        let segs = iv[k].0;
                        assert(segs.len() > 0 && segs[0] == s@);
                        assert(switch_path(prefix@, segs) == switch_path(child_path(prefix@, s@), segs.drop_first()));
                    }
                }
            }
        }
    }
    assert(iv.take(items@.len() as int) =~= iv);
    out
}

fn tail_strings(v: &Vec<String>) -> (r: Vec<String>)
    requires
        v@.len() > 0,
    ensures
        crate::text::strings(r@) == crate::text::strings(v@).drop_first(),
{
    let mut r: Vec<String> = Vec::new();
    let mut m: usize = 1;
    while m < v.len()
        invariant
            1 <= m <= v@.len(),
            r@ == v@.subrange(1, m as int),
        decreases v@.len() - m,
    {
        r.push(v[m].clone());
        m = m + 1;
    }
    assert(r@ =~= v@.drop_first());
    assert(crate::text::strings(r@) =~= crate::text::strings(v@).drop_first());
    r
}

/// The items of a run weigh less than the run, one segment each.
proof fn lemma_weight_run(iv: Seq<(Seq<Seq<char>>, int)>, i: int, j: int, inner: Seq<(Seq<Seq<char>>, int)>)
    requires
        0 <= i < j <= iv.len(),
        inner.len() == j - i,
        forall|k: int| 0 <= k < inner.len() ==> (#[trigger] inner[k]).0.len() + 1 == iv[i + k].0.len(),
    ensures
        weight(inner) < weight(iv.take(j)),
    decreases j - i,
{
    assert(iv.take(j).drop_last() =~= iv.take(j - 1));
    assert(iv.take(j).last() == iv[j - 1]);
    let inner0 = inner.drop_last();
    assert(inner.last().0.len() + 1 == iv[j - 1].0.len());
    if j - 1 > i {
        assert forall|k: int| 0 <= k < inner0.len() implies (#[trigger] inner0[k]).0.len() + 1 == iv[i + k].0.len() by {
            assert(inner0[k] == inner[k]);
        }
        lemma_weight_run(iv, i, j - 1, inner0);
    } else {
        assert(inner0.len() == 0);
        lemma_weight_take(iv, j - 1);
    }
}

/// The path of a switch under a non-empty prefix is the prefix, the
/// segments joined with `.`, and `.enabled`.
pub proof fn lemma_switch_path(p: Seq<char>, segs: Seq<Seq<char>>)
    requires
        p.len() > 0,
        segs.len() >= 1,
    ensures
        switch_path(p, segs) == p + "."@ + join_with(segs, "."@) + ".enabled"@,
    decreases segs.len(),
{
    reveal_strlit(".");
    reveal_strlit(".enabled");
    reveal_strlit("enabled");
    let q = child_path(p, segs[0]);
    assert(q == p + "."@ + segs[0]);
    if segs.len() == 1 {
        assert(segs.drop_first().len() == 0);
        assert(join_with(segs, "."@) == segs[0]);
        assert(switch_path(q, segs.drop_first()) == q + "."@ + "enabled"@);
        assert(q + "."@ + "enabled"@ =~= p + "."@ + segs[0] + ".enabled"@);
    } else {
        lemma_switch_path(q, segs.drop_first());
        lemma_join_cons(segs[0], segs.drop_first(), "."@);
        assert(seq![segs[0]] + segs.drop_first() =~= segs);
        assert(q + "."@ + join_with(segs.drop_first(), "."@) + ".enabled"@ =~= p + "."@ + (segs[0] + "."@
            + join_with(segs.drop_first(), "."@)) + ".enabled"@);
    }
}

/// The registry's switches under `telemetry`: one leaf per probe, in
/// registry order, at `telemetry.<id>.enabled`.
pub open spec fn switch_leaves_ok(leaves: Seq<(Seq<char>, FieldManifest)>, probes: Seq<ProbeSpec>) -> bool {
    &&& leaves.len() == probes.len()
    &&& forall|k: int|
        0 <= k < probes.len() ==> (#[trigger] leaves[k]).0 == "telemetry."@ + probes[k].id@
            + ".enabled"@ && is_switch_for(leaves[k].1, probes[k])
}

/// No probe id runs on from another id through an `enabled` segment
/// (`a` and `a.enabled`, or `a.enabled.x`): the switch `a.enabled` would
/// stand where a section is needed. The registry is sorted, so `a` comes
/// first and its switch is already in place when the longer id's path
/// reaches it; building the switches cannot go on there.
pub open spec fn switch_clash_free(probes: Seq<ProbeSpec>) -> bool {
    forall|i: int, j: int|
        0 <= i < probes.len() && 0 <= j < probes.len() ==> !(#[trigger] probes[j].id@ == #[trigger] probes[i].id@
            + ".enabled"@ || crate::text::is_prefix_of(probes[i].id@ + ".enabled."@, probes[j].id@))
}

/// One `<probe>.enabled` switch per registered probe, nested so that the
/// dotted probe id becomes a path of sections.
pub fn probe_switches(registry: &ProbeRegistry) -> (r: Vec<FieldManifest>)
    requires
        switch_clash_free(registry@),
    ensures
        switch_leaves_ok(leaves_of(r@, "telemetry"@), registry@),
{
    let probes = registry.iter();
    let mut items: Vec<(Vec<String>, usize)> = Vec::new();
    let mut k: usize = 0;
    while k < probes.len()
        invariant
            k <= probes@.len(),
            items@.len() == k,
            forall|j: int| 0 <= j < k ==> (#[trigger] items@[j]).1 == j && strings(items@[j].0@) == split_on(
                probes@[j].id@,
                '.',
            ),
        decreases probes.len() - k,
    {
        let segs = split_strings(probes[k].id, '.');
        let ghost old_items = items@;
        items.push((segs, k));
        assert forall|j: int| 0 <= j < k implies items@[j] == old_items[j] by {}
        k = k + 1;
    }
    let r = build_switches(&items, probes, Ghost("telemetry"@));
    proof {
        reveal_strlit("telemetry");
        reveal_strlit("telemetry.");
        reveal_strlit(".");
        let iv = item_views(items@);
        let l = leaves_of(r@, "telemetry"@);
        assert forall|j: int| 0 <= j < probes@.len() implies (#[trigger] l[j]).0 == "telemetry."@
            + probes@[j].id@ + ".enabled"@ && is_switch_for(l[j].1, probes@[j]) by {
            assert(iv[j] == (strings(items@[j].0@), items@[j].1 as int));
            let segs = split_on(probes@[j].id@, '.');
            lemma_split_nonempty(probes@[j].id@, '.');
            lemma_switch_path("telemetry"@, segs);
            lemma_join_split(probes@[j].id@, '.');
            assert("."@ =~= seq!['.']);
            assert("telemetry"@ + "."@ =~= "telemetry."@);
            assert("telemetry"@ + "."@ + probes@[j].id@ + ".enabled"@ =~= "telemetry."@ + probes@[j].id@
                + ".enabled"@);
        }
    }
    r
}

proof fn lemma_leaves_concat(a: Seq<FieldManifest>, b: Seq<FieldManifest>, prefix: Seq<char>)
    ensures
        leaves_of(a + b, prefix) == leaves_of(a, prefix) + leaves_of(b, prefix),
    decreases b.len(),
{
    if b.len() == 0 {
        assert(a + b =~= a);
    } else {
        lemma_leaves_concat(a, b.drop_last(), prefix);
        assert((a + b).drop_last() =~= a + b.drop_last());
        assert((a + b).last() == b.last());
    }
}

/// The leaves of the `telemetry` section: level, attribution, endpoint,
/// install id and notice state, then one switch per probe.
pub open spec fn section_leaves_ok(leaves: Seq<(Seq<char>, FieldManifest)>, probes: Seq<ProbeSpec>, default_endpoint: Option<Seq<char>>) -> bool {
    &&& leaves.len() == 5 + probes.len()
    &&& leaves[0].0 == "telemetry.level"@ && is_level_field(leaves[0].1)
    &&& leaves[1].0 == "telemetry.attribution"@ && is_attribution_field(leaves[1].1)
    &&& leaves[2].0 == "telemetry.endpoint"@ && is_endpoint_field(leaves[2].1, default_endpoint)
    &&& leaves[3].0 == "telemetry.install_id"@ && is_state_field(
        leaves[3].1,
        "install_id"@,
        "Install identifier"@,
        install_id_description(),
    )
    &&& leaves[4].0 == "telemetry.notice_shown"@ && is_state_field(
        leaves[4].1,
        "notice_shown"@,
        "Notice shown"@,
        notice_shown_description(),
    )
    &&& switch_leaves_ok(leaves.subrange(5, leaves.len() as int), probes)
}

/// The `telemetry` section itself.
pub fn telemetry_section(registry: &ProbeRegistry, default_endpoint: Option<&str>) -> (r: FieldManifest)
    requires
        switch_clash_free(registry@),
    ensures
        r.key@ == section_key(),
        r.kind is Section,
        plain_field(r),
        section_leaves_ok(
            field_leaves(r, Seq::empty()),
            registry@,
            match default_endpoint {
                Some(e) => Some(e@),
                None => None,
            },
        ),
{
    let mut fields = vec![
        level_field(),
        attribution_field(),
        endpoint_field(default_endpoint),
        install_id_field(),
        notice_shown_field(),
    ];
    let ghost five = fields@;
    let mut switches = probe_switches(registry);
    let ghost sw = switches@;
    fields.append(&mut switches);
    let r = field("telemetry", FieldKind::Section { fields });
    proof {
        reveal_strlit("telemetry");
        reveal_strlit("telemetry.level");
        reveal_strlit("telemetry.attribution");
        reveal_strlit("telemetry.endpoint");
        reveal_strlit("telemetry.install_id");
        reveal_strlit("telemetry.notice_shown");
        reveal_strlit("level");
        reveal_strlit("attribution");
        reveal_strlit("endpoint");
        reveal_strlit("install_id");
        reveal_strlit("notice_shown");
        reveal_strlit(".");
        assert(""@ =~= Seq::<char>::empty()) by {
            reveal_strlit("");
        }
        let fs = five + sw;
        assert(r.kind == FieldKind::Section { fields: r.kind->fields });
        lemma_leaves_concat(five, sw, "telemetry"@);
        assert(child_path(Seq::empty(), "telemetry"@) == "telemetry"@);
        let lf = leaves_of(five, "telemetry"@);
        reveal_with_fuel(leaves_of, 6);
        assert(five.drop_last().drop_last().drop_last().drop_last().drop_last() =~= Seq::<FieldManifest>::empty());
        assert(lf.len() == 5);
        assert(lf[0].0 == "telemetry.level"@);
        assert(lf[1].0 == "telemetry.attribution"@);
        assert(lf[2].0 == "telemetry.endpoint"@);
        assert(lf[3].0 == "telemetry.install_id"@);
        assert(lf[4].0 == "telemetry.notice_shown"@);
        let all = field_leaves(r, Seq::empty());
        assert(all == lf + leaves_of(sw, "telemetry"@));
        assert(all.subrange(5, all.len() as int) =~= leaves_of(sw, "telemetry"@));
    }
    r
}

/// Add the section to an application's own manifest, refused when the app
/// already declares a top-level `telemetry` key.
pub fn merge_telemetry_section(app: ConfigManifest, registry: &ProbeRegistry, default_endpoint: Option<&str>) -> (r:
    Result<ConfigManifest, ManifestMergeError>)
    requires
        switch_clash_free(registry@),
    ensures
        (exists|i: int| 0 <= i < app.fields@.len() && (#[trigger] app.fields@[i]).key@ == section_key())
            <==> r is Err,
        r matches Ok(m) ==> m.app == app.app && m.fields@.len() == app.fields@.len() + 1
            && m.fields@.take(app.fields@.len() as int) == app.fields@ && leaves_of(m.fields@, Seq::empty())
            == leaves_of(app.fields@, Seq::empty()) + field_leaves(m.fields@.last(), Seq::empty())
            && m.fields@.last().key@ == section_key() && section_leaves_ok(
            field_leaves(m.fields@.last(), Seq::empty()),
            registry@,
            match default_endpoint {
                Some(e) => Some(e@),
                None => None,
            },
        ),
{
    let mut i: usize = 0;
    while i < app.fields.len()
        invariant
            i <= app.fields@.len(),
            forall|j: int| 0 <= j < i ==> (#[trigger] app.fields@[j]).key@ != section_key(),
        decreases app.fields.len() - i,
    {
        if str_eq(app.fields[i].key.as_str(), "telemetry") {
            proof {
                reveal_strlit("telemetry");
            }
            return Err(ManifestMergeError::AppOwnsTelemetryKey);
        }
        proof {
            reveal_strlit("telemetry");
        }
        i = i + 1;
    }
    let ghost old_fields = app.fields@;
    let mut fields = app.fields;
    let section = telemetry_section(registry, default_endpoint);
    fields.push(section);
    proof {
        lemma_leaves_push(old_fields, section, Seq::empty());
        assert(fields@.take(old_fields.len() as int) =~= old_fields);
    }
    Ok(ConfigManifest { app: app.app, fields })
}

/// The manifest of an application that publishes none of its own: the
/// telemetry section alone.
pub fn telemetry_only_manifest(app: &str, registry: &ProbeRegistry, default_endpoint: Option<&str>) -> (m:
    ConfigManifest)
    requires
        switch_clash_free(registry@),
    ensures
        m.app@ == app@,
        m.fields@.len() == 1,
        m.fields@[0].key@ == section_key(),
        leaves_of(m.fields@, Seq::empty()) == field_leaves(m.fields@[0], Seq::empty()),
        section_leaves_ok(
            field_leaves(m.fields@[0], Seq::empty()),
            registry@,
            match default_endpoint {
                Some(e) => Some(e@),
                None => None,
            },
        ),
{
    let section = telemetry_section(registry, default_endpoint);
    let fields = vec![section];
    proof {
        lemma_leaves_push(Seq::empty(), section, Seq::empty());
        assert(Seq::<FieldManifest>::empty().push(section) =~= fields@);
        assert(leaves_of(Seq::<FieldManifest>::empty(), Seq::empty()) =~= Seq::empty());
        assert(Seq::<(Seq<char>, FieldManifest)>::empty() + field_leaves(section, Seq::empty())
            =~= field_leaves(section, Seq::empty()));
    }
    ConfigManifest::new(app, fields)
}

} // verus!
