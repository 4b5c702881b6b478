//! The export boundary: the last thing a span passes through. A span's fate
//! is decided from the probe it declared; a kept span loses the events of
//! switched-off probes, every attribute the redaction rules reject, and the
//! probe label itself.

use crate::telemetry::policy::TelemetryPolicy;
use crate::telemetry::probe::probe_effective;
use crate::telemetry::redact::{probe_attr_key, probe_of, probe_of_spec, Attr, RedactionRules};
use crate::text::{str_eq, strings};
use vstd::prelude::*;

verus! {

/// What the boundary decided about one span.
#[derive(Debug, Clone, Copy, PartialEq, Eq, Structural)]
pub enum SpanVerdict {
    Keep,
    Drop,
}

/// Whether a declared probe may emit under a policy. A span with no probe
/// is dropped: an unlabelled span is a probe nobody declared.
pub open spec fn kept(policy: TelemetryPolicy, probe: Option<Seq<char>>) -> bool {
    match probe {
        Some(id) => probe_effective(
            policy.registry@,
            policy.level,
            id,
            strings(policy.disabled_probes@),
        ),
        None => false,
    }
}

/// Decide a span's fate from the probe it declared.
pub fn span_verdict(policy: &TelemetryPolicy, probe: Option<&str>) -> (v: SpanVerdict)
    ensures
        (v == SpanVerdict::Keep) == kept(
            *policy,
            match probe {
                Some(p) => Some(p@),
                None => None,
            },
        ),
{
    match probe {
        Some(id) => if policy.effective(id) {
            SpanVerdict::Keep
        } else {
            SpanVerdict::Drop
        },
        None => SpanVerdict::Drop,
    }
}

/// One event recorded on a span.
#[derive(Debug)]
pub struct SpanEvent {
    pub name: String,
    pub attributes: Vec<Attr>,
}

/// A finished span as the boundary sees it: its attributes and events.
#[derive(Debug)]
pub struct SpanRecord {
    pub name: String,
    pub attributes: Vec<Attr>,
    pub events: Vec<SpanEvent>,
}

/// The attributes that leave: those the rules keep, without the probe label.
pub open spec fn cleaned(rules: RedactionRules, attrs: Seq<Attr>) -> Seq<Attr>
    decreases attrs.len(),
{
    if attrs.len() == 0 {
        Seq::empty()
    } else {
        let rest = cleaned(rules, attrs.drop_last());
        let a = attrs.last();
        if rules.keeps_spec(a.key@) && a.key@ != probe_attr_key() {
            rest.push(a)
        } else {
            rest
        }
    }
}

/// An event's name and the attributes that leave with it.
pub open spec fn event_out(rules: RedactionRules, e: SpanEvent) -> (Seq<char>, Seq<Attr>) {
    (e.name@, cleaned(rules, e.attributes@))
}

/// The events that leave: those whose own probe is kept, each cleaned.
pub open spec fn events_out(
    policy: TelemetryPolicy,
    rules: RedactionRules,
    events: Seq<SpanEvent>,
) -> Seq<(Seq<char>, Seq<Attr>)>
    decreases events.len(),
{
    if events.len() == 0 {
        Seq::empty()
    } else {
        let rest = events_out(policy, rules, events.drop_last());
        let e = events.last();
        if kept(policy, probe_of_spec(e.attributes@)) {
            rest.push(event_out(rules, e))
        } else {
            rest
        }
    }
}

pub open spec fn events_view(events: Seq<SpanEvent>) -> Seq<(Seq<char>, Seq<Attr>)> {
    events.map_values(|e: SpanEvent| (e.name@, e.attributes@))
}

/// The rules a policy binds.
pub open spec fn rules_of(policy: TelemetryPolicy) -> RedactionRules {
    RedactionRules {
        level: policy.level,
        app_attr_allowlist: policy.app_attr_allowlist,
        extra_never: policy.extra_never,
    }
}

fn clean_attributes(rules: &RedactionRules, attrs: &Vec<Attr>) -> (out: Vec<Attr>)
    ensures
        out@ == cleaned(*rules, attrs@),
{
    let mut out: Vec<Attr> = Vec::new();
    let mut i: usize = 0;
    while i < attrs.len()
        invariant
            i <= attrs@.len(),
            out@ == cleaned(*rules, attrs@.take(i as int)),
        decreases attrs.len() - i,
    {
        proof {
            assert(attrs@.take(i + 1).drop_last() =~= attrs@.take(i as int));
            assert(attrs@.take(i + 1).last() == attrs@[i as int]);
        }
        let a = &attrs[i];
        if rules.keeps_attribute(a.key.as_str()) && !str_eq(a.key.as_str(), "cli.probe") {
            out.push(a.clone());
        }
        i = i + 1;
    }
    assert(attrs@.take(attrs@.len() as int) =~= attrs@);
    out
}

fn rules_for(policy: &TelemetryPolicy) -> (r: RedactionRules)
    ensures
        r.keeps_spec_eq(rules_of(*policy)),
{
    RedactionRules::from_policy(policy)
}

impl RedactionRules {
    /// Two rule sets that decide every key alike.
    pub open spec fn keeps_spec_eq(self, other: RedactionRules) -> bool {
        self.level == other.level && strings(self.app_attr_allowlist@) == strings(
            other.app_attr_allowlist@,
        ) && strings(self.extra_never@) == strings(other.extra_never@)
    }
}

proof fn lemma_cleaned_same_rules(a: RedactionRules, b: RedactionRules, attrs: Seq<Attr>)
    requires
        a.keeps_spec_eq(b),
    ensures
        cleaned(a, attrs) == cleaned(b, attrs),
    decreases attrs.len(),
{
    if attrs.len() > 0 {
        lemma_cleaned_same_rules(a, b, attrs.drop_last());
    }
}

proof fn lemma_events_same_rules(
    p: TelemetryPolicy,
    a: RedactionRules,
    b: RedactionRules,
    events: Seq<SpanEvent>,
)
    requires
        a.keeps_spec_eq(b),
    ensures
        events_out(p, a, events) == events_out(p, b, events),
    decreases events.len(),
{
    if events.len() > 0 {
        lemma_events_same_rules(p, a, b, events.drop_last());
        lemma_cleaned_same_rules(a, b, events.last().attributes@);
    }
}

/// Apply the boundary to one span, in place. A dropped span is left as it
/// was; a kept one keeps the events of kept probes and the attributes the
/// policy's rules allow, none of them carrying the probe label.
pub fn redact_span(policy: &TelemetryPolicy, span: &mut SpanRecord) -> (v: SpanVerdict)
    ensures
        (v == SpanVerdict::Keep) == kept(*policy, probe_of_spec(old(span).attributes@)),
        v == SpanVerdict::Drop ==> *final(span) == *old(span),
        v == SpanVerdict::Keep ==> {
            &&& final(span).name == old(span).name
            &&& final(span).attributes@ == cleaned(rules_of(*policy), old(span).attributes@)
            &&& events_view(final(span).events@) == events_out(
                *policy,
                rules_of(*policy),
                old(span).events@,
            )
        },
{
    if span_verdict(policy, probe_of(span.attributes.as_slice())) == SpanVerdict::Drop {
        return SpanVerdict::Drop;
    }
    let rules = rules_for(policy);
    let mut events: Vec<SpanEvent> = Vec::new();
    let mut i: usize = 0;
    while i < span.events.len()
        invariant
            i <= span.events@.len(),
            *span == *old(span),
            rules.keeps_spec_eq(rules_of(*policy)),
            events_view(events@) == events_out(*policy, rules, span.events@.take(i as int)),
        decreases span.events.len() - i,
    {
        proof {
            assert(span.events@.take(i + 1).drop_last() =~= span.events@.take(i as int));
            assert(span.events@.take(i + 1).last() == span.events@[i as int]);
        }
        let e = &span.events[i];
        if span_verdict(policy, probe_of(e.attributes.as_slice())) == SpanVerdict::Keep {
            let attrs = clean_attributes(&rules, &e.attributes);
            let ghost before = events_view(events@);
            events.push(SpanEvent { name: e.name.clone(), attributes: attrs });
            assert(events_view(events@) =~= before.push(event_out(rules, span.events@[i as int])));
        }
        i = i + 1;
    }
    proof {
        assert(span.events@.take(span.events@.len() as int) =~= span.events@);
        lemma_events_same_rules(*policy, rules, rules_of(*policy), span.events@);
        lemma_cleaned_same_rules(rules, rules_of(*policy), span.attributes@);
    }
    let attrs = clean_attributes(&rules, &span.attributes);
    span.attributes = attrs;
    span.events = events;
    SpanVerdict::Keep
}

/// The boundary bound to a policy, applied to whole batches.
pub struct RedactingExporter {
    pub policy: TelemetryPolicy,
}

impl RedactingExporter {
    pub fn new(policy: TelemetryPolicy) -> (r: Self)
        ensures
            r.policy == policy,
    {
        RedactingExporter { policy }
    }

    /// The batch that survives the boundary: the kept spans, redacted, in
    /// their order.
    pub fn filter(&self, batch: Vec<SpanRecord>) -> (out: Vec<SpanRecord>)
        ensures
            spans_view(out@) == batch_out(self.policy, batch@),
    {
        let mut out: Vec<SpanRecord> = Vec::new();
        let mut rest = batch;
        let ghost orig = rest@;
        let mut i: usize = 0;
        assert(orig.skip(0) =~= orig);
        assert(orig.len() == rest.len());
        while rest.len() > 0
            invariant
                i <= orig.len(),
                orig.len() <= usize::MAX,
                rest@ == orig.skip(i as int),
                spans_view(out@) == batch_out(self.policy, orig.take(i as int)),
            decreases rest.len(),
        {
            proof {
                assert(orig.take(i + 1).drop_last() =~= orig.take(i as int));
                assert(orig.take(i + 1).last() == orig[i as int]);
                assert(rest@[0] == orig[i as int]);
            }
            let mut span = rest.remove(0);
            assert(rest@ =~= orig.skip(i + 1));
            let ghost before = span;
            if redact_span(&self.policy, &mut span) == SpanVerdict::Keep {
                let ghost prev = spans_view(out@);
                out.push(span);
                assert(spans_view(out@) =~= prev.push(span_out(self.policy, before)));
            }
            i = i + 1;
        }
        assert(orig.take(orig.len() as int) =~= orig);
        out
    }
}

/// A kept span as it leaves: its name, cleaned attributes and kept events.
pub open spec fn span_out(policy: TelemetryPolicy, s: SpanRecord) -> (
    Seq<char>,
    Seq<Attr>,
    Seq<(Seq<char>, Seq<Attr>)>,
) {
    (
        s.name@,
        cleaned(rules_of(policy), s.attributes@),
        events_out(policy, rules_of(policy), s.events@),
    )
}

pub open spec fn spans_view(v: Seq<SpanRecord>) -> Seq<(Seq<char>, Seq<Attr>, Seq<(Seq<char>, Seq<Attr>)>)> {
    v.map_values(|s: SpanRecord| (s.name@, s.attributes@, events_view(s.events@)))
}

/// What leaves of a batch: the spans the boundary keeps, as they leave.
pub open spec fn batch_out(policy: TelemetryPolicy, batch: Seq<SpanRecord>) -> Seq<
    (Seq<char>, Seq<Attr>, Seq<(Seq<char>, Seq<Attr>)>),
>
    decreases batch.len(),
{
    if batch.len() == 0 {
        Seq::empty()
    } else {
        let rest = batch_out(policy, batch.drop_last());
        let s = batch.last();
        if kept(policy, probe_of_spec(s.attributes@)) {
            rest.push(span_out(policy, s))
        } else {
            rest
        }
    }
}

/// Every attribute that crosses the boundary passes the redaction rules
/// and none is the probe label; nothing crosses that was not there.
pub proof fn law_cleaned_attributes_pass_the_rules(rules: RedactionRules, attrs: Seq<Attr>)
    ensures
        cleaned(rules, attrs).len() <= attrs.len(),
        forall|i: int|
            0 <= i < cleaned(rules, attrs).len() ==> {
                let a = #[trigger] cleaned(rules, attrs)[i];
                &&& rules.keeps_spec(a.key@)
                &&& a.key@ != probe_attr_key()
                &&& attrs.contains(a)
            },
    decreases attrs.len(),
{
    if attrs.len() > 0 {
        law_cleaned_attributes_pass_the_rules(rules, attrs.drop_last());
        let rest = cleaned(rules, attrs.drop_last());
        assert forall|i: int| 0 <= i < cleaned(rules, attrs).len() implies {
            let a = #[trigger] cleaned(rules, attrs)[i];
            &&& rules.keeps_spec(a.key@)
            &&& a.key@ != probe_attr_key()
            &&& attrs.contains(a)
        } by {
            let a = cleaned(rules, attrs)[i];
            if i < rest.len() {
                assert(a == rest[i]);
                let j = choose|j: int| 0 <= j < attrs.drop_last().len() && attrs.drop_last()[j] == a;
                assert(attrs[j] == a);
            } else {
                assert(attrs[attrs.len() - 1] == a);
            }
        }
    }
}

/// A span that declares no probe never leaves.
pub proof fn law_unlabelled_spans_are_dropped(policy: TelemetryPolicy)
    ensures
        !kept(policy, None),
{
}

} // verus!
