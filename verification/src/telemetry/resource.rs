//! The two resources of the export pipeline. The metric resource describes
//! the shape of an install (app, version, deployment, level, platform) and
//! identifies nobody; the trace resource adds the installation and session
//! ids and a coarse OS version. Neither carries a host name, a user name or
//! a command line.

use crate::telemetry::axes::{deployment_name, level_name};
use crate::telemetry::config::{
    headers_insert, key_index, lemma_key_index, pairs_view, split_once_spec,
};
use crate::telemetry::policy::TelemetryPolicy;
use crate::text::{
    chars_of, find_char, lemma_first_index_bounds, owned, seqs, slice_range, split_char, split_on,
    str_eq, string_of, trim_seq, trim_vec,
};
use vstd::prelude::*;

verus! {

/// What the application calls itself.
#[derive(Debug, Clone, PartialEq, Eq)]
pub struct ServiceIdentity {
    pub name: String,
    pub version: String,
}

/// What the process knows about where it runs, read by the caller: the
/// `OTEL_SERVICE_NAME` variable as found, the OS name, architecture and
/// family std reports, and this crate's version.
pub struct PlatformFacts {
    pub otel_service_name: Option<String>,
    pub os: String,
    pub arch: String,
    pub family: String,
    pub sdk_version: String,
}

/// The service name the resource reports: a set `OTEL_SERVICE_NAME` that is
/// not blank wins over the application's own name.
pub open spec fn reported_name(env: Option<Seq<char>>, own: Seq<char>) -> Seq<char> {
    match env {
        Some(n) => if trim_seq(n).len() > 0 {
            n
        } else {
            own
        },
        None => own,
    }
}

pub open spec fn opt_view(o: Option<String>) -> Option<Seq<char>> {
    match o {
        Some(s) => Some(s@),
        None => None,
    }
}

/// The metric resource's attributes, in order.
pub open spec fn metric_attrs(
    policy: TelemetryPolicy,
    service: ServiceIdentity,
    facts: PlatformFacts,
) -> Seq<(Seq<char>, Seq<char>)> {
    seq![
        ("service.name"@, reported_name(opt_view(facts.otel_service_name), service.name@)),
        ("service.version"@, service.version@),
        ("cli.deployment"@, deployment_name(policy.deployment)),
        ("cli.telemetry.level"@, level_name(policy.level)),
        ("os.type"@, facts.os@),
        ("host.arch"@, facts.arch@),
        ("telemetry.sdk.language"@, "rust"@),
        ("telemetry.sdk.name"@, "opentelemetry"@),
        ("telemetry.sdk.version"@, facts.sdk_version@),
    ]
}

/// The `cli.install.id` attribute, when there is an id.
pub open spec fn install_attr(id: Option<String>) -> Seq<(Seq<char>, Seq<char>)> {
    match id {
        Some(i) => seq![("cli.install.id"@, i@)],
        None => Seq::empty(),
    }
}

/// The trace resource's attributes: the metric resource's, then the
/// installation id when there is one, the session id and the OS family.
pub open spec fn trace_attrs(
    policy: TelemetryPolicy,
    service: ServiceIdentity,
    facts: PlatformFacts,
) -> Seq<(Seq<char>, Seq<char>)> {
    metric_attrs(policy, service, facts) + install_attr(policy.install_id) + seq![("session.id"@, policy.session_id@), ("os.version"@, facts.family@)]
}

fn push_attr(attrs: &mut Vec<(String, String)>, key: &str, value: String)
    ensures
        pairs_view(final(attrs)@) == pairs_view(old(attrs)@).push((key@, value@)),
{
    let ghost before = attrs@;
    attrs.push((owned(key), value));
    assert(pairs_view(attrs@) =~= pairs_view(before).push((key@, value@)));
}

fn is_blank(s: &str) -> (r: bool)
    ensures
        r == (trim_seq(s@).len() == 0),
{
    trim_vec(chars_of(s).as_slice()).len() == 0
}

/// The metric resource: which app, which version, which deployment, which
/// telemetry level, which OS and architecture, and the SDK.
pub fn metric_resource_attrs(
    policy: &TelemetryPolicy,
    service: &ServiceIdentity,
    facts: &PlatformFacts,
) -> (r: Vec<(String, String)>)
    ensures
        pairs_view(r@) == metric_attrs(*policy, *service, *facts),
{
    let mut attrs: Vec<(String, String)> = Vec::new();
    let name = match &facts.otel_service_name {
        Some(n) => if is_blank(n.as_str()) {
            service.name.clone()
        } else {
            n.clone()
        },
        None => service.name.clone(),
    };
    push_attr(&mut attrs, "service.name", name);
    push_attr(&mut attrs, "service.version", service.version.clone());
    push_attr(&mut attrs, "cli.deployment", owned(policy.deployment.as_str()));
    push_attr(&mut attrs, "cli.telemetry.level", owned(policy.level.as_str()));
    push_attr(&mut attrs, "os.type", facts.os.clone());
    push_attr(&mut attrs, "host.arch", facts.arch.clone());
    push_attr(&mut attrs, "telemetry.sdk.language", owned("rust"));
    push_attr(&mut attrs, "telemetry.sdk.name", owned("opentelemetry"));
    push_attr(&mut attrs, "telemetry.sdk.version", facts.sdk_version.clone());
    assert(pairs_view(attrs@) =~= metric_attrs(*policy, *service, *facts));
    attrs
}

/// The trace resource: the metric resource plus `cli.install.id` (when the
/// policy carries one), `session.id` and a coarse `os.version`.
pub fn trace_resource_attrs(
    policy: &TelemetryPolicy,
    service: &ServiceIdentity,
    facts: &PlatformFacts,
) -> (r: Vec<(String, String)>)
    ensures
        pairs_view(r@) == trace_attrs(*policy, *service, *facts),
{
    let mut attrs = metric_resource_attrs(policy, service, facts);
    let ghost base = pairs_view(attrs@);
    if let Some(id) = &policy.install_id {
        push_attr(&mut attrs, "cli.install.id", id.clone());
    }
    let ghost mid = pairs_view(attrs@);
    push_attr(&mut attrs, "session.id", policy.session_id.clone());
    push_attr(&mut attrs, "os.version", facts.family.clone());
    proof {
        let extra = install_attr(policy.install_id);
        assert(mid =~= base + extra);
        assert(pairs_view(attrs@) =~= base + extra + seq![
            ("session.id"@, policy.session_id@),
            ("os.version"@, facts.family@),
        ]);
    }
    attrs
}

/// One `OTEL_RESOURCE_ATTRIBUTES` entry: split at the first `=`, key and
/// value trimmed; none without `=` or with an empty key.
pub open spec fn resource_entry(piece: Seq<char>) -> Option<(Seq<char>, Seq<char>)> {
    match split_once_spec(piece, '=') {
        None => None,
        Some((k, v)) => if trim_seq(k).len() == 0 {
            None
        } else {
            Some((trim_seq(k), trim_seq(v)))
        },
    }
}

/// The attributes after applying the entries in order: an entry replaces
/// the value of the first attribute with its key, or is appended.
pub open spec fn apply_entries(
    m: Seq<(Seq<char>, Seq<char>)>,
    pieces: Seq<Seq<char>>,
) -> Seq<(Seq<char>, Seq<char>)>
    decreases pieces.len(),
{
    if pieces.len() == 0 {
        m
    } else {
        let prev = apply_entries(m, pieces.drop_last());
        match resource_entry(pieces.last()) {
            Some((k, v)) => headers_insert(prev, k, v),
            None => prev,
        }
    }
}

fn attr_position(attrs: &Vec<(String, String)>, k: &str) -> (i: usize)
    ensures
        i as int == key_index(pairs_view(attrs@), k@),
{
    let ghost m = pairs_view(attrs@);
    proof {
        lemma_key_index(m, k@);
    }
    let mut i: usize = 0;
    while i < attrs.len()
        invariant
            i <= attrs@.len(),
            m == pairs_view(attrs@),
            forall|j: int| 0 <= j < i ==> m[j].0 != k@,
            0 <= key_index(m, k@) <= m.len(),
            key_index(m, k@) < m.len() ==> m[key_index(m, k@)].0 == k@,
            forall|j: int| 0 <= j < key_index(m, k@) ==> m[j].0 != k@,
        decreases attrs.len() - i,
    {
        if str_eq(attrs[i].0.as_str(), k) {
            assert(m[i as int].0 == k@);
            return i;
        }
        i = i + 1;
    }
    i
}

fn set_attr(attrs: &mut Vec<(String, String)>, k: String, v: String)
    ensures
        pairs_view(final(attrs)@) == headers_insert(pairs_view(old(attrs)@), k@, v@),
{
    let i = attr_position(attrs, k.as_str());
    let ghost before = attrs@;
    let ghost kv = k@;
    let ghost vv = v@;
    if i < attrs.len() {
        attrs.set(i, (k, v));
        assert(pairs_view(attrs@) =~= pairs_view(before).update(i as int, (kv, vv)));
    } else {
        attrs.push((k, v));
        assert(pairs_view(attrs@) =~= pairs_view(before).push((kv, vv)));
    }
}

/// Apply `OTEL_RESOURCE_ATTRIBUTES` (given as found) to a resource's
/// attributes: each well-formed entry overrides or extends them, and a
/// malformed one is skipped.
pub fn apply_env_resource_attributes(attrs: &mut Vec<(String, String)>, raw: Option<&str>)
    ensures
        pairs_view(final(attrs)@) == match raw {
            Some(r) => apply_entries(pairs_view(old(attrs)@), split_on(r@, ',')),
            None => pairs_view(old(attrs)@),
        },
{
    let raw = match raw {
        Some(r) => r,
        None => return ,
    };
    let chars = chars_of(raw);
    let pieces = split_char(chars.as_slice(), ',');
    let ghost ps = split_on(raw@, ',');
    let ghost start = pairs_view(attrs@);
    let mut i: usize = 0;
    assert(ps.take(0) =~= Seq::<Seq<char>>::empty());
    while i < pieces.len()
        invariant
            i <= pieces@.len(),
            seqs(pieces@) == ps,
            pairs_view(attrs@) == apply_entries(start, ps.take(i as int)),
        decreases pieces.len() - i,
    {
        proof {
            assert(ps.take(i + 1).drop_last() =~= ps.take(i as int));
            assert(ps.take(i + 1).last() == ps[i as int]);
            assert(seqs(pieces@)[i as int] == pieces@[i as int]@);
        }
        let piece = &pieces[i];
        let eq = find_char(piece.as_slice(), '=');
        proof {
            lemma_first_index_bounds(piece@, '=');
        }
        if eq < piece.len() {
            let k = trim_vec(slice_range(piece.as_slice(), 0, eq).as_slice());
            if k.len() > 0 {
                let v = trim_vec(slice_range(piece.as_slice(), eq + 1, piece.len()).as_slice());
                set_attr(attrs, string_of(k.as_slice()), string_of(v.as_slice()));
            }
        }
        i = i + 1;
    }
    assert(ps.take(ps.len() as int) =~= ps);
}

/// Keys that would identify a machine or a person.
pub open spec fn identifying_key(k: Seq<char>) -> bool {
    k == "host.name"@ || k == "host.id"@ || k == "user.name"@ || k == "process.command_line"@
}

/// Neither resource carries a host name, a host id, a user name or a
/// command line; the metric resource carries no installation or session id
/// either; the trace resource is the metric resource with the ids added.
pub proof fn law_resources_identify_nobody(
    policy: TelemetryPolicy,
    service: ServiceIdentity,
    facts: PlatformFacts,
)
    ensures
        forall|i: int|
            0 <= i < metric_attrs(policy, service, facts).len() ==> {
                let k = (#[trigger] metric_attrs(policy, service, facts)[i]).0;
                !identifying_key(k) && k != "cli.install.id"@ && k != "session.id"@
            },
        forall|i: int|
            0 <= i < trace_attrs(policy, service, facts).len() ==> !identifying_key(
                (#[trigger] trace_attrs(policy, service, facts)[i]).0,
            ),
        trace_attrs(policy, service, facts).subrange(0, 9) == metric_attrs(policy, service, facts),
{
    reveal_strlit("host.name");
    reveal_strlit("host.id");
    reveal_strlit("user.name");
    reveal_strlit("process.command_line");
    reveal_strlit("cli.install.id");
    reveal_strlit("session.id");
    reveal_strlit("service.name");
    reveal_strlit("service.version");
    reveal_strlit("cli.deployment");
    reveal_strlit("cli.telemetry.level");
    reveal_strlit("os.type");
    reveal_strlit("host.arch");
    reveal_strlit("telemetry.sdk.language");
    reveal_strlit("telemetry.sdk.name");
    reveal_strlit("telemetry.sdk.version");
    reveal_strlit("os.version");
    let m = metric_attrs(policy, service, facts);
    let t = trace_attrs(policy, service, facts);
    assert(t.subrange(0, 9) =~= m);
    assert forall|i: int| 0 <= i < m.len() implies {
        let k = (#[trigger] m[i]).0;
        !identifying_key(k) && k != "cli.install.id"@ && k != "session.id"@
    } by {
        let k = m[i].0;
        assert(k.len() != "host.name"@.len() || k[0] != 'h' || k[5] != 'n');
        assert(k.len() != "host.id"@.len() || k[0] != 'h');
        assert(k.len() != "user.name"@.len() || k[0] != 'u');
        assert(k.len() != "process.command_line"@.len() || k[0] != 'p');
        assert(k.len() != "cli.install.id"@.len() || k[4] != 'i');
        assert(k.len() != "session.id"@.len() || k[1] != 'e' || k[0] != 's');
    }
    assert forall|i: int| 0 <= i < t.len() implies !identifying_key((#[trigger] t[i]).0) by {
        if i < 9 {
            assert(t[i] == m[i]);
        } else {
            let k = t[i].0;
            assert(k.len() != "host.name"@.len() || k[0] != 'h');
            assert(k.len() != "host.id"@.len() || k[0] != 'h');
            assert(k.len() != "user.name"@.len() || k[0] != 'u');
            assert(k.len() != "process.command_line"@.len() || k[0] != 'p');
        }
    }
}

} // verus!
