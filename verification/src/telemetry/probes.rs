//! Attribute and label construction for the built-in probes.
//!
//! Every function here is pure: it takes a policy and an outcome and returns
//! attributes. The export boundary decides what survives.

use crate::telemetry::axes::level_name;
use crate::telemetry::policy::TelemetryPolicy;
use crate::telemetry::probe::{FeatureOutcome, ProbeRegistry, ProbeSpec};
use crate::telemetry::redact::{attrs_view, is_never_listed, never_listed, Attr};
use crate::text::{
    chars_of, clone_strings, decimal, decimal_vec, is_prefix_of, owned, push_all, push_str,
    starts_with, str_eq, string_in, string_of, strings, strs,
};
use vstd::prelude::*;

verus! {

/// Where an invocation came from.
#[derive(Debug, Clone, Copy, PartialEq, Eq, Structural)]
pub enum Surface {
    Cli,
    Chat,
    Mcp,
    Api,
}

pub open spec fn surface_name(s: Surface) -> Seq<char> {
    match s {
        Surface::Cli => "cli"@,
        Surface::Chat => "chat"@,
        Surface::Mcp => "mcp"@,
        Surface::Api => "api"@,
    }
}

impl Surface {
    pub fn as_str(&self) -> (r: &'static str)
        ensures
            r@ == surface_name(*self),
    {
        match self {
            Surface::Cli => "cli",
            Surface::Chat => "chat",
            Surface::Mcp => "mcp",
            Surface::Api => "api",
        }
    }
}

/// How an invocation ended.
#[derive(Debug, Clone, Copy, PartialEq, Eq, Structural)]
pub enum CommandStatus {
    Success,
    UsageError,
    Error,
}

pub open spec fn status_name(s: CommandStatus) -> Seq<char> {
    match s {
        CommandStatus::Success => "ok"@,
        CommandStatus::UsageError => "usage_error"@,
        CommandStatus::Error => "error"@,
    }
}

impl CommandStatus {
    pub fn as_str(&self) -> (r: &'static str)
        ensures
            r@ == status_name(*self),
    {
        match self {
            CommandStatus::Success => "ok",
            CommandStatus::UsageError => "usage_error",
            CommandStatus::Error => "error",
        }
    }
}

/// What the `cli.command` probe reports. The duration travels beside it, as
/// a metric value, never as a label.
#[derive(Debug, Clone)]
pub struct CommandOutcome {
    /// `Some` only for a path the command registry actually declares.
    pub command: Option<String>,
    pub surface: Surface,
    pub status: CommandStatus,
}

/// The attribute `key = value`.
pub open spec fn kv(key: Seq<char>, value: Seq<char>) -> (Seq<char>, Seq<char>) {
    (key, value)
}

fn attr(key: &str, value: &str) -> (a: Attr)
    ensures
        a.key@ == key@,
        a.value@ == value@,
{
    Attr { key: owned(key), value: owned(value) }
}

fn attr_s(key: &str, value: String) -> (a: Attr)
    ensures
        a.key@ == key@,
        a.value@ == value@,
{
    Attr { key: owned(key), value }
}

fn extend_attrs(out: &mut Vec<Attr>, more: Vec<Attr>)
    ensures
        final(out)@ == old(out)@ + more@,
{
    let mut more = more;
    out.append(&mut more);
}

/// Labels for `cli.command.invocations` and `cli.command.duration_ms`.
pub open spec fn command_labels_spec(command: Option<String>, surface: Surface, status: CommandStatus) -> Seq<
    (Seq<char>, Seq<char>),
> {
    let head = match command {
        Some(c) => seq![kv("command"@, c@)],
        None => Seq::empty(),
    };
    head + seq![kv("surface"@, surface_name(surface)), kv("status"@, status_name(status))]
}

/// Labels for `cli.command.invocations` and `cli.command.duration_ms`.
pub fn command_metric_labels(outcome: &CommandOutcome) -> (out: Vec<Attr>)
    ensures
        attrs_view(out@) == command_labels_spec(outcome.command, outcome.surface, outcome.status),
{
    let mut labels: Vec<Attr> = Vec::new();
    if let Some(command) = &outcome.command {
        labels.push(attr("command", command.as_str()));
    }
    labels.push(attr("surface", outcome.surface.as_str()));
    labels.push(attr("status", outcome.status.as_str()));
    assert(attrs_view(labels@) =~= command_labels_spec(
        outcome.command,
        outcome.surface,
        outcome.status,
    ));
    labels
}

/// Attributes for the root span.
pub fn command_span_attrs(policy: &TelemetryPolicy, outcome: &CommandOutcome) -> (out: Vec<Attr>)
    ensures
        attrs_view(out@) == seq![kv("cli.probe"@, "cli.command"@)] + (match policy.install_id {
            Some(id) => seq![kv("cli.install.id"@, id@)],
            None => Seq::empty(),
        }) + seq![
            kv("session.id"@, policy.session_id@),
            kv("cli.telemetry.level"@, level_name(policy.level)),
        ] + command_labels_spec(outcome.command, outcome.surface, outcome.status),
{
    let mut attrs: Vec<Attr> = Vec::new();
    attrs.push(attr("cli.probe", "cli.command"));
    if let Some(id) = &policy.install_id {
        attrs.push(attr("cli.install.id", id.as_str()));
    }
    attrs.push(attr("session.id", policy.session_id.as_str()));
    attrs.push(attr("cli.telemetry.level", policy.level.as_str()));
    let ghost before = attrs@;
    let labels = command_metric_labels(outcome);
    extend_attrs(&mut attrs, labels);
    assert(attrs_view(attrs@) =~= attrs_view(before) + command_labels_spec(
        outcome.command,
        outcome.surface,
        outcome.status,
    ));
    attrs
}

/// `n` as decimal text.
pub fn u64_text(n: u64) -> (out: String)
    ensures
        out@ == decimal(n as nat),
{
    string_of(decimal_vec(n).as_slice())
}

/// A signed integer as decimal text.
pub open spec fn int_text(i: int) -> Seq<char> {
    if i < 0 {
        seq!['-'] + decimal((-i) as nat)
    } else {
        decimal(i as nat)
    }
}

fn i32_text(n: i32) -> (out: String)
    ensures
        out@ == int_text(n as int),
{
    if n < 0 {
        let m: u64 = (-(n as i64)) as u64;
        let mut out = owned("-");
        proof {
            reveal_strlit("-");
        }
        push_all(&mut out, decimal_vec(m).as_slice());
        assert(m as int == -(n as int));
        assert(out@ =~= seq!['-'] + decimal(m as nat));
        out
    } else {
        u64_text(n as u64)
    }
}

/// The names of the arguments a command received, never their values.
pub fn arg_names(names: &[String]) -> (out: Vec<String>)
    ensures
        out@ == names@,
{
    let mut out: Vec<String> = Vec::new();
    let mut i: usize = 0;
    while i < names.len()
        invariant
            i <= names@.len(),
            out@ == names@.subrange(0, i as int),
        decreases names.len() - i,
    {
        out.push(names[i].clone());
        i = i + 1;
    }
    assert(out@ =~= names@);
    out
}

/// `cli.command.arg_values.<name> = value` for each allowlisted argument
/// whose generated key is not never-listed, in order.
pub open spec fn arg_value_attrs_spec(allow: Seq<Seq<char>>, pairs: Seq<(String, String)>) -> Seq<
    (Seq<char>, Seq<char>),
>
    decreases pairs.len(),
{
    if pairs.len() == 0 {
        Seq::empty()
    } else {
        let rest = arg_value_attrs_spec(allow, pairs.drop_last());
        let name = pairs.last().0@;
        let key = "cli.command.arg_values."@ + name;
        if allow.contains(name) && !never_listed(key, Seq::empty()) {
            rest.push(kv(key, pairs.last().1@))
        } else {
            rest
        }
    }
}

/// Values for the arguments the author allowlisted. The never-list is
/// applied to the generated key, so an allowlisted `api_key` still gives
/// nothing.
pub fn arg_value_attrs(allowlist: &[String], pairs: &[(String, String)]) -> (out: Vec<Attr>)
    ensures
        attrs_view(out@) == arg_value_attrs_spec(strings(allowlist@), pairs@),
{
    let mut out: Vec<Attr> = Vec::new();
    let no_extra: Vec<String> = Vec::new();
    let mut i: usize = 0;
    while i < pairs.len()
        invariant
            i <= pairs@.len(),
            no_extra@.len() == 0,
            attrs_view(out@) == arg_value_attrs_spec(strings(allowlist@), pairs@.take(i as int)),
        decreases pairs.len() - i,
    {
        proof {
            assert(pairs@.take(i + 1).drop_last() =~= pairs@.take(i as int));
            assert(strings(no_extra@) =~= Seq::<Seq<char>>::empty());
        }
        let name = pairs[i].0.as_str();
        if string_in(allowlist, name) {
            let mut key = owned("cli.command.arg_values.");
            push_str(&mut key, name);
            if !is_never_listed(key.as_str(), no_extra.as_slice()) {
                let ghost before = out@;
                out.push(Attr { key, value: pairs[i].1.clone() });
                assert(attrs_view(out@) =~= attrs_view(before).push(attrs_view(out@).last()));
            }
        }
        i = i + 1;
    }
    assert(pairs@.take(pairs@.len() as int) =~= pairs@);
    out
}

/// Attributes for `cli.usage_error` and its `cli.usage_error.token` child.
pub fn usage_error_attrs(kind: &str, token: Option<&str>) -> (out: Vec<Attr>)
    ensures
        attrs_view(out@) == seq![kv("cli.probe"@, "cli.usage_error"@), kv("cli.usage_error.kind"@, kind@)]
            + match token {
            Some(t) => seq![kv("cli.usage_error.token"@, t@)],
            None => Seq::empty(),
        },
{
    let mut attrs: Vec<Attr> = Vec::new();
    attrs.push(attr("cli.probe", "cli.usage_error"));
    attrs.push(attr("cli.usage_error.kind", kind));
    if let Some(token) = token {
        attrs.push(attr("cli.usage_error.token", token));
    }
    assert(attrs_view(attrs@) =~= seq![kv("cli.probe"@, "cli.usage_error"@), kv("cli.usage_error.kind"@, kind@)]
        + match token {
        Some(t) => seq![kv("cli.usage_error.token"@, t@)],
        None => Seq::empty(),
    });
    attrs
}

/// The feature names of the registered `cli.feature.<name>` probes, in
/// registry order, prefix stripped.
pub open spec fn feature_names_spec(s: Seq<ProbeSpec>) -> Seq<Seq<char>>
    decreases s.len(),
{
    if s.len() == 0 {
        Seq::empty()
    } else {
        let rest = feature_names_spec(s.drop_last());
        let id = s.last().id@;
        if is_prefix_of("cli.feature."@, id) {
            rest.push(id.subrange(12, id.len() as int))
        } else {
            rest
        }
    }
}

/// The plain name list `feature_outcome` expects, from a registry.
pub fn registered_feature_names(registry: &ProbeRegistry) -> (out: Vec<&'static str>)
    ensures
        strs(out@) == feature_names_spec(registry@),
{
    let probes = registry.iter();
    let prefix = chars_of("cli.feature.");
    proof {
        reveal_strlit("cli.feature.");
    }
    let mut out: Vec<&'static str> = Vec::new();
    let mut i: usize = 0;
    while i < probes.len()
        invariant
            i <= probes@.len(),
            probes@ == registry@,
            prefix@ == "cli.feature."@,
            prefix@.len() == 12,
            strs(out@) == feature_names_spec(probes@.take(i as int)),
        decreases probes.len() - i,
    {
        proof {
            assert(probes@.take(i + 1).drop_last() =~= probes@.take(i as int));
        }
        let id: &'static str = probes[i].id;
        let idc = chars_of(id);
        if starts_with(idc.as_slice(), prefix.as_slice()) {
            let n = id.unicode_len();
            let name: &'static str = id.substring_char(12, n);
            let ghost before = strs(out@);
            out.push(name);
            assert(strs(out@) =~= before.push(name@));
        }
        i = i + 1;
    }
    assert(probes@.take(probes@.len() as int) =~= probes@);
    out
}

/// Attributes for the `cli.feature` event. The name becomes a metric label
/// only for a registered feature.
pub fn feature_attrs(name: &str, outcome: FeatureOutcome) -> (out: Vec<Attr>)
    ensures
        attrs_view(out@) == seq![kv("cli.probe"@, "cli.feature"@), kv("cli.feature.name"@, name@)]
            + if outcome == FeatureOutcome::Recorded {
            seq![kv("feature"@, name@)]
        } else {
            Seq::empty()
        },
{
    let mut attrs: Vec<Attr> = Vec::new();
    attrs.push(attr("cli.probe", "cli.feature"));
    attrs.push(attr("cli.feature.name", name));
    if outcome == FeatureOutcome::Recorded {
        attrs.push(attr("feature", name));
    }
    assert(attrs_view(attrs@) =~= seq![kv("cli.probe"@, "cli.feature"@), kv("cli.feature.name"@, name@)]
        + if outcome == FeatureOutcome::Recorded {
        seq![kv("feature"@, name@)]
    } else {
        Seq::empty()
    });
    attrs
}

/// Whether a catalogued name is emitted by production code today.
#[derive(Debug, Clone, Copy, PartialEq, Eq)]
pub enum Emission {
    /// Production code creates this instrument or opens this span; the
    /// payload is the file the call site lives in.
    Wired(&'static str),
    /// Catalogued, deliberately not emitted yet; the payload is why.
    Reserved(&'static str),
}

impl Emission {
    pub fn is_wired(&self) -> (r: bool)
        ensures
            r == (*self is Wired),
    {
        match self {
            Emission::Wired(_) => true,
            Emission::Reserved(_) => false,
        }
    }
}

/// Attributes for the `http.client` probe. Deliberately no URL, in any form.
pub fn http_client_attrs(
    method: &str,
    status: Option<u16>,
    server_address: Option<&str>,
    server_port: Option<u16>,
) -> (out: Vec<Attr>)
    ensures
        attrs_view(out@) == seq![kv("cli.probe"@, "http.client"@), kv("http.request.method"@, method@)]
            + (match status {
            Some(s) => seq![kv("http.response.status_code"@, decimal(s as nat))],
            None => Seq::empty(),
        }) + (match server_address {
            Some(a) => seq![kv("server.address"@, a@)],
            None => Seq::empty(),
        }) + (match server_port {
            Some(p) => seq![kv("server.port"@, decimal(p as nat))],
            None => Seq::empty(),
        }),
{
    let mut attrs: Vec<Attr> = Vec::new();
    attrs.push(attr("cli.probe", "http.client"));
    attrs.push(attr("http.request.method", method));
    if let Some(status) = status {
        attrs.push(attr_s("http.response.status_code", u64_text(status as u64)));
    }
    if let Some(address) = server_address {
        attrs.push(attr("server.address", address));
    }
    if let Some(port) = server_port {
        attrs.push(attr_s("server.port", u64_text(port as u64)));
    }
    assert(attrs_view(attrs@) =~= seq![kv("cli.probe"@, "http.client"@), kv("http.request.method"@, method@)]
        + (match status {
        Some(s) => seq![kv("http.response.status_code"@, decimal(s as nat))],
        None => Seq::empty(),
    }) + (match server_address {
        Some(a) => seq![kv("server.address"@, a@)],
        None => Seq::empty(),
    }) + (match server_port {
        Some(p) => seq![kv("server.port"@, decimal(p as nat))],
        None => Seq::empty(),
    }));
    attrs
}

/// Attributes for the `http.server` probe; `route` is the matched template.
pub fn http_server_attrs(route: &str, method: &str, status: u16) -> (out: Vec<Attr>)
    ensures
        attrs_view(out@) == seq![
            kv("cli.probe"@, "http.server"@),
            kv("http.route"@, route@),
            kv("http.request.method"@, method@),
            kv("http.response.status_code"@, decimal(status as nat)),
        ],
{
    let out = vec![
        attr("cli.probe", "http.server"),
        attr("http.route", route),
        attr("http.request.method", method),
        attr_s("http.response.status_code", u64_text(status as u64)),
    ];
    assert(attrs_view(out@) =~= seq![
        kv("cli.probe"@, "http.server"@),
        kv("http.route"@, route@),
        kv("http.request.method"@, method@),
        kv("http.response.status_code"@, decimal(status as nat)),
    ]);
    out
}

/// Attributes for the `mcp.session` probe.
pub fn mcp_session_attrs(tool: Option<&str>, status: Option<&str>) -> (out: Vec<Attr>)
    ensures
        attrs_view(out@) == seq![kv("cli.probe"@, "mcp.session"@)] + (match tool {
            Some(t) => seq![kv("mcp.tool"@, t@)],
            None => Seq::empty(),
        }) + (match status {
            Some(s) => seq![kv("status"@, s@)],
            None => Seq::empty(),
        }),
{
    let mut attrs: Vec<Attr> = Vec::new();
    attrs.push(attr("cli.probe", "mcp.session"));
    if let Some(tool) = tool {
        attrs.push(attr("mcp.tool", tool));
    }
    if let Some(status) = status {
        attrs.push(attr("status", status));
    }
    assert(attrs_view(attrs@) =~= seq![kv("cli.probe"@, "mcp.session"@)] + (match tool {
        Some(t) => seq![kv("mcp.tool"@, t@)],
        None => Seq::empty(),
    }) + (match status {
        Some(s) => seq![kv("status"@, s@)],
        None => Seq::empty(),
    }));
    attrs
}

/// Attributes for the `cli.doctor` probe.
pub fn doctor_attrs(check: &str, severity: &str, findings_count: u64) -> (out: Vec<Attr>)
    ensures
        attrs_view(out@) == seq![
            kv("cli.probe"@, "cli.doctor"@),
            kv("check"@, check@),
            kv("severity"@, severity@),
            kv("cli.doctor.findings_count"@, decimal(findings_count as nat)),
        ],
{
    let out = vec![
        attr("cli.probe", "cli.doctor"),
        attr("check", check),
        attr("severity", severity),
        attr_s("cli.doctor.findings_count", u64_text(findings_count)),
    ];
    assert(attrs_view(out@) =~= seq![
        kv("cli.probe"@, "cli.doctor"@),
        kv("check"@, check@),
        kv("severity"@, severity@),
        kv("cli.doctor.findings_count"@, decimal(findings_count as nat)),
    ]);
    out
}

/// Attributes for the `cli.plugin` probe.
pub fn plugin_attrs(plugin: &str, kind: &str) -> (out: Vec<Attr>)
    ensures
        attrs_view(out@) == seq![
            kv("cli.probe"@, "cli.plugin"@),
            kv("plugin"@, plugin@),
            kv("kind"@, kind@),
        ],
{
    let out = vec![attr("cli.probe", "cli.plugin"), attr("plugin", plugin), attr("kind", kind)];
    assert(attrs_view(out@) =~= seq![
        kv("cli.probe"@, "cli.plugin"@),
        kv("plugin"@, plugin@),
        kv("kind"@, kind@),
    ]);
    out
}

/// Attributes for the `cli.auth` probe.
pub fn auth_attrs(kind: &str, status: &str) -> (out: Vec<Attr>)
    ensures
        attrs_view(out@) == seq![
            kv("cli.probe"@, "cli.auth"@),
            kv("kind"@, kind@),
            kv("status"@, status@),
        ],
{
    let out = vec![attr("cli.probe", "cli.auth"), attr("kind", kind), attr("status", status)];
    assert(attrs_view(out@) =~= seq![
        kv("cli.probe"@, "cli.auth"@),
        kv("kind"@, kind@),
        kv("status"@, status@),
    ]);
    out
}

/// Attributes for the `cli.config` probe.
pub fn config_attrs(schema_version: u32, backend: &str, policy_state: &str) -> (out: Vec<Attr>)
    ensures
        attrs_view(out@) == seq![
            kv("cli.probe"@, "cli.config"@),
            kv("config.schema_version"@, decimal(schema_version as nat)),
            kv("config.backend"@, backend@),
            kv("config.policy.state"@, policy_state@),
        ],
{
    let out = vec![
        attr("cli.probe", "cli.config"),
        attr_s("config.schema_version", u64_text(schema_version as u64)),
        attr("config.backend", backend),
        attr("config.policy.state", policy_state),
    ];
    assert(attrs_view(out@) =~= seq![
        kv("cli.probe"@, "cli.config"@),
        kv("config.schema_version"@, decimal(schema_version as nat)),
        kv("config.backend"@, backend@),
        kv("config.policy.state"@, policy_state@),
    ]);
    out
}

/// Attributes for the `cli.secrets` probe; never the secret itself.
pub fn secrets_attrs(backend: &str, op: &str, status: &str) -> (out: Vec<Attr>)
    ensures
        attrs_view(out@) == seq![
            kv("cli.probe"@, "cli.secrets"@),
            kv("secrets.backend"@, backend@),
            kv("secrets.op"@, op@),
            kv("status"@, status@),
        ],
{
    let out = vec![
        attr("cli.probe", "cli.secrets"),
        attr("secrets.backend", backend),
        attr("secrets.op", op),
        attr("status", status),
    ];
    assert(attrs_view(out@) =~= seq![
        kv("cli.probe"@, "cli.secrets"@),
        kv("secrets.backend"@, backend@),
        kv("secrets.op"@, op@),
        kv("status"@, status@),
    ]);
    out
}

/// Attributes for the `cli.help` probe.
pub fn help_attrs(command: Option<&str>) -> (out: Vec<Attr>)
    ensures
        attrs_view(out@) == seq![kv("cli.probe"@, "cli.help"@)] + match command {
            Some(c) => seq![kv("command"@, c@)],
            None => Seq::empty(),
        },
{
    let mut attrs: Vec<Attr> = Vec::new();
    attrs.push(attr("cli.probe", "cli.help"));
    if let Some(command) = command {
        attrs.push(attr("command", command));
    }
    assert(attrs_view(attrs@) =~= seq![kv("cli.probe"@, "cli.help"@)] + match command {
        Some(c) => seq![kv("command"@, c@)],
        None => Seq::empty(),
    });
    attrs
}

/// Attributes for the `cli.process` probe.
pub fn process_attrs(exit_code: i32) -> (out: Vec<Attr>)
    ensures
        attrs_view(out@) == seq![
            kv("cli.probe"@, "cli.process"@),
            kv("process.exit.code"@, int_text(exit_code as int)),
        ],
{
    let out = vec![attr("cli.probe", "cli.process"), attr_s("process.exit.code", i32_text(exit_code))];
    assert(attrs_view(out@) =~= seq![
        kv("cli.probe"@, "cli.process"@),
        kv("process.exit.code"@, int_text(exit_code as int)),
    ]);
    out
}

} // verus!
