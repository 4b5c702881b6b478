//! What the built-in `telemetry` commands (`status`, `set`, `info`,
//! `disable`, `enable`, `reset`) decide and print. Reading and writing the
//! settings file, and the command registration, are the caller's.

use crate::telemetry::axes::{level_name, Attribution, Deployment, TelemetryLevel};
use crate::telemetry::policy::{
    detect_kill_switch, kill_switch_of, kill_switch_var, layer_name, resolve_policy, Layer,
    LayeredLevel, TelemetryInputs, TelemetryPolicy, KillSwitch,
};
use crate::telemetry::probe::{probe_effective, registry_find, ProbeRegistry, ProbeSpec};
use crate::telemetry::store::{describe_spec, StoreState, TelemetrySettings, disabled_ids};
use crate::text::{clone_opt, clone_strings, debug_quoted, debug_repr, owned, push_str, string_in, strings};
use vstd::prelude::*;

verus! {

/// One probe's state as reported by `telemetry status`.
#[derive(Debug, Clone, PartialEq)]
pub struct ProbeStatus {
    pub id: String,
    pub min_level: String,
    /// Whether this exact id was disabled (not an ancestor).
    pub enabled: bool,
    /// Whether the probe fires right now.
    pub effective: bool,
    pub summary: String,
}

/// `telemetry status`'s full report.
#[derive(Debug, Clone)]
pub struct StatusReport {
    pub level: String,
    pub level_source: String,
    pub attribution: String,
    pub install_id: Option<String>,
    pub endpoint: Option<String>,
    pub endpoint_source: Option<String>,
    pub policy: String,
    pub kill_switch: Option<String>,
    pub probes: Vec<ProbeStatus>,
    pub store: String,
}

/// The outcome of `telemetry set`.
#[derive(Debug, Clone, PartialEq, Eq)]
pub enum SetOutcome {
    /// The level was written and is in effect.
    Applied,
    /// The level was written, but a kill switch keeps the effective level
    /// below it.
    AppliedButClamped { effective: TelemetryLevel, reason: String },
}

/// Errors of the `telemetry` commands.
#[derive(Debug)]
pub enum TelemetryCommandError {
    /// The settings file could not be written; the store's own reason.
    StoreUnavailable(String),
    UnknownProbe(String),
    /// Writing the settings file failed.
    Write(String),
}

impl TelemetryCommandError {
    pub fn message(&self) -> (out: String)
        ensures
            match self {
                TelemetryCommandError::StoreUnavailable(r) => out@
                    == "telemetry store unavailable: "@ + r@,
                TelemetryCommandError::UnknownProbe(id) => out@ == "unknown probe "@ + debug_repr(
                    id@,
                ) + "; run `telemetry info` to see the full catalog"@,
                TelemetryCommandError::Write(m) => out@ == m@,
            },
    {
        match self {
            TelemetryCommandError::StoreUnavailable(r) => {
                let mut s = owned("telemetry store unavailable: ");
                push_str(&mut s, r.as_str());
                s
            },
            TelemetryCommandError::UnknownProbe(id) => {
                let mut s = owned("unknown probe ");
                let q = debug_quoted(id.as_str());
                push_str(&mut s, q.as_str());
                push_str(&mut s, "; run `telemetry info` to see the full catalog");
                s
            },
            TelemetryCommandError::Write(m) => m.clone(),
        }
    }

    /// The diagnostic code the error is reported under.
    pub fn code(&self) -> (r: &'static str)
        ensures
            r@ == (if *self is UnknownProbe {
                "TEL002"@
            } else {
                "TEL003"@
            }),
    {
        match self {
            TelemetryCommandError::UnknownProbe(_) => "TEL002",
            _ => "TEL003",
        }
    }
}

pub open spec fn policy_line_spec(p: TelemetryPolicy) -> Seq<char> {
    if p.level_source == Layer::Enforced {
        "organisation policy: enforced"@
    } else {
        "organisation policy: not managed"@
    }
}

/// One line describing whether an organisation governs this setting.
pub fn policy_line(policy: &TelemetryPolicy) -> (r: String)
    ensures
        r@ == policy_line_spec(*policy),
{
    if policy.level_source == Layer::Enforced {
        owned("organisation policy: enforced")
    } else {
        owned("organisation policy: not managed")
    }
}

/// The state of one registered probe under a policy.
pub open spec fn probe_status_ok(s: ProbeStatus, p: ProbeSpec, policy: TelemetryPolicy) -> bool {
    &&& s.id@ == p.id@
    &&& s.min_level@ == level_name(p.min_level)
    &&& s.enabled == !strings(policy.disabled_probes@).contains(p.id@)
    &&& s.effective == probe_effective(
        policy.registry@,
        policy.level,
        p.id@,
        strings(policy.disabled_probes@),
    )
    &&& s.summary@ == p.summary@
}

/// Render a policy's current state as a `telemetry status` report.
pub fn status_report(policy: &TelemetryPolicy, store: &StoreState) -> (r: StatusReport)
    ensures
        r.level@ == level_name(policy.level),
        r.level_source@ == layer_name(policy.level_source),
        r.attribution@ == crate::telemetry::axes::attribution_name(policy.attribution),
        r.install_id == policy.install_id,
        r.endpoint == policy.endpoint,
        match policy.endpoint_source {
            Some(l) => r.endpoint_source matches Some(s) && s@ == layer_name(l),
            None => r.endpoint_source is None,
        },
        r.policy@ == policy_line_spec(*policy),
        match policy.kill_switch {
            Some(k) => r.kill_switch matches Some(s) && s@ == kill_switch_var(k, policy.app@),
            None => r.kill_switch is None,
        },
        r.probes@.len() == policy.registry@.len(),
        forall|i: int|
            0 <= i < r.probes@.len() ==> probe_status_ok(
                #[trigger] r.probes@[i],
                policy.registry@[i],
                *policy,
            ),
        r.store@ == describe_spec(*store),
{
    let specs = policy.registry.iter();
    let mut probes: Vec<ProbeStatus> = Vec::new();
    let mut i: usize = 0;
    while i < specs.len()
        invariant
            i <= specs@.len(),
            specs@ == policy.registry@,
            probes@.len() == i,
            forall|j: int|
                0 <= j < i ==> probe_status_ok(#[trigger] probes@[j], specs@[j], *policy),
        decreases specs.len() - i,
    {
        let p = specs[i];
        probes.push(
            ProbeStatus {
                id: owned(p.id),
                min_level: owned(p.min_level.as_str()),
                enabled: !string_in(policy.disabled_probes.as_slice(), p.id),
                effective: policy.effective(p.id),
                summary: owned(p.summary),
            },
        );
        i = i + 1;
    }
    StatusReport {
        level: owned(policy.level.as_str()),
        level_source: owned(policy.level_source.as_str()),
        attribution: owned(policy.attribution.as_str()),
        install_id: clone_opt(&policy.install_id),
        endpoint: clone_opt(&policy.endpoint),
        endpoint_source: match policy.endpoint_source {
            Some(l) => Some(owned(l.as_str())),
            None => None,
        },
        policy: policy_line(policy),
        kill_switch: match policy.kill_switch {
            Some(k) => Some(k.env_var(policy.app.as_str())),
            None => None,
        },
        probes,
        store: store.describe(),
    }
}

/// A catalog entry as printed by `telemetry info`.
#[derive(Debug, Clone)]
pub struct ProbeInfo {
    pub id: String,
    pub min_level: String,
    pub enabled: bool,
    pub effective: bool,
    pub summary: String,
    pub sends: String,
}

/// The full probe catalog, from the policy's own registry, computed the way
/// `status_report` computes each probe's state.
pub fn info_catalog(policy: &TelemetryPolicy) -> (out: Vec<ProbeInfo>)
    ensures
        out@.len() == policy.registry@.len(),
        forall|i: int|
            0 <= i < out@.len() ==> {
                let e = #[trigger] out@[i];
                let p = policy.registry@[i];
                &&& probe_status_ok(
                    ProbeStatus {
                        id: e.id,
                        min_level: e.min_level,
                        enabled: e.enabled,
                        effective: e.effective,
                        summary: e.summary,
                    },
                    p,
                    *policy,
                )
                &&& e.sends@ == p.sends@
            },
{
    let specs = policy.registry.iter();
    let mut out: Vec<ProbeInfo> = Vec::new();
    let mut i: usize = 0;
    while i < specs.len()
        invariant
            i <= specs@.len(),
            specs@ == policy.registry@,
            out@.len() == i,
            forall|j: int|
                0 <= j < i ==> {
                    let e = #[trigger] out@[j];
                    let p = specs@[j];
                    &&& probe_status_ok(
                        ProbeStatus {
                            id: e.id,
                            min_level: e.min_level,
                            enabled: e.enabled,
                            effective: e.effective,
                            summary: e.summary,
                        },
                        p,
                        *policy,
                    )
                    &&& e.sends@ == p.sends@
                },
        decreases specs.len() - i,
    {
        let p = specs[i];
        out.push(
            ProbeInfo {
                id: owned(p.id),
                min_level: owned(p.min_level.as_str()),
                enabled: !string_in(policy.disabled_probes.as_slice(), p.id),
                effective: policy.effective(p.id),
                summary: owned(p.summary),
                sends: owned(p.sends),
            },
        );
        i = i + 1;
    }
    out
}

/// The word for a probe's state.
pub open spec fn state_word(enabled: bool, effective: bool) -> Seq<char> {
    if !enabled {
        "disabled"@
    } else if effective {
        "effective"@
    } else {
        "enabled, not currently effective"@
    }
}

fn state_word_exec(enabled: bool, effective: bool) -> (r: &'static str)
    ensures
        r@ == state_word(enabled, effective),
{
    if !enabled {
        "disabled"
    } else if effective {
        "effective"
    } else {
        "enabled, not currently effective"
    }
}

/// The probe lines of `telemetry status`'s text.
pub open spec fn status_probe_lines(p: Seq<ProbeStatus>) -> Seq<char>
    decreases p.len(),
{
    if p.len() == 0 {
        Seq::empty()
    } else {
        let e = p.last();
        status_probe_lines(p.drop_last()) + "\n  "@ + e.id@ + " (min level "@ + e.min_level@
            + "): "@ + state_word(e.enabled, e.effective) + " -- "@ + e.summary@
    }
}

/// The lines of `telemetry status` before the probes.
pub open spec fn status_head(r: StatusReport) -> Seq<char> {
    "telemetry level: "@ + r.level@ + " (source: "@ + r.level_source@ + ")"@ + (match r.kill_switch {
        Some(k) => "\nkill switch: "@ + k@ + " (forces the effective level to off)"@,
        None => Seq::empty(),
    }) + (match r.endpoint {
        Some(e) => "\nendpoint: "@ + e@ + " (source: "@ + (match r.endpoint_source {
            Some(s) => s@,
            None => "unknown"@,
        }) + ")"@,
        None => "\nendpoint: none configured; nothing exports"@,
    }) + "\nattribution: "@ + r.attribution@ + (match r.install_id {
        Some(id) => "\ninstall id: "@ + id@,
        None => "\ninstall id: none (anonymous)"@,
    }) + "\n"@ + r.policy@ + "\nsettings file: "@ + r.store@
}

/// `telemetry status` as text, one fact a line.
pub open spec fn status_text(r: StatusReport) -> Seq<char> {
    status_head(r) + "\nprobes:"@ + status_probe_lines(r.probes@)
}

fn render_status_head(report: &StatusReport) -> (out: String)
    ensures
        out@ == status_head(*report),
{
    let mut out = owned("telemetry level: ");
    push_str(&mut out, report.level.as_str());
    push_str(&mut out, " (source: ");
    push_str(&mut out, report.level_source.as_str());
    push_str(&mut out, ")");
    if let Some(switch) = &report.kill_switch {
        push_str(&mut out, "\nkill switch: ");
        push_str(&mut out, switch.as_str());
        push_str(&mut out, " (forces the effective level to off)");
    }
    match &report.endpoint {
        Some(endpoint) => {
            push_str(&mut out, "\nendpoint: ");
            push_str(&mut out, endpoint.as_str());
            push_str(&mut out, " (source: ");
            match &report.endpoint_source {
                Some(s) => push_str(&mut out, s.as_str()),
                None => push_str(&mut out, "unknown"),
            }
            push_str(&mut out, ")");
        },
        None => push_str(&mut out, "\nendpoint: none configured; nothing exports"),
    }
    push_str(&mut out, "\nattribution: ");
    push_str(&mut out, report.attribution.as_str());
    match &report.install_id {
        Some(id) => {
            push_str(&mut out, "\ninstall id: ");
            push_str(&mut out, id.as_str());
        },
        None => push_str(&mut out, "\ninstall id: none (anonymous)"),
    }
    push_str(&mut out, "\n");
    push_str(&mut out, report.policy.as_str());
    push_str(&mut out, "\nsettings file: ");
    push_str(&mut out, report.store.as_str());
    assert(out@ =~= status_head(*report));
    out
}

/// Render a status report as text.
pub fn render_status_text(report: &StatusReport) -> (out: String)
    ensures
        out@ == status_text(*report),
{
    let mut out = render_status_head(report);
    push_str(&mut out, "\nprobes:");
    let ghost head = out@;
    assert(head =~= status_head(*report) + "\nprobes:"@);
    let mut i: usize = 0;
    while i < report.probes.len()
        invariant
            i <= report.probes@.len(),
            out@ == head + status_probe_lines(report.probes@.take(i as int)),
        decreases report.probes.len() - i,
    {
        proof {
            assert(report.probes@.take(i + 1).drop_last() =~= report.probes@.take(i as int));
            assert(report.probes@.take(i + 1).last() == report.probes@[i as int]);
        }
        let p = &report.probes[i];
        push_str(&mut out, "\n  ");
        push_str(&mut out, p.id.as_str());
        push_str(&mut out, " (min level ");
        push_str(&mut out, p.min_level.as_str());
        push_str(&mut out, "): ");
        push_str(&mut out, state_word_exec(p.enabled, p.effective));
        push_str(&mut out, " -- ");
        push_str(&mut out, p.summary.as_str());
        proof {
            assert(out@ =~= head + status_probe_lines(report.probes@.take(i + 1)));
        }
        i = i + 1;
    }
    proof {
        assert(report.probes@.take(report.probes@.len() as int) =~= report.probes@);
    }
    out
}

/// The lines of `telemetry info`'s text.
pub open spec fn info_lines(c: Seq<ProbeInfo>) -> Seq<char>
    decreases c.len(),
{
    if c.len() == 0 {
        Seq::empty()
    } else {
        let e = c.last();
        info_lines(c.drop_last()) + "\n  "@ + e.id@ + " (min level "@ + e.min_level@ + "): "@
            + state_word(e.enabled, e.effective) + " -- "@ + e.summary@ + "\n    sends: "@
            + e.sends@
    }
}

/// Render the probe catalog as text.
pub fn render_info_text(catalog: &[ProbeInfo]) -> (out: String)
    ensures
        out@ == "telemetry probe catalog:"@ + info_lines(catalog@),
{
    let mut out = owned("telemetry probe catalog:");
    let ghost head = out@;
    let mut i: usize = 0;
    while i < catalog.len()
        invariant
            i <= catalog@.len(),
            head == "telemetry probe catalog:"@,
            out@ == head + info_lines(catalog@.take(i as int)),
        decreases catalog.len() - i,
    {
        proof {
            assert(catalog@.take(i + 1).drop_last() =~= catalog@.take(i as int));
            assert(catalog@.take(i + 1).last() == catalog@[i as int]);
        }
        let p = &catalog[i];
        push_str(&mut out, "\n  ");
        push_str(&mut out, p.id.as_str());
        push_str(&mut out, " (min level ");
        push_str(&mut out, p.min_level.as_str());
        push_str(&mut out, "): ");
        push_str(&mut out, state_word_exec(p.enabled, p.effective));
        push_str(&mut out, " -- ");
        push_str(&mut out, p.summary.as_str());
        push_str(&mut out, "\n    sends: ");
        push_str(&mut out, p.sends.as_str());
        proof {
            assert(out@ =~= head + info_lines(catalog@.take(i + 1)));
        }
        i = i + 1;
    }
    assert(catalog@.take(catalog@.len() as int) =~= catalog@);
    out
}

/// What `telemetry set` reports once the level is written: clamped when a
/// kill switch keeps telemetry off.
pub fn set_outcome(app_name: &str, env: &[(String, String)]) -> (r: SetOutcome)
    ensures
        match kill_switch_of(app_name@, env@) {
            Some(k) => r matches SetOutcome::AppliedButClamped { effective, reason } && effective
                == TelemetryLevel::Off && reason@ == "the "@ + kill_switch_var(k, app_name@)
                + " environment variable is set; telemetry stays off regardless of the configured level"@,
            None => r == SetOutcome::Applied,
        },
{
    match detect_kill_switch(app_name, env) {
        Some(switch) => {
            let mut reason = owned("the ");
            let v = switch.env_var(app_name);
            push_str(&mut reason, v.as_str());
            push_str(
                &mut reason,
                " environment variable is set; telemetry stays off regardless of the configured level",
            );
            SetOutcome::AppliedButClamped { effective: TelemetryLevel::Off, reason }
        },
        None => SetOutcome::Applied,
    }
}

/// Store a new telemetry level in the settings.
pub fn set_level(settings: &mut TelemetrySettings, level: TelemetryLevel)
    ensures
        final(settings).level == Some(level),
        final(settings).probes == old(settings).probes,
        final(settings).attribution == old(settings).attribution,
        final(settings).endpoint == old(settings).endpoint,
        final(settings).install_id == old(settings).install_id,
        final(settings).notice_shown == old(settings).notice_shown,
{
    settings.level = Some(level);
}

/// Disable one probe id. Disabling a parent disables its descendants
/// through `effective`'s ancestor check; only the named id is written.
pub fn disable_probe(settings: &mut TelemetrySettings, registry: &ProbeRegistry, id: &str) -> (r:
    Result<(), TelemetryCommandError>)
    ensures
        registry_find(registry@, id@) is None ==> (r matches Err(
            TelemetryCommandError::UnknownProbe(s),
        ) && s@ == id@ && *final(settings) == *old(settings)),
        registry_find(registry@, id@) is Some ==> r is Ok && final(settings).probes@
            == crate::telemetry::store::probes_without(old(settings).probes@, id@).push(
            (final(settings).probes@.last().0, false),
        ) && final(settings).probes@.last().0@ == id@,
{
    if !registry.contains(id) {
        return Err(TelemetryCommandError::UnknownProbe(owned(id)));
    }
    settings.disable_probe(id);
    Ok(())
}

/// Re-enable one probe id by removing its stored value; an ancestor that is
/// still disabled keeps it silent.
pub fn enable_probe(settings: &mut TelemetrySettings, registry: &ProbeRegistry, id: &str) -> (r:
    Result<(), TelemetryCommandError>)
    ensures
        registry_find(registry@, id@) is None ==> (r matches Err(
            TelemetryCommandError::UnknownProbe(s),
        ) && s@ == id@ && *final(settings) == *old(settings)),
        registry_find(registry@, id@) is Some ==> r is Ok && final(settings).probes@
            == crate::telemetry::store::probes_without(old(settings).probes@, id@),
{
    if !registry.contains(id) {
        return Err(TelemetryCommandError::UnknownProbe(owned(id)));
    }
    settings.enable_probe(id);
    Ok(())
}

/// `disable_probe` then `enable_probe` on a registered probe: the stored
/// overrides end as they began less any entry for that probe, so it is
/// absent (enabled), never stored as enabled.
pub proof fn law_disable_then_enable(
    before: TelemetrySettings,
    disabled: TelemetrySettings,
    after: TelemetrySettings,
    registry: ProbeRegistry,
    id: Seq<char>,
)
    requires
        registry_find(registry@, id) is Some,
        disabled.probes@ == crate::telemetry::store::probes_without(before.probes@, id).push(
            (disabled.probes@.last().0, false),
        ),
        disabled.probes@.last().0@ == id,
        after.probes@ == crate::telemetry::store::probes_without(disabled.probes@, id),
    ensures
        after.probes@ == crate::telemetry::store::probes_without(before.probes@, id),
        forall|i: int| 0 <= i < after.probes@.len() ==> (#[trigger] after.probes@[i]).0@ != id,
{
    crate::telemetry::store::law_enable_undoes_disable(before.probes@, id, disabled.probes@.last());
    let pred = crate::telemetry::store::not_id(id);
    assert forall|i: int| 0 <= i < after.probes@.len() implies (#[trigger] after.probes@[i]).0@ != id by {
        before.probes@.lemma_filter_pred(pred, i);
    }
}

/// The policy what is on disk gives an end-user Install: the stored level
/// as the config-file layer, the stored endpoint as its source, the stored
/// attribution, the disabled probes, the store's state and the kill
/// switches of the environment.
pub fn build_policy(
    app_name: &str,
    settings: &TelemetrySettings,
    store: &StoreState,
    env: &[(String, String)],
    registry: ProbeRegistry,
) -> (p: TelemetryPolicy)
    ensures
        (p.level, p.level_source) == crate::telemetry::policy::resolved_level(
            Deployment::EndUser { privacy_url: None },
            settings.endpoint is Some,
            LayeredLevel {
                recommended: None,
                config_file: settings.level,
                environment: None,
                builder_override: None,
            },
            kill_switch_of(app_name@, env@),
        ),
        p.kill_switch == kill_switch_of(app_name@, env@),
        p.app@ == app_name@,
        p.endpoint == settings.endpoint,
        p.endpoint_source == (if settings.endpoint is Some {
            Some(Layer::ConfigFile)
        } else {
            None
        }),
        p.attribution == (if *store is Ready {
            match settings.attribution {
                Some(a) => a,
                None => Attribution::Pseudonymous,
            }
        } else {
            Attribution::Anonymous
        }),
        p.install_id == (if p.attribution == Attribution::Anonymous {
            None
        } else {
            settings.install_id
        }),
        strings(p.disabled_probes@) == disabled_ids(settings.probes@),
        p.registry@ == registry@,
        p.store_available == (*store is Ready),
{
    let kill_switch = detect_kill_switch(app_name, env);
    let endpoint_source = match &settings.endpoint {
        Some(_) => Some(Layer::ConfigFile),
        None => None,
    };
    let mut inputs = TelemetryInputs::default();
    inputs.app = owned(app_name);
    inputs.level = LayeredLevel {
        recommended: None,
        config_file: settings.level,
        environment: None,
        builder_override: None,
    };
    inputs.endpoint = clone_opt(&settings.endpoint);
    inputs.endpoint_source = endpoint_source;
    inputs.attribution = match settings.attribution {
        Some(a) => a,
        None => Attribution::Pseudonymous,
    };
    inputs.install_id = clone_opt(&settings.install_id);
    inputs.registry = registry;
    inputs.disabled_probes = settings.disabled_probes();
    inputs.store_available = store.is_ready();
    inputs.store_error = match store.reason() {
        Some(r) => Some(owned(r)),
        None => None,
    };
    inputs.kill_switch = kill_switch;
    resolve_policy(inputs)
}

} // verus!
