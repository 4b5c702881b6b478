//! The one place a telemetry decision is made.
//!
//! [`resolve_policy`] is pure: it takes every input the process has already
//! gathered and returns an immutable [`TelemetryPolicy`]. It builds nothing,
//! reads no file and touches no environment variable, so every rule (the
//! resolution order, the end-user clamp, the kill switches, the export
//! condition) holds of its contract.

use crate::telemetry::axes::{level_rank, Attribution, Deployment, TelemetryLevel};
use crate::telemetry::probe::{effective as probe_effective_exec, probe_effective, ProbeRegistry};
use crate::text::{
    chars_of, lookup, map_chars, map_chars_vec, owned, pair_get, push_all, push_str, string_of,
    strings, upper_seq, upper_vec,
};
use vstd::prelude::*;

verus! {

/// The layer of the resolution order a value came from.
#[derive(Debug, Clone, Copy, PartialEq, Eq, Hash, Structural)]
pub enum Layer {
    Default,
    Recommended,
    ConfigFile,
    Environment,
    BuilderOverride,
    Enforced,
}

pub open spec fn layer_name(l: Layer) -> Seq<char> {
    match l {
        Layer::Default => "default"@,
        Layer::Recommended => "recommended"@,
        Layer::ConfigFile => "config_file"@,
        Layer::Environment => "environment"@,
        Layer::BuilderOverride => "builder_override"@,
        Layer::Enforced => "enforced"@,
    }
}

impl Layer {
    /// The `snake_case` label shown by `telemetry status`.
    pub fn as_str(&self) -> (r: &'static str)
        ensures
            r@ == layer_name(*self),
    {
        match self {
            Layer::Default => "default",
            Layer::Recommended => "recommended",
            Layer::ConfigFile => "config_file",
            Layer::Environment => "environment",
            Layer::BuilderOverride => "builder_override",
            Layer::Enforced => "enforced",
        }
    }
}

/// A switch that forces telemetry off before anything else is considered.
#[derive(Debug, Clone, Copy, PartialEq, Eq, Structural)]
pub enum KillSwitch {
    /// `<APP>_TELEMETRY_DISABLED=1`
    AppDisabled,
    /// `OTEL_SDK_DISABLED=true`
    OtelSdkDisabled,
    /// `DO_NOT_TRACK=1`
    DoNotTrack,
}

pub open spec fn kill_switch_name(k: KillSwitch) -> Seq<char> {
    match k {
        KillSwitch::AppDisabled => "<APP>_TELEMETRY_DISABLED"@,
        KillSwitch::OtelSdkDisabled => "OTEL_SDK_DISABLED"@,
        KillSwitch::DoNotTrack => "DO_NOT_TRACK"@,
    }
}

/// `demo-app` becomes `DEMO_APP`.
pub open spec fn env_prefix(app: Seq<char>) -> Seq<char> {
    map_chars(upper_seq(app), seq!['-', '.'], '_')
}

/// The variable that fires a switch for one application.
pub open spec fn kill_switch_var(k: KillSwitch, app: Seq<char>) -> Seq<char> {
    match k {
        KillSwitch::AppDisabled => env_prefix(app) + "_TELEMETRY_DISABLED"@,
        _ => kill_switch_name(k),
    }
}

impl KillSwitch {
    /// The variable that fired, for `telemetry status` and the doctor.
    pub fn as_str(&self) -> (r: &'static str)
        ensures
            r@ == kill_switch_name(*self),
    {
        match self {
            KillSwitch::AppDisabled => "<APP>_TELEMETRY_DISABLED",
            KillSwitch::OtelSdkDisabled => "OTEL_SDK_DISABLED",
            KillSwitch::DoNotTrack => "DO_NOT_TRACK",
        }
    }

    /// The variable that fired, with the application's own prefix filled in.
    pub fn env_var(&self, app: &str) -> (r: String)
        ensures
            r@ == kill_switch_var(*self, app@),
    {
        match self {
            KillSwitch::AppDisabled => {
                let mut r = env_var_prefix(app);
                push_str(&mut r, "_TELEMETRY_DISABLED");
                r
            },
            _ => owned(self.as_str()),
        }
    }
}

/// `demo-app` becomes `DEMO_APP`. The same transform the `telemetry.`
/// environment mapping uses for the rest of the subtree.
pub fn env_var_prefix(app: &str) -> (r: String)
    ensures
        r@ == env_prefix(app@),
{
    let up = upper_vec(chars_of(app).as_slice());
    let set: [char; 2] = ['-', '.'];
    let out = map_chars_vec(up.as_slice(), &set, '_');
    assert(set@ =~= seq!['-', '.']);
    string_of(out.as_slice())
}

/// The switch the environment fires, the three checked in order.
pub open spec fn kill_switch_of(app: Seq<char>, env: Seq<(String, String)>) -> Option<KillSwitch> {
    if pair_get(env, env_prefix(app) + "_TELEMETRY_DISABLED"@) == Some("1"@) {
        Some(KillSwitch::AppDisabled)
    } else if pair_get(env, "OTEL_SDK_DISABLED"@) == Some("true"@) {
        Some(KillSwitch::OtelSdkDisabled)
    } else if pair_get(env, "DO_NOT_TRACK"@) == Some("1"@) {
        Some(KillSwitch::DoNotTrack)
    } else {
        None
    }
}

fn var_is(env: &[(String, String)], key: &str, want: &str) -> (r: bool)
    ensures
        r == (pair_get(env@, key@) == Some(want@)),
{
    match lookup(env, key) {
        Some(v) => crate::text::str_eq(v, want),
        None => false,
    }
}

/// Check the three kill switches in order, against a snapshot of the
/// environment (name, value pairs).
pub fn detect_kill_switch(app: &str, env: &[(String, String)]) -> (r: Option<KillSwitch>)
    ensures
        r == kill_switch_of(app@, env@),
{
    let mut app_var = env_var_prefix(app);
    push_str(&mut app_var, "_TELEMETRY_DISABLED");
    if var_is(env, app_var.as_str(), "1") {
        return Some(KillSwitch::AppDisabled);
    }
    if var_is(env, "OTEL_SDK_DISABLED", "true") {
        return Some(KillSwitch::OtelSdkDisabled);
    }
    if var_is(env, "DO_NOT_TRACK", "1") {
        return Some(KillSwitch::DoNotTrack);
    }
    None
}

/// The telemetry level as each layer of the resolution order supplied it.
///
/// There is no `flags` field: a command-line flag may not set the telemetry
/// level, so that layer is never populated.
#[derive(Debug, Clone, Copy, PartialEq, Eq, Structural)]
pub struct LayeredLevel {
    pub recommended: Option<TelemetryLevel>,
    pub config_file: Option<TelemetryLevel>,
    pub environment: Option<TelemetryLevel>,
    pub builder_override: Option<TelemetryLevel>,
}

impl Default for LayeredLevel {
    fn default() -> (r: Self)
        ensures
            r == (LayeredLevel {
                recommended: None,
                config_file: None,
                environment: None,
                builder_override: None,
            }),
    {
        LayeredLevel { recommended: None, config_file: None, environment: None, builder_override: None }
    }
}

/// Everything the process gathered before a decision is made.
#[derive(Debug)]
pub struct TelemetryInputs {
    pub app: String,
    pub deployment: Deployment,
    pub level: LayeredLevel,
    pub endpoint: Option<String>,
    pub endpoint_source: Option<Layer>,
    pub attribution: Attribution,
    pub install_id: Option<String>,
    pub session_id: String,
    pub kill_switch: Option<KillSwitch>,
    pub registry: ProbeRegistry,
    /// Probe ids whose stored `enabled` is false.
    pub disabled_probes: Vec<String>,
    pub store_available: bool,
    pub store_error: Option<String>,
    /// The organisation policy's name, when a policy client supplied one.
    pub policy_name: Option<String>,
    /// Application attribute keys the author declared.
    pub app_attr_allowlist: Vec<String>,
    /// Extra never-list fragments the author added.
    pub extra_never: Vec<String>,
}

impl Default for TelemetryInputs {
    fn default() -> (r: Self)
        ensures
            r.app@ == Seq::<char>::empty(),
            r.deployment == (Deployment::EndUser { privacy_url: None }),
            r.level == (LayeredLevel {
                recommended: None,
                config_file: None,
                environment: None,
                builder_override: None,
            }),
            r.endpoint is None,
            r.endpoint_source is None,
            r.attribution == Attribution::Pseudonymous,
            r.install_id is None,
            r.session_id@ == Seq::<char>::empty(),
            r.kill_switch is None,
            r.registry@ == Seq::<crate::telemetry::probe::ProbeSpec>::empty(),
            r.disabled_probes@.len() == 0,
            !r.store_available,
            r.store_error is None,
            r.policy_name is None,
            r.app_attr_allowlist@.len() == 0,
            r.extra_never@.len() == 0,
    {
        TelemetryInputs {
            app: String::new(),
            deployment: Deployment::EndUser { privacy_url: None },
            level: LayeredLevel::default(),
            endpoint: None,
            endpoint_source: None,
            attribution: Attribution::Pseudonymous,
            install_id: None,
            session_id: String::new(),
            kill_switch: None,
            registry: ProbeRegistry::new(),
            disabled_probes: Vec::new(),
            store_available: false,
            store_error: None,
            policy_name: None,
            app_attr_allowlist: Vec::new(),
            extra_never: Vec::new(),
        }
    }
}

/// The decision. Immutable, computed once per process.
#[derive(Debug)]
pub struct TelemetryPolicy {
    pub app: String,
    pub deployment: Deployment,
    pub level: TelemetryLevel,
    pub level_source: Layer,
    pub attribution: Attribution,
    pub endpoint: Option<String>,
    pub endpoint_source: Option<Layer>,
    pub install_id: Option<String>,
    pub session_id: String,
    pub kill_switch: Option<KillSwitch>,
    pub registry: ProbeRegistry,
    pub disabled_probes: Vec<String>,
    pub store_available: bool,
    pub store_error: Option<String>,
    pub policy_name: Option<String>,
    pub app_attr_allowlist: Vec<String>,
    pub extra_never: Vec<String>,
}

/// The level before any layer speaks: `off` on an end-user Install or
/// without an endpoint, `diagnostic` otherwise.
pub open spec fn default_level(d: Deployment, has_endpoint: bool) -> TelemetryLevel {
    if d is EndUser || !has_endpoint {
        TelemetryLevel::Off
    } else {
        TelemetryLevel::Diagnostic
    }
}

/// The last layer that set a value wins; `clamped` ignores the environment
/// and the builder override.
pub open spec fn fold_spec(default: TelemetryLevel, layers: LayeredLevel, clamped: bool) -> (
    TelemetryLevel,
    Layer,
) {
    let c1 = match layers.recommended {
        Some(v) => (v, Layer::Recommended),
        None => (default, Layer::Default),
    };
    let c2 = match layers.config_file {
        Some(v) => (v, Layer::ConfigFile),
        None => c1,
    };
    if clamped {
        c2
    } else {
        let c3 = match layers.environment {
            Some(v) => (v, Layer::Environment),
            None => c2,
        };
        match layers.builder_override {
            Some(v) => (v, Layer::BuilderOverride),
            None => c3,
        }
    }
}

/// The level and its source. A kill switch forces `off` from the enforced
/// layer. On an end-user Install the result is the lower of the full
/// resolution and the resolution without environment and builder overrides.
pub open spec fn resolved_level(
    d: Deployment,
    has_endpoint: bool,
    layers: LayeredLevel,
    kill: Option<KillSwitch>,
) -> (TelemetryLevel, Layer) {
    if kill is Some {
        (TelemetryLevel::Off, Layer::Enforced)
    } else {
        let dl = default_level(d, has_endpoint);
        let full = fold_spec(dl, layers, false);
        if d is EndUser {
            let restricted = fold_spec(dl, layers, true);
            if level_rank(restricted.0) < level_rank(full.0) {
                restricted
            } else {
                full
            }
        } else {
            full
        }
    }
}

fn fold_layers(default: TelemetryLevel, layers: &LayeredLevel, clamped: bool) -> (r: (
    TelemetryLevel,
    Layer,
))
    ensures
        r == fold_spec(default, *layers, clamped),
{
    let mut current = (default, Layer::Default);
    if let Some(v) = layers.recommended {
        current = (v, Layer::Recommended);
    }
    if let Some(v) = layers.config_file {
        current = (v, Layer::ConfigFile);
    }
    if !clamped {
        if let Some(v) = layers.environment {
            current = (v, Layer::Environment);
        }
        if let Some(v) = layers.builder_override {
            current = (v, Layer::BuilderOverride);
        }
    }
    current
}

/// Fold the inputs into a policy. Pure.
pub fn resolve_policy(inputs: TelemetryInputs) -> (p: TelemetryPolicy)
    ensures
        (p.level, p.level_source) == resolved_level(
            inputs.deployment,
            inputs.endpoint is Some,
            inputs.level,
            inputs.kill_switch,
        ),
        p.attribution == (if inputs.store_available {
            inputs.attribution
        } else {
            Attribution::Anonymous
        }),
        p.install_id == (if p.attribution == Attribution::Anonymous {
            None
        } else {
            inputs.install_id
        }),
        p.app == inputs.app,
        p.deployment == inputs.deployment,
        p.endpoint == inputs.endpoint,
        p.endpoint_source == inputs.endpoint_source,
        p.session_id == inputs.session_id,
        p.kill_switch == inputs.kill_switch,
        p.registry@ == inputs.registry@,
        p.disabled_probes == inputs.disabled_probes,
        p.store_available == inputs.store_available,
        p.store_error == inputs.store_error,
        p.policy_name == inputs.policy_name,
        p.app_attr_allowlist == inputs.app_attr_allowlist,
        p.extra_never == inputs.extra_never,
{
    let default_level = if inputs.deployment.is_end_user() || inputs.endpoint.is_none() {
        TelemetryLevel::Off
    } else {
        TelemetryLevel::Diagnostic
    };
    let (level, level_source) = if inputs.kill_switch.is_some() {
        (TelemetryLevel::Off, Layer::Enforced)
    } else {
        let full = fold_layers(default_level, &inputs.level, false);
        if inputs.deployment.is_end_user() {
            // The clamp: on an end-user Install only a stored choice or an
            // organisation recommendation can raise the telemetry level.
            let restricted = fold_layers(default_level, &inputs.level, true);
            if restricted.0.rank() < full.0.rank() {
                restricted
            } else {
                full
            }
        } else {
            full
        }
    };
    let attribution = if inputs.store_available {
        inputs.attribution
    } else {
        Attribution::Anonymous
    };
    let install_id = match attribution {
        Attribution::Anonymous => None,
        _ => inputs.install_id,
    };
    TelemetryPolicy {
        app: inputs.app,
        deployment: inputs.deployment,
        level,
        level_source,
        attribution,
        endpoint: inputs.endpoint,
        endpoint_source: inputs.endpoint_source,
        install_id,
        session_id: inputs.session_id,
        kill_switch: inputs.kill_switch,
        registry: inputs.registry,
        disabled_probes: inputs.disabled_probes,
        store_available: inputs.store_available,
        store_error: inputs.store_error,
        policy_name: inputs.policy_name,
        app_attr_allowlist: inputs.app_attr_allowlist,
        extra_never: inputs.extra_never,
    }
}

/// Export happens only without a kill switch, above `off`, with an endpoint.
pub open spec fn policy_exports(p: TelemetryPolicy) -> bool {
    p.kill_switch is None && p.level != TelemetryLevel::Off && p.endpoint is Some
}

impl TelemetryPolicy {
    /// Export happens only above `off` and only with an endpoint to send to.
    pub fn exports(&self) -> (r: bool)
        ensures
            r == policy_exports(*self),
    {
        self.kill_switch.is_none() && self.level.rank() > 0 && self.endpoint.is_some()
    }

    /// Whether one probe may emit under this policy.
    pub fn effective(&self, probe_id: &str) -> (r: bool)
        ensures
            r == probe_effective(
                self.registry@,
                self.level,
                probe_id@,
                strings(self.disabled_probes@),
            ),
    {
        probe_effective_exec(&self.registry, self.level, probe_id, self.disabled_probes.as_slice())
    }

    /// End-user Installs sample everything; `debug` forces the same.
    pub fn sampler_is_always_on(&self) -> (r: bool)
        ensures
            r == (self.deployment is EndUser || self.level == TelemetryLevel::Debug),
    {
        self.deployment.is_end_user() || self.level == TelemetryLevel::Debug
    }
}

/// A kill switch forces `off`, attributed to the enforced layer, whatever the
/// layers say.
pub proof fn law_kill_switch_forces_off(
    d: Deployment,
    has_endpoint: bool,
    layers: LayeredLevel,
    kill: KillSwitch,
)
    ensures
        resolved_level(d, has_endpoint, layers, Some(kill)) == (TelemetryLevel::Off, Layer::Enforced),
{
}

/// On an end-user Install the environment and the builder override can lower
/// the level but never raise it above what resolution without them gives.
pub proof fn law_end_user_overrides_cannot_raise(
    has_endpoint: bool,
    privacy_url: Option<String>,
    layers: LayeredLevel,
    kill: Option<KillSwitch>,
)
    ensures
        ({
            let d = Deployment::EndUser { privacy_url };
            let without = LayeredLevel { environment: None, builder_override: None, ..layers };
            level_rank(resolved_level(d, has_endpoint, layers, kill).0) <= level_rank(
                resolved_level(d, has_endpoint, without, kill).0,
            )
        }),
{
}

/// On a service Install the full resolution applies: the last layer that set
/// a level wins.
pub proof fn law_service_last_layer_wins(has_endpoint: bool, layers: LayeredLevel, v: TelemetryLevel)
    ensures
        resolved_level(
            Deployment::Service,
            has_endpoint,
            LayeredLevel { builder_override: Some(v), ..layers },
            None,
        ) == (v, Layer::BuilderOverride),
{
}

/// Nothing is exported under a kill switch, at `off`, or without an endpoint.
pub proof fn law_exports_needs_level_and_endpoint(p: TelemetryPolicy)
    requires
        policy_exports(p),
    ensures
        p.kill_switch is None,
        level_rank(p.level) > 0,
        p.endpoint is Some,
{
}

/// The layers set, each given the level it would set, as a level and the
/// layer it came from.
pub open spec fn layer_set(l: Layer, default: TelemetryLevel, layers: LayeredLevel) -> Option<TelemetryLevel> {
    match l {
        Layer::Default => Some(default),
        Layer::Recommended => layers.recommended,
        Layer::ConfigFile => layers.config_file,
        Layer::Environment => layers.environment,
        Layer::BuilderOverride => layers.builder_override,
        Layer::Enforced => None,
    }
}

/// Where a layer stands among the layered sources: default, the
/// organisation's recommendation, the user's stored config, the
/// environment, the builder's override.
pub open spec fn layer_priority(l: Layer) -> int {
    match l {
        Layer::Default => 0,
        Layer::Recommended => 1,
        Layer::ConfigFile => 2,
        Layer::Environment => 3,
        Layer::BuilderOverride => 4,
        Layer::Enforced => 5,
    }
}

/// The layered level comes from the highest-priority layer that is set
/// (the environment and the builder's override not counting when the
/// end-user clamp applies): the level is that layer's value, and no
/// layer above it holds one. So a user's stored choice overrides the
/// organisation's recommendation, whatever that recommends.
pub proof fn law_highest_set_layer_wins(default: TelemetryLevel, layers: LayeredLevel, clamped: bool)
    ensures
        ({
            let (level, from) = fold_spec(default, layers, clamped);
            &&& layer_set(from, default, layers) == Some(level)
            &&& layer_priority(from) <= 4
            &&& clamped ==> layer_priority(from) <= 2
            &&& forall|l: Layer|
                layer_priority(from) < #[trigger] layer_priority(l) <= (if clamped { 2int } else { 4int })
                    ==> layer_set(l, default, layers) is None
        }),
{
}

/// With the user's stored choice set, and nothing above it that counts,
/// the level is that choice from the config file, whatever the
/// recommendation holds.
pub proof fn law_stored_choice_beats_recommendation(
    default: TelemetryLevel,
    layers: LayeredLevel,
    clamped: bool,
    recommended: Option<TelemetryLevel>,
)
    requires
        layers.config_file is Some,
        clamped || (layers.environment is None && layers.builder_override is None),
    ensures
        fold_spec(default, layers, clamped) == (layers.config_file->0, Layer::ConfigFile),
        fold_spec(default, LayeredLevel { recommended, ..layers }, clamped) == fold_spec(
            default,
            layers,
            clamped,
        ),
{
}

} // verus!
