//! The fixed order in which telemetry starts up, and the pure steps of it:
//! which steps run, and how the stored settings fold into the inputs.

use crate::telemetry::axes::{attribution_of_name, level_of_name, level_rank, Attribution, TelemetryLevel};
use crate::telemetry::env::EnvValue;
use crate::telemetry::policy::{KillSwitch, Layer, TelemetryInputs, TelemetryPolicy};
use crate::doctor::DoctorFinding;
use crate::telemetry::store::{StoreState, TelemetrySettings};
use crate::telemetry::subscriber::SubscriberOutcome;
use crate::text::{chars_of, clone_opt, owned, str_eq, strings, trim_seq, trim_vec};
use vstd::prelude::*;

verus! {

/// One step of telemetry startup.
#[derive(Debug, Clone, Copy, PartialEq, Eq, Structural)]
pub enum StartupStep {
    /// Before any disk or socket access: `DO_NOT_TRACK=1` must cost nothing.
    KillSwitches,
    /// Needed by resolution; failure is a value, never an abort.
    OpenStore,
    /// The generated section must exist before resolution can name its leaves.
    MergeManifest,
    /// One pure resolution, once per process.
    Resolve,
    /// Frozen and never mutated after this point.
    FreezePolicy,
    /// Providers and the export boundary.
    BuildProviders,
    /// After the providers, because the OTel layer needs a live tracer.
    InstallSubscriber,
    /// After the subscriber, before dispatch.
    ShowNotice,
    /// Last of the setup.
    InstallPanicHook,
    /// The command itself.
    Dispatch,
}

pub open spec fn order_spec() -> Seq<StartupStep> {
    seq![
        StartupStep::KillSwitches,
        StartupStep::OpenStore,
        StartupStep::MergeManifest,
        StartupStep::Resolve,
        StartupStep::FreezePolicy,
        StartupStep::BuildProviders,
        StartupStep::InstallSubscriber,
        StartupStep::ShowNotice,
        StartupStep::InstallPanicHook,
        StartupStep::Dispatch,
    ]
}

/// The order, as a value so it can be asserted against.
pub fn startup_order() -> (out: Vec<StartupStep>)
    ensures
        out@ == order_spec(),
{
    let out = vec![
        StartupStep::KillSwitches,
        StartupStep::OpenStore,
        StartupStep::MergeManifest,
        StartupStep::Resolve,
        StartupStep::FreezePolicy,
        StartupStep::BuildProviders,
        StartupStep::InstallSubscriber,
        StartupStep::ShowNotice,
        StartupStep::InstallPanicHook,
        StartupStep::Dispatch,
    ];
    assert(out@ =~= order_spec());
    out
}

/// The steps startup performs: the store and the environment are skipped
/// under a kill switch, providers are built only when something exports,
/// and the subscriber and panic hook only once providers were built.
pub open spec fn steps_spec(kill_switch: bool, exports: bool, built: bool) -> Seq<StartupStep> {
    seq![StartupStep::KillSwitches] + (if kill_switch {
        Seq::empty()
    } else {
        seq![StartupStep::OpenStore, StartupStep::MergeManifest]
    }) + seq![StartupStep::Resolve, StartupStep::FreezePolicy] + (if exports {
        seq![StartupStep::BuildProviders]
    } else {
        Seq::empty()
    }) + (if exports && built {
        seq![StartupStep::InstallSubscriber]
    } else {
        Seq::empty()
    }) + seq![StartupStep::ShowNotice] + (if exports && built {
        seq![StartupStep::InstallPanicHook]
    } else {
        Seq::empty()
    }) + seq![StartupStep::Dispatch]
}

/// The steps startup performs, given whether a kill switch fired, whether
/// the policy exports and whether the providers were built.
pub fn startup_steps(kill_switch: bool, exports: bool, built: bool) -> (out: Vec<StartupStep>)
    ensures
        out@ == steps_spec(kill_switch, exports, built),
{
    let mut out: Vec<StartupStep> = Vec::new();
    out.push(StartupStep::KillSwitches);
    if !kill_switch {
        out.push(StartupStep::OpenStore);
        out.push(StartupStep::MergeManifest);
    }
    out.push(StartupStep::Resolve);
    out.push(StartupStep::FreezePolicy);
    if exports {
        out.push(StartupStep::BuildProviders);
    }
    if exports && built {
        out.push(StartupStep::InstallSubscriber);
    }
    out.push(StartupStep::ShowNotice);
    if exports && built {
        out.push(StartupStep::InstallPanicHook);
    }
    out.push(StartupStep::Dispatch);
    assert(out@ =~= steps_spec(kill_switch, exports, built));
    out
}

/// The position of a step in the fixed order.
pub open spec fn step_rank(s: StartupStep) -> int {
    match s {
        StartupStep::KillSwitches => 0,
        StartupStep::OpenStore => 1,
        StartupStep::MergeManifest => 2,
        StartupStep::Resolve => 3,
        StartupStep::FreezePolicy => 4,
        StartupStep::BuildProviders => 5,
        StartupStep::InstallSubscriber => 6,
        StartupStep::ShowNotice => 7,
        StartupStep::InstallPanicHook => 8,
        StartupStep::Dispatch => 9,
    }
}

/// Whatever startup skips, the steps it performs follow the fixed order
/// strictly, start with the kill switches and end with dispatch.
pub proof fn law_steps_follow_the_order(kill_switch: bool, exports: bool, built: bool)
    ensures
        ({
            let s = steps_spec(kill_switch, exports, built);
            &&& forall|i: int, j: int|
                0 <= i < j < s.len() ==> step_rank(#[trigger] s[i]) < step_rank(#[trigger] s[j])
            &&& s[0] == StartupStep::KillSwitches
            &&& s.last() == StartupStep::Dispatch
            &&& forall|i: int| 0 <= i < s.len() ==> order_spec()[step_rank(#[trigger] s[i])] == s[i]
        }),
{
    let s = steps_spec(kill_switch, exports, built);
    assert forall|i: int, j: int| 0 <= i < j < s.len() implies step_rank(#[trigger] s[i]) < step_rank(
        #[trigger] s[j],
    ) by {
        assert forall|k: int| 0 <= k < s.len() - 1 implies step_rank(#[trigger] s[k]) < step_rank(
            s[k + 1],
        ) by {}
        lemma_increasing(s, i, j);
    }
}

proof fn lemma_increasing(s: Seq<StartupStep>, i: int, j: int)
    requires
        forall|k: int| 0 <= k < s.len() - 1 ==> step_rank(#[trigger] s[k]) < step_rank(s[k + 1]),
        0 <= i < j < s.len(),
    ensures
        step_rank(s[i]) < step_rank(s[j]),
    decreases j - i,
{
    if j > i + 1 {
        lemma_increasing(s, i, j - 1);
        assert(step_rank(s[j - 1]) < step_rank(s[j]));
    }
}

/// What startup observed, as opposed to what it decided: the evidence a
/// person needs when the decisions are not the ones they expected.
#[derive(Debug, Clone)]
pub struct StartupReport {
    pub subscriber: SubscriberOutcome,
    pub store: StoreState,
    pub kill_switch: Option<KillSwitch>,
    /// `<APP>_TELEMETRY_*` variables that matched no manifest leaf; names
    /// only, never values.
    pub unmatched_env: Vec<String>,
    pub findings: Vec<DoctorFinding>,
}

impl Default for StartupReport {
    fn default() -> (r: Self)
        ensures
            r.subscriber == SubscriberOutcome::Installed,
            r.store matches StoreState::Unavailable(m) && m@ == "not opened"@,
            r.kill_switch is None,
            r.unmatched_env@.len() == 0,
            r.findings@.len() == 0,
    {
        StartupReport {
            subscriber: SubscriberOutcome::Installed,
            store: StoreState::default(),
            kill_switch: None,
            unmatched_env: Vec::new(),
            findings: Vec::new(),
        }
    }
}

/// The kill switch startup acts on: one the environment snapshot shows,
/// else the one the caller already knew.
pub fn startup_kill_switch(detected: Option<KillSwitch>, known: Option<KillSwitch>) -> (r: Option<KillSwitch>)
    ensures
        r == (match detected {
            Some(k) => Some(k),
            None => known,
        }),
{
    match detected {
        Some(k) => Some(k),
        None => known,
    }
}

/// A probe override applied to the disabled set: the id leaves it, and
/// re-enters only when the override disables it.
pub open spec fn apply_override(d: Seq<Seq<char>>, id: Seq<char>, enabled: bool) -> Seq<Seq<char>> {
    let rest = d.filter(|x: Seq<char>| x != id);
    if enabled {
        rest
    } else {
        rest.push(id)
    }
}

/// Every stored override applied in order.
pub open spec fn apply_overrides(d: Seq<Seq<char>>, p: Seq<(String, bool)>) -> Seq<Seq<char>>
    decreases p.len(),
{
    if p.len() == 0 {
        d
    } else {
        apply_override(apply_overrides(d, p.drop_last()), p.last().0@, p.last().1)
    }
}

fn apply_override_exec(d: &Vec<String>, id: &String, enabled: bool) -> (out: Vec<String>)
    ensures
        strings(out@) == apply_override(strings(d@), id@, enabled),
{
    let ghost pred = |x: Seq<char>| x != id@;
    let mut out: Vec<String> = Vec::new();
    let mut i: usize = 0;
    while i < d.len()
        invariant
            i <= d@.len(),
            strings(out@) == strings(d@).take(i as int).filter(pred),
            pred == (|x: Seq<char>| x != id@),
        decreases d.len() - i,
    {
        proof {
            reveal(Seq::filter);
            assert(strings(d@).take(i + 1).drop_last() =~= strings(d@).take(i as int));
            assert(strings(d@).take(i + 1).last() == d@[i as int]@);
        }
        if d[i] != *id {
            let ghost before = strings(out@);
            out.push(d[i].clone());
            assert(strings(out@) =~= before.push(d@[i as int]@));
        }
        i = i + 1;
    }
    assert(strings(d@).take(d@.len() as int) =~= strings(d@));
    if !enabled {
        let ghost before = strings(out@);
        out.push(id.clone());
        assert(strings(out@) =~= before.push(id@));
    }
    out
}

/// Fold the stored settings into the inputs, and the store's health. A
/// blank stored endpoint is ignored. Returns the stored `notice_shown`.
pub fn fold_store(
    base: &mut TelemetryInputs,
    state: &StoreState,
    settings: &TelemetrySettings,
) -> (notice_shown: Option<TelemetryLevel>)
    ensures
        notice_shown == settings.notice_shown,
        final(base).store_available == (*state is Ready),
        match state {
            StoreState::Ready(_) => final(base).store_error is None,
            StoreState::Unavailable(r) => final(base).store_error matches Some(e) && e@ == r@,
        },
        final(base).level.config_file == (match settings.level {
            Some(l) => Some(l),
            None => old(base).level.config_file,
        }),
        final(base).level.recommended == old(base).level.recommended,
        final(base).level.environment == old(base).level.environment,
        final(base).level.builder_override == old(base).level.builder_override,
        final(base).attribution == (match settings.attribution {
            Some(a) => a,
            None => old(base).attribution,
        }),
        (match settings.endpoint {
            Some(e) => trim_seq(e@).len() > 0,
            None => false,
        }) ==> (final(base).endpoint == settings.endpoint && final(base).endpoint_source == Some(
            Layer::ConfigFile,
        )),
        !(match settings.endpoint {
            Some(e) => trim_seq(e@).len() > 0,
            None => false,
        }) ==> (final(base).endpoint == old(base).endpoint && final(base).endpoint_source == old(
            base,
        ).endpoint_source),
        final(base).install_id == (match settings.install_id {
            Some(id) => Some(id),
            None => old(base).install_id,
        }),
        strings(final(base).disabled_probes@) == apply_overrides(
            strings(old(base).disabled_probes@),
            settings.probes@,
        ),
        final(base).app == old(base).app,
        final(base).deployment == old(base).deployment,
        final(base).kill_switch == old(base).kill_switch,
        final(base).registry@ == old(base).registry@,
        final(base).session_id == old(base).session_id,
{
    base.store_available = state.is_ready();
    base.store_error = match state.reason() {
        Some(r) => Some(owned(r)),
        None => None,
    };
    if let Some(level) = settings.level {
        base.level.config_file = Some(level);
    }
    if let Some(attribution) = settings.attribution {
        base.attribution = attribution;
    }
    if let Some(endpoint) = &settings.endpoint {
        if trim_vec(chars_of(endpoint.as_str()).as_slice()).len() > 0 {
            base.endpoint = Some(endpoint.clone());
            base.endpoint_source = Some(Layer::ConfigFile);
        }
    }
    if let Some(install_id) = &settings.install_id {
        base.install_id = Some(install_id.clone());
    }
    let mut i: usize = 0;
    let mut d: Vec<String> = Vec::new();
    std::mem::swap(&mut d, &mut base.disabled_probes);
    let ghost d0 = strings(d@);
    while i < settings.probes.len()
        invariant
            i <= settings.probes@.len(),
            strings(d@) == apply_overrides(d0, settings.probes@.take(i as int)),
        decreases settings.probes.len() - i,
    {
        proof {
            assert(settings.probes@.take(i + 1).drop_last() =~= settings.probes@.take(i as int));
            assert(settings.probes@.take(i + 1).last() == settings.probes@[i as int]);
        }
        d = apply_override_exec(&d, &settings.probes[i].0, settings.probes[i].1);
        i = i + 1;
    }
    assert(settings.probes@.take(settings.probes@.len() as int) =~= settings.probes@);
    base.disabled_probes = d;
    settings.notice_shown
}

/// Whether startup mints an install id: only once something above `off` is
/// being sent under a non-anonymous attribution, and only when none is
/// known. Someone who never turns telemetry on never gets an identifier.
pub fn should_mint_install_id(policy: &TelemetryPolicy) -> (r: bool)
    ensures
        r == (level_rank(policy.level) > 0 && policy.attribution != Attribution::Anonymous
            && policy.install_id is None),
{
    policy.level.rank() > 0 && policy.attribution != Attribution::Anonymous
        && policy.install_id.is_none()
}

/// What the environment layer decides, as plain values.
pub struct EnvFold {
    pub level: Option<TelemetryLevel>,
    pub attribution: Attribution,
    pub endpoint: Option<Seq<char>>,
    pub endpoint_source: Option<Layer>,
    pub disabled: Seq<Seq<char>>,
}

/// The part of the inputs the environment layer can change.
pub open spec fn env_fold_of(base: TelemetryInputs) -> EnvFold {
    EnvFold {
        level: base.level.environment,
        attribution: base.attribution,
        endpoint: match base.endpoint {
            Some(e) => Some(e@),
            None => None,
        },
        endpoint_source: base.endpoint_source,
        disabled: strings(base.disabled_probes@),
    }
}

/// One typed value of the telemetry subtree applied: `level` and
/// `attribution` when they name one, a non-blank `endpoint` (recorded as
/// coming from the environment), a `<probe>.enabled` switch; the store's
/// own `install_id` and `notice_shown`, and anything else, ignored.
pub open spec fn fold_env_value(v: EnvFold, path: Seq<char>, value: EnvValue) -> EnvFold {
    if !crate::text::is_prefix_of("telemetry."@, path) {
        v
    } else {
        let key = path.subrange(10, path.len() as int);
        if key == "level"@ {
            match value {
                EnvValue::Text(s) => match level_of_name(s@) {
                    Some(l) => EnvFold { level: Some(l), ..v },
                    None => v,
                },
                _ => v,
            }
        } else if key == "attribution"@ {
            match value {
                EnvValue::Text(s) => match attribution_of_name(s@) {
                    Some(a) => EnvFold { attribution: a, ..v },
                    None => v,
                },
                _ => v,
            }
        } else if key == "endpoint"@ {
            match value {
                EnvValue::Text(s) => if trim_seq(s@).len() > 0 {
                    EnvFold { endpoint: Some(s@), endpoint_source: Some(Layer::Environment), ..v }
                } else {
                    v
                },
                _ => v,
            }
        } else if key == "install_id"@ || key == "notice_shown"@ {
            v
        } else if crate::text::is_suffix_of(".enabled"@, key) {
            match value {
                EnvValue::Bool(b) => EnvFold {
                    disabled: apply_override(v.disabled, key.subrange(0, key.len() - 8), b),
                    ..v
                },
                _ => v,
            }
        } else {
            v
        }
    }
}

/// Every value applied in order.
pub open spec fn fold_env_values(v: EnvFold, values: Seq<(String, EnvValue)>) -> EnvFold
    decreases values.len(),
{
    if values.len() == 0 {
        v
    } else {
        let p = values.last();
        fold_env_value(fold_env_values(v, values.drop_last()), p.0@, p.1)
    }
}

fn fold_env_one(base: &mut TelemetryInputs, path: &str, value: &EnvValue)
    ensures
        env_fold_of(*final(base)) == fold_env_value(env_fold_of(*old(base)), path@, *value),
        final(base).level.recommended == old(base).level.recommended,
        final(base).level.config_file == old(base).level.config_file,
        final(base).level.builder_override == old(base).level.builder_override,
        final(base).app == old(base).app,
        final(base).deployment == old(base).deployment,
        final(base).kill_switch == old(base).kill_switch,
        final(base).install_id == old(base).install_id,
        final(base).store_available == old(base).store_available,
        final(base).store_error == old(base).store_error,
        final(base).session_id == old(base).session_id,
        final(base).registry@ == old(base).registry@,
{
    proof {
        reveal_strlit("telemetry.");
        reveal_strlit("level");
        reveal_strlit("attribution");
        reveal_strlit("endpoint");
        reveal_strlit("install_id");
        reveal_strlit("notice_shown");
        reveal_strlit(".enabled");
    }
    let p = chars_of(path);
    let pre = chars_of("telemetry.");
    if !crate::text::starts_with(p.as_slice(), pre.as_slice()) {
        return;
    }
    let key_v = crate::text::slice_range(p.as_slice(), 10, p.len());
    let key_s = crate::text::string_of(key_v.as_slice());
    let key = key_s.as_str();
    if str_eq(key, "level") {
        if let EnvValue::Text(s) = value {
            if let Ok(l) = TelemetryLevel::parse(s.as_str()) {
                base.level.environment = Some(l);
            }
        }
    } else if str_eq(key, "attribution") {
        if let EnvValue::Text(s) = value {
            if let Ok(a) = Attribution::parse(s.as_str()) {
                base.attribution = a;
            }
        }
    } else if str_eq(key, "endpoint") {
        if let EnvValue::Text(s) = value {
            if trim_vec(chars_of(s.as_str()).as_slice()).len() > 0 {
                base.endpoint = Some(s.clone());
                base.endpoint_source = Some(Layer::Environment);
            }
        }
    } else if str_eq(key, "install_id") || str_eq(key, "notice_shown") {
    } else if crate::text::ends_with(key_v.as_slice(), chars_of(".enabled").as_slice()) {
        if let EnvValue::Bool(b) = value {
            let probe = crate::text::string_of(crate::text::slice_range(key_v.as_slice(), 0, key_v.len() - 8).as_slice());
            let mut d: Vec<String> = Vec::new();
            std::mem::swap(&mut d, &mut base.disabled_probes);
            base.disabled_probes = apply_override_exec(&d, &probe, *b);
        }
    }
}

/// Fold the environment layer into the inputs: the telemetry subtree's
/// typed values, keyed by dotted manifest path, applied in order.
pub fn fold_environment(base: &mut TelemetryInputs, values: &[(String, EnvValue)])
    ensures
        env_fold_of(*final(base)) == fold_env_values(env_fold_of(*old(base)), values@),
        final(base).level.recommended == old(base).level.recommended,
        final(base).level.config_file == old(base).level.config_file,
        final(base).level.builder_override == old(base).level.builder_override,
        final(base).app == old(base).app,
        final(base).deployment == old(base).deployment,
        final(base).kill_switch == old(base).kill_switch,
        final(base).install_id == old(base).install_id,
        final(base).store_available == old(base).store_available,
        final(base).store_error == old(base).store_error,
        final(base).session_id == old(base).session_id,
        final(base).registry@ == old(base).registry@,
{
    let ghost start = *base;
    let mut i: usize = 0;
    while i < values.len()
        invariant
            i <= values@.len(),
            env_fold_of(*base) == fold_env_values(env_fold_of(start), values@.take(i as int)),
            base.level.recommended == start.level.recommended,
            base.level.config_file == start.level.config_file,
            base.level.builder_override == start.level.builder_override,
            base.app == start.app,
            base.deployment == start.deployment,
            base.kill_switch == start.kill_switch,
            base.install_id == start.install_id,
            base.store_available == start.store_available,
            base.store_error == start.store_error,
            base.session_id == start.session_id,
            base.registry@ == start.registry@,
        decreases values.len() - i,
    {
        proof {
            assert(values@.take(i + 1).drop_last() =~= values@.take(i as int));
            assert(values@.take(i + 1).last() == values@[i as int]);
        }
        fold_env_one(base, values[i].0.as_str(), &values[i].1);
        i = i + 1;
    }
    assert(values@.take(values@.len() as int) =~= values@);
}

} // verus!
