use cli_framework::telemetry::axes::{Attribution, Deployment, TelemetryLevel};
use cli_framework::telemetry::commands::{render_info_text, status_report, info_catalog, SetOutcome, set_outcome};
use cli_framework::telemetry::notice::{notice_decision, NoticeDecision, SkipReason, Surface};
use cli_framework::telemetry::policy::{
    detect_kill_switch, env_var_prefix, resolve_policy, KillSwitch, Layer, LayeredLevel,
    TelemetryInputs,
};
use cli_framework::telemetry::probe::{effective, validate_probe_id, ProbeIdError, ProbeRegistry, ProbeSpec};
use cli_framework::telemetry::probes::{http_client_attrs, process_attrs, registered_feature_names};
use cli_framework::telemetry::redact::{attribute_min_level, is_never_listed, RedactionRules, Attr};
use cli_framework::telemetry::store::{StoreState, TelemetrySettings};
use cli_framework::telemetry::startup::{startup_order, startup_steps, StartupStep};

fn spec(id: &'static str, min: TelemetryLevel) -> ProbeSpec {
    ProbeSpec { id, min_level: min, summary: "s", sends: "t" }
}

fn env(pairs: &[(&str, &str)]) -> Vec<(String, String)> {
    pairs.iter().map(|(k, v)| (k.to_string(), v.to_string())).collect()
}

#[test]
fn prefixes_and_kill_switches() {
    assert_eq!(env_var_prefix("demo-app.x"), "DEMO_APP_X");
    assert_eq!(
        detect_kill_switch("my-app", &env(&[("MY_APP_TELEMETRY_DISABLED", "1")])),
        Some(KillSwitch::AppDisabled)
    );
    assert_eq!(
        detect_kill_switch("a", &env(&[("OTEL_SDK_DISABLED", "true"), ("DO_NOT_TRACK", "1")])),
        Some(KillSwitch::OtelSdkDisabled)
    );
    assert_eq!(detect_kill_switch("a", &env(&[("DO_NOT_TRACK", "0")])), None);
    assert_eq!(KillSwitch::AppDisabled.env_var("my-app"), "MY_APP_TELEMETRY_DISABLED");
}

#[test]
fn end_user_environment_cannot_raise_the_level() {
    let mut inputs = TelemetryInputs::default();
    inputs.endpoint = Some("http://c".to_string());
    inputs.level = LayeredLevel {
        config_file: Some(TelemetryLevel::Usage),
        environment: Some(TelemetryLevel::Debug),
        ..LayeredLevel::default()
    };
    let p = resolve_policy(inputs);
    assert_eq!(p.level, TelemetryLevel::Usage);
    assert_eq!(p.level_source, Layer::ConfigFile);
}

#[test]
fn end_user_environment_can_lower_the_level() {
    let mut inputs = TelemetryInputs::default();
    inputs.level = LayeredLevel {
        config_file: Some(TelemetryLevel::Usage),
        environment: Some(TelemetryLevel::Off),
        ..LayeredLevel::default()
    };
    let p = resolve_policy(inputs);
    assert_eq!(p.level, TelemetryLevel::Off);
    assert_eq!(p.level_source, Layer::Environment);
}

#[test]
fn kill_switch_forces_off_and_unavailable_store_is_anonymous() {
    let mut inputs = TelemetryInputs::default();
    inputs.deployment = Deployment::Service;
    inputs.endpoint = Some("http://c".to_string());
    inputs.kill_switch = Some(KillSwitch::DoNotTrack);
    inputs.install_id = Some("id".to_string());
    let p = resolve_policy(inputs);
    assert_eq!(p.level, TelemetryLevel::Off);
    assert_eq!(p.level_source, Layer::Enforced);
    assert_eq!(p.attribution, Attribution::Anonymous);
    assert_eq!(p.install_id, None);
    assert!(!p.exports());
}

#[test]
fn service_with_endpoint_defaults_to_diagnostic_and_exports() {
    let mut inputs = TelemetryInputs::default();
    inputs.deployment = Deployment::Service;
    inputs.endpoint = Some("http://c".to_string());
    inputs.store_available = true;
    inputs.install_id = Some("id".to_string());
    let p = resolve_policy(inputs);
    assert_eq!(p.level, TelemetryLevel::Diagnostic);
    assert_eq!(p.level_source, Layer::Default);
    assert_eq!(p.install_id.as_deref(), Some("id"));
    assert!(p.exports());
    assert!(!p.sampler_is_always_on());
}

#[test]
fn probe_ids_are_validated() {
    assert_eq!(validate_probe_id("cli.command.args"), Ok(()));
    assert_eq!(
        validate_probe_id("install_id.x"),
        Err(ProbeIdError::Reserved("install_id.x".to_string(), "install_id"))
    );
    assert_eq!(validate_probe_id("Cli"), Err(ProbeIdError::Malformed("Cli".to_string())));
    assert_eq!(validate_probe_id("a..b"), Err(ProbeIdError::Malformed("a..b".to_string())));
    assert_eq!(validate_probe_id("a.b_c"), Ok(()));
    assert!(ProbeIdError::Duplicate("x".to_string()).message().starts_with("PB003"));
}

#[test]
fn registry_stays_sorted_and_refuses_duplicates() {
    let mut r = ProbeRegistry::new();
    assert_eq!(r.register(spec("cli.z", TelemetryLevel::Usage)), Ok(()));
    assert_eq!(r.register(spec("cli.a", TelemetryLevel::Usage)), Ok(()));
    assert_eq!(r.register(spec("cli.m", TelemetryLevel::Usage)), Ok(()));
    assert_eq!(
        r.register(spec("cli.a", TelemetryLevel::Debug)),
        Err(ProbeIdError::Duplicate("cli.a".to_string()))
    );
    let ids: Vec<&str> = r.iter().iter().map(|p| p.id).collect();
    assert_eq!(ids, vec!["cli.a", "cli.m", "cli.z"]);
    assert_eq!(r.len(), 3);
    assert!(r.contains("cli.m"));
    assert!(r.get("cli.q").is_none());
}

#[test]
fn a_disabled_parent_silences_its_subtree() {
    let mut r = ProbeRegistry::new();
    r.register(spec("cli.command", TelemetryLevel::Usage)).unwrap();
    r.register(spec("cli.command.args", TelemetryLevel::Diagnostic)).unwrap();
    let none: Vec<String> = Vec::new();
    let parent = vec!["cli.command".to_string()];
    assert!(effective(&r, TelemetryLevel::Diagnostic, "cli.command.args", &none));
    assert!(!effective(&r, TelemetryLevel::Usage, "cli.command.args", &none));
    assert!(!effective(&r, TelemetryLevel::Debug, "cli.command.args", &parent));
    assert!(!effective(&r, TelemetryLevel::Off, "cli.command", &none));
    assert!(!effective(&r, TelemetryLevel::Debug, "cli.unknown", &none));
}

#[test]
fn never_list_and_levels() {
    assert!(is_never_listed("X-Api_Key", &[]));
    assert!(is_never_listed("url.full", &[]));
    assert!(!is_never_listed("cli.usage_error.token", &[]));
    assert!(is_never_listed("cli.usage_error.token", &["token".to_string()]));
    assert!(!is_never_listed("command", &["  ".to_string()]));
    assert_eq!(attribute_min_level("exception.message"), TelemetryLevel::Debug);
    assert_eq!(attribute_min_level("error.type"), TelemetryLevel::Diagnostic);
    assert_eq!(attribute_min_level("command"), TelemetryLevel::Usage);
    let rules = RedactionRules {
        level: TelemetryLevel::Usage,
        app_attr_allowlist: vec!["tenant".to_string()],
        extra_never: vec![],
    };
    assert!(rules.keeps_attribute("command"));
    assert!(rules.keeps_attribute("tenant"));
    assert!(!rules.keeps_attribute("other"));
    assert!(!rules.keeps_attribute("error.type"));
    assert!(!rules.keeps_attribute("password"));
    let mut attrs = vec![
        Attr { key: "command".to_string(), value: "x".to_string() },
        Attr { key: "secret".to_string(), value: "y".to_string() },
    ];
    rules.retain_attributes(&mut attrs);
    assert_eq!(attrs.len(), 1);
    assert_eq!(attrs[0].key, "command");
    let off = RedactionRules { level: TelemetryLevel::Off, ..rules.clone() };
    assert!(!off.keeps_attribute("command"));
}

#[test]
fn notice_shows_once_and_skips_services() {
    let mut inputs = TelemetryInputs::default();
    inputs.app = "demo".to_string();
    let p = resolve_policy(inputs);
    match notice_decision(&p, None, Surface::Cli, true) {
        NoticeDecision::Show { text, announced_level } => {
            assert_eq!(announced_level, TelemetryLevel::Off);
            assert_eq!(
                text,
                "demo: usage statistics are off.\nTurn them on with `demo telemetry set usage`; see what would be sent with `demo telemetry info`."
            );
        }
        other => panic!("expected a notice, got {other:?}"),
    }
    assert_eq!(
        notice_decision(&p, Some(TelemetryLevel::Off), Surface::Cli, true),
        NoticeDecision::Skip(SkipReason::AlreadyShown)
    );
    assert_eq!(
        notice_decision(&p, None, Surface::Mcp, true),
        NoticeDecision::Skip(SkipReason::NotAHumanSurface)
    );
    assert_eq!(
        notice_decision(&p, None, Surface::Cli, false),
        NoticeDecision::Skip(SkipReason::NotInteractive)
    );
    let mut service = TelemetryInputs::default();
    service.deployment = Deployment::Service;
    let ps = resolve_policy(service);
    assert_eq!(
        notice_decision(&ps, None, Surface::Cli, true),
        NoticeDecision::Skip(SkipReason::ServiceDeployment)
    );
}

#[test]
fn attribute_builders_render_numbers() {
    let a = http_client_attrs("GET", Some(404), None, Some(8080));
    assert_eq!(a.len(), 4);
    assert_eq!(a[2].value, "404");
    assert_eq!(a[3].key, "server.port");
    assert_eq!(a[3].value, "8080");
    let p = process_attrs(-2);
    assert_eq!(p[1].value, "-2");
}

#[test]
fn feature_names_are_stripped_of_their_prefix() {
    let mut r = ProbeRegistry::new();
    r.register(spec("cli.feature.export", TelemetryLevel::Usage)).unwrap();
    r.register(spec("cli.command", TelemetryLevel::Usage)).unwrap();
    assert_eq!(registered_feature_names(&r), vec!["export"]);
}

#[test]
fn status_and_catalog_agree() {
    let mut inputs = TelemetryInputs::default();
    inputs.registry.register(spec("cli.command", TelemetryLevel::Usage)).unwrap();
    inputs.disabled_probes = vec!["cli.command".to_string()];
    let p = resolve_policy(inputs);
    let report = status_report(&p, &StoreState::Ready("/c/telemetry.json".to_string()));
    assert_eq!(report.level, "off");
    assert_eq!(report.level_source, "default");
    assert_eq!(report.probes.len(), 1);
    assert!(!report.probes[0].enabled);
    assert_eq!(report.store, "/c/telemetry.json");
    let catalog = info_catalog(&p);
    assert_eq!(catalog[0].enabled, report.probes[0].enabled);
    let text = render_info_text(&catalog);
    assert!(text.contains("cli.command (min level usage): disabled -- s\n    sends: t"));
}

#[test]
fn set_reports_a_clamp_under_a_kill_switch() {
    assert_eq!(set_outcome("demo", &[]), SetOutcome::Applied);
    match set_outcome("demo", &env(&[("DEMO_TELEMETRY_DISABLED", "1")])) {
        SetOutcome::AppliedButClamped { effective, reason } => {
            assert_eq!(effective, TelemetryLevel::Off);
            assert!(reason.contains("DEMO_TELEMETRY_DISABLED"));
        }
        other => panic!("{other:?}"),
    }
}

#[test]
fn disabling_and_enabling_a_probe_round_trips() {
    let mut s = TelemetrySettings::default();
    s.disable_probe("cli.command");
    assert_eq!(s.disabled_probes(), vec!["cli.command".to_string()]);
    s.enable_probe("cli.command");
    assert!(s.probes.is_empty());
}

#[test]
fn startup_skips_the_store_under_a_kill_switch() {
    let order = startup_order();
    assert_eq!(order.len(), 10);
    let steps = startup_steps(true, false, false);
    assert_eq!(
        steps,
        vec![
            StartupStep::KillSwitches,
            StartupStep::Resolve,
            StartupStep::FreezePolicy,
            StartupStep::ShowNotice,
            StartupStep::Dispatch
        ]
    );
    assert_eq!(startup_steps(false, true, true), order);
}

#[test]
fn axis_names_parse_back() {
    for l in TelemetryLevel::ALL {
        assert_eq!(TelemetryLevel::parse(l.as_str()), Ok(l));
    }
    for a in Attribution::ALL {
        assert_eq!(Attribution::parse(a.as_str()), Ok(a));
    }
    let e = TelemetryLevel::parse("loud").unwrap_err();
    assert_eq!(
        e.message(),
        "TA001: 'loud' is not a valid telemetry level; expected one of off, usage, diagnostic, debug"
    );
}
