use cli_framework::doctor::CheckSeverity;
use cli_framework::spec::value::{ArgValue, ArgValues};
use cli_framework::telemetry::axes::{Attribution, TelemetryLevel};
use cli_framework::telemetry::command_specs::{
    probe_command_spec, probe_id_arg, probe_report, report_command_spec, reset_report,
    set_command_spec, set_level_arg, set_report, telemetry_leaves, wants_json,
};
use cli_framework::telemetry::commands::{SetOutcome, TelemetryCommandError};
use cli_framework::telemetry::doctor::{
    endpoint_finding, env_finding, host_port, identity_finding, policy_finding, store_finding,
    subscriber_finding, EndpointProbe,
};
use cli_framework::telemetry::env::{env_var_name, parse_i64_exec, typed, EnvValue, ValueKind};
use cli_framework::telemetry::policy::{KillSwitch, Layer, TelemetryInputs};
use cli_framework::telemetry::startup::{fold_environment, startup_kill_switch, StartupReport};
use cli_framework::telemetry::store::StoreState;
use cli_framework::telemetry::subscriber::{foreign_subscriber_finding, SubscriberOutcome};

#[test]
fn host_port_tolerates_scheme_and_path() {
    assert_eq!(host_port("http://collector:4318/v1"), Some(("collector".to_string(), 4318)));
    assert_eq!(host_port("collector:80"), Some(("collector".to_string(), 80)));
    assert_eq!(host_port("[::1]:4317"), Some(("[::1]".to_string(), 4317)));
    assert_eq!(host_port("http://collector"), None);
    assert_eq!(host_port(":4318"), None);
    assert_eq!(host_port("h:65536"), None);
    assert_eq!(host_port("h:+8"), Some(("h".to_string(), 8)));
}

#[test]
fn endpoint_findings_never_error() {
    let skipped = endpoint_finding(None, &EndpointProbe::Reached);
    assert_eq!(skipped.severity, CheckSeverity::Skipped);
    let ok = endpoint_finding(Some("http://c:1"), &EndpointProbe::Reached);
    assert_eq!(ok.severity, CheckSeverity::Passed);
    assert_eq!(ok.message, "reached the configured collector at http://c:1");
    let timed = endpoint_finding(Some("http://c:1"), &EndpointProbe::TimedOut);
    assert_eq!(timed.severity, CheckSeverity::Warning);
    assert!(timed.remediation.unwrap().starts_with("confirm the collector at http://c:1"));
    let failed = endpoint_finding(Some("e"), &EndpointProbe::Failed("refused".to_string()));
    assert_eq!(failed.message, "could not reach the configured collector at e: refused");
}

#[test]
fn other_checks_report_modes_and_names() {
    assert_eq!(subscriber_finding(SubscriberOutcome::Installed).severity, CheckSeverity::Passed);
    assert!(subscriber_finding(SubscriberOutcome::ForeignSubscriber).remediation.is_some());
    let store = store_finding(&StoreState::Unavailable("denied".to_string()));
    assert_eq!(store.message, "the telemetry settings file is unavailable: denied");
    assert_eq!(policy_finding().severity, CheckSeverity::Skipped);
    let id = identity_finding(Attribution::Anonymous);
    assert!(id.message.starts_with("attribution is anonymous"));
    let env = env_finding(&vec!["DEMO_TELEMETRY_LEVL".to_string(), "DEMO_TELEMETRY_X".to_string()]);
    assert_eq!(
        env.message,
        "these variables were set but matched no known telemetry setting: DEMO_TELEMETRY_LEVL, DEMO_TELEMETRY_X"
    );
    assert_eq!(env_finding(&vec![]).severity, CheckSeverity::Passed);
    assert_eq!(foreign_subscriber_finding().check_id, "telemetry.subscriber");
    let report = StartupReport::default();
    assert!(report.unmatched_env.is_empty());
}

#[test]
fn variable_names_are_computed_from_paths() {
    assert_eq!(env_var_name("my-app", "telemetry.level"), "MY_APP_TELEMETRY_LEVEL");
    assert_eq!(env_var_name("demo", "telemetry.cli.command-args.enabled"), "DEMO_TELEMETRY_CLI_COMMAND_ARGS_ENABLED");
}

#[test]
fn raw_values_are_typed_by_leaf() {
    assert_eq!(typed(ValueKind::Bool, "YES"), EnvValue::Bool(true));
    assert_eq!(typed(ValueKind::Bool, "off"), EnvValue::Bool(false));
    assert_eq!(typed(ValueKind::Bool, "maybe"), EnvValue::Text("maybe".to_string()));
    assert_eq!(typed(ValueKind::Int, "-42"), EnvValue::Int(-42));
    assert_eq!(typed(ValueKind::Int, "4x"), EnvValue::Text("4x".to_string()));
    assert_eq!(parse_i64_exec(&"-9223372036854775808".chars().collect::<Vec<_>>()), Some(i64::MIN));
    assert_eq!(parse_i64_exec(&"9223372036854775808".chars().collect::<Vec<_>>()), None);
    assert_eq!(parse_i64_exec(&"+7".chars().collect::<Vec<_>>()), Some(7));
    assert_eq!(parse_i64_exec(&"-".chars().collect::<Vec<_>>()), None);
}

#[test]
fn the_environment_layer_folds_in_order() {
    let mut base = TelemetryInputs::default();
    let values = vec![
        ("telemetry.attribution".to_string(), EnvValue::Text("anonymous".to_string())),
        ("telemetry.cli.command.enabled".to_string(), EnvValue::Bool(false)),
        ("telemetry.endpoint".to_string(), EnvValue::Text("  ".to_string())),
        ("telemetry.install_id".to_string(), EnvValue::Text("x".to_string())),
        ("telemetry.level".to_string(), EnvValue::Text("usage".to_string())),
        ("other.level".to_string(), EnvValue::Text("debug".to_string())),
    ];
    fold_environment(&mut base, &values);
    assert_eq!(base.attribution, Attribution::Anonymous);
    assert_eq!(base.level.environment, Some(TelemetryLevel::Usage));
    assert_eq!(base.endpoint, None);
    assert_eq!(base.install_id, None);
    assert_eq!(base.disabled_probes, vec!["cli.command".to_string()]);
    fold_environment(
        &mut base,
        &[
            ("telemetry.endpoint".to_string(), EnvValue::Text("http://c:1".to_string())),
            ("telemetry.cli.command.enabled".to_string(), EnvValue::Bool(true)),
        ],
    );
    assert_eq!(base.endpoint.as_deref(), Some("http://c:1"));
    assert_eq!(base.endpoint_source, Some(Layer::Environment));
    assert!(base.disabled_probes.is_empty());
    assert_eq!(startup_kill_switch(None, Some(KillSwitch::DoNotTrack)), Some(KillSwitch::DoNotTrack));
}

#[test]
fn telemetry_command_declarations() {
    assert_eq!(telemetry_leaves(), vec!["status", "set", "info", "disable", "enable", "reset"]);
    let set = set_command_spec();
    assert_eq!(set.args[0].name, "level");
    assert_eq!(set.exit_codes.len(), 2);
    assert_eq!(probe_command_spec(true).summary, "Disable one probe id (and, implicitly, everything under it)");
    assert_eq!(report_command_spec(true).args[0].name, "json");
}

#[test]
fn telemetry_command_runs() {
    let mut args = ArgValues::new();
    assert_eq!(set_level_arg(&args).err().unwrap().code, "TEL001");
    args.insert("level".to_string(), ArgValue::Enum("loud".to_string()));
    assert_eq!(
        set_level_arg(&args).err().unwrap().message,
        "\"loud\" is not a valid telemetry level; valid levels are: off, usage, diagnostic, debug"
    );
    args.insert("level".to_string(), ArgValue::Str("debug".to_string()));
    assert_eq!(set_level_arg(&args).unwrap(), TelemetryLevel::Debug);
    assert_eq!(set_report(TelemetryLevel::Usage, &Ok(SetOutcome::Applied)).unwrap(), "telemetry level set to usage");
    let clamped = SetOutcome::AppliedButClamped {
        effective: TelemetryLevel::Off,
        reason: "DO_NOT_TRACK=1".to_string(),
    };
    assert_eq!(
        set_report(TelemetryLevel::Usage, &Ok(clamped)).unwrap(),
        "telemetry level saved as usage, but the effective level is off: DO_NOT_TRACK=1"
    );
    let write = TelemetryCommandError::Write("disk full".to_string());
    assert_eq!(set_report(TelemetryLevel::Usage, &Err(write)).err().unwrap().code, "TEL003");
    assert!(probe_id_arg(&ArgValues::new()).is_err());
    let unknown = TelemetryCommandError::UnknownProbe("x".to_string());
    assert_eq!(probe_report("x", true, &Err(unknown)).err().unwrap().code, "TEL002");
    assert_eq!(probe_report("x", false, &Ok(())).unwrap(), "probe x enabled");
    assert!(reset_report(&Ok(())).is_ok());
    let mut j = ArgValues::new();
    assert!(!wants_json(&j));
    j.insert("json".to_string(), ArgValue::Bool(true));
    assert!(wants_json(&j));
}
