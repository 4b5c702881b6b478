use cli_framework::config::manifest::{ConfigManifest, FieldKind, FieldManifest, Scope};
use cli_framework::telemetry::axes::TelemetryLevel;
use cli_framework::telemetry::env::{help_entries, scan_environment, EnvValue};
use cli_framework::telemetry::manifest::{
    merge_telemetry_section, telemetry_only_manifest, telemetry_section, ManifestMergeError,
};
use cli_framework::telemetry::probe::{ProbeRegistry, ProbeSpec};

fn names(entries: &[(String, String)]) -> Vec<&str> {
    entries.iter().map(|(n, _)| n.as_str()).collect()
}

fn probe(id: &'static str) -> ProbeSpec {
    ProbeSpec {
        id,
        min_level: TelemetryLevel::Usage,
        summary: "What it watches.",
        sends: "a count",
    }
}

/// A registry standing in for the built-in catalog: top-level and nested
/// probe ids.
fn some_probes() -> ProbeRegistry {
    let mut r = ProbeRegistry::new();
    for id in ["cli.command", "cli.command.args", "cli.panic", "cli.panic.message", "cli.error"] {
        r.register(probe(id)).unwrap();
    }
    r
}

#[test]
fn lists_kill_switches_settings_and_one_probe_pattern() {
    let manifest = telemetry_only_manifest("my-app", &some_probes(), None);
    let entries = help_entries("my-app", &manifest);
    let names = names(&entries);

    for expected in [
        "MY_APP_TELEMETRY_DISABLED",
        "DO_NOT_TRACK",
        "OTEL_SDK_DISABLED",
        "OTEL_EXPORTER_OTLP_ENDPOINT",
        "OTEL_EXPORTER_OTLP_HEADERS",
        "OTEL_TRACES_SAMPLER_ARG",
        "MY_APP_TELEMETRY_LEVEL",
        "MY_APP_TELEMETRY_ATTRIBUTION",
        "MY_APP_TELEMETRY_ENDPOINT",
        "MY_APP_TELEMETRY_<PROBE>_ENABLED",
    ] {
        assert!(names.contains(&expected), "missing {expected} in {names:?}");
    }

    let level = entries
        .iter()
        .find(|(n, _)| n == "MY_APP_TELEMETRY_LEVEL")
        .map(|(_, d)| d.as_str())
        .unwrap();
    assert!(
        level.starts_with("How much this application reports"),
        "the level row must reuse the manifest's description, got {level:?}"
    );

    let enabled_rows: Vec<_> = names.iter().filter(|n| n.ends_with("_ENABLED")).collect();
    assert_eq!(
        enabled_rows,
        vec![&"MY_APP_TELEMETRY_<PROBE>_ENABLED"],
        "probe switches collapse to one pattern row, never one row per probe"
    );
}

#[test]
fn omits_local_only_state_leaves() {
    let manifest = telemetry_only_manifest("demo", &some_probes(), None);
    let entries = help_entries("demo", &manifest);
    let names = names(&entries);
    assert!(!names.contains(&"DEMO_TELEMETRY_INSTALL_ID"), "{names:?}");
    assert!(!names.contains(&"DEMO_TELEMETRY_NOTICE_SHOWN"), "{names:?}");
}

#[test]
fn omits_the_probe_pattern_when_no_probe_is_registered() {
    let manifest = telemetry_only_manifest("demo", &ProbeRegistry::new(), None);
    let entries = help_entries("demo", &manifest);
    let names = names(&entries);
    assert!(
        !names.iter().any(|n| n.ends_with("_ENABLED")),
        "no probes, no switch row: {names:?}"
    );
    assert!(names.contains(&"DEMO_TELEMETRY_LEVEL"));
}

fn app_field() -> FieldManifest {
    FieldManifest {
        key: "api_url".to_string(),
        kind: FieldKind::Url,
        default: None,
        label: None,
        description: Some("The app's API".to_string()),
        group: None,
        scope: Scope::Machine,
        platforms: Vec::new(),
        secret: false,
        local_only: false,
        protected: false,
        manageable: true,
        enforceable: true,
        restart_required: false,
    }
}

#[test]
fn ignores_the_applications_own_manifest_fields() {
    let app_manifest = ConfigManifest::new("demo", vec![app_field()]);
    let manifest = merge_telemetry_section(app_manifest, &some_probes(), None).unwrap();
    let entries = help_entries("demo", &manifest);
    let names = names(&entries);
    assert!(!names.contains(&"DEMO_API_URL"), "{names:?}");
    assert!(names.contains(&"DEMO_TELEMETRY_LEVEL"));
}

#[test]
fn an_app_may_not_own_the_telemetry_key() {
    let mut f = app_field();
    f.key = "telemetry".to_string();
    let r = merge_telemetry_section(ConfigManifest::new("demo", vec![f]), &ProbeRegistry::new(), None);
    assert_eq!(r.err(), Some(ManifestMergeError::AppOwnsTelemetryKey));
}

#[test]
fn switches_nest_under_the_probe_ids_in_order() {
    let section = telemetry_section(&some_probes(), Some("https://collector"));
    let manifest = ConfigManifest::new("demo", vec![section]);
    let paths: Vec<String> = manifest.iter_leaves().into_iter().map(|l| l.path).collect();
    assert_eq!(
        paths,
        vec![
            "telemetry.level",
            "telemetry.attribution",
            "telemetry.endpoint",
            "telemetry.install_id",
            "telemetry.notice_shown",
            "telemetry.cli.command.enabled",
            "telemetry.cli.command.args.enabled",
            "telemetry.cli.error.enabled",
            "telemetry.cli.panic.enabled",
            "telemetry.cli.panic.message.enabled",
        ]
    );
    match &manifest.fields[0].kind {
        FieldKind::Section { fields } => assert_eq!(fields.len(), 6, "one `cli` section holds every probe"),
        _ => panic!("expected a section"),
    }
}

#[test]
fn scanning_types_values_and_reports_typos() {
    let manifest = telemetry_only_manifest("demo", &some_probes(), None);
    let vars = vec![
        ("DEMO_TELEMETRY_LEVEL".to_string(), "usage".to_string()),
        ("DEMO_TELEMETRY_CLI_COMMAND_ENABLED".to_string(), "0".to_string()),
        ("DEMO_TELEMETRY_LEVL".to_string(), "debug".to_string()),
        ("DEMO_TELEMETRY_DISABLED".to_string(), "1".to_string()),
        ("DEMO_TELEMETRY_AAA".to_string(), "x".to_string()),
        ("HOME".to_string(), "/h".to_string()),
    ];
    let scan = scan_environment("demo", &manifest, &vars);
    assert_eq!(
        scan.values,
        vec![
            ("telemetry.level".to_string(), EnvValue::Text("usage".to_string())),
            ("telemetry.cli.command.enabled".to_string(), EnvValue::Bool(false)),
        ]
    );
    assert_eq!(scan.unmatched, vec!["DEMO_TELEMETRY_AAA", "DEMO_TELEMETRY_LEVL"]);
}
