use cli_framework::telemetry::axes::Deployment;
use cli_framework::telemetry::policy::{resolve_policy, TelemetryInputs, TelemetryPolicy};
use cli_framework::telemetry::resource::{
    apply_env_resource_attributes, metric_resource_attrs, trace_resource_attrs, PlatformFacts,
    ServiceIdentity,
};

fn policy(install_id: Option<&str>) -> TelemetryPolicy {
    let mut p = resolve_policy(TelemetryInputs {
        app: "demo".to_string(),
        deployment: Deployment::Service,
        session_id: "sess-1".to_string(),
        ..Default::default()
    });
    p.install_id = install_id.map(str::to_string);
    p
}

fn facts(otel_service_name: Option<&str>) -> PlatformFacts {
    PlatformFacts {
        otel_service_name: otel_service_name.map(str::to_string),
        os: "linux".to_string(),
        arch: "x86_64".to_string(),
        family: "unix".to_string(),
        sdk_version: "0.1.0".to_string(),
    }
}

fn service() -> ServiceIdentity {
    ServiceIdentity { name: "demo".to_string(), version: "1.2.3".to_string() }
}

fn get<'a>(attrs: &'a [(String, String)], key: &str) -> Option<&'a str> {
    attrs.iter().find(|(k, _)| k == key).map(|(_, v)| v.as_str())
}

#[test]
fn metric_resource_describes_the_install_shape() {
    let attrs = metric_resource_attrs(&policy(Some("inst-9")), &service(), &facts(None));
    let keys: Vec<&str> = attrs.iter().map(|(k, _)| k.as_str()).collect();
    assert_eq!(
        keys,
        vec![
            "service.name",
            "service.version",
            "cli.deployment",
            "cli.telemetry.level",
            "os.type",
            "host.arch",
            "telemetry.sdk.language",
            "telemetry.sdk.name",
            "telemetry.sdk.version",
        ]
    );
    assert_eq!(get(&attrs, "service.name"), Some("demo"));
    assert_eq!(get(&attrs, "cli.deployment"), Some("service"));
    assert_eq!(get(&attrs, "os.type"), Some("linux"));
    assert_eq!(get(&attrs, "cli.install.id"), None);
}

#[test]
fn otel_service_name_wins_unless_blank() {
    let attrs = metric_resource_attrs(&policy(None), &service(), &facts(Some("platform-svc")));
    assert_eq!(get(&attrs, "service.name"), Some("platform-svc"));
    let attrs = metric_resource_attrs(&policy(None), &service(), &facts(Some("  ")));
    assert_eq!(get(&attrs, "service.name"), Some("demo"));
}

#[test]
fn trace_resource_adds_the_ids() {
    let attrs = trace_resource_attrs(&policy(Some("inst-9")), &service(), &facts(None));
    assert_eq!(attrs.len(), 12);
    assert_eq!(get(&attrs, "cli.install.id"), Some("inst-9"));
    assert_eq!(get(&attrs, "session.id"), Some("sess-1"));
    assert_eq!(get(&attrs, "os.version"), Some("unix"));
    let anon = trace_resource_attrs(&policy(None), &service(), &facts(None));
    assert_eq!(anon.len(), 11);
    assert_eq!(get(&anon, "cli.install.id"), None);
    for (k, _) in attrs.iter() {
        assert!(!["host.name", "host.id", "user.name"].contains(&k.as_str()));
    }
}

#[test]
fn env_resource_attributes_override_and_extend() {
    let mut attrs = vec![
        ("service.name".to_string(), "demo".to_string()),
        ("service.version".to_string(), "1".to_string()),
    ];
    apply_env_resource_attributes(
        &mut attrs,
        Some(" deployment.environment = prod ,service.name=renamed,broken,=x"),
    );
    assert_eq!(
        attrs,
        vec![
            ("service.name".to_string(), "renamed".to_string()),
            ("service.version".to_string(), "1".to_string()),
            ("deployment.environment".to_string(), "prod".to_string()),
        ]
    );
}

#[test]
fn absent_env_resource_attributes_change_nothing() {
    let mut attrs = vec![("a".to_string(), "1".to_string())];
    apply_env_resource_attributes(&mut attrs, None);
    assert_eq!(attrs, vec![("a".to_string(), "1".to_string())]);
    apply_env_resource_attributes(&mut attrs, Some("a=2=3"));
    assert_eq!(attrs, vec![("a".to_string(), "2=3".to_string())]);
}
