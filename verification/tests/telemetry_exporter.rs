use cli_framework::telemetry::axes::{Deployment, TelemetryLevel};
use cli_framework::telemetry::exporter::{
    redact_span, span_verdict, RedactingExporter, SpanEvent, SpanRecord, SpanVerdict,
};
use cli_framework::telemetry::policy::{resolve_policy, LayeredLevel, TelemetryInputs, TelemetryPolicy};
use cli_framework::telemetry::probe::{ProbeRegistry, ProbeSpec};
use cli_framework::telemetry::redact::Attr;

fn attr(k: &str, v: &str) -> Attr {
    Attr { key: k.to_string(), value: v.to_string() }
}

fn policy(level: TelemetryLevel) -> TelemetryPolicy {
    let mut r = ProbeRegistry::new();
    r.register(ProbeSpec { id: "cli.command", min_level: TelemetryLevel::Usage, summary: "s", sends: "t" })
        .unwrap();
    r.register(ProbeSpec {
        id: "cli.command.args",
        min_level: TelemetryLevel::Diagnostic,
        summary: "s",
        sends: "t",
    })
    .unwrap();
    resolve_policy(TelemetryInputs {
        deployment: Deployment::Service,
        endpoint: Some("http://collector".to_string()),
        level: LayeredLevel { config_file: Some(level), ..LayeredLevel::default() },
        registry: r,
        ..Default::default()
    })
}

fn span(probe: Option<&str>) -> SpanRecord {
    let mut attributes = vec![attr("cli.exit_code", "0"), attr("user.password", "hunter2")];
    if let Some(p) = probe {
        attributes.push(attr("cli.probe", p));
    }
    SpanRecord {
        name: "cli.command".to_string(),
        attributes,
        events: vec![
            SpanEvent { name: "args".to_string(), attributes: vec![attr("cli.probe", "cli.command.args")] },
            SpanEvent { name: "done".to_string(), attributes: vec![attr("cli.probe", "cli.command")] },
        ],
    }
}

#[test]
fn verdict_follows_the_declared_probe() {
    let p = policy(TelemetryLevel::Usage);
    assert_eq!(span_verdict(&p, Some("cli.command")), SpanVerdict::Keep);
    assert_eq!(span_verdict(&p, Some("cli.command.args")), SpanVerdict::Drop);
    assert_eq!(span_verdict(&p, Some("nobody.declared")), SpanVerdict::Drop);
    assert_eq!(span_verdict(&p, None), SpanVerdict::Drop);
}

#[test]
fn a_kept_span_loses_credentials_the_label_and_switched_off_events() {
    let p = policy(TelemetryLevel::Usage);
    let mut s = span(Some("cli.command"));
    assert_eq!(redact_span(&p, &mut s), SpanVerdict::Keep);
    assert!(s.attributes.iter().all(|a| a.key != "cli.probe" && a.key != "user.password"));
    assert_eq!(s.events.len(), 1);
    assert_eq!(s.events[0].name, "done");
    assert!(s.events[0].attributes.is_empty());
}

#[test]
fn a_dropped_span_is_left_alone() {
    let p = policy(TelemetryLevel::Usage);
    let mut s = span(None);
    assert_eq!(redact_span(&p, &mut s), SpanVerdict::Drop);
    assert_eq!(s.attributes.len(), 2);
    assert_eq!(s.events.len(), 2);
}

#[test]
fn the_exporter_keeps_only_kept_spans_in_order() {
    let exporter = RedactingExporter::new(policy(TelemetryLevel::Diagnostic));
    let mut first = span(Some("cli.command"));
    first.name = "first".to_string();
    let mut last = span(Some("cli.command.args"));
    last.name = "last".to_string();
    let out = exporter.filter(vec![first, span(None), last]);
    let names: Vec<&str> = out.iter().map(|s| s.name.as_str()).collect();
    assert_eq!(names, vec!["first", "last"]);
    assert_eq!(out[0].events.len(), 2);
}
