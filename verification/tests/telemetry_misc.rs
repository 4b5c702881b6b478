use cli_framework::telemetry::axes::{Deployment, TelemetryLevel};
use cli_framework::telemetry::guard::{flush_budget_for, flush_outcome, FlushOutcome, END_USER_FLUSH_BUDGET_MS};
use cli_framework::telemetry::init::{sampler_for_policy, SamplerChoice};
use cli_framework::telemetry::panic::{panic_location, panic_report, PanicRecord};
use cli_framework::telemetry::policy::{resolve_policy, LayeredLevel, TelemetryInputs, TelemetryPolicy};
use cli_framework::telemetry::probe::{ProbeRegistry, ProbeSpec};
use cli_framework::testkit::{exit_code_for, test_output, RunEnd};

fn policy(deployment: Deployment, level: TelemetryLevel) -> TelemetryPolicy {
    let mut r = ProbeRegistry::new();
    r.register(ProbeSpec { id: "cli.panic", min_level: TelemetryLevel::Usage, summary: "s", sends: "t" })
        .unwrap();
    r.register(ProbeSpec {
        id: "cli.panic.message",
        min_level: TelemetryLevel::Debug,
        summary: "s",
        sends: "t",
    })
    .unwrap();
    let mut p = resolve_policy(TelemetryInputs {
        deployment,
        endpoint: Some("http://collector".to_string()),
        level: LayeredLevel { config_file: Some(level), ..LayeredLevel::default() },
        registry: r,
        ..Default::default()
    });
    p.level = level;
    p
}

#[test]
fn end_user_installs_get_a_bounded_flush() {
    let end_user = policy(Deployment::EndUser { privacy_url: None }, TelemetryLevel::Usage);
    assert_eq!(flush_budget_for(&end_user), Some(END_USER_FLUSH_BUDGET_MS));
    assert_eq!(END_USER_FLUSH_BUDGET_MS, 500);
    let service = policy(Deployment::Service, TelemetryLevel::Usage);
    assert_eq!(flush_budget_for(&service), None);
    assert_eq!(flush_outcome(true), FlushOutcome::Completed);
    assert_eq!(flush_outcome(false), FlushOutcome::TimedOut);
}

#[test]
fn sampling_is_always_on_for_end_users_and_debug() {
    let end_user = policy(Deployment::EndUser { privacy_url: None }, TelemetryLevel::Usage);
    assert_eq!(sampler_for_policy(&end_user), SamplerChoice::AlwaysOn);
    let debug = policy(Deployment::Service, TelemetryLevel::Debug);
    assert_eq!(sampler_for_policy(&debug), SamplerChoice::AlwaysOn);
    let service = policy(Deployment::Service, TelemetryLevel::Usage);
    assert_eq!(sampler_for_policy(&service), SamplerChoice::ParentBasedRatio);
}

#[test]
fn panic_location_is_file_line_column() {
    assert_eq!(panic_location("src/main.rs", 12, 5), "src/main.rs:12:5");
}

#[test]
fn panic_message_needs_its_own_probe() {
    let record = PanicRecord {
        location: Some("src/main.rs:1:1".to_string()),
        message: Some("index out of bounds: /home/a/secret".to_string()),
    };
    let usage = policy(Deployment::Service, TelemetryLevel::Usage);
    let r = panic_report(&usage, record.clone()).unwrap();
    assert_eq!(r.location, "src/main.rs:1:1");
    assert_eq!(r.message, None);
    let debug = policy(Deployment::Service, TelemetryLevel::Debug);
    let r = panic_report(&debug, record.clone()).unwrap();
    assert_eq!(r.message.as_deref(), Some("index out of bounds: /home/a/secret"));
    let off = policy(Deployment::Service, TelemetryLevel::Off);
    assert!(panic_report(&off, record).is_none());
    let r = panic_report(&usage, PanicRecord::default()).unwrap();
    assert_eq!(r.location, "");
}

#[test]
fn exit_codes_follow_how_the_run_ended() {
    assert_eq!(exit_code_for(RunEnd::Success), 0);
    assert_eq!(exit_code_for(RunEnd::UsageError), 2);
    assert_eq!(exit_code_for(RunEnd::Failure), 1);
    let o = test_output(None, "err".to_string(), RunEnd::Failure);
    assert_eq!(o.stdout, "");
    assert_eq!(o.exit_code, 1);
}
