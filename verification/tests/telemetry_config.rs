use cli_framework::telemetry::config::{
    parse_headers, percent_decode, protocol_is_supported, OtelVars,
    TelemetryConfig, SAMPLE_ALL,
};
use cli_framework::telemetry::init::{
    reject_unsupported_protocol, resolve_service, signal_url, view_keys_for_test,
};

#[test]
fn parses_multiple_headers() {
    let h = parse_headers("api-key=secret,x-tenant=acme");
    assert_eq!(h.get("api-key").map(String::as_str), Some("secret"));
    assert_eq!(h.get("x-tenant").map(String::as_str), Some("acme"));
}

#[test]
fn splits_on_the_first_equals_only() {
    let h = parse_headers("authorization=Bearer YWJjZA==");
    assert_eq!(
        h.get("authorization").map(String::as_str),
        Some("Bearer YWJjZA==")
    );
}

#[test]
fn percent_decodes_values() {
    let h = parse_headers("authorization=Bearer%20abc%2Cdef");
    assert_eq!(
        h.get("authorization").map(String::as_str),
        Some("Bearer abc,def")
    );
}

#[test]
fn skips_malformed_entries() {
    let h = parse_headers("good=1,nonsense,=novalue,also-good=2");
    assert_eq!(h.len(), 2);
    assert!(h.contains_key("good"));
    assert!(h.contains_key("also-good"));
}

#[test]
fn leaves_invalid_escapes_verbatim() {
    let h = parse_headers("k=100%off");
    assert_eq!(h.get("k").map(String::as_str), Some("100%off"));
}

#[test]
fn a_later_header_replaces_an_earlier_one() {
    let h = parse_headers("k=1,k=2");
    assert_eq!(h.len(), 1);
    assert_eq!(h.get("k").map(String::as_str), Some("2"));
}

#[test]
fn decoding_to_invalid_utf8_keeps_the_value() {
    assert_eq!(percent_decode("%ff"), "%ff");
    assert_eq!(percent_decode("a%41"), "aA");
}

#[test]
fn protocol_names_match_ignoring_case() {
    assert!(protocol_is_supported("http/protobuf"));
    assert!(protocol_is_supported("HTTP/PROTOBUF"));
    assert!(!protocol_is_supported("grpc"));
}

#[test]
fn debug_redacts_header_values_but_keeps_names() {
    let cfg = TelemetryConfig {
        headers: parse_headers("authorization=Bearer super-secret-token"),
        ..Default::default()
    };
    let rendered = cfg.headers.redacted();
    assert!(
        !rendered.contains("super-secret-token"),
        "header value leaked into the diagnostic text: {rendered}"
    );
    assert!(
        rendered.contains("authorization"),
        "header name should survive for diagnosis: {rendered}"
    );
}

#[test]
fn redacted_headers_are_sorted_names() {
    let h = parse_headers("x-tenant=acme,api-key=secret");
    assert_eq!(h.redacted(), "[\"api-key\", \"x-tenant\"] (values redacted)");
    assert_eq!(parse_headers("").redacted(), "[] (values redacted)");
}

#[test]
fn default_protocol_is_supported() {
    assert!(TelemetryConfig::default().protocol_is_supported());
}

#[test]
fn grpc_protocol_is_rejected() {
    let cfg = TelemetryConfig {
        protocol: "grpc".to_string(),
        ..Default::default()
    };
    assert!(!cfg.protocol_is_supported());
}

#[test]
fn protocol_match_is_case_insensitive() {
    let cfg = TelemetryConfig {
        protocol: "HTTP/PROTOBUF".to_string(),
        ..Default::default()
    };
    assert!(cfg.protocol_is_supported());
}

#[test]
fn default_config_samples_everything() {
    let cfg = TelemetryConfig::default();
    assert_eq!(f64::from_bits(cfg.sample_ratio), 1.0);
    assert_eq!(SAMPLE_ALL, 1.0f64.to_bits());
    assert!(cfg.enabled && cfg.traces_enabled && cfg.metrics_enabled);
    assert!(!cfg.record_arg_values);
}

#[test]
fn is_active_needs_an_endpoint_and_no_kill_switch() {
    let cfg = TelemetryConfig {
        endpoint: Some("http://127.0.0.1:9/".to_string()),
        ..Default::default()
    };
    assert!(cfg.is_active(None));
    assert!(cfg.is_active(Some("false")));
    assert!(!cfg.is_active(Some("true")));
    assert!(!TelemetryConfig::default().is_active(None));
    let off = TelemetryConfig {
        enabled: false,
        endpoint: Some("http://127.0.0.1:9/".to_string()),
        ..Default::default()
    };
    assert!(!off.is_active(None));
}

#[test]
fn from_env_keeps_defaults_for_unset_or_empty_variables() {
    let cfg = TelemetryConfig::from_env(OtelVars {
        endpoint: Some(String::new()),
        service_name: None,
        protocol: Some(String::new()),
        headers: None,
        sample_ratio: None,
    });
    assert!(cfg.endpoint.is_none());
    assert!(cfg.service_name.is_none());
    assert_eq!(cfg.protocol, "http/protobuf");
    assert_eq!(cfg.headers.len(), 0);
    assert_eq!(cfg.sample_ratio, SAMPLE_ALL);
}

#[test]
fn from_env_reads_the_set_variables() {
    let cfg = TelemetryConfig::from_env(OtelVars {
        endpoint: Some("http://collector:4318".to_string()),
        service_name: Some("svc".to_string()),
        protocol: Some("grpc".to_string()),
        headers: Some("api-key=a%20b".to_string()),
        sample_ratio: Some(0.25f64.to_bits()),
    });
    assert_eq!(cfg.endpoint.as_deref(), Some("http://collector:4318"));
    assert_eq!(cfg.service_name.as_deref(), Some("svc"));
    assert_eq!(cfg.protocol, "grpc");
    assert_eq!(cfg.headers.get("api-key").map(String::as_str), Some("a b"));
    assert_eq!(f64::from_bits(cfg.sample_ratio), 0.25);
}

#[test]
fn malformed_escapes_stay_verbatim() {
    assert_eq!(percent_decode("%a\u{e9}"), "%a\u{e9}");
    assert_eq!(percent_decode("a%+1"), "a%+1");
    assert_eq!(percent_decode("%4\u{e9}x"), "%4\u{e9}x");
    let h = parse_headers("k=%4\u{e9},x=%41");
    assert_eq!(h.get("k").map(String::as_str), Some("%4\u{e9}"));
    assert_eq!(h.get("x").map(String::as_str), Some("A"));
}

#[test]
fn resolve_service_prefers_config_over_default() {
    let cfg = TelemetryConfig {
        service_name: Some("cfg-svc".into()),
        service_version: Some("cfg-ver".into()),
        ..Default::default()
    };
    assert_eq!(
        resolve_service(&cfg, "app-name", "app-ver"),
        ("cfg-svc", "cfg-ver")
    );
}

#[test]
fn resolve_service_falls_back_to_default_when_config_unset() {
    let cfg = TelemetryConfig::default();
    assert_eq!(
        resolve_service(&cfg, "app-name", "app-ver"),
        ("app-name", "app-ver")
    );
}

#[test]
fn init_accepts_the_supported_protocol() {
    let cfg = TelemetryConfig {
        endpoint: Some("http://127.0.0.1:9/".to_string()),
        ..Default::default()
    };
    assert!(!reject_unsupported_protocol(&cfg));
}

#[test]
fn init_refuses_an_unsupported_protocol_before_exporting() {
    let cfg = TelemetryConfig {
        endpoint: Some("http://127.0.0.1:9/".to_string()),
        protocol: "grpc".to_string(),
        ..Default::default()
    };
    assert!(cfg.is_active(None));
    assert!(reject_unsupported_protocol(&cfg));
}

#[test]
fn signal_urls_drop_trailing_slashes() {
    assert_eq!(signal_url("http://c:4318//", "traces"), "http://c:4318/v1/traces");
    assert_eq!(signal_url("http://c:4318", "metrics"), "http://c:4318/v1/metrics");
}

#[test]
fn view_keys_keep_only_allowed_labels() {
    let keys = view_keys_for_test(&["command", "user.name", "status", "host.name"]);
    assert_eq!(keys, vec!["command", "status"]);
}
