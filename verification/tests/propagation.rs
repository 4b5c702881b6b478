use cli_framework::telemetry::propagation::{extract_context, has_remote_parent, remote_parent};

#[test]
fn extracts_a_well_formed_traceparent() {
    let cx = extract_context(Some("00-4bf92f3577b34da6a3ce929d0e0e4736-00f067aa0ba902b7-01"));
    assert!(has_remote_parent(&cx), "valid traceparent was not extracted");
    assert_eq!(cx.trace_id, "4bf92f3577b34da6a3ce929d0e0e4736");
    assert_eq!(cx.span_id, "00f067aa0ba902b7");
    assert_eq!(
        remote_parent(&cx),
        Some((
            "4bf92f3577b34da6a3ce929d0e0e4736".to_string(),
            "00f067aa0ba902b7".to_string()
        ))
    );
}

#[test]
fn absent_traceparent_yields_no_remote_parent() {
    let cx = extract_context(None);
    assert!(
        !has_remote_parent(&cx),
        "a request with no traceparent must not report a remote parent"
    );
    assert_eq!(remote_parent(&cx), None);
}

#[test]
fn malformed_traceparent_is_ignored() {
    let cx = extract_context(Some("not-a-traceparent"));
    assert!(!has_remote_parent(&cx));
}

#[test]
fn upper_case_ids_are_refused() {
    let cx = extract_context(Some("00-4BF92F3577B34DA6A3CE929D0E0E4736-00f067aa0ba902b7-01"));
    assert!(!has_remote_parent(&cx));
}
