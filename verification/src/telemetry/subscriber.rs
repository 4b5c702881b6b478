//! What happened when the framework tried to install its tracing
//! subscriber, and how a lost race is reported.

use crate::doctor::{finding, opt_text, CheckSeverity, DoctorFinding, FindingView};
use crate::text::owned;
use vstd::prelude::*;

verus! {

/// What happened when we tried to install the subscriber.
#[derive(Debug, Clone, Copy, PartialEq, Eq, Structural)]
pub enum SubscriberOutcome {
    /// We installed it; spans reach the OTel layer.
    Installed,
    /// Something else got there first. Traces and logs are not exported;
    /// metrics are unaffected.
    ForeignSubscriber,
}

impl Default for SubscriberOutcome {
    fn default() -> (s: Self)
        ensures
            s == SubscriberOutcome::Installed,
    {
        SubscriberOutcome::Installed
    }
}

/// The warning printed, once per process, when another subscriber won.
pub fn foreign_subscriber_warning() -> (r: &'static str)
    ensures
        r@ == "telemetry: another tracing subscriber is already installed, so traces and logs will not be exported. Metrics are unaffected. Run the doctor command for details."@,
{
    "telemetry: another tracing subscriber is already installed, so traces and logs will not be exported. Metrics are unaffected. Run the doctor command for details."
}

/// The doctor's account of the same condition: a warning, since an
/// application may install its own subscriber, with the remedy.
pub fn foreign_subscriber_finding() -> (f: DoctorFinding)
    ensures
        f@.check_id == "telemetry.subscriber"@,
        f@.title == "Tracing subscriber"@,
        f@.severity == CheckSeverity::Warning,
        f@.message == "Another tracing subscriber is installed; traces and logs are not exported."@,
        f@.detail == Some(
            "A tracing subscriber can only be installed once per process, and one was already in place when telemetry started. Metric export is unaffected because it does not go through tracing."@,
        ),
        f@.remediation == Some(
            "Remove the application's own subscriber installation, or call cli_framework::init_default_logging() before building the application so the framework composes both."@,
        ),
{
    DoctorFinding {
        check_id: owned("telemetry.subscriber"),
        title: owned("Tracing subscriber"),
        severity: CheckSeverity::Warning,
        message: owned("Another tracing subscriber is installed; traces and logs are not exported."),
        detail: Some(
            owned(
                "A tracing subscriber can only be installed once per process, and one was already in place when telemetry started. Metric export is unaffected because it does not go through tracing.",
            ),
        ),
        remediation: Some(
            owned(
                "Remove the application's own subscriber installation, or call cli_framework::init_default_logging() before building the application so the framework composes both.",
            ),
        ),
    }
}

/// Attaching the OpenTelemetry layer a second time.
#[derive(Debug, Clone, Copy, PartialEq, Eq)]
pub struct AlreadyAttached;

impl AlreadyAttached {
    /// The error's text.
    pub fn message(&self) -> (r: &'static str)
        ensures
            r@ == "an OpenTelemetry layer is already attached to this process's subscriber"@,
    {
        "an OpenTelemetry layer is already attached to this process's subscriber"
    }
}

} // verus!
