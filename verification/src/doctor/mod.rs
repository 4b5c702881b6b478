//! Findings of the `doctor` command: what a check found, how serious it
//! is, and what to do about it.

use vstd::prelude::*;

verus! {

/// How serious a finding is.
#[derive(Debug, Clone, Copy, PartialEq, Eq, Structural)]
pub enum CheckSeverity {
    /// Nothing wrong.
    Passed,
    Warning,
    Error,
    /// The check's subject is absent; distinct from `Ok`.
    Skipped,
}

/// One check's answer.
#[derive(Debug, Clone, PartialEq, Eq)]
pub struct DoctorFinding {
    pub check_id: String,
    pub title: String,
    pub severity: CheckSeverity,
    pub message: String,
    pub detail: Option<String>,
    pub remediation: Option<String>,
}

/// A finding as plain values.
pub struct FindingView {
    pub check_id: Seq<char>,
    pub title: Seq<char>,
    pub severity: CheckSeverity,
    pub message: Seq<char>,
    pub detail: Option<Seq<char>>,
    pub remediation: Option<Seq<char>>,
}

pub open spec fn opt_text(o: Option<String>) -> Option<Seq<char>> {
    match o {
        Some(s) => Some(s@),
        None => None,
    }
}

impl View for DoctorFinding {
    type V = FindingView;

    open spec fn view(&self) -> FindingView {
        FindingView {
            check_id: self.check_id@,
            title: self.title@,
            severity: self.severity,
            message: self.message@,
            detail: opt_text(self.detail),
            remediation: opt_text(self.remediation),
        }
    }
}

/// A finding from its parts, with no detail.
pub fn finding(check_id: &str, title: &str, severity: CheckSeverity, message: String, remediation: Option<String>) -> (f:
    DoctorFinding)
    ensures
        f@ == (FindingView {
            check_id: check_id@,
            title: title@,
            severity,
            message: message@,
            detail: None,
            remediation: opt_text(remediation),
        }),
{
    DoctorFinding {
        check_id: crate::text::owned(check_id),
        title: crate::text::owned(title),
        severity,
        message,
        detail: None,
        remediation,
    }
}

} // verus!
