//! Diagnostics raised when typed arguments break their command's spec.

use vstd::prelude::*;

verus! {

/// Required argument missing.
pub const E_MISSING_REQUIRED: &'static str = "E003";

/// Value of the wrong type, out of range, or not matching its pattern.
pub const E_INVALID_VALUE: &'static str = "E004";

/// Two conflicting arguments given together.
pub const E_CONFLICT: &'static str = "E005";

/// An argument given without one it requires.
pub const E_UNSATISFIED_REQUIRES: &'static str = "E006";

/// Where a diagnostic comes from.
#[derive(Debug, Clone, Copy, PartialEq, Eq, Structural)]
pub enum DiagnosticCategory {
    /// The arguments break the command's declared spec.
    Spec,
    /// A command refused what it was given.
    Validation,
}

/// One finding about a command invocation.
#[derive(Debug, Clone)]
pub struct Diagnostic {
    pub code: String,
    pub category: DiagnosticCategory,
    pub message: String,
    pub suggestion: Option<String>,
}

/// A diagnostic as text.
pub struct DiagnosticView {
    pub code: Seq<char>,
    pub category: DiagnosticCategory,
    pub message: Seq<char>,
    pub suggestion: Option<Seq<char>>,
}

impl View for Diagnostic {
    type V = DiagnosticView;

    open spec fn view(&self) -> DiagnosticView {
        DiagnosticView {
            code: self.code@,
            category: self.category,
            message: self.message@,
            suggestion: match self.suggestion {
                Some(s) => Some(s@),
                None => None,
            },
        }
    }
}

/// A spec diagnostic with a suggestion.
pub open spec fn spec_diag(code: Seq<char>, message: Seq<char>, suggestion: Seq<char>) -> DiagnosticView {
    DiagnosticView { code, category: DiagnosticCategory::Spec, message, suggestion: Some(suggestion) }
}

/// The views of a list of diagnostics.
pub open spec fn diag_views(v: Seq<Diagnostic>) -> Seq<DiagnosticView> {
    v.map_values(|d: Diagnostic| d@)
}

/// A spec diagnostic built from its parts.
pub fn make_diag(code: &str, message: String, suggestion: String) -> (d: Diagnostic)
    ensures
        d@ == spec_diag(code@, message@, suggestion@),
{
    Diagnostic {
        code: crate::text::owned(code),
        category: DiagnosticCategory::Spec,
        message,
        suggestion: Some(suggestion),
    }
}

/// Append one diagnostic.
pub fn push_diag(out: &mut Vec<Diagnostic>, d: Diagnostic)
    ensures
        diag_views(final(out)@) == diag_views(old(out)@).push(d@),
{
    let ghost before = out@;
    out.push(d);
    assert(diag_views(out@) =~= diag_views(before).push(d@));
}

} // verus!
