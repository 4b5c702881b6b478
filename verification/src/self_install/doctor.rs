//! Doctor checks for an installation: `install.on_path`, `install.shadowed`,
//! `install.receipt` and `install.stale_files`. The front end takes a status
//! report of the running process; each check here maps it to a finding.
//! Facts the report leaves to the filesystem (whether two paths name the
//! same file, whether the recorded binary still exists, a path's parent)
//! are handed in.

use crate::doctor::{finding, opt_text, CheckSeverity, DoctorFinding, FindingView};
use crate::self_install::env::Os;
use crate::self_install::method::{is_package_manager_spec, method_name};
use crate::self_install::ops::StatusReport;
use crate::text::{decimal, decimal_vec, join_strings, join_with, owned, push_all, push_str, strings};
use vstd::prelude::*;

verus! {

/// One check's answer before it is labelled with the check.
pub struct InstallFinding {
    pub severity: CheckSeverity,
    pub message: String,
    pub remediation: Option<String>,
}

/// An install finding as plain values.
pub open spec fn fv(f: InstallFinding) -> (CheckSeverity, Seq<char>, Option<Seq<char>>) {
    (f.severity, f.message@, opt_text(f.remediation))
}

/// The answer for an install a package manager owns: it is fine as it is.
pub open spec fn managed_spec(r: StatusReport) -> Option<(CheckSeverity, Seq<char>, Option<Seq<char>>)> {
    if r.receipt is None && is_package_manager_spec(r.method) {
        Some((CheckSeverity::Passed, "installed with "@ + method_name(r.method), None))
    } else {
        None
    }
}

fn managed_elsewhere(r: &StatusReport) -> (f: Option<InstallFinding>)
    ensures
        match f {
            Some(x) => managed_spec(*r) == Some(fv(x)),
            None => managed_spec(*r) is None,
        },
{
    if r.receipt.is_none() && r.method.is_package_manager() {
        let mut m = owned("installed with ");
        push_str(&mut m, r.method.as_str());
        Some(InstallFinding { severity: CheckSeverity::Passed, message: m, remediation: None })
    } else {
        None
    }
}

/// `install.on_path`: is the receipt's bin dir on PATH.
pub open spec fn on_path_spec(r: StatusReport, invocation: Seq<char>, os: Os) -> (
    CheckSeverity,
    Seq<char>,
    Option<Seq<char>>,
) {
    match managed_spec(r) {
        Some(f) => f,
        None => match r.receipt {
            None => (CheckSeverity::Skipped, "not installed with self install"@, None),
            Some(rc) => if r.bin_dir_on_path {
                (CheckSeverity::Passed, rc.bin_dir@ + " is on PATH"@, None)
            } else {
                (
                    CheckSeverity::Warning,
                    rc.bin_dir@ + " is not on PATH"@,
                    Some(
                        if os == Os::Windows {
                            "open a new terminal; if it is still missing, run `"@ + invocation
                                + " install` to add "@ + rc.bin_dir@ + " to the user Path"@
                        } else {
                            "open a new terminal or source the env file in "@ + rc.bin_dir@
                                + "; if it is still missing, run `"@ + invocation + " install`"@
                        },
                    ),
                )
            },
        },
    }
}

pub fn on_path_finding(r: &StatusReport, invocation: &str, os: Os) -> (f: InstallFinding)
    ensures
        fv(f) == on_path_spec(*r, invocation@, os),
{
    if let Some(f) = managed_elsewhere(r) {
        return f;
    }
    let receipt = match &r.receipt {
        Some(rc) => rc,
        None => {
            return InstallFinding {
                severity: CheckSeverity::Skipped,
                message: owned("not installed with self install"),
                remediation: None,
            };
        },
    };
    if r.bin_dir_on_path {
        let mut m = receipt.bin_dir.clone();
        push_str(&mut m, " is on PATH");
        return InstallFinding { severity: CheckSeverity::Passed, message: m, remediation: None };
    }
    let remediation = if os == Os::Windows {
        let mut s = owned("open a new terminal; if it is still missing, run `");
        push_str(&mut s, invocation);
        push_str(&mut s, " install` to add ");
        push_str(&mut s, receipt.bin_dir.as_str());
        push_str(&mut s, " to the user Path");
        s
    } else {
        let mut s = owned("open a new terminal or source the env file in ");
        push_str(&mut s, receipt.bin_dir.as_str());
        push_str(&mut s, "; if it is still missing, run `");
        push_str(&mut s, invocation);
        push_str(&mut s, " install`");
        s
    };
    let mut m = receipt.bin_dir.clone();
    push_str(&mut m, " is not on PATH");
    InstallFinding { severity: CheckSeverity::Warning, message: m, remediation: Some(remediation) }
}

/// The binary the first copy on PATH should be: the receipt's, else the
/// running one.
pub open spec fn expected_binary(r: StatusReport) -> Seq<char> {
    match r.receipt {
        Some(rc) => rc.binary_path@,
        None => r.running_binary@,
    }
}

/// `install.shadowed`: is the first copy on PATH the expected binary.
/// `first_is_expected` says whether the first copy and the expected binary
/// are the same file; `expected_dir` is the expected binary's directory.
pub open spec fn shadowed_spec(r: StatusReport, first_is_expected: bool, expected_dir: Seq<char>) -> (
    CheckSeverity,
    Seq<char>,
    Option<Seq<char>>,
) {
    let copies = strings(r.copies_on_path@);
    if copies.len() == 0 {
        (CheckSeverity::Skipped, r.app@ + " is not on PATH"@, None)
    } else if first_is_expected {
        if copies.len() > 1 {
            (
                CheckSeverity::Passed,
                copies[0] + " is used first; "@ + decimal((copies.len() - 1) as nat)
                    + " other copies later on PATH"@,
                None,
            )
        } else {
            (CheckSeverity::Passed, copies[0] + " is used"@, None)
        }
    } else {
        (
            CheckSeverity::Warning,
            "`"@ + r.app@ + "` resolves to "@ + copies[0] + ", not "@ + expected_binary(r),
            Some("remove the other copy at "@ + copies[0] + " or move "@ + expected_dir
                + " earlier on PATH"@),
        )
    }
}

pub fn shadowed_finding(r: &StatusReport, first_is_expected: bool, expected_dir: &str) -> (f:
    InstallFinding)
    ensures
        fv(f) == shadowed_spec(*r, first_is_expected, expected_dir@),
{
    let ghost copies = strings(r.copies_on_path@);
    if r.copies_on_path.len() == 0 {
        let mut m = r.app.clone();
        push_str(&mut m, " is not on PATH");
        return InstallFinding { severity: CheckSeverity::Skipped, message: m, remediation: None };
    }
    let first = &r.copies_on_path[0];
    assert(first@ == copies[0]);
    if first_is_expected {
        if r.copies_on_path.len() > 1 {
            let mut m = first.clone();
            push_str(&mut m, " is used first; ");
            let n = decimal_vec((r.copies_on_path.len() - 1) as u64);
            push_all(&mut m, n.as_slice());
            push_str(&mut m, " other copies later on PATH");
            return InstallFinding { severity: CheckSeverity::Passed, message: m, remediation: None };
        }
        let mut m = first.clone();
        push_str(&mut m, " is used");
        return InstallFinding { severity: CheckSeverity::Passed, message: m, remediation: None };
    }
    let expected = match &r.receipt {
        Some(rc) => rc.binary_path.as_str(),
        None => r.running_binary.as_str(),
    };
    let mut m = owned("`");
    push_str(&mut m, r.app.as_str());
    push_str(&mut m, "` resolves to ");
    push_str(&mut m, first.as_str());
    push_str(&mut m, ", not ");
    push_str(&mut m, expected);
    let mut rem = owned("remove the other copy at ");
    push_str(&mut rem, first.as_str());
    push_str(&mut rem, " or move ");
    push_str(&mut rem, expected_dir);
    push_str(&mut rem, " earlier on PATH");
    InstallFinding { severity: CheckSeverity::Warning, message: m, remediation: Some(rem) }
}

/// `install.receipt`: is the receipt readable and does the binary it
/// records exist (`recorded_binary_exists`).
pub open spec fn receipt_spec(r: StatusReport, invocation: Seq<char>, recorded_binary_exists: bool) -> (
    CheckSeverity,
    Seq<char>,
    Option<Seq<char>>,
) {
    match r.receipt_error {
        Some(err) => (
            CheckSeverity::Warning,
            "install receipt is unreadable: "@ + err@,
            Some("run `"@ + invocation + " install --force` to rewrite it"@),
        ),
        None => match managed_spec(r) {
            Some(f) => f,
            None => match r.receipt {
                None => (
                    CheckSeverity::Skipped,
                    "no install receipt; not installed with self install"@,
                    None,
                ),
                Some(rc) => if !recorded_binary_exists {
                    (
                        CheckSeverity::Warning,
                        "the receipt records "@ + rc.binary_path@ + ", which no longer exists"@,
                        Some("run `"@ + invocation + " install` to reinstall, or `"@ + invocation
                            + " uninstall` to clean up"@),
                    )
                } else {
                    (
                        CheckSeverity::Passed,
                        rc.app@ + " "@ + rc.version@ + " installed at "@ + rc.binary_path@,
                        None,
                    )
                },
            },
        },
    }
}

pub fn receipt_finding(r: &StatusReport, invocation: &str, recorded_binary_exists: bool) -> (f:
    InstallFinding)
    ensures
        fv(f) == receipt_spec(*r, invocation@, recorded_binary_exists),
{
    if let Some(err) = &r.receipt_error {
        let mut m = owned("install receipt is unreadable: ");
        push_str(&mut m, err.as_str());
        let mut rem = owned("run `");
        push_str(&mut rem, invocation);
        push_str(&mut rem, " install --force` to rewrite it");
        return InstallFinding { severity: CheckSeverity::Warning, message: m, remediation: Some(rem) };
    }
    if let Some(f) = managed_elsewhere(r) {
        return f;
    }
    let receipt = match &r.receipt {
        Some(rc) => rc,
        None => {
            return InstallFinding {
                severity: CheckSeverity::Skipped,
                message: owned("no install receipt; not installed with self install"),
                remediation: None,
            };
        },
    };
    if !recorded_binary_exists {
        let mut m = owned("the receipt records ");
        push_str(&mut m, receipt.binary_path.as_str());
        push_str(&mut m, ", which no longer exists");
        let mut rem = owned("run `");
        push_str(&mut rem, invocation);
        push_str(&mut rem, " install` to reinstall, or `");
        push_str(&mut rem, invocation);
        push_str(&mut rem, " uninstall` to clean up");
        return InstallFinding { severity: CheckSeverity::Warning, message: m, remediation: Some(rem) };
    }
    let mut m = receipt.app.clone();
    push_str(&mut m, " ");
    push_str(&mut m, receipt.version.as_str());
    push_str(&mut m, " installed at ");
    push_str(&mut m, receipt.binary_path.as_str());
    InstallFinding { severity: CheckSeverity::Passed, message: m, remediation: None }
}

/// `install.stale_files`: are there leftover install files beside the
/// binary.
pub open spec fn stale_files_spec(r: StatusReport) -> (CheckSeverity, Seq<char>, Option<Seq<char>>) {
    if r.stale_files@.len() == 0 {
        (CheckSeverity::Passed, "no leftover files"@, None)
    } else {
        (
            CheckSeverity::Warning,
            "leftover install files: "@ + join_with(strings(r.stale_files@), ", "@),
            Some("delete them; no running program needs them (on Windows, close running copies first)"@),
        )
    }
}

pub fn stale_files_finding(r: &StatusReport) -> (f: InstallFinding)
    ensures
        fv(f) == stale_files_spec(*r),
{
    if r.stale_files.len() == 0 {
        return InstallFinding {
            severity: CheckSeverity::Passed,
            message: owned("no leftover files"),
            remediation: None,
        };
    }
    let mut m = owned("leftover install files: ");
    let list = join_strings(&r.stale_files, ", ");
    push_str(&mut m, list.as_str());
    InstallFinding {
        severity: CheckSeverity::Warning,
        message: m,
        remediation: Some(
            owned("delete them; no running program needs them (on Windows, close running copies first)"),
        ),
    }
}

/// Which of the four mappings a check applies.
#[derive(Debug, Clone, Copy, PartialEq, Eq, Structural)]
pub enum InstallCheckKind {
    OnPath,
    Shadowed,
    Receipt,
    StaleFiles,
}

/// One installation check: its id, title and description, and the mapping
/// it applies to a status report.
#[derive(Debug, Clone)]
pub struct InstallCheck {
    pub id: &'static str,
    pub title: &'static str,
    pub description: &'static str,
    pub app: String,
    pub version: String,
    pub self_invocation: String,
    pub kind: InstallCheckKind,
}

/// The ids of the installation checks, in the order doctor runs them.
pub open spec fn install_check_ids() -> Seq<Seq<char>> {
    seq!["install.on_path"@, "install.shadowed"@, "install.receipt"@, "install.stale_files"@]
}

/// The installation checks, for the builder to add to `doctor`.
pub fn install_checks(app: &str, version: &str, self_invocation: String) -> (r: Vec<InstallCheck>)
    ensures
        r@.len() == 4,
        r@.map_values(|c: InstallCheck| c.id@) == install_check_ids(),
        r@[0].kind == InstallCheckKind::OnPath,
        r@[1].kind == InstallCheckKind::Shadowed,
        r@[2].kind == InstallCheckKind::Receipt,
        r@[3].kind == InstallCheckKind::StaleFiles,
        forall|i: int|
            0 <= i < 4 ==> (#[trigger] r@[i]).app@ == app@ && r@[i].version@ == version@
                && r@[i].self_invocation@ == self_invocation@,
{
    let a = InstallCheck {
        id: "install.on_path",
        title: "Install directory on PATH",
        description: "The directory holding the installed binary is on PATH",
        app: owned(app),
        version: owned(version),
        self_invocation: self_invocation.clone(),
        kind: InstallCheckKind::OnPath,
    };
    let b = InstallCheck {
        id: "install.shadowed",
        title: "Binary not shadowed",
        description: "The first copy on PATH is the installed one",
        app: owned(app),
        version: owned(version),
        self_invocation: self_invocation.clone(),
        kind: InstallCheckKind::Shadowed,
    };
    let c = InstallCheck {
        id: "install.receipt",
        title: "Install receipt",
        description: "The install receipt is readable and matches the binary",
        app: owned(app),
        version: owned(version),
        self_invocation: self_invocation.clone(),
        kind: InstallCheckKind::Receipt,
    };
    let d = InstallCheck {
        id: "install.stale_files",
        title: "No stale install files",
        description: "No leftover .old binaries, staging files or installer temp dirs",
        app: owned(app),
        version: owned(version),
        self_invocation,
        kind: InstallCheckKind::StaleFiles,
    };
    let r = vec![a, b, c, d];
    assert(r@.map_values(|c: InstallCheck| c.id@) =~= install_check_ids());
    r
}

/// The facts about the process a check reads besides its status report.
pub struct InstallFacts {
    pub os: Os,
    /// Whether the first copy on PATH is the expected binary.
    pub first_is_expected: bool,
    /// The expected binary's directory, empty when it has none.
    pub expected_dir: String,
    /// Whether the binary the receipt records still exists.
    pub recorded_binary_exists: bool,
}

/// The finding a check gives for a status report.
pub open spec fn check_spec(c: InstallCheck, r: StatusReport, facts: InstallFacts) -> (
    CheckSeverity,
    Seq<char>,
    Option<Seq<char>>,
) {
    match c.kind {
        InstallCheckKind::OnPath => on_path_spec(r, c.self_invocation@, facts.os),
        InstallCheckKind::Shadowed => shadowed_spec(r, facts.first_is_expected, facts.expected_dir@),
        InstallCheckKind::Receipt => receipt_spec(r, c.self_invocation@, facts.recorded_binary_exists),
        InstallCheckKind::StaleFiles => stale_files_spec(r),
    }
}

impl InstallCheck {
    /// Run the check on a status report: its mapping, labelled with the
    /// check's id and title.
    pub fn run(&self, r: &StatusReport, facts: &InstallFacts) -> (f: DoctorFinding)
        ensures
            f@ == (FindingView {
                check_id: self.id@,
                title: self.title@,
                severity: check_spec(*self, *r, *facts).0,
                message: check_spec(*self, *r, *facts).1,
                detail: None,
                remediation: check_spec(*self, *r, *facts).2,
            }),
    {
        let x = match self.kind {
            InstallCheckKind::OnPath => on_path_finding(r, self.self_invocation.as_str(), facts.os),
            InstallCheckKind::Shadowed => shadowed_finding(
                r,
                facts.first_is_expected,
                facts.expected_dir.as_str(),
            ),
            InstallCheckKind::Receipt => receipt_finding(
                r,
                self.self_invocation.as_str(),
                facts.recorded_binary_exists,
            ),
            InstallCheckKind::StaleFiles => stale_files_finding(r),
        };
        finding(self.id, self.title, x.severity, x.message, x.remediation)
    }

    /// The finding when the running executable cannot be located.
    pub fn unlocatable(&self, error: &str) -> (f: DoctorFinding)
        ensures
            f@ == (FindingView {
                check_id: self.id@,
                title: self.title@,
                severity: CheckSeverity::Skipped,
                message: "cannot locate the running executable: "@ + error@,
                detail: None,
                remediation: None,
            }),
    {
        let mut m = owned("cannot locate the running executable: ");
        push_str(&mut m, error);
        finding(self.id, self.title, CheckSeverity::Skipped, m, None)
    }
}

} // verus!
