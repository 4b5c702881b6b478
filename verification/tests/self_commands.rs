use cli_framework::doctor::CheckSeverity;
use cli_framework::self_install::commands::{
    describe_modification, install_command_spec, install_request, render_install, render_status,
    render_uninstall, self_invocation, status_command_spec, uninstall_command_spec,
};
use cli_framework::self_install::doctor::{
    install_checks, on_path_finding, receipt_finding, shadowed_finding, stale_files_finding,
    InstallFacts,
};
use cli_framework::self_install::env::Os;
use cli_framework::self_install::method::InstallMethod;
use cli_framework::self_install::ops::{InstallOutcome, PathDecision, StatusReport, UninstallOutcome};
use cli_framework::self_install::options::ReleaseSource;
use cli_framework::self_install::receipt::{InstallReceipt, PathModification, ReceiptSource};
use cli_framework::spec::value::{ArgValue, ArgValues};

fn receipt() -> InstallReceipt {
    InstallReceipt {
        schema_version: 1,
        app: "demo".to_string(),
        version: "1.2.0".to_string(),
        target: "x86_64-unknown-linux-gnu".to_string(),
        channel: "stable".to_string(),
        bin_dir: "/home/a/.local/bin".to_string(),
        binary_path: "/home/a/.local/bin/demo".to_string(),
        method: InstallMethod::SelfInstall,
        modified_path: vec![],
        completions: vec![],
        source: ReceiptSource {
            source: ReleaseSource::Github { repo: "o/n".to_string(), api_base: None },
            tag_prefix: "v".to_string(),
            asset_template: "{app}.tar.gz".to_string(),
        },
        installed_at: "2024-01-01T00:00:00Z".to_string(),
        previous_version: None,
        system: false,
        apps_and_features: None,
    }
}

fn report(receipt: Option<InstallReceipt>) -> StatusReport {
    StatusReport {
        app: "demo".to_string(),
        version: "1.2.0".to_string(),
        target: "x86_64-unknown-linux-gnu".to_string(),
        running_binary: "/home/a/.local/bin/demo".to_string(),
        method: InstallMethod::SelfInstall,
        receipt_path: Some("/home/a/.local/share/demo/receipt.json".to_string()),
        receipt,
        receipt_error: None,
        bin_dir: Some("/home/a/.local/bin".to_string()),
        bin_dir_on_path: true,
        resolved_on_path: Some("/home/a/.local/bin/demo".to_string()),
        copies_on_path: vec!["/home/a/.local/bin/demo".to_string()],
        stale_files: vec![],
        upgrade_hint: None,
    }
}

#[test]
fn on_path_passes_when_the_bin_dir_is_on_path() {
    let f = on_path_finding(&report(Some(receipt())), "demo self", Os::Linux);
    assert_eq!(f.severity, CheckSeverity::Passed);
    assert_eq!(f.message, "/home/a/.local/bin is on PATH");
}

#[test]
fn on_path_warns_with_a_platform_remedy() {
    let mut r = report(Some(receipt()));
    r.bin_dir_on_path = false;
    let f = on_path_finding(&r, "demo self", Os::Linux);
    assert_eq!(f.severity, CheckSeverity::Warning);
    assert_eq!(
        f.remediation.as_deref(),
        Some("open a new terminal or source the env file in /home/a/.local/bin; if it is still missing, run `demo self install`")
    );
    let f = on_path_finding(&r, "demo self", Os::Windows);
    assert_eq!(
        f.remediation.as_deref(),
        Some("open a new terminal; if it is still missing, run `demo self install` to add /home/a/.local/bin to the user Path")
    );
}

#[test]
fn a_package_manager_install_is_fine_as_it_is() {
    let mut r = report(None);
    r.method = InstallMethod::Homebrew;
    let f = on_path_finding(&r, "demo self", Os::Macos);
    assert_eq!(f.severity, CheckSeverity::Passed);
    assert_eq!(f.message, "installed with homebrew");
    let f = receipt_finding(&r, "demo self", false);
    assert_eq!(f.message, "installed with homebrew");
    r.method = InstallMethod::Unmanaged;
    assert_eq!(on_path_finding(&r, "demo self", Os::Linux).severity, CheckSeverity::Skipped);
}

#[test]
fn shadowing_is_reported_with_both_paths() {
    let mut r = report(Some(receipt()));
    r.copies_on_path = vec!["/usr/bin/demo".to_string(), "/home/a/.local/bin/demo".to_string()];
    let f = shadowed_finding(&r, false, "/home/a/.local/bin");
    assert_eq!(f.severity, CheckSeverity::Warning);
    assert_eq!(f.message, "`demo` resolves to /usr/bin/demo, not /home/a/.local/bin/demo");
    assert_eq!(
        f.remediation.as_deref(),
        Some("remove the other copy at /usr/bin/demo or move /home/a/.local/bin earlier on PATH")
    );
    let f = shadowed_finding(&r, true, "/home/a/.local/bin");
    assert_eq!(f.message, "/usr/bin/demo is used first; 1 other copies later on PATH");
    r.copies_on_path.clear();
    assert_eq!(shadowed_finding(&r, true, "").message, "demo is not on PATH");
}

#[test]
fn receipt_findings_cover_every_state() {
    let mut r = report(Some(receipt()));
    let f = receipt_finding(&r, "demo self", true);
    assert_eq!(f.severity, CheckSeverity::Passed);
    assert_eq!(f.message, "demo 1.2.0 installed at /home/a/.local/bin/demo");
    let f = receipt_finding(&r, "demo self", false);
    assert_eq!(f.severity, CheckSeverity::Warning);
    assert_eq!(
        f.remediation.as_deref(),
        Some("run `demo self install` to reinstall, or `demo self uninstall` to clean up")
    );
    r.receipt_error = Some("bad json".to_string());
    let f = receipt_finding(&r, "demo self", true);
    assert_eq!(f.message, "install receipt is unreadable: bad json");
    let none = report(None);
    assert_eq!(receipt_finding(&none, "demo self", true).severity, CheckSeverity::Skipped);
}

#[test]
fn stale_files_are_listed() {
    let mut r = report(Some(receipt()));
    assert_eq!(stale_files_finding(&r).message, "no leftover files");
    r.stale_files = vec!["/a/demo.old".to_string(), "/a/.demo.tmp".to_string()];
    let f = stale_files_finding(&r);
    assert_eq!(f.severity, CheckSeverity::Warning);
    assert_eq!(f.message, "leftover install files: /a/demo.old, /a/.demo.tmp");
}

#[test]
fn install_checks_run_in_order() {
    let checks = install_checks("demo", "1.2.0", "demo self".to_string());
    let ids: Vec<&str> = checks.iter().map(|c| c.id).collect();
    assert_eq!(ids, vec!["install.on_path", "install.shadowed", "install.receipt", "install.stale_files"]);
    let facts = InstallFacts {
        os: Os::Linux,
        first_is_expected: true,
        expected_dir: "/home/a/.local/bin".to_string(),
        recorded_binary_exists: true,
    };
    let f = checks[2].run(&report(Some(receipt())), &facts);
    assert_eq!(f.check_id, "install.receipt");
    assert_eq!(f.title, "Install receipt");
    assert_eq!(f.severity, CheckSeverity::Passed);
    let f = checks[0].unlocatable("no such file");
    assert_eq!(f.severity, CheckSeverity::Skipped);
    assert_eq!(f.message, "cannot locate the running executable: no such file");
}

#[test]
fn invocation_joins_the_group_path() {
    assert_eq!(self_invocation("demo", &vec!["self".to_string()]), "demo self");
    assert_eq!(
        self_invocation("demo", &vec!["admin".to_string(), "self".to_string()]),
        "demo admin self"
    );
}

#[test]
fn command_specs_declare_their_flags() {
    let s = install_command_spec();
    let names: Vec<&str> = s.args.iter().map(|a| a.name.as_str()).collect();
    assert_eq!(names, vec!["bin_dir", "no_modify_path", "unmanaged", "force", "from_bootstrap"]);
    assert_eq!(s.category.as_deref(), Some("ops"));
    assert_eq!(s.exit_codes.len(), 2);
    assert_eq!(uninstall_command_spec().args[0].name, "purge");
    assert_eq!(status_command_spec().args[0].name, "json");
}

#[test]
fn install_request_reads_the_flags() {
    let mut args = ArgValues::new();
    args.insert("force".to_string(), ArgValue::Bool(true));
    args.insert("bin_dir".to_string(), ArgValue::Str(String::new()));
    let req = install_request(&args);
    assert!(req.force && !req.unmanaged && req.bin_dir.is_none());
    args.insert("bin_dir".to_string(), ArgValue::Str("/opt/bin".to_string()));
    assert_eq!(install_request(&args).bin_dir.as_deref(), Some("/opt/bin"));
}

#[test]
fn install_summary_lists_what_changed() {
    let o = InstallOutcome {
        version: "1.2.0".to_string(),
        binary_path: "/home/a/.local/bin/demo".to_string(),
        bin_dir: "/home/a/.local/bin".to_string(),
        replaced_existing: false,
        already_in_place: false,
        receipt_path: None,
        path: PathDecision::Edit,
        path_modifications: vec![
            PathModification::EnvFile { file: "/home/a/.local/bin/env".to_string() },
            PathModification::RcLine { file: "/home/a/.bashrc".to_string(), line: ". env".to_string() },
        ],
        current_shell_hint: Some(". /home/a/.local/bin/env".to_string()),
        completions: vec![],
        notes: vec!["n1".to_string()],
        source_left_behind: None,
    };
    let lines = render_install("demo", "1.2.0", &Some(vec!["completion".to_string()]), &o);
    assert_eq!(
        lines,
        vec![
            "demo 1.2.0 installed to /home/a/.local/bin/demo",
            "PATH: added /home/a/.local/bin via:",
            "  created /home/a/.local/bin/env",
            "  /home/a/.bashrc: . env",
            "  to use it in this shell now: . /home/a/.local/bin/env",
            "receipt: none (--unmanaged)",
            "note: n1",
            "hint: `demo completion <shell>` prints shell completions",
        ]
    );
    assert_eq!(
        describe_modification(&PathModification::WindowsUserPath {
            key: "Environment".to_string(),
            entry: "C:\\bin".to_string()
        }),
        "HKCU\\Environment\\Path += C:\\bin"
    );
}

#[test]
fn status_lines_show_the_shadowed_copies() {
    let mut r = report(Some(receipt()));
    r.copies_on_path = vec!["/usr/bin/demo".to_string(), "/home/a/.local/bin/demo".to_string()];
    r.stale_files = vec!["/x".to_string()];
    assert_eq!(
        render_status(&r),
        vec![
            "demo 1.2.0 (x86_64-unknown-linux-gnu)",
            "running binary: /home/a/.local/bin/demo",
            "install method: self-install",
            "receipt: /home/a/.local/share/demo/receipt.json (version 1.2.0, installed 2024-01-01T00:00:00Z)",
            "bin dir: /home/a/.local/bin (on PATH)",
            "on PATH: /usr/bin/demo (used)",
            "  shadowed: /home/a/.local/bin/demo",
            "stale: /x",
        ]
    );
}

#[test]
fn uninstall_summary_ends_with_the_app() {
    let out = UninstallOutcome {
        removed: vec!["/home/a/.local/bin/demo".to_string()],
        kept: vec!["k".to_string()],
        purged: vec![],
        deletion_deferred: true,
    };
    assert_eq!(
        render_uninstall("demo", &out),
        vec![
            "removed /home/a/.local/bin/demo",
            "kept k",
            "the binary is deleted as soon as this process exits",
            "demo uninstalled",
        ]
    );
}
