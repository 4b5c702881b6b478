use cli_framework::self_install::env::{InstallEnv, Os};
use cli_framework::self_install::method::InstallMethod;
use cli_framework::self_install::ops::{manual_path_hint, InstallRequest, SelfInstallError};
use cli_framework::self_install::options::{ReleaseSource, SelfInstallOptions};
use cli_framework::self_install::place::{is_stale_name, other_executable, PlaceMode, PlaceResult};
use cli_framework::self_install::receipt::{InstallReceipt, PathModification, ReceiptSource};
use cli_framework::self_install::shell_path::{
    fish_conf_action, fish_conf_path, fish_dir, no_rc_note, unix_path_start, FishConfAction,
};
use cli_framework::self_install::steps::{
    apps_features_note, check_foreign, choose_bin_dir, destination, install_receipt,
    no_receipt_error, place_mode, previous_receipt, source_left_behind, uninstall_steps,
    user_path_note, UninstallStep,
};
use cli_framework::self_install::windows_path::{
    add_to_user_path, expand_env, normalize, path_entries_of, remove_from_user_path,
    user_path_contains,
};

fn env() -> InstallEnv {
    InstallEnv {
        app: "demo".to_string(),
        version: "1.2.0".to_string(),
        os: Os::Linux,
        home: Some("/home/a".to_string()),
        vars: vec![],
        current_exe: "/tmp/dl/demo".to_string(),
        stdout_is_terminal: false,
        is_root: false,
        state_root: Some("/home/a/.local/state".to_string()),
        config_root: None,
        data_root: None,
        user_path_key: "Environment".to_string(),
        completion_command: None,
        self_invocation: "demo self".to_string(),
    }
}

fn receipt() -> InstallReceipt {
    InstallReceipt {
        schema_version: 1,
        app: "demo".to_string(),
        version: "1.2.0".to_string(),
        target: "t".to_string(),
        channel: "latest".to_string(),
        bin_dir: "/home/a/.local/bin".to_string(),
        binary_path: "/home/a/.local/bin/demo".to_string(),
        method: InstallMethod::SelfInstall,
        modified_path: vec![
            PathModification::EnvFile {
                file: "/home/a/.local/bin/env".to_string(),
            },
            PathModification::RcLine {
                file: "/home/a/.bashrc".to_string(),
                line: ". \"$HOME/.local/bin/env\"".to_string(),
            },
            PathModification::FishConf {
                file: "/home/a/.config/fish/conf.d/demo.fish".to_string(),
            },
        ],
        completions: vec!["/home/a/.local/share/bash-completion/completions/demo".to_string()],
        source: ReceiptSource {
            source: ReleaseSource::Github {
                repo: "o/n".to_string(),
                api_base: None,
            },
            tag_prefix: "v".to_string(),
            asset_template: "{app}.tar.gz".to_string(),
        },
        installed_at: "2024-01-01T00:00:00Z".to_string(),
        previous_version: Some("1.1.0".to_string()),
        system: false,
        apps_and_features: None,
    }
}

#[test]
fn bin_dir_comes_from_the_request_then_the_defaults() {
    let e = env();
    let mut req = InstallRequest::default();
    assert_eq!(choose_bin_dir(&e, &req, None).unwrap(), "/home/a/.local/bin");
    req.bin_dir = Some("bin".to_string());
    assert_eq!(choose_bin_dir(&e, &req, Some("/work")).unwrap(), "/work/bin");
    assert_eq!(choose_bin_dir(&e, &req, None).unwrap(), "bin");
    req.bin_dir = Some("/opt/bin".to_string());
    assert_eq!(choose_bin_dir(&e, &req, Some("/work")).unwrap(), "/opt/bin");
    let sys = InstallRequest {
        system: true,
        ..Default::default()
    };
    assert_eq!(choose_bin_dir(&e, &sys, None).unwrap(), "/usr/local/bin");
    let mut homeless = env();
    homeless.home = None;
    assert!(matches!(
        choose_bin_dir(&homeless, &InstallRequest::default(), None),
        Err(SelfInstallError::NoBinDir)
    ));
    assert_eq!(destination(&e, "/b"), "/b/demo");
}

#[test]
fn foreign_files_are_not_overwritten_without_force() {
    match check_foreign("/b/demo", true, false, false, false, "demo self") {
        Err(e) => assert_eq!(
            e.message(),
            "/b/demo already exists and was not installed by `demo self install`; pass --force to replace it"
        ),
        Ok(()) => panic!("expected a refusal"),
    }
    assert!(check_foreign("/b/demo", true, false, false, true, "demo self").is_ok());
    assert!(check_foreign("/b/demo", true, false, true, false, "demo self").is_ok());
    assert!(check_foreign("/b/demo", false, false, false, false, "demo self").is_ok());
}

#[test]
fn placement_mode_and_leftovers() {
    assert_eq!(place_mode(false, false), PlaceMode::Copy);
    assert_eq!(place_mode(true, false), PlaceMode::Move);
    assert_eq!(place_mode(false, true), PlaceMode::Move);
    let placed = PlaceResult::default();
    assert_eq!(
        source_left_behind(&placed, PlaceMode::Copy, "/tmp/dl/demo").as_deref(),
        Some("/tmp/dl/demo")
    );
    assert_eq!(source_left_behind(&placed, PlaceMode::Move, "/tmp/dl/demo"), None);
    assert!(is_stale_name("demo.old", "demo", Os::Linux));
    assert!(is_stale_name(".demo-install.x1", "demo", Os::Linux));
    assert!(is_stale_name(".demo.exe.tmp-12", "demo", Os::Windows));
    assert!(is_stale_name(".demo.lock", "demo", Os::Linux));
    assert!(!is_stale_name("demo", "demo", Os::Linux));
    assert!(other_executable("Tool.EXE", "demo.exe"));
    assert!(!other_executable("DEMO.exe", "demo.exe"));
    assert!(!other_executable("tool.exe.old", "demo.exe"));
}

#[test]
fn a_reinstall_keeps_what_earlier_installs_recorded() {
    let e = env();
    let opts = SelfInstallOptions::github("o/n");
    let prev = Some(receipt());
    let new_mods = vec![
        PathModification::EnvFile {
            file: "/home/a/.local/bin/env".to_string(),
        },
        PathModification::RcLine {
            file: "/home/a/.zshrc".to_string(),
            line: "x".to_string(),
        },
    ];
    let r = install_receipt(
        &e,
        &opts,
        &InstallRequest::default(),
        &prev,
        "1.3.0",
        "t",
        "/home/a/.local/bin",
        "/home/a/.local/bin/demo",
        &new_mods,
        &vec![],
        false,
        None,
        "now",
    );
    assert_eq!(r.modified_path.len(), 4);
    assert_eq!(r.channel, "latest");
    assert_eq!(r.previous_version, None);
    assert_eq!(r.method, InstallMethod::SelfInstall);
    assert_eq!(r.completions.len(), 1);
    assert!(previous_receipt(Ok(None), false).unwrap().is_none());
}

#[test]
fn uninstall_runs_in_a_fixed_order() {
    let steps = uninstall_steps(&receipt(), "/s/demo/install-receipt.json", &vec!["/c/demo".to_string()]);
    assert_eq!(
        steps,
        vec![
            UninstallStep::RemoveFile("/home/a/.local/share/bash-completion/completions/demo".to_string()),
            UninstallStep::Keep("/home/a/.local/bin/env (shared with other apps using this bin dir)".to_string()),
            UninstallStep::Keep(
                "/home/a/.bashrc: `. \"$HOME/.local/bin/env\"` (shared with other apps using this bin dir)"
                    .to_string()
            ),
            UninstallStep::RemoveFile("/home/a/.config/fish/conf.d/demo.fish".to_string()),
            UninstallStep::RemoveFile("/home/a/.local/bin/demo.prev".to_string()),
            UninstallStep::StaleFiles("/home/a/.local/bin".to_string()),
            UninstallStep::Receipt("/s/demo/install-receipt.json".to_string()),
            UninstallStep::Purge("/c/demo".to_string()),
            UninstallStep::Binary("/home/a/.local/bin/demo".to_string()),
        ]
    );
    assert!(matches!(no_receipt_error(&env(), "/r", None), SelfInstallError::NoReceipt { .. }));
    assert!(matches!(
        no_receipt_error(&env(), "/r", Some(InstallMethod::Scoop)),
        SelfInstallError::ManagedByPackageManager { .. }
    ));
    assert_eq!(user_path_note("Environment", r"C:\b", true, false).1, r"HKCU\Environment\Path: C:\b");
    assert_eq!(apps_features_note("K", Some("gone")).1, r"Apps & Features entry HKCU\K (gone)");
}

#[test]
fn unix_path_edits_start_from_the_home() {
    let (expr, hint) = unix_path_start(Some("/home/a"), "/home/a/.local/bin").unwrap();
    assert_eq!(expr, "$HOME/.local/bin");
    assert_eq!(hint, ". \"$HOME/.local/bin/env\"");
    assert_eq!(
        unix_path_start(None, "/b").err().unwrap(),
        "no home directory; add the bin dir to PATH yourself"
    );
    assert_eq!(fish_dir(None, "/home/a"), "/home/a/.config/fish");
    assert_eq!(fish_dir(Some("/x"), "/home/a"), "/x/fish");
    assert_eq!(fish_conf_path("/x/fish", "demo"), "/x/fish/conf.d/demo.fish");
    assert_eq!(fish_conf_action("/f", None, "w"), FishConfAction::Create);
    assert_eq!(fish_conf_action("/f", Some("w"), "w"), FishConfAction::Keep);
    assert_eq!(
        fish_conf_action("/f", Some("other"), "w"),
        FishConfAction::LeaveForeign("/f exists with other content; left unchanged".to_string())
    );
    assert!(no_rc_note("l").ends_with("startup file: l"));
}

#[test]
fn windows_user_path_entries() {
    let vars = vec![("USERPROFILE".to_string(), r"C:\Users\a".to_string())];
    assert_eq!(path_entries_of(r"C:\a; ;C:\b;"), vec![r"C:\a", r"C:\b"]);
    assert_eq!(expand_env(r"%USERPROFILE%\bin", &vars), r"C:\Users\a\bin");
    assert_eq!(expand_env("%NOPE%x%", &vars), "%NOPE%x%");
    assert_eq!(normalize(r" %USERPROFILE%/Bin\\ ", &vars), r"c:\users\a\bin");
    let entries = vec![r"%USERPROFILE%\bin".to_string(), r"C:\tools".to_string()];
    assert!(user_path_contains(&entries, r"C:\Users\a\BIN\", &vars));
    assert_eq!(add_to_user_path(&entries, r"C:\Users\a\bin", &vars), None);
    assert_eq!(
        add_to_user_path(&entries, r"D:\x", &vars).unwrap(),
        vec![r"D:\x", r"%USERPROFILE%\bin", r"C:\tools"]
    );
    assert_eq!(
        remove_from_user_path(&entries, r"c:\users\a\bin", &vars).unwrap(),
        vec![r"C:\tools"]
    );
    assert_eq!(remove_from_user_path(&entries, r"D:\x", &vars), None);
}

#[test]
fn adding_then_removing_a_path_entry_restores_the_list() {
    let vars: Vec<(String, String)> = vec![("USERPROFILE".to_string(), r"C:\Users\a".to_string())];
    let entries = vec![r"C:\Windows".to_string(), r"%USERPROFILE%\tools".to_string()];
    let added = add_to_user_path(&entries, r"D:\apps\bin\", &vars).unwrap();
    assert_eq!(add_to_user_path(&added, r"d:\apps\bin", &vars), None);
    assert_eq!(remove_from_user_path(&added, r"D:/apps/bin", &vars), Some(entries));
}

#[test]
fn the_manual_path_hint_names_home_by_variable() {
    assert_eq!(
        manual_path_hint(Os::Linux, Some("/home/a"), "/home/a/.local/bin"),
        "export PATH=\"$HOME/.local/bin:$PATH\""
    );
    assert_eq!(manual_path_hint(Os::Linux, Some("/home/a"), "/home/a"), "export PATH=\"$HOME:$PATH\"");
    assert_eq!(manual_path_hint(Os::Linux, Some("/home/a"), "/opt/bin"), "export PATH=\"/opt/bin:$PATH\"");
    assert_eq!(
        manual_path_hint(Os::Linux, Some("/home/a"), "/home/a/we$ird"),
        "export PATH=\"/home/a/we$ird:$PATH\""
    );
    assert_eq!(manual_path_hint(Os::Windows, None, r"C:\b"), "$env:Path = \"C:\\b;$env:Path\"");
}

#[test]
fn a_bin_dir_on_path_is_found_among_the_entries() {
    let entries = vec!["/usr/bin".to_string(), "/home/a/.local/bin".to_string()];
    assert!(cli_framework::self_install::ops::on_path(&entries, "/home/a/.local/bin", Os::Linux));
    assert!(!cli_framework::self_install::ops::on_path(&entries, "/opt/bin", Os::Linux));
    let win = vec![r"C:\Users\A\bin\".to_string()];
    assert!(cli_framework::self_install::ops::on_path(&win, r"c:/users/a/bin", Os::Windows));
}

#[test]
fn a_windows_bin_dir_with_a_drive_is_absolute() {
    let mut e = env();
    e.os = Os::Windows;
    let mut req = InstallRequest::default();
    req.bin_dir = Some(r"C:\bin".to_string());
    assert_eq!(choose_bin_dir(&e, &req, Some(r"D:\work")).unwrap(), r"C:\bin");
    req.bin_dir = Some(r"\\server\share\bin".to_string());
    assert_eq!(choose_bin_dir(&e, &req, Some(r"D:\work")).unwrap(), r"\\server\share\bin");
    req.bin_dir = Some("bin".to_string());
    assert!(choose_bin_dir(&e, &req, Some(r"D:\work")).unwrap().ends_with("bin"));
}
