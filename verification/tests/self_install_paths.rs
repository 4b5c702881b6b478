use cli_framework::self_install::env::{InstallEnv, Os};
use cli_framework::self_install::layout::{normalize_windows, same_path};
use cli_framework::self_install::steps::{
    completion_fish_dir, completion_note, completion_output_usable, completion_targets,
};

fn env() -> InstallEnv {
    InstallEnv {
        app: "demo".to_string(),
        version: "1.2.0".to_string(),
        os: Os::Linux,
        home: Some("/home/a".to_string()),
        vars: vec![],
        current_exe: "/tmp/dl/demo".to_string(),
        stdout_is_terminal: false,
        is_root: false,
        state_root: Some("/home/a/.local/state".to_string()),
        config_root: None,
        data_root: None,
        user_path_key: "Environment".to_string(),
        completion_command: Some(vec!["completion".to_string()]),
        self_invocation: "demo self".to_string(),
    }
}

#[test]
fn completions_go_to_the_xdg_homes() {
    let e = env();
    assert_eq!(completion_fish_dir(&e).as_deref(), Some("/home/a/.config/fish"));
    let t = completion_targets(&e, true).unwrap();
    assert_eq!(
        t,
        vec![
            ("bash".to_string(), "/home/a/.local/share/bash-completion/completions/demo".to_string()),
            ("fish".to_string(), "/home/a/.config/fish/completions/demo.fish".to_string()),
        ]
    );
    let mut e = env();
    e.vars = vec![("XDG_DATA_HOME".to_string(), "/data".to_string())];
    let t = completion_targets(&e, false).unwrap();
    assert_eq!(t, vec![("bash".to_string(), "/data/bash-completion/completions/demo".to_string())]);
}

#[test]
fn completions_are_skipped_or_noted() {
    let mut e = env();
    e.os = Os::Windows;
    assert_eq!(completion_targets(&e, true).unwrap().len(), 0);
    assert!(completion_fish_dir(&e).is_none());
    let mut e = env();
    e.completion_command = None;
    assert_eq!(
        completion_targets(&e, true).unwrap_err(),
        "completions are enabled but the completion command is disabled"
    );
    assert_eq!(completion_note("fish", "denied"), "fish completions not written: denied");
    assert!(completion_output_usable(true, 3));
    assert!(!completion_output_usable(true, 0));
    assert!(!completion_output_usable(false, 3));
}

#[test]
fn windows_paths_compare_loosely() {
    let n: String = normalize_windows(r"\\?\C:/Users/A/Bin\").into_iter().collect();
    assert_eq!(n, r"c:\users\a\bin");
    assert!(same_path(r"C:\Bin\demo.exe", "c:/bin/DEMO.EXE", Os::Windows));
    assert!(!same_path("/usr/bin/demo", "/usr/bin/Demo", Os::Linux));
    assert!(same_path("/usr/bin/demo", "/usr/bin/demo", Os::Macos));
}
