use cli_framework::self_install::update::{lock_step, update_lock_path, LockAttempt, LockStep};
use cli_framework::self_install::env::{InstallEnv, Os};
use cli_framework::self_install::method::{upgrade_command, InstallMethod};
use cli_framework::self_install::notice::{cache_is_fresh, notice_action, notice_suppressed, notice_text, CHECK_INTERVAL_SECS};
use cli_framework::self_install::ops::SelfInstallError;
use cli_framework::self_install::options::ReleaseSource;
use cli_framework::self_install::receipt::{InstallReceipt, ReceiptSource};
use cli_framework::self_install::release::Channel;
use cli_framework::self_install::version::SemVer;

fn env(vars: &[(&str, &str)]) -> InstallEnv {
    InstallEnv {
        app: "demo-app".to_string(),
        version: "1.2.0".to_string(),
        os: Os::Linux,
        home: Some("/home/a".to_string()),
        vars: vars.iter().map(|(k, v)| (k.to_string(), v.to_string())).collect(),
        current_exe: "/home/a/.local/bin/demo-app".to_string(),
        stdout_is_terminal: true,
        is_root: false,
        state_root: Some("/home/a/.local/state".to_string()),
        config_root: None,
        data_root: None,
        user_path_key: "Environment".to_string(),
        completion_command: None,
        self_invocation: "demo-app self".to_string(),
    }
}

fn receipt(channel: &str) -> InstallReceipt {
    InstallReceipt {
        schema_version: 1,
        app: "demo-app".to_string(),
        version: "1.2.0".to_string(),
        target: "x86_64-unknown-linux-gnu".to_string(),
        channel: channel.to_string(),
        bin_dir: "/home/a/.local/bin".to_string(),
        binary_path: "/home/a/.local/bin/demo-app".to_string(),
        method: InstallMethod::SelfInstall,
        modified_path: vec![],
        completions: vec![],
        source: ReceiptSource {
            source: ReleaseSource::Github { repo: "o/n".to_string(), api_base: None },
            tag_prefix: "v".to_string(),
            asset_template: "{app}.tar.gz".to_string(),
        },
        installed_at: "2024-01-01T00:00:00Z".to_string(),
        previous_version: None,
        system: false,
        apps_and_features: None,
    }
}

#[test]
fn ci_and_the_opt_out_silence_the_notice() {
    assert!(!notice_suppressed(&env(&[])));
    assert!(notice_suppressed(&env(&[("CI", "true")])));
    assert!(notice_suppressed(&env(&[("DEMO_APP_NO_UPDATE_CHECK", "1")])));
    assert!(!notice_suppressed(&env(&[("CI", "")])));
}

#[test]
fn a_self_managed_install_follows_its_channel() {
    let e = env(&[]);
    let n = notice_action(&e, Ok(receipt("latest")), None, None).unwrap();
    assert_eq!(n.action, "run `demo-app self update`");
    assert!(matches!(n.channel, Channel::Latest));
    let n = notice_action(&e, Ok(receipt("latest")), None, Some("stable")).unwrap();
    assert!(matches!(n.channel, Channel::Stable));
    let n = notice_action(&e, Ok(receipt("nonsense")), None, None).unwrap();
    assert!(matches!(n.channel, Channel::Stable));
}

#[test]
fn a_package_manager_install_is_told_its_command() {
    let e = env(&[]);
    let err = SelfInstallError::ManagedByPackageManager {
        app: "demo-app".to_string(),
        method: "homebrew",
        hint: String::new(),
    };
    let n = notice_action(&e, Err(err), Some(InstallMethod::Homebrew), None).unwrap();
    assert_eq!(n.action, "run `brew upgrade demo-app`");
    let other = SelfInstallError::NoStateDir;
    assert!(notice_action(&e, Err(other), None, None).is_none());
    assert_eq!(
        upgrade_command(InstallMethod::Cargo, "demo").as_deref(),
        Some("cargo install demo --force")
    );
    assert!(upgrade_command(InstallMethod::SelfInstall, "demo").is_none());
}

#[test]
fn the_line_appears_only_for_a_newer_release() {
    let current = SemVer::parse("1.2.0").unwrap();
    assert_eq!(
        notice_text("demo", &current, Some("1.3.0"), "run `demo self update`").as_deref(),
        Some("demo 1.3.0 is available (you have 1.2.0); run `demo self update`")
    );
    assert!(notice_text("demo", &current, Some("1.2.0"), "x").is_none());
    assert!(notice_text("demo", &current, Some("garbage"), "x").is_none());
    assert!(notice_text("demo", &current, None, "x").is_none());
}

#[test]
fn the_update_lock_retries_a_stale_file_once() {
    assert_eq!(update_lock_path("/home/a/.local/bin", "demo"), "/home/a/.local/bin/.demo.lock");
    assert_eq!(lock_step(0, LockAttempt::Created), LockStep::Acquired);
    assert_eq!(lock_step(0, LockAttempt::Exists { age_secs: Some(10) }), LockStep::Locked);
    assert_eq!(lock_step(0, LockAttempt::Exists { age_secs: None }), LockStep::Locked);
    assert_eq!(lock_step(0, LockAttempt::Exists { age_secs: Some(901) }), LockStep::RemoveStaleAndRetry);
    assert_eq!(lock_step(1, LockAttempt::Exists { age_secs: Some(901) }), LockStep::RemoveStaleThenLocked);
    assert_eq!(
        lock_step(1, LockAttempt::Failed { message: "denied".to_string() }),
        LockStep::Failed { message: "denied".to_string() }
    );
}

#[test]
fn cache_expires_after_a_day() {
    let now: u64 = 1_700_000_000;
    assert!(cache_is_fresh(now - 60, now));
    assert!(!cache_is_fresh(now - CHECK_INTERVAL_SECS - 1, now));
    assert!(!cache_is_fresh(now + 3600, now));
}
