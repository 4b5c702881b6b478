use cli_framework::self_install::env::{InstallEnv, Os};
use cli_framework::self_install::method::InstallMethod;
use cli_framework::self_install::ops::SelfInstallError;
use cli_framework::self_install::options::{ReleaseSource, SelfInstallOptions};
use cli_framework::self_install::policy::{PolicyValue, SelfUpdatePolicy};
use cli_framework::self_install::receipt::{InstallReceipt, ReceiptSource};
use cli_framework::self_install::release::{
    finish_github, github_release_urls, pick_release, resolve_from_list, resolve_from_tag,
    resolve_start, tag_version, version_from_latest, Channel, GithubAsset, GithubRelease,
    LatestJson, ReleaseError, ResolveStep,
};
use cli_framework::self_install::update::{
    check_managed, check_minimum, check_reported, choose_channel, effective_source, github_token,
    plan_rollback, plan_update, rolled_back_receipt, running_version, target_verdict,
    updated_receipt, version_in_output, UpdateAction, UpdateRequest,
};
use cli_framework::self_install::version::SemVer;

fn policy_channel(c: &str) -> SelfUpdatePolicy {
    SelfUpdatePolicy {
        channel: Some(c.into()),
        ..Default::default()
    }
}

fn v(s: &str) -> SemVer {
    SemVer::parse(s).unwrap()
}

#[test]
fn channel_defaults_to_the_receipt() {
    let p = SelfUpdatePolicy::default();
    assert!(matches!(choose_channel(None, "latest", &p).unwrap(), Channel::Latest));
    assert!(matches!(choose_channel(None, "bogus", &p).unwrap(), Channel::Stable));
}

#[test]
fn enforced_stable_refuses_prereleases() {
    let p = policy_channel("stable");
    assert!(matches!(choose_channel(None, "latest", &p).unwrap(), Channel::Stable));
    assert!(matches!(
        choose_channel(Some(Channel::Latest), "stable", &p),
        Err(SelfInstallError::PolicyRefused {
            key: "self_update.channel",
            ..
        })
    ));
    let rc = Channel::parse("2.0.0-rc.1").unwrap();
    assert!(choose_channel(Some(rc), "stable", &p).is_err());
    let exact = Channel::parse("1.2.3").unwrap();
    assert!(choose_channel(Some(exact), "stable", &p).is_ok());
}

#[test]
fn minimum_version_refuses_older_targets() {
    let p = SelfUpdatePolicy {
        minimum_version: Some(v("1.4.0")),
        ..Default::default()
    };
    assert!(check_minimum(&p, &v("1.3.9")).is_err());
    assert!(check_minimum(&p, &v("1.4.0")).is_ok());
}

#[test]
fn minimum_refusal_names_both_versions() {
    let p = SelfUpdatePolicy {
        minimum_version: Some(v("1.4.0")),
        ..Default::default()
    };
    match check_minimum(&p, &v("1.3.9")) {
        Err(e) => assert_eq!(
            e.message(),
            "refused by your organisation's policy (self_update.minimum_version): 1.3.9 is below the minimum version 1.4.0"
        ),
        Ok(()) => panic!("expected a refusal"),
    }
}

#[test]
fn channels_parse_names_and_versions() {
    assert!(matches!(Channel::parse(" stable "), Ok(Channel::Stable)));
    assert!(matches!(Channel::parse("latest"), Ok(Channel::Latest)));
    match Channel::parse("v1.4.2") {
        Ok(Channel::Exact(ver)) => assert_eq!(ver.text(), "1.4.2"),
        _ => panic!("expected an exact version"),
    }
    let err = Channel::parse("nightly").err().unwrap();
    assert!(err.starts_with("\"nightly\" is not stable, latest or a version: "));
    assert_eq!(Channel::Stable.name(), Some("stable"));
    assert_eq!(Channel::parse("1.0.0").unwrap().name(), None);
}

#[test]
fn versions_compare_as_semver_does() {
    assert_eq!(v("1.10.0").compare(&v("1.9.0")), 1);
    assert_eq!(v("1.0.0-rc.1").compare(&v("1.0.0")), -1);
    assert_eq!(v("2.0.0").compare(&v("2.0.0")), 0);
    assert!(v("1.0.0-beta").has_pre());
    assert!(SemVer::parse("1.0").is_err());
}

fn release(tag: &str, draft: bool, pre: bool, assets: &[&str]) -> GithubRelease {
    GithubRelease {
        tag_name: tag.to_string(),
        draft,
        prerelease: pre,
        assets: assets
            .iter()
            .map(|n| GithubAsset {
                name: n.to_string(),
                url: format!("https://api.example/{n}"),
                browser_download_url: format!("https://dl.example/{n}"),
            })
            .collect(),
    }
}

#[test]
fn picks_the_newest_release_for_the_channel() {
    let rs = vec![
        release("v1.2.0", false, false, &[]),
        release("v1.4.0-rc.1", false, true, &[]),
        release("v1.3.0", false, false, &[]),
        release("v9.0.0", true, false, &[]),
        release("other-v5.0.0", false, false, &[]),
    ];
    let (ver, i) = pick_release(&rs, "v", &Channel::Stable).unwrap();
    assert_eq!((ver.text(), i), ("1.3.0", 2));
    let (ver, i) = pick_release(&rs, "v", &Channel::Latest).unwrap();
    assert_eq!((ver.text(), i), ("1.4.0-rc.1", 1));
    let exact = Channel::parse("1.2.0").unwrap();
    assert_eq!(pick_release(&rs, "v", &exact).unwrap().1, 0);
    assert!(pick_release(&rs, "x", &Channel::Stable).is_none());
    assert!(tag_version("v1.2.0", "v").is_some());
    assert!(tag_version("1.2.0", "v").is_none());
}

#[test]
fn github_urls_follow_the_token() {
    let r = release("v1.0.0", false, false, &["app.tar.gz", "SHA256SUMS"]);
    let with = github_release_urls(&r, v("1.0.0"), "app.tar.gz", true).unwrap();
    assert_eq!(with.asset_url, "https://api.example/app.tar.gz");
    assert!(with.via_api);
    assert!(with.signature_url.is_none());
    let without = github_release_urls(&r, v("1.0.0"), "app.tar.gz", false).unwrap();
    assert_eq!(without.sums_url, "https://dl.example/SHA256SUMS");
    match github_release_urls(&r, v("1.0.0"), "other.zip", false) {
        Err(ReleaseError::MissingAsset { asset, .. }) => assert_eq!(asset, "other.zip"),
        _ => panic!("expected a missing asset"),
    }
}

#[test]
fn resolving_starts_with_the_right_request() {
    let gh = ReleaseSource::Github {
        repo: "o/n".to_string(),
        api_base: Some("https://ghe.example/api/".to_string()),
    };
    match resolve_start(&gh, "v", &Channel::Stable, "a.tar.gz") {
        ResolveStep::FetchList { url } => {
            assert_eq!(url, "https://ghe.example/api/repos/o/n/releases?per_page=100")
        }
        _ => panic!("expected a list request"),
    }
    match resolve_start(&gh, "v", &Channel::parse("1.2.3").unwrap(), "a.tar.gz") {
        ResolveStep::FetchTag { url } => {
            assert_eq!(url, "https://ghe.example/api/repos/o/n/releases/tags/v1.2.3")
        }
        _ => panic!("expected a tag request"),
    }
    let mirror = ReleaseSource::Http {
        base_url: "https://m.example/".to_string(),
    };
    match resolve_start(&mirror, "v", &Channel::Latest, "a.tar.gz") {
        ResolveStep::FetchLatest { url } => assert_eq!(url, "https://m.example/latest.json"),
        _ => panic!("expected latest.json"),
    }
    match resolve_start(&mirror, "v", &Channel::parse("2.0.0").unwrap(), "a.tar.gz") {
        ResolveStep::Done(r) => {
            assert_eq!(r.asset_url, "https://m.example/v2.0.0/a.tar.gz");
            assert_eq!(
                r.signature_url.as_deref(),
                Some("https://m.example/v2.0.0/SHA256SUMS.minisig")
            );
        }
        _ => panic!("expected a resolved release"),
    }
}

#[test]
fn a_missing_tag_is_reported_as_not_found() {
    let r = resolve_from_tag(
        Err(ReleaseError::Status {
            url: "u".to_string(),
            status: 404,
        }),
        "v",
        &v("1.2.3"),
        "a",
        false,
    );
    match r {
        Err(ReleaseError::NotFound { wanted, prefix }) => {
            assert_eq!((wanted.as_str(), prefix.as_str()), ("1.2.3", "v"))
        }
        _ => panic!("expected not found"),
    }
    let none = resolve_from_list(&vec![], "v", &Channel::Stable, "a", false);
    assert_eq!(none.err().unwrap().message(), "no release matches stable (tag prefix \"v\")");
    let bad_tag = finish_github(&release("nope", false, false, &[]), "v", "a", false);
    assert_eq!(
        bad_tag.err().unwrap().message(),
        "tag nope does not carry a version after \"v\""
    );
}

#[test]
fn latest_json_names_the_version_for_the_channel() {
    let latest = LatestJson {
        version: "1.4.2".to_string(),
        latest: Some("v1.5.0-rc.1".to_string()),
    };
    let stable = version_from_latest("u", &latest, &Channel::Stable).unwrap();
    assert_eq!(stable.text(), "1.4.2");
    let newest = version_from_latest("u", &latest, &Channel::Latest).unwrap();
    assert_eq!(newest.text(), "1.5.0-rc.1");
    let broken = LatestJson {
        version: "x".to_string(),
        latest: None,
    };
    let e = version_from_latest("https://m/latest.json", &broken, &Channel::Stable).err().unwrap();
    assert!(e.message().starts_with("https://m/latest.json names \"x\", which is not a version: "));
}

#[test]
fn enforced_policy_values_are_read_safely() {
    let enforced = vec![
        ("self_update.enabled".to_string(), PolicyValue::Str("no".to_string())),
        ("self_update.channel".to_string(), PolicyValue::Str("nightly".to_string())),
        ("self_update.base_url".to_string(), PolicyValue::Str("https://mirror".to_string())),
        ("self_update.minimum_version".to_string(), PolicyValue::Str("v1.2.0".to_string())),
    ];
    let p = SelfUpdatePolicy::from_policy(&enforced);
    assert_eq!(p.enabled, Some(false));
    assert!(!p.allows_update());
    assert_eq!(p.channel, None);
    assert_eq!(p.base_url.as_deref(), Some("https://mirror"));
    assert_eq!(p.minimum_version.unwrap().text(), "1.2.0");
    assert_eq!(p.malformed, vec!["self_update.enabled", "self_update.channel"]);
    assert!(SelfUpdatePolicy::from_policy(&[]).allows_update());
}

fn env() -> InstallEnv {
    InstallEnv {
        app: "demo".to_string(),
        version: "v1.2.0".to_string(),
        os: Os::Linux,
        home: Some("/home/a".to_string()),
        vars: vec![],
        current_exe: "/home/a/.local/bin/demo".to_string(),
        stdout_is_terminal: false,
        is_root: false,
        state_root: Some("/home/a/.local/state".to_string()),
        config_root: None,
        data_root: None,
        user_path_key: "Environment".to_string(),
        completion_command: None,
        self_invocation: "demo self".to_string(),
    }
}

fn receipt() -> InstallReceipt {
    InstallReceipt {
        schema_version: 1,
        app: "demo".to_string(),
        version: "1.2.0".to_string(),
        target: "x86_64-unknown-linux-gnu".to_string(),
        channel: "stable".to_string(),
        bin_dir: "/home/a/.local/bin".to_string(),
        binary_path: "/home/a/.local/bin/demo".to_string(),
        method: InstallMethod::SelfInstall,
        modified_path: vec![],
        completions: vec![],
        source: ReceiptSource {
            source: ReleaseSource::Github {
                repo: "o/n".to_string(),
                api_base: None,
            },
            tag_prefix: "v".to_string(),
            asset_template: "{app}.tar.gz".to_string(),
        },
        installed_at: "2024-01-01T00:00:00Z".to_string(),
        previous_version: Some("1.1.0".to_string()),
        system: false,
        apps_and_features: None,
    }
}

#[test]
fn only_the_recorded_binary_may_update_itself() {
    let e = env();
    assert!(check_managed(&e, "/r", Some(receipt()), None, true).is_ok());
    assert!(matches!(
        check_managed(&e, "/r", Some(receipt()), None, false),
        Err(SelfInstallError::ReceiptMismatch { .. })
    ));
    assert!(matches!(
        check_managed(&e, "/r", None, None, true),
        Err(SelfInstallError::NotManaged { .. })
    ));
    match check_managed(&e, "/r", None, Some(InstallMethod::Homebrew), true) {
        Err(SelfInstallError::ManagedByPackageManager { method, .. }) => assert_eq!(method, "homebrew"),
        _ => panic!("expected a package manager refusal"),
    }
}

#[test]
fn update_plans_refuse_bad_requests() {
    let e = env();
    let p = SelfUpdatePolicy::default();
    let plan = plan_update(&e, &p, &UpdateRequest::default(), "stable").unwrap();
    assert_eq!(plan.current.text(), "1.2.0");
    let both = UpdateRequest {
        target: Some("1.3.0".to_string()),
        from: Some("a.tar.gz".to_string()),
        ..Default::default()
    };
    match plan_update(&e, &p, &both, "stable") {
        Err(SelfInstallError::BadRequest(m)) => {
            assert_eq!(m, "--from installs the archive's own version; do not also name one")
        }
        _ => panic!("expected a bad request"),
    }
    let off = SelfUpdatePolicy {
        enabled: Some(false),
        ..Default::default()
    };
    assert!(matches!(
        plan_update(&e, &off, &UpdateRequest::default(), "stable"),
        Err(SelfInstallError::PolicyRefused { key: "self_update.enabled", .. })
    ));
    assert!(running_version("not-a-version").is_err());
}

#[test]
fn target_verdicts() {
    let p = SelfUpdatePolicy::default();
    let req = UpdateRequest::default();
    assert!(matches!(
        target_verdict(&p, &req, &v("1.2.0"), &v("1.2.0"), false, "demo self"),
        Ok(Some(UpdateAction::UpToDate))
    ));
    assert!(matches!(
        target_verdict(&p, &req, &v("1.2.0"), &v("1.3.0"), false, "demo self"),
        Ok(None)
    ));
    match target_verdict(&p, &req, &v("1.2.0"), &v("1.1.0"), false, "demo self") {
        Err(e) => assert_eq!(
            e.message(),
            "1.1.0 is older than the running 1.2.0; name the version to downgrade: `demo self update 1.1.0`"
        ),
        _ => panic!("expected a downgrade refusal"),
    }
    assert!(matches!(
        target_verdict(&p, &req, &v("1.2.0"), &v("1.1.0"), true, "demo self"),
        Ok(None)
    ));
    let check = UpdateRequest {
        check: true,
        ..Default::default()
    };
    assert!(matches!(
        target_verdict(&p, &check, &v("1.2.0"), &v("1.3.0"), false, "demo self"),
        Ok(Some(UpdateAction::Available))
    ));
    assert!(check_reported(&v("1.3.0"), &v("1.3.0"), "v1.3.0").is_ok());
    assert!(check_reported(&v("1.2.0"), &v("1.3.0"), "v1.3.0").is_err());
}

#[test]
fn rollback_after_update_restores_the_version() {
    let updated = updated_receipt(
        receipt(),
        &v("1.2.0"),
        &v("1.3.0"),
        "t",
        &Channel::Latest,
        false,
        "now",
    );
    assert_eq!(updated.version, "1.3.0");
    assert_eq!(updated.previous_version.as_deref(), Some("1.2.0"));
    assert_eq!(updated.channel, "latest");
    let p = SelfUpdatePolicy::default();
    let to = plan_rollback(&updated, &p, "/b/demo.prev", true).unwrap();
    let (back, from) = rolled_back_receipt(updated, to, "later");
    assert_eq!((back.version.as_str(), from.as_str()), ("1.2.0", "1.3.0"));
    let again_to = plan_rollback(&back, &p, "/b/demo.prev", true).unwrap();
    let (forward, _) = rolled_back_receipt(back, again_to, "latest");
    assert_eq!(forward.version, "1.3.0");
    assert!(matches!(
        plan_rollback(&receipt(), &p, "/b/demo.prev", false),
        Err(SelfInstallError::NothingToRollBack { .. })
    ));
}

#[test]
fn sources_and_tokens_come_from_policy_then_environment() {
    let mut e = env();
    let opts = SelfInstallOptions::github("o/n");
    let p = SelfUpdatePolicy::default();
    assert!(matches!(effective_source(&e, &opts, &p), Ok(ReleaseSource::Github { .. })));
    e.vars = vec![
        ("DEMO_INSTALLER_BASE_URL".to_string(), "http://mirror".to_string()),
        ("GITHUB_TOKEN".to_string(), "t2".to_string()),
    ];
    assert!(matches!(effective_source(&e, &opts, &p), Err(SelfInstallError::BadRequest(_))));
    let gh = ReleaseSource::Github {
        repo: "o/n".to_string(),
        api_base: None,
    };
    assert_eq!(github_token(&e, &gh).as_deref(), Some("t2"));
    let mirror = ReleaseSource::Http {
        base_url: "https://m".to_string(),
    };
    assert_eq!(github_token(&e, &mirror), None);
}

#[test]
fn the_version_a_binary_reports_is_its_first_version_word() {
    assert_eq!(version_in_output("demo v1.2.3 (abc)").map(|v| v.text().to_string()), Some("1.2.3".to_string()));
    assert_eq!(version_in_output("demo\tvv2.0.0-rc.1\n").map(|v| v.text().to_string()), Some("2.0.0-rc.1".to_string()));
    assert!(version_in_output("demo 1.2 build 7").is_none());
    assert!(version_in_output("").is_none());
}

#[test]
fn rollback_owes_success_when_the_target_meets_the_minimum() {
    let mut p = SelfUpdatePolicy::default();
    p.minimum_version = Some(v("1.0.0"));
    let mut rec = receipt();
    rec.previous_version = Some("1.1.0".to_string());
    assert_eq!(plan_rollback(&rec, &p, "/b/demo.prev", true).unwrap(), "1.1.0");
    rec.previous_version = Some("0.9.0".to_string());
    assert!(matches!(
        plan_rollback(&rec, &p, "/b/demo.prev", true),
        Err(SelfInstallError::PolicyRefused { key: "self_update.minimum_version", .. })
    ));
}
