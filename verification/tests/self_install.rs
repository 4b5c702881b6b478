use cli_framework::self_install::archive::{expected_digest, is_safe_entry, names_binary, sha256_hex};
use cli_framework::self_install::method::{classify, upgrade_hint, InstallMethod};
use cli_framework::self_install::notice::UpdateNotice;
use cli_framework::self_install::options::SelfInstallOptions;
use cli_framework::self_install::receipt::rfc3339_from_unix;
use cli_framework::self_install::update::prev_path;
use std::sync::Arc;

#[test]
fn recognises_package_manager_layouts() {
    let cases = [
        (
            "/opt/homebrew/Cellar/myapp/1.0/bin/myapp",
            InstallMethod::Homebrew,
        ),
        (
            "/usr/local/Cellar/myapp/1.0/bin/myapp",
            InstallMethod::Homebrew,
        ),
        (
            "/home/linuxbrew/.linuxbrew/bin/myapp",
            InstallMethod::Homebrew,
        ),
        (
            r"C:\Users\a\scoop\apps\myapp\current\myapp.exe",
            InstallMethod::Scoop,
        ),
        (
            r"C:\Users\a\AppData\Local\Microsoft\WinGet\Packages\x\myapp.exe",
            InstallMethod::Winget,
        ),
        ("/home/a/.cargo/bin/myapp", InstallMethod::Cargo),
    ];
    for (path, expected) in cases {
        assert_eq!(classify(path), Some(expected), "{path}");
    }
    assert_eq!(classify("/home/a/.local/bin/myapp"), None);
}

fn notice() -> UpdateNotice {
    UpdateNotice::new(
        "demo",
        "1.0.0",
        Arc::new(SelfInstallOptions::github("o/demo")),
        &["cli".to_string()],
    )
}

fn argv(words: &[&str]) -> Vec<String> {
    std::iter::once("demo")
        .chain(words.iter().copied())
        .map(str::to_string)
        .collect()
}

#[test]
fn exempt_commands_are_recognised() {
    let n = notice();
    assert!(n.exempt(&argv(&["cli", "self", "update"])));
    assert!(n.exempt(&argv(&["--verbose", "cli", "completion", "bash"])));
    assert!(n.exempt(&argv(&["mcp", "serve"])));
    assert!(!n.exempt(&argv(&["run", "self"])));
    assert!(!n.exempt(&argv(&["cli"])));
}

#[test]
fn formats_known_instants() {
    assert_eq!(rfc3339_from_unix(0), "1970-01-01T00:00:00Z");
    assert_eq!(rfc3339_from_unix(951_782_400), "2000-02-29T00:00:00Z");
    assert_eq!(rfc3339_from_unix(1_789_561_845), "2026-09-16T12:30:45Z");
}

#[test]
fn formats_instants_before_the_epoch() {
    assert_eq!(rfc3339_from_unix(-1), "1969-12-31T23:59:59Z");
    assert_eq!(rfc3339_from_unix(-86_400), "1969-12-31T00:00:00Z");
}

#[test]
fn prev_path_appends_a_suffix() {
    assert_eq!(prev_path("/b/myapp.exe"), "/b/myapp.exe.prev");
}

#[test]
fn self_invocation_names_the_self_group() {
    assert_eq!(notice().self_invocation(), "demo cli self");
}

#[test]
fn upgrade_hints_name_the_package_manager() {
    assert_eq!(
        upgrade_hint(InstallMethod::Homebrew, "myapp").as_deref(),
        Some("brew upgrade myapp  (remove: brew uninstall myapp)")
    );
    assert_eq!(upgrade_hint(InstallMethod::SelfInstall, "myapp"), None);
    assert!(InstallMethod::Cargo.is_package_manager());
    assert!(!InstallMethod::Script.is_package_manager());
    assert_eq!(InstallMethod::parse("self-install"), Some(InstallMethod::SelfInstall));
}

#[test]
fn digests_are_found_in_both_sum_forms() {
    let hash = "A".repeat(64);
    let sums = format!("{hash}  myapp.tar.gz\n{} *other.zip\n", "b".repeat(64));
    assert_eq!(expected_digest(&sums, "myapp.tar.gz"), Some("a".repeat(64)));
    assert_eq!(expected_digest(&sums, "other.zip"), Some("b".repeat(64)));
    assert_eq!(expected_digest(&sums, "missing"), None);
    assert_eq!(expected_digest("short  myapp", "myapp"), None);
}

#[test]
fn entry_names_are_checked() {
    assert!(is_safe_entry("myapp"));
    assert!(is_safe_entry("./dir/myapp"));
    assert!(!is_safe_entry("../myapp"));
    assert!(!is_safe_entry("/etc/passwd"));
    assert!(!is_safe_entry("C:evil"));
    assert!(!is_safe_entry(r"dir\..\x"));
    assert!(!is_safe_entry(""));
    assert!(names_binary("myapp", "myapp"));
    assert!(names_binary("./dist/myapp", "myapp"));
    assert!(!names_binary("a/b/myapp", "myapp"));
}

#[test]
fn sha256_of_known_input() {
    assert_eq!(
        sha256_hex(b"abc"),
        "ba7816bf8f01cfea414140de5dae2223b00361a396177a9cb410ff61f20015ad"
    );
}

#[test]
fn options_validate_and_name_assets() {
    let o = SelfInstallOptions::github("owner/name");
    assert_eq!(o.validate(), Ok(()));
    assert_eq!(o.asset_name("myapp", "v1.2.3", "x86_64-unknown-linux-gnu"), "myapp-x86_64-unknown-linux-gnu.tar.gz");
    assert_eq!(o.asset_name("myapp", "1.2.3", "x86_64-pc-windows-msvc"), "myapp-x86_64-pc-windows-msvc.zip");
    let bad = SelfInstallOptions::github("nope");
    assert!(bad.validate().unwrap_err().contains("must be \"owner/name\""));
    let http = SelfInstallOptions::http("http://example.com");
    assert!(http.validate().unwrap_err().contains("must use https://"));
    assert_eq!(SelfInstallOptions::http("http://localhost:8080/x").validate(), Ok(()));
    let no_target = SelfInstallOptions::github("o/n").asset_template("{app}.tar.gz");
    assert!(no_target.validate().unwrap_err().contains("must contain {target}"));
    assert_eq!(o.publisher_name("app"), "owner");
}
