//! How a copy of the binary got onto the machine.

use crate::text::{
    chars_of, contains, contains_seq, is_prefix_of, owned, push_str, replace_all, replace_vec,
    starts_with, string_of, to_lowercase, unicode_lower,
};
use vstd::prelude::*;

verus! {

#[derive(Debug, Clone, Copy, PartialEq, Eq, Hash, Structural)]
pub enum InstallMethod {
    /// `myapp self install` run by a person.
    SelfInstall,
    /// `self install --from-bootstrap`, run by an installer script.
    Script,
    /// `--unmanaged`: no receipt is written, so this only appears in status.
    Unmanaged,
    Homebrew,
    Scoop,
    Winget,
    Cargo,
    Unknown,
}

pub open spec fn method_name(m: InstallMethod) -> Seq<char> {
    match m {
        InstallMethod::SelfInstall => "self-install"@,
        InstallMethod::Script => "script"@,
        InstallMethod::Unmanaged => "unmanaged"@,
        InstallMethod::Homebrew => "homebrew"@,
        InstallMethod::Scoop => "scoop"@,
        InstallMethod::Winget => "winget"@,
        InstallMethod::Cargo => "cargo"@,
        InstallMethod::Unknown => "unknown"@,
    }
}

pub open spec fn is_package_manager_spec(m: InstallMethod) -> bool {
    m == InstallMethod::Homebrew || m == InstallMethod::Scoop || m == InstallMethod::Winget || m
        == InstallMethod::Cargo
}

impl InstallMethod {
    pub fn as_str(self) -> (r: &'static str)
        ensures
            r@ == method_name(self),
    {
        match self {
            InstallMethod::SelfInstall => "self-install",
            InstallMethod::Script => "script",
            InstallMethod::Unmanaged => "unmanaged",
            InstallMethod::Homebrew => "homebrew",
            InstallMethod::Scoop => "scoop",
            InstallMethod::Winget => "winget",
            InstallMethod::Cargo => "cargo",
            InstallMethod::Unknown => "unknown",
        }
    }

    /// The kebab-case name, back to the method.
    pub fn parse(s: &str) -> (r: Option<InstallMethod>)
        ensures
            match r {
                Some(m) => method_name(m) == s@,
                None => forall|m: InstallMethod| method_name(m) != s@,
            },
    {
        let all = [
            InstallMethod::SelfInstall,
            InstallMethod::Script,
            InstallMethod::Unmanaged,
            InstallMethod::Homebrew,
            InstallMethod::Scoop,
            InstallMethod::Winget,
            InstallMethod::Cargo,
            InstallMethod::Unknown,
        ];
        let mut i: usize = 0;
        while i < 8
            invariant
                i <= 8,
                all@ == seq![
                    InstallMethod::SelfInstall,
                    InstallMethod::Script,
                    InstallMethod::Unmanaged,
                    InstallMethod::Homebrew,
                    InstallMethod::Scoop,
                    InstallMethod::Winget,
                    InstallMethod::Cargo,
                    InstallMethod::Unknown,
                ],
                forall|j: int| 0 <= j < i ==> method_name(#[trigger] all@[j]) != s@,
            decreases 8 - i,
        {
            if crate::text::str_eq(all[i].as_str(), s) {
                return Some(all[i]);
            }
            i = i + 1;
        }
        assert forall|m: InstallMethod| method_name(m) != s@ by {
            match m {
                InstallMethod::SelfInstall => assert(all@[0] == m),
                InstallMethod::Script => assert(all@[1] == m),
                InstallMethod::Unmanaged => assert(all@[2] == m),
                InstallMethod::Homebrew => assert(all@[3] == m),
                InstallMethod::Scoop => assert(all@[4] == m),
                InstallMethod::Winget => assert(all@[5] == m),
                InstallMethod::Cargo => assert(all@[6] == m),
                InstallMethod::Unknown => assert(all@[7] == m),
            }
        }
        None
    }

    pub fn is_package_manager(self) -> (r: bool)
        ensures
            r == is_package_manager_spec(self),
    {
        match self {
            InstallMethod::Homebrew | InstallMethod::Scoop | InstallMethod::Winget
            | InstallMethod::Cargo => true,
            _ => false,
        }
    }
}

/// The package manager a path's layout shows: the path with `\` as `/`,
/// lower-cased, matched against each manager's directory shape.
pub open spec fn classify_spec(raw: Seq<char>) -> Option<InstallMethod> {
    let p = unicode_lower(replace_all(raw, seq!['\\'], seq!['/']));
    if contains_seq(p, "/cellar/"@) || is_prefix_of("/opt/homebrew/"@, p) || is_prefix_of(
        "/home/linuxbrew/.linuxbrew/"@,
        p,
    ) {
        Some(InstallMethod::Homebrew)
    } else if contains_seq(p, "/scoop/apps/"@) || contains_seq(p, "/scoop/shims/"@) {
        Some(InstallMethod::Scoop)
    } else if contains_seq(p, "/winget/"@) {
        Some(InstallMethod::Winget)
    } else if contains_seq(p, "/.cargo/bin/"@) {
        Some(InstallMethod::Cargo)
    } else {
        None
    }
}

fn has(p: &Vec<char>, pat: &str) -> (r: bool)
    ensures
        r == contains_seq(p@, pat@),
{
    contains(p.as_slice(), chars_of(pat).as_slice())
}

fn begins(p: &Vec<char>, pat: &str) -> (r: bool)
    ensures
        r == is_prefix_of(pat@, p@),
{
    starts_with(p.as_slice(), chars_of(pat).as_slice())
}

/// Recognise a package manager from one spelling of the executable's path.
pub fn classify(raw: &str) -> (r: Option<InstallMethod>)
    ensures
        r == classify_spec(raw@),
{
    let slash = ['\\'];
    let fwd = ['/'];
    let replaced = replace_vec(chars_of(raw).as_slice(), &slash, &fwd);
    assert(slash@ =~= seq!['\\']);
    assert(fwd@ =~= seq!['/']);
    let lowered = to_lowercase(string_of(replaced.as_slice()).as_str());
    let p = chars_of(lowered.as_str());
    if has(&p, "/cellar/") || begins(&p, "/opt/homebrew/") || begins(
        &p,
        "/home/linuxbrew/.linuxbrew/",
    ) {
        Some(InstallMethod::Homebrew)
    } else if has(&p, "/scoop/apps/") || has(&p, "/scoop/shims/") {
        Some(InstallMethod::Scoop)
    } else if has(&p, "/winget/") {
        Some(InstallMethod::Winget)
    } else if has(&p, "/.cargo/bin/") {
        Some(InstallMethod::Cargo)
    } else {
        None
    }
}

/// The method recognised from the path as given, else from its canonical
/// form (Homebrew's `/opt/homebrew/bin/myapp` is a symlink into the Cellar).
pub fn infer_method_from_path(path: &str, canonical: Option<&str>) -> (r: Option<InstallMethod>)
    ensures
        r == (match classify_spec(path@) {
            Some(m) => Some(m),
            None => match canonical {
                Some(c) => classify_spec(c@),
                None => None,
            },
        }),
{
    match classify(path) {
        Some(m) => Some(m),
        None => match canonical {
            Some(c) => classify(c),
            None => None,
        },
    }
}

/// The command that upgrades or removes a package-manager install.
pub open spec fn upgrade_hint_spec(method: InstallMethod, app: Seq<char>) -> Option<Seq<char>> {
    match method {
        InstallMethod::Homebrew => Some("brew upgrade "@ + app + "  (remove: brew uninstall "@ + app
            + ")"@),
        InstallMethod::Scoop => Some("scoop update "@ + app + "  (remove: scoop uninstall "@ + app
            + ")"@),
        InstallMethod::Winget => Some("winget upgrade "@ + app + "  (remove: winget uninstall "@
            + app + ")"@),
        InstallMethod::Cargo => Some("cargo install "@ + app + " --force  (remove: cargo uninstall "@
            + app + ")"@),
        _ => None,
    }
}

fn hint(a: &str, app: &str, b: &str) -> (r: String)
    ensures
        r@ == a@ + app@ + b@ + app@ + ")"@,
{
    let mut s = owned(a);
    push_str(&mut s, app);
    push_str(&mut s, b);
    push_str(&mut s, app);
    push_str(&mut s, ")");
    s
}

/// The command that upgrades or removes a package-manager install.
pub fn upgrade_hint(method: InstallMethod, app: &str) -> (r: Option<String>)
    ensures
        match r {
            Some(s) => upgrade_hint_spec(method, app@) == Some(s@),
            None => upgrade_hint_spec(method, app@) is None,
        },
{
    match method {
        InstallMethod::Homebrew => Some(hint("brew upgrade ", app, "  (remove: brew uninstall ")),
        InstallMethod::Scoop => Some(hint("scoop update ", app, "  (remove: scoop uninstall ")),
        InstallMethod::Winget => Some(hint("winget upgrade ", app, "  (remove: winget uninstall ")),
        InstallMethod::Cargo => Some(
            hint("cargo install ", app, " --force  (remove: cargo uninstall "),
        ),
        _ => None,
    }
}

/// Every method's name parses back to that method.
pub proof fn law_method_name_roundtrip(a: InstallMethod, b: InstallMethod)
    ensures
        method_name(a) == method_name(b) ==> a == b,
{
    reveal_strlit("self-install");
    reveal_strlit("script");
    reveal_strlit("unmanaged");
    reveal_strlit("homebrew");
    reveal_strlit("scoop");
    reveal_strlit("winget");
    reveal_strlit("cargo");
    reveal_strlit("unknown");
    if method_name(a) == method_name(b) && a != b {
        assert(method_name(a).len() == method_name(b).len());
        assert(method_name(a)[0] == method_name(b)[0]);
        assert(method_name(a)[1] == method_name(b)[1]);
    }
}

/// The command alone that upgrades a package-manager install: the hint
/// without its removal note.
pub open spec fn upgrade_command_spec(method: InstallMethod, app: Seq<char>) -> Option<Seq<char>> {
    match method {
        InstallMethod::Homebrew => Some("brew upgrade "@ + app),
        InstallMethod::Scoop => Some("scoop update "@ + app),
        InstallMethod::Winget => Some("winget upgrade "@ + app),
        InstallMethod::Cargo => Some("cargo install "@ + app + " --force"@),
        _ => None,
    }
}

pub fn upgrade_command(method: InstallMethod, app: &str) -> (r: Option<String>)
    ensures
        match r {
            Some(c) => upgrade_command_spec(method, app@) == Some(c@),
            None => upgrade_command_spec(method, app@) is None,
        },
{
    let (a, b) = match method {
        InstallMethod::Homebrew => ("brew upgrade ", ""),
        InstallMethod::Scoop => ("scoop update ", ""),
        InstallMethod::Winget => ("winget upgrade ", ""),
        InstallMethod::Cargo => ("cargo install ", " --force"),
        _ => {
            return None;
        },
    };
    let mut s = owned(a);
    push_str(&mut s, app);
    push_str(&mut s, b);
    proof {
        reveal_strlit("");
    }
    Some(s)
}

/// Every package manager's upgrade command is the start of its hint: the
/// hint only adds how to remove the install.
pub proof fn law_upgrade_command_starts_the_hint(method: InstallMethod, app: Seq<char>)
    ensures
        upgrade_command_spec(method, app) is Some <==> upgrade_hint_spec(method, app) is Some,
        upgrade_command_spec(method, app) matches Some(c) ==> (upgrade_hint_spec(method, app) matches Some(h)
            && h.subrange(0, c.len() as int) == c),
{
    match method {
        InstallMethod::Homebrew => {
            let c = "brew upgrade "@ + app;
            let h = "brew upgrade "@ + app + "  (remove: brew uninstall "@ + app + ")"@;
            assert(h.subrange(0, c.len() as int) =~= c);
        },
        InstallMethod::Scoop => {
            let c = "scoop update "@ + app;
            let h = "scoop update "@ + app + "  (remove: scoop uninstall "@ + app + ")"@;
            assert(h.subrange(0, c.len() as int) =~= c);
        },
        InstallMethod::Winget => {
            let c = "winget upgrade "@ + app;
            let h = "winget upgrade "@ + app + "  (remove: winget uninstall "@ + app + ")"@;
            assert(h.subrange(0, c.len() as int) =~= c);
        },
        InstallMethod::Cargo => {
            reveal_strlit(" --force");
            reveal_strlit(" --force  (remove: cargo uninstall ");
            let c = "cargo install "@ + app + " --force"@;
            let h = "cargo install "@ + app + " --force  (remove: cargo uninstall "@ + app + ")"@;
            assert(h.subrange(0, c.len() as int) =~= c);
        },
        _ => {},
    }
}

} // verus!
