//! The decisions behind `self install`, `self uninstall` and `self status`:
//! whether PATH is edited, where a system install goes, which directories
//! `--purge` may remove, what the receipt keeps across reinstalls, and the
//! errors they report. The filesystem work is the caller's.

use crate::self_install::archive::ArchiveError;
use crate::self_install::env::{env_var, InstallEnv, Os};
use crate::self_install::method::InstallMethod;
use crate::self_install::receipt::{InstallReceipt, PathModification, ReceiptError};
use crate::self_install::shell_path::{components, components_exec};
use crate::text::{
    chars_of, debug_quoted, debug_repr, first_index_of, find_char, has_char, has_char_exec,
    join_path, owned, path_join, push_str, seq_eq, slice_range, string_of,
};
use vstd::prelude::*;

verus! {

/// Flags of `self install`.
#[derive(Debug, Clone, PartialEq, Eq)]
pub struct InstallRequest {
    pub bin_dir: Option<String>,
    pub no_modify_path: bool,
    pub unmanaged: bool,
    pub force: bool,
    pub from_bootstrap: bool,
    /// Install into the machine-wide bin dir; PATH, completions and Apps &
    /// Features are left alone.
    pub system: bool,
    /// Install from a local release archive instead of the running binary.
    pub from: Option<String>,
}

impl Default for InstallRequest {
    fn default() -> (r: Self)
        ensures
            r.bin_dir is None,
            !r.no_modify_path,
            !r.unmanaged,
            !r.force,
            !r.from_bootstrap,
            !r.system,
            r.from is None,
    {
        InstallRequest {
            bin_dir: None,
            no_modify_path: false,
            unmanaged: false,
            force: false,
            from_bootstrap: false,
            system: false,
            from: None,
        }
    }
}

/// Why a self-install operation refused or failed. Paths are held as text,
/// and the reasons of failed system calls as their messages.
#[derive(Debug)]
pub enum SelfInstallError {
    RunningAsRoot { allow_var: String },
    NoBinDir,
    NoStateDir,
    ForeignBinary { path: String, invocation: String },
    Receipt(ReceiptError),
    Place { path: String, message: String },
    ManagedByPackageManager { app: String, method: &'static str, hint: String },
    NoReceipt { app: String, path: String, invocation: String, binary: String },
    UnsafePurge { path: String, reason: &'static str },
    Io { action: &'static str, path: String, message: String },
    NeedsElevation { dir: String, command: String },
    NotManaged { app: String, path: String, invocation: String },
    ReceiptMismatch { recorded: String, running: String },
    PolicyRefused { key: &'static str, reason: String },
    Release(String),
    Verify(ArchiveError),
    BadRelease(String),
    Downgrade { current: String, target: String, invocation: String },
    NothingToRollBack { path: String },
    BadRequest(String),
    Locked { path: String },
}

impl SelfInstallError {
    /// The error's text.
    pub fn message(&self) -> (out: String)
        ensures
            match self {
                SelfInstallError::RunningAsRoot { allow_var } => out@
                    == "refusing to install as root: the binary and PATH changes would land in root's home. Run as your own user, or set "@
                    + allow_var@ + "=1 if root's home is really the target"@,
                SelfInstallError::NoBinDir => out@
                    == "cannot determine a bin dir (no home directory); pass --bin-dir"@,
                SelfInstallError::NoStateDir => out@
                    == "cannot determine where the install receipt lives (no local data directory)"@,
                SelfInstallError::ForeignBinary { path, invocation } => out@ == path@
                    + " already exists and was not installed by `"@ + invocation@
                    + " install`; pass --force to replace it"@,
                SelfInstallError::ManagedByPackageManager { app, method, hint } => out@ == app@
                    + " was installed by "@ + method@ + "; use: "@ + hint@,
                SelfInstallError::NoReceipt { app, path, invocation, binary } => out@
                    == "no install receipt at "@ + path@ + "; "@ + app@
                    + " was not installed with `"@ + invocation@
                    + " install`, so there is nothing recorded to remove. Delete the binary yourself: "@
                    + binary@,
                SelfInstallError::UnsafePurge { path, reason } => out@ == "refusing to purge "@
                    + path@ + ": "@ + reason@,
                SelfInstallError::NeedsElevation { dir, command } => out@ == dir@
                    + " is not writable by this user; run: "@ + command@,
                SelfInstallError::NotManaged { app, path, invocation } => out@
                    == "no install receipt at "@ + path@ + "; "@ + app@
                    + " was not installed with `"@ + invocation@
                    + " install`, so it cannot update itself. Update it the way it was installed"@,
                SelfInstallError::ReceiptMismatch { recorded, running } => out@
                    == "the install receipt records "@ + recorded@ + ", but this is "@ + running@
                    + "; run the installed binary instead"@,
                SelfInstallError::PolicyRefused { key, reason } => out@
                    == "refused by your organisation's policy ("@ + key@ + "): "@ + reason@,
                SelfInstallError::BadRelease(m) => out@ == "the release is unusable: "@ + m@,
                SelfInstallError::Downgrade { current, target, invocation } => out@ == target@
                    + " is older than the running "@ + current@
                    + "; name the version to downgrade: `"@ + invocation@ + " update "@ + target@
                    + "`"@,
                SelfInstallError::NothingToRollBack { path } => out@
                    == "nothing to roll back to: "@ + path@ + " does not exist"@,
                SelfInstallError::BadRequest(m) => out@ == m@,
                SelfInstallError::Locked { path } => out@ == "another update is running (lock "@
                    + path@ + "); if none is, delete the lock file"@,
                SelfInstallError::Place { path, message } => out@ == "cannot place the binary at "@
                    + path@ + ": "@ + message@,
                SelfInstallError::Io { action, path, message } => out@ == action@ + " "@ + path@
                    + ": "@ + message@,
                SelfInstallError::Release(m) => out@ == m@,
                SelfInstallError::Receipt(_) | SelfInstallError::Verify(_) => true,
            },
    {
        let mut s = String::new();
        match self {
            SelfInstallError::RunningAsRoot { allow_var } => {
                push_str(
                    &mut s,
                    "refusing to install as root: the binary and PATH changes would land in root's home. Run as your own user, or set ",
                );
                push_str(&mut s, allow_var.as_str());
                push_str(&mut s, "=1 if root's home is really the target");
            },
            SelfInstallError::NoBinDir => {
                push_str(&mut s, "cannot determine a bin dir (no home directory); pass --bin-dir");
            },
            SelfInstallError::NoStateDir => {
                push_str(
                    &mut s,
                    "cannot determine where the install receipt lives (no local data directory)",
                );
            },
            SelfInstallError::ForeignBinary { path, invocation } => {
                push_str(&mut s, path.as_str());
                push_str(&mut s, " already exists and was not installed by `");
                push_str(&mut s, invocation.as_str());
                push_str(&mut s, " install`; pass --force to replace it");
            },
            SelfInstallError::Receipt(e) => {
                s = e.message();
            },
            SelfInstallError::Place { path, message } => {
                push_str(&mut s, "cannot place the binary at ");
                push_str(&mut s, path.as_str());
                push_str(&mut s, ": ");
                push_str(&mut s, message.as_str());
            },
            SelfInstallError::ManagedByPackageManager { app, method, hint } => {
                push_str(&mut s, app.as_str());
                push_str(&mut s, " was installed by ");
                push_str(&mut s, method);
                push_str(&mut s, "; use: ");
                push_str(&mut s, hint.as_str());
            },
            SelfInstallError::NoReceipt { app, path, invocation, binary } => {
                push_str(&mut s, "no install receipt at ");
                push_str(&mut s, path.as_str());
                push_str(&mut s, "; ");
                push_str(&mut s, app.as_str());
                push_str(&mut s, " was not installed with `");
                push_str(&mut s, invocation.as_str());
                push_str(
                    &mut s,
                    " install`, so there is nothing recorded to remove. Delete the binary yourself: ",
                );
                push_str(&mut s, binary.as_str());
            },
            SelfInstallError::UnsafePurge { path, reason } => {
                push_str(&mut s, "refusing to purge ");
                push_str(&mut s, path.as_str());
                push_str(&mut s, ": ");
                push_str(&mut s, reason);
            },
            SelfInstallError::Io { action, path, message } => {
                push_str(&mut s, action);
                push_str(&mut s, " ");
                push_str(&mut s, path.as_str());
                push_str(&mut s, ": ");
                push_str(&mut s, message.as_str());
            },
            SelfInstallError::NeedsElevation { dir, command } => {
                push_str(&mut s, dir.as_str());
                push_str(&mut s, " is not writable by this user; run: ");
                push_str(&mut s, command.as_str());
            },
            SelfInstallError::NotManaged { app, path, invocation } => {
                push_str(&mut s, "no install receipt at ");
                push_str(&mut s, path.as_str());
                push_str(&mut s, "; ");
                push_str(&mut s, app.as_str());
                push_str(&mut s, " was not installed with `");
                push_str(&mut s, invocation.as_str());
                push_str(
                    &mut s,
                    " install`, so it cannot update itself. Update it the way it was installed",
                );
            },
            SelfInstallError::ReceiptMismatch { recorded, running } => {
                push_str(&mut s, "the install receipt records ");
                push_str(&mut s, recorded.as_str());
                push_str(&mut s, ", but this is ");
                push_str(&mut s, running.as_str());
                push_str(&mut s, "; run the installed binary instead");
            },
            SelfInstallError::PolicyRefused { key, reason } => {
                push_str(&mut s, "refused by your organisation's policy (");
                push_str(&mut s, key);
                push_str(&mut s, "): ");
                push_str(&mut s, reason.as_str());
            },
            SelfInstallError::Release(m) => {
                push_str(&mut s, m.as_str());
            },
            SelfInstallError::Verify(e) => {
                s = e.message();
            },
            SelfInstallError::BadRelease(m) => {
                push_str(&mut s, "the release is unusable: ");
                push_str(&mut s, m.as_str());
            },
            SelfInstallError::Downgrade { current, target, invocation } => {
                push_str(&mut s, target.as_str());
                push_str(&mut s, " is older than the running ");
                push_str(&mut s, current.as_str());
                push_str(&mut s, "; name the version to downgrade: `");
                push_str(&mut s, invocation.as_str());
                push_str(&mut s, " update ");
                push_str(&mut s, target.as_str());
                push_str(&mut s, "`");
            },
            SelfInstallError::NothingToRollBack { path } => {
                push_str(&mut s, "nothing to roll back to: ");
                push_str(&mut s, path.as_str());
                push_str(&mut s, " does not exist");
            },
            SelfInstallError::BadRequest(m) => {
                push_str(&mut s, m.as_str());
            },
            SelfInstallError::Locked { path } => {
                push_str(&mut s, "another update is running (lock ");
                push_str(&mut s, path.as_str());
                push_str(&mut s, "); if none is, delete the lock file");
            },
        }
        s
    }
}

/// Whether PATH gets edited, and why not when it does not.
#[derive(Debug, Clone, PartialEq, Eq)]
pub enum PathDecision {
    Edit,
    AlreadyOnPath,
    Skip(String),
}

/// The decision without the reason's text.
pub open spec fn path_decision_spec(
    vars: Seq<(String, String)>,
    stdout_is_terminal: bool,
    req: InstallRequest,
    on_path: bool,
) -> Result<bool, Seq<char>> {
    if req.system {
        if on_path {
            Ok(true)
        } else {
            Err("--system: the system PATH is the administrator's"@)
        }
    } else if req.unmanaged {
        Err("--unmanaged"@)
    } else if req.no_modify_path {
        Err("--no-modify-path"@)
    } else if env_var(vars, "CI"@) is Some {
        Err("CI is set"@)
    } else if !stdout_is_terminal {
        Err("stdout is not a terminal"@)
    } else if on_path {
        Ok(true)
    } else {
        Ok(false)
    }
}

/// Whether some PATH entry is the directory, paths compared as
/// `same_path` compares them. The caller hands both in canonical form (the
/// filesystem's view of them, where they exist), as the entries of
/// `InstallEnv::path_entries`.
pub fn on_path(entries: &Vec<String>, dir: &str, os: Os) -> (r: bool)
    ensures
        r == exists|i: int|
            0 <= i < entries@.len() && crate::self_install::layout::same_path_spec(
                #[trigger] entries@[i]@,
                dir@,
                os,
            ),
{
    let mut i: usize = 0;
    while i < entries.len()
        invariant
            i <= entries@.len(),
            forall|j: int|
                0 <= j < i ==> !crate::self_install::layout::same_path_spec(
                    #[trigger] entries@[j]@,
                    dir@,
                    os,
                ),
        decreases entries.len() - i,
    {
        if crate::self_install::layout::same_path(entries[i].as_str(), dir, os) {
            return true;
        }
        i = i + 1;
    }
    false
}

/// Never edit under `--no-modify-path`, `--unmanaged`, `CI`, or when stdout
/// is not a terminal; a system install leaves the system PATH alone.
/// `on_path` says whether the bin dir already is on PATH, as `on_path`
/// decides it from the PATH entries.
pub fn path_decision(env: &InstallEnv, req: &InstallRequest, on_path: bool) -> (d: PathDecision)
    ensures
        match path_decision_spec(env.vars@, env.stdout_is_terminal, *req, on_path) {
            Ok(true) => d == PathDecision::AlreadyOnPath,
            Ok(false) => d == PathDecision::Edit,
            Err(r) => d matches PathDecision::Skip(s) && s@ == r,
        },
{
    if req.system {
        if on_path {
            return PathDecision::AlreadyOnPath;
        }
        return PathDecision::Skip(owned("--system: the system PATH is the administrator's"));
    }
    if req.unmanaged {
        return PathDecision::Skip(owned("--unmanaged"));
    }
    if req.no_modify_path {
        return PathDecision::Skip(owned("--no-modify-path"));
    }
    if env.var("CI").is_some() {
        return PathDecision::Skip(owned("CI is set"));
    }
    if !env.stdout_is_terminal {
        return PathDecision::Skip(owned("stdout is not a terminal"));
    }
    if on_path {
        return PathDecision::AlreadyOnPath;
    }
    PathDecision::Edit
}

/// The machine-wide bin dir: `/usr/local/bin`, or
/// `%ProgramFiles%\<app>\bin` on Windows.
pub open spec fn system_bin_dir_spec(e: InstallEnv) -> Seq<char> {
    if e.os == Os::Windows {
        let pf = match env_var(e.vars@, "ProgramFiles"@) {
            Some(v) => v,
            None => "C:\\Program Files"@,
        };
        path_join(path_join(pf, e.app@), "bin"@)
    } else {
        "/usr/local/bin"@
    }
}

/// The machine-wide bin dir.
pub fn system_bin_dir(env: &InstallEnv) -> (r: String)
    ensures
        r@ == system_bin_dir_spec(*env),
{
    if env.os.is_windows() {
        let program_files = match env.var("ProgramFiles") {
            Some(v) => v,
            None => "C:\\Program Files",
        };
        let d = join_path(program_files, env.app.as_str());
        join_path(d.as_str(), "bin")
    } else {
        owned("/usr/local/bin")
    }
}

/// The refusals before an install does anything: root without the opt-in,
/// and `--system` together with `--bin-dir` or `--unmanaged`.
pub fn install_preflight(env: &InstallEnv, req: &InstallRequest) -> (r: Result<(), SelfInstallError>)
    ensures
        env.is_root && !req.system && env_var(
            env.vars@,
            crate::telemetry::policy::env_prefix(env.app@) + "_INSTALL_ALLOW_SUDO"@,
        ) is None ==> (r matches Err(SelfInstallError::RunningAsRoot { allow_var }) && allow_var@
            == crate::telemetry::policy::env_prefix(env.app@) + "_INSTALL_ALLOW_SUDO"@),
        !(env.is_root && !req.system && env_var(
            env.vars@,
            crate::telemetry::policy::env_prefix(env.app@) + "_INSTALL_ALLOW_SUDO"@,
        ) is None) ==> (if req.system && (req.bin_dir is Some || req.unmanaged) {
            r matches Err(SelfInstallError::BadRequest(m)) && m@
                == "--system chooses the bin dir and records a receipt; drop --bin-dir and --unmanaged"@
        } else {
            r is Ok
        }),
{
    let mut allow_var = crate::telemetry::policy::env_var_prefix(env.app.as_str());
    push_str(&mut allow_var, "_INSTALL_ALLOW_SUDO");
    if env.is_root && !req.system && env.var(allow_var.as_str()).is_none() {
        return Err(SelfInstallError::RunningAsRoot { allow_var });
    }
    if req.system && (req.bin_dir.is_some() || req.unmanaged) {
        return Err(
            SelfInstallError::BadRequest(
                owned(
                    "--system chooses the bin dir and records a receipt; drop --bin-dir and --unmanaged",
                ),
            ),
        );
    }
    Ok(())
}

/// The group a person types after the binary name: the self invocation
/// without its first word, `self` when it has one word only.
pub open spec fn invocation_group(inv: Seq<char>) -> Seq<char> {
    let i = first_index_of(inv, ' ');
    if i < inv.len() {
        inv.subrange(i + 1, inv.len() as int)
    } else {
        "self"@
    }
}

fn invocation_group_exec(inv: &str) -> (r: String)
    ensures
        r@ == invocation_group(inv@),
{
    let c = chars_of(inv);
    let i = find_char(c.as_slice(), ' ');
    proof {
        crate::text::lemma_first_index_bounds(inv@, ' ');
    }
    if i < c.len() {
        string_of(slice_range(c.as_slice(), i + 1, c.len()).as_slice())
    } else {
        owned("self")
    }
}

/// The elevated command to run for a system install, named rather than
/// performed.
pub open spec fn elevated_command_spec(e: InstallEnv, req: InstallRequest) -> Seq<char> {
    let args = invocation_group(e.self_invocation@) + " install --system"@ + match req.from {
        Some(f) => " --from \""@ + f@ + "\""@,
        None => Seq::empty(),
    };
    if e.os == Os::Windows {
        "Start-Process -Verb RunAs -FilePath \""@ + e.current_exe@ + "\" -ArgumentList '"@ + args
            + "' (in PowerShell)"@
    } else {
        "sudo \""@ + e.current_exe@ + "\" "@ + args
    }
}

/// The elevated command to run for a system install.
pub fn elevated_command(env: &InstallEnv, req: &InstallRequest) -> (r: String)
    ensures
        r@ == elevated_command_spec(*env, *req),
{
    let mut args = invocation_group_exec(env.self_invocation.as_str());
    push_str(&mut args, " install --system");
    if let Some(from) = &req.from {
        push_str(&mut args, " --from \"");
        push_str(&mut args, from.as_str());
        push_str(&mut args, "\"");
    }
    let mut s = String::new();
    if env.os.is_windows() {
        push_str(&mut s, "Start-Process -Verb RunAs -FilePath \"");
        push_str(&mut s, env.current_exe.as_str());
        push_str(&mut s, "\" -ArgumentList '");
        push_str(&mut s, args.as_str());
        push_str(&mut s, "' (in PowerShell)");
    } else {
        push_str(&mut s, "sudo \"");
        push_str(&mut s, env.current_exe.as_str());
        push_str(&mut s, "\" ");
        push_str(&mut s, args.as_str());
    }
    s
}

/// The entries of `previous` followed by those of `new` it lacks, in order:
/// a reinstall keeps what earlier installs recorded.
pub open spec fn merge_unique<T>(previous: Seq<T>, new: Seq<T>) -> Seq<T>
    decreases new.len(),
{
    if new.len() == 0 {
        previous
    } else {
        let m = merge_unique(previous, new.drop_last());
        if m.contains(new.last()) {
            m
        } else {
            m.push(new.last())
        }
    }
}

/// A path change by kind and text.
pub open spec fn mod_key(m: PathModification) -> (int, Seq<char>, Seq<char>) {
    match m {
        PathModification::EnvFile { file } => (0, file@, Seq::empty()),
        PathModification::RcLine { file, line } => (1, file@, line@),
        PathModification::FishConf { file } => (2, file@, Seq::empty()),
        PathModification::WindowsUserPath { key, entry } => (3, key@, entry@),
    }
}

pub open spec fn mod_keys(v: Seq<PathModification>) -> Seq<(int, Seq<char>, Seq<char>)> {
    v.map_values(|m: PathModification| mod_key(m))
}

/// The path changes a receipt keeps across a reinstall.
pub fn merge_modifications(previous: &Vec<PathModification>, new: &Vec<PathModification>) -> (out:
    Vec<PathModification>)
    ensures
        mod_keys(out@) == merge_unique(mod_keys(previous@), mod_keys(new@)),
{
    let mut out: Vec<PathModification> = Vec::new();
    let mut i: usize = 0;
    while i < previous.len()
        invariant
            i <= previous@.len(),
            mod_keys(out@) == mod_keys(previous@).take(i as int),
        decreases previous.len() - i,
    {
        let ghost before = mod_keys(out@);
        out.push(clone_modification(&previous[i]));
        assert(mod_keys(out@) =~= before.push(mod_key(previous@[i as int])));
        assert(mod_keys(out@) =~= mod_keys(previous@).take(i + 1));
        i = i + 1;
    }
    assert(mod_keys(previous@).take(previous@.len() as int) =~= mod_keys(previous@));
    let ghost nk = mod_keys(new@);
    let mut j: usize = 0;
    while j < new.len()
        invariant
            j <= new@.len(),
            nk == mod_keys(new@),
            mod_keys(out@) == merge_unique(mod_keys(previous@), nk.take(j as int)),
        decreases new.len() - j,
    {
        proof {
            assert(nk.take(j + 1).drop_last() =~= nk.take(j as int));
            assert(nk.take(j + 1).last() == mod_key(new@[j as int]));
        }
        let mut k: usize = 0;
        let mut found = false;
        while k < out.len()
            invariant
                k <= out@.len(),
                j < new@.len(),
                found == exists|m: int| 0 <= m < k && mod_key(out@[m]) == mod_key(new@[j as int]),
            decreases out.len() - k,
        {
            if modification_eq(&out[k], &new[j]) {
                found = true;
            }
            k = k + 1;
        }
        proof {
            let ok = mod_keys(out@);
            if found {
                let m = choose|m: int| 0 <= m < out@.len() && mod_key(out@[m]) == mod_key(new@[j as int]);
                assert(ok[m] == mod_key(new@[j as int]));
            } else {
                assert forall|m: int| 0 <= m < ok.len() implies ok[m] != mod_key(new@[j as int]) by {
                    assert(ok[m] == mod_key(out@[m]));
                }
            }
        }
        if !found {
            let ghost before = mod_keys(out@);
            out.push(clone_modification(&new[j]));
            assert(mod_keys(out@) =~= before.push(mod_key(new@[j as int])));
        }
        j = j + 1;
    }
    assert(nk.take(nk.len() as int) =~= nk);
    out
}

pub(crate) fn clone_modification(m: &PathModification) -> (r: PathModification)
    ensures
        r == *m,
{
    match m {
        PathModification::EnvFile { file } => PathModification::EnvFile { file: file.clone() },
        PathModification::RcLine { file, line } => PathModification::RcLine {
            file: file.clone(),
            line: line.clone(),
        },
        PathModification::FishConf { file } => PathModification::FishConf { file: file.clone() },
        PathModification::WindowsUserPath { key, entry } => PathModification::WindowsUserPath {
            key: key.clone(),
            entry: entry.clone(),
        },
    }
}

fn modification_eq(a: &PathModification, b: &PathModification) -> (r: bool)
    ensures
        r == (mod_key(*a) == mod_key(*b)),
{
    match (a, b) {
        (PathModification::EnvFile { file: f1 }, PathModification::EnvFile { file: f2 }) => *f1
            == *f2,
        (
            PathModification::RcLine { file: f1, line: l1 },
            PathModification::RcLine { file: f2, line: l2 },
        ) => *f1 == *f2 && *l1 == *l2,
        (PathModification::FishConf { file: f1 }, PathModification::FishConf { file: f2 }) => *f1
            == *f2,
        (
            PathModification::WindowsUserPath { key: k1, entry: e1 },
            PathModification::WindowsUserPath { key: k2, entry: e2 },
        ) => *k1 == *k2 && *e1 == *e2,
        _ => false,
    }
}

/// The completion files a receipt keeps across a reinstall.
pub fn merge_paths(previous: &Vec<String>, new: &Vec<String>) -> (out: Vec<String>)
    ensures
        crate::text::strings(out@) == merge_unique(
            crate::text::strings(previous@),
            crate::text::strings(new@),
        ),
{
    let mut out: Vec<String> = Vec::new();
    let mut i: usize = 0;
    let ghost ps = crate::text::strings(previous@);
    while i < previous.len()
        invariant
            i <= previous@.len(),
            ps == crate::text::strings(previous@),
            crate::text::strings(out@) == ps.take(i as int),
        decreases previous.len() - i,
    {
        let ghost before = crate::text::strings(out@);
        out.push(previous[i].clone());
        assert(crate::text::strings(out@) =~= before.push(previous@[i as int]@));
        assert(crate::text::strings(out@) =~= ps.take(i + 1));
        i = i + 1;
    }
    assert(ps.take(ps.len() as int) =~= ps);
    let ghost ns = crate::text::strings(new@);
    let mut j: usize = 0;
    while j < new.len()
        invariant
            j <= new@.len(),
            ns == crate::text::strings(new@),
            crate::text::strings(out@) == merge_unique(ps, ns.take(j as int)),
        decreases new.len() - j,
    {
        proof {
            assert(ns.take(j + 1).drop_last() =~= ns.take(j as int));
            assert(ns.take(j + 1).last() == new@[j as int]@);
        }
        let mut k: usize = 0;
        let mut found = false;
        while k < out.len()
            invariant
                k <= out@.len(),
                j < new@.len(),
                found == exists|m: int| 0 <= m < k && out@[m]@ == new@[j as int]@,
            decreases out.len() - k,
        {
            if out[k] == new[j] {
                found = true;
            }
            k = k + 1;
        }
        proof {
            let os = crate::text::strings(out@);
            if found {
                let m = choose|m: int| 0 <= m < out@.len() && out@[m]@ == new@[j as int]@;
                assert(os[m] == new@[j as int]@);
            } else {
                assert forall|m: int| 0 <= m < os.len() implies os[m] != new@[j as int]@ by {
                    assert(os[m] == out@[m]@);
                }
            }
        }
        if !found {
            let ghost before = crate::text::strings(out@);
            out.push(new[j].clone());
            assert(crate::text::strings(out@) =~= before.push(new@[j as int]@));
        }
        j = j + 1;
    }
    assert(ns.take(ns.len() as int) =~= ns);
    out
}

/// Why `--purge` refuses a directory, if it does: the app name must be a
/// plain name, the directory must not be at or directly under a
/// filesystem root, must not be or contain the home directory, and must be
/// named after the application.
pub open spec fn purge_refusal(app: Seq<char>, dir: Seq<char>, home: Option<Seq<char>>) -> Option<
    Seq<char>,
> {
    let c = components(dir);
    if app.len() == 0 || has_char(app, '/') || has_char(app, '\\') || app == "."@ || app == ".."@ {
        Some("the application name is not a plain name"@)
    } else if c.len() < 2 {
        Some("it is at or directly under a filesystem root"@)
    } else if home matches Some(h) && (components(h).len() >= c.len() && components(h).take(
        c.len() as int,
    ) == c) {
        Some("it is the home directory or contains it"@)
    } else if c.last() != app {
        Some("it is not named after the application"@)
    } else {
        None
    }
}

fn purge_refusal_exec(app: &str, dir: &str, home: Option<&str>) -> (r: Option<&'static str>)
    ensures
        match r {
            Some(m) => purge_refusal(
                app@,
                dir@,
                match home {
                    Some(h) => Some(h@),
                    None => None,
                },
            ) == Some(m@),
            None => purge_refusal(
                app@,
                dir@,
                match home {
                    Some(h) => Some(h@),
                    None => None,
                },
            ) is None,
        },
{
    let a = chars_of(app);
    if a.len() == 0 || has_char_exec(a.as_slice(), '/') || has_char_exec(a.as_slice(), '\\')
        || crate::text::str_eq(app, ".") || crate::text::str_eq(app, "..") {
        return Some("the application name is not a plain name");
    }
    let c = components_exec(&chars_of(dir));
    if c.len() < 2 {
        return Some("it is at or directly under a filesystem root");
    }
    if let Some(h) = home {
        let hc = components_exec(&chars_of(h));
        if hc.len() >= c.len() {
            let mut k: usize = 0;
            let mut same = true;
            while k < c.len()
                invariant
                    k <= c@.len(),
                    c@.len() <= hc@.len(),
                    same == forall|j: int| 0 <= j < k ==> hc@[j]@ == c@[j]@,
                decreases c.len() - k,
            {
                if !seq_eq(hc[k].as_slice(), c[k].as_slice()) {
                    same = false;
                }
                k = k + 1;
            }
            proof {
                let hh = crate::text::seqs(hc@);
                let cc = crate::text::seqs(c@);
                if same {
                    assert(hh.take(cc.len() as int) =~= cc) by {
                        assert forall|j: int| 0 <= j < cc.len() implies hh.take(cc.len() as int)[j]
                            == cc[j] by {
                            assert(hh[j] == hc@[j]@ && cc[j] == c@[j]@);
                        }
                    }
                } else {
                    let j = choose|j: int| 0 <= j < c@.len() && hc@[j]@ != c@[j]@;
                    assert(hh.take(cc.len() as int)[j] != cc[j]);
                }
            }
            if same {
                return Some("it is the home directory or contains it");
            }
        }
    }
    let last = &c[c.len() - 1];
    assert(crate::text::seqs(c@).last() == last@);
    if !seq_eq(last.as_slice(), a.as_slice()) {
        return Some("it is not named after the application");
    }
    None
}

/// Refuse to purge a directory the guards do not admit.
pub fn guard_purge(app: &str, dir: &str, home: Option<&str>) -> (r: Result<(), SelfInstallError>)
    ensures
        match purge_refusal(
            app@,
            dir@,
            match home {
                Some(h) => Some(h@),
                None => None,
            },
        ) {
            Some(reason) => r matches Err(SelfInstallError::UnsafePurge { path, reason: m }) && path@
                == dir@ && m@ == reason,
            None => r is Ok,
        },
{
    match purge_refusal_exec(app, dir, home) {
        Some(reason) => Err(SelfInstallError::UnsafePurge { path: owned(dir), reason }),
        None => Ok(()),
    }
}

/// The candidate directories `--purge` removes: `<root>/<app>` under the
/// config, state and data roots that exist, each once, in that order.
pub open spec fn purge_candidates(e: InstallEnv) -> Seq<Seq<char>> {
    merge_unique(Seq::empty(), purge_root_seq(e).map_values(|r: Seq<char>| path_join(r, e.app@)))
}

/// The config, state and data roots that exist, in that order.
pub open spec fn purge_root_seq(e: InstallEnv) -> Seq<Seq<char>> {
    (match e.config_root {
        Some(r) => seq![r@],
        None => Seq::empty(),
    }) + (match e.state_root {
        Some(r) => seq![r@],
        None => Seq::empty(),
    }) + (match e.data_root {
        Some(r) => seq![r@],
        None => Seq::empty(),
    })
}

pub open spec fn home_view(home: Option<String>) -> Option<Seq<char>> {
    match home {
        Some(h) => Some(h@),
        None => None,
    }
}

/// The index of the first directory the guards refuse; the length when
/// they admit all.
pub open spec fn first_refused(dirs: Seq<Seq<char>>, app: Seq<char>, home: Option<Seq<char>>) -> int
    decreases dirs.len(),
{
    if dirs.len() == 0 {
        0
    } else if purge_refusal(app, dirs[0], home) is Some {
        0
    } else {
        1 + first_refused(dirs.drop_first(), app, home)
    }
}

proof fn lemma_first_refused(dirs: Seq<Seq<char>>, app: Seq<char>, home: Option<Seq<char>>)
    ensures
        0 <= first_refused(dirs, app, home) <= dirs.len(),
        first_refused(dirs, app, home) < dirs.len() ==> purge_refusal(
            app,
            dirs[first_refused(dirs, app, home)],
            home,
        ) is Some,
        forall|j: int|
            0 <= j < first_refused(dirs, app, home) ==> purge_refusal(app, #[trigger] dirs[j], home)
                is None,
    decreases dirs.len(),
{
    if dirs.len() > 0 && purge_refusal(app, dirs[0], home) is None {
        lemma_first_refused(dirs.drop_first(), app, home);
        assert forall|j: int| 0 <= j < first_refused(dirs, app, home) implies purge_refusal(
            app,
            #[trigger] dirs[j],
            home,
        ) is None by {
            if j > 0 {
                assert(dirs[j] == dirs.drop_first()[j - 1]);
            }
        }
    }
}

/// The directories `--purge` removes, after the guards: refused on the
/// first candidate the guards refuse (named, with the reason), else every
/// candidate. Two roots that give the same directory give it once; the
/// caller passes roots in canonical form.
pub fn purge_roots(env: &InstallEnv) -> (r: Result<Vec<String>, SelfInstallError>)
    ensures
        ({
            let cands = purge_candidates(*env);
            let home = home_view(env.home);
            let k = first_refused(cands, env.app@, home);
            if k < cands.len() {
                r matches Err(SelfInstallError::UnsafePurge { path, reason }) && path@ == cands[k]
                    && purge_refusal(env.app@, cands[k], home) == Some(reason@)
            } else {
                r matches Ok(dirs) && crate::text::strings(dirs@) == cands
            }
        }),
        r matches Ok(dirs) ==> forall|i: int|
            0 <= i < dirs@.len() ==> purge_refusal(env.app@, #[trigger] dirs@[i]@, home_view(env.home))
                is None,
{
    let mut roots: Vec<String> = Vec::new();
    if let Some(r) = &env.config_root {
        roots.push(join_path(r.as_str(), env.app.as_str()));
    }
    if let Some(r) = &env.state_root {
        roots.push(join_path(r.as_str(), env.app.as_str()));
    }
    if let Some(r) = &env.data_root {
        roots.push(join_path(r.as_str(), env.app.as_str()));
    }
    let ghost rs = purge_root_seq(*env);
    assert(crate::text::strings(roots@) =~= rs.map_values(|r: Seq<char>| path_join(r, env.app@)));
    let empty: Vec<String> = Vec::new();
    let dirs = merge_paths(&empty, &roots);
    assert(crate::text::strings(empty@) =~= Seq::<Seq<char>>::empty());
    let ghost cands = purge_candidates(*env);
    let ghost home_v = home_view(env.home);
    proof {
        lemma_first_refused(cands, env.app@, home_v);
    }
    let mut i: usize = 0;
    while i < dirs.len()
        invariant
            i <= dirs@.len(),
            crate::text::strings(dirs@) == cands,
            home_v == home_view(env.home),
            cands == purge_candidates(*env),
            0 <= first_refused(cands, env.app@, home_v) <= cands.len(),
            first_refused(cands, env.app@, home_v) < cands.len() ==> purge_refusal(
                env.app@,
                cands[first_refused(cands, env.app@, home_v)],
                home_v,
            ) is Some,
            forall|j: int|
                0 <= j < first_refused(cands, env.app@, home_v) ==> purge_refusal(
                    env.app@,
                    #[trigger] cands[j],
                    home_v,
                ) is None,
            forall|j: int| 0 <= j < i ==> purge_refusal(env.app@, #[trigger] dirs@[j]@, home_v) is None,
        decreases dirs.len() - i,
    {
        let home = match &env.home {
            Some(h) => Some(h.as_str()),
            None => None,
        };
        assert(cands[i as int] == dirs@[i as int]@);
        match guard_purge(env.app.as_str(), dirs[i].as_str(), home) {
            Ok(()) => {},
            Err(e) => {
                assert(first_refused(cands, env.app@, home_v) == i) by {
                    let f = first_refused(cands, env.app@, home_v);
                    if f < i {
                        assert(cands[f] == dirs@[f]@);
                    }
                }
                return Err(e);
            },
        }
        i = i + 1;
    }
    assert(first_refused(cands, env.app@, home_v) == cands.len()) by {
        let f = first_refused(cands, env.app@, home_v);
        if f < cands.len() {
            assert(cands[f] == dirs@[f]@);
        }
    }
    Ok(dirs)
}

/// The command that puts the bin dir on PATH by hand in the current shell.
pub fn manual_path_hint(os: Os, home: Option<&str>, bin_dir: &str) -> (r: String)
    ensures
        os == Os::Windows ==> r@ == "$env:Path = \""@ + bin_dir@ + ";$env:Path\""@,
        os != Os::Windows ==> r@ == "export PATH=\""@ + (match crate::self_install::shell_path::shell_dir_expr_spec(
            match home {
                Some(h) => Some(h@),
                None => None,
            },
            bin_dir@,
        ) {
            Some(e) => e,
            None => bin_dir@,
        }) + ":$PATH\""@,
{
    if os.is_windows() {
        let mut s = owned("$env:Path = \"");
        push_str(&mut s, bin_dir);
        push_str(&mut s, ";$env:Path\"");
        s
    } else {
        let expr = match crate::self_install::shell_path::shell_dir_expr(home, bin_dir) {
            Some(e) => e,
            None => owned(bin_dir),
        };
        let mut s = owned("export PATH=\"");
        push_str(&mut s, expr.as_str());
        push_str(&mut s, ":$PATH\"");
        s
    }
}

/// What `self install` did.
#[derive(Debug, Clone)]
pub struct InstallOutcome {
    /// The version installed: the running one, or the `--from` archive's.
    pub version: String,
    pub binary_path: String,
    pub bin_dir: String,
    pub replaced_existing: bool,
    pub already_in_place: bool,
    /// Receipt location; `None` for `--unmanaged`.
    pub receipt_path: Option<String>,
    pub path: PathDecision,
    pub path_modifications: Vec<PathModification>,
    /// Command for the current shell when the bin dir is not on its PATH.
    pub current_shell_hint: Option<String>,
    pub completions: Vec<String>,
    pub notes: Vec<String>,
    /// The copy that was run, when it was copied rather than moved.
    pub source_left_behind: Option<String>,
}

/// What `self uninstall` did.
#[derive(Debug, Clone)]
pub struct UninstallOutcome {
    pub removed: Vec<String>,
    /// Shared PATH changes left in place, and why.
    pub kept: Vec<String>,
    pub purged: Vec<String>,
    /// On Windows the running binary is deleted by a helper after exit.
    pub deletion_deferred: bool,
}

impl Default for UninstallOutcome {
    fn default() -> (r: Self)
        ensures
            r.removed@.len() == 0,
            r.kept@.len() == 0,
            r.purged@.len() == 0,
            !r.deletion_deferred,
    {
        UninstallOutcome { removed: Vec::new(), kept: Vec::new(), purged: Vec::new(), deletion_deferred: false }
    }
}

/// The shape of `self status --json`.
#[derive(Debug, Clone)]
pub struct StatusReport {
    pub app: String,
    pub version: String,
    pub target: String,
    pub running_binary: String,
    pub method: InstallMethod,
    pub receipt_path: Option<String>,
    pub receipt: Option<InstallReceipt>,
    pub receipt_error: Option<String>,
    /// The receipt's bin dir, or the default one when there is no receipt.
    pub bin_dir: Option<String>,
    pub bin_dir_on_path: bool,
    /// The first `app` found on PATH.
    pub resolved_on_path: Option<String>,
    /// Every copy of `app` on PATH, in PATH order.
    pub copies_on_path: Vec<String>,
    pub stale_files: Vec<String>,
    pub upgrade_hint: Option<String>,
}

/// How this binary was installed, for `self status`: the receipt's method,
/// else what its path shows, else unknown.
pub fn status_method(receipt: &Option<InstallReceipt>, inferred: Option<InstallMethod>) -> (r:
    InstallMethod)
    ensures
        r == (match receipt {
            Some(rc) => rc.method,
            None => match inferred {
                Some(m) => m,
                None => InstallMethod::Unknown,
            },
        }),
{
    match receipt {
        Some(r) => r.method,
        None => match inferred {
            Some(m) => m,
            None => InstallMethod::Unknown,
        },
    }
}

/// The note for a previous binary that is still running.
pub fn parked_note(old: &str) -> (r: String)
    ensures
        r@ == "the previous binary is still running; "@ + old@ + " is removed on the next start"@,
{
    let mut s = owned("the previous binary is still running; ");
    push_str(&mut s, old);
    push_str(&mut s, " is removed on the next start");
    s
}

/// What uninstall reports keeping for one recorded path change it does not
/// reverse itself; `None` for the kinds it removes.
pub fn kept_note(m: &PathModification) -> (r: Option<String>)
    ensures
        match m {
            PathModification::RcLine { file, line } => r matches Some(s) && s@ == file@ + ": `"@
                + line@ + "` (shared with other apps using this bin dir)"@,
            PathModification::EnvFile { file } => r matches Some(s) && s@ == file@
                + " (shared with other apps using this bin dir)"@,
            _ => r is None,
        },
{
    match m {
        PathModification::RcLine { file, line } => {
            let mut s = file.clone();
            push_str(&mut s, ": `");
            push_str(&mut s, line.as_str());
            push_str(&mut s, "` (shared with other apps using this bin dir)");
            Some(s)
        },
        PathModification::EnvFile { file } => {
            let mut s = file.clone();
            push_str(&mut s, " (shared with other apps using this bin dir)");
            Some(s)
        },
        _ => None,
    }
}

} // verus!
