//! The decisions `self install` and `self uninstall` make between their
//! file operations: where the binary goes, whether an existing file may be
//! replaced, what the receipt records, and the ordered list of removals an
//! uninstall performs.

use crate::self_install::env::{env_var, InstallEnv, Os};
use crate::self_install::layout::{binary_file_name, binary_file_name_spec, default_bin_dir, default_bin_dir_spec, is_absolute, is_absolute_exec, is_absolute_on};
use crate::self_install::method::{is_package_manager_spec, method_name, upgrade_hint, upgrade_hint_spec, InstallMethod};
use crate::self_install::ops::{
    clone_modification, merge_modifications, merge_paths, merge_unique, mod_keys, system_bin_dir,
    system_bin_dir_spec, InstallRequest, SelfInstallError,
};
use crate::self_install::options::SelfInstallOptions;
use crate::self_install::place::{PlaceMode, PlaceResult};
use crate::self_install::receipt::{InstallReceipt, PathModification, ReceiptError, ReceiptSource, RECEIPT_SCHEMA_VERSION};
use crate::self_install::update::prev_path;
use crate::text::{clone_opt, join_path, owned, path_join, push_str, strings};
use vstd::prelude::*;

verus! {

// ───────────────────────── install ─────────────────────────

/// The bin dir an install uses: the requested one (a relative one taken
/// from the working directory when it is known), else the machine-wide one
/// for `--system`, else the per-user default; `None` when there is none.
pub open spec fn bin_dir_spec(env: InstallEnv, req: InstallRequest, cwd: Option<Seq<char>>) -> Option<Seq<char>> {
    match req.bin_dir {
        Some(d) => if is_absolute_on(d@, env.os) {
            Some(d@)
        } else {
            match cwd {
                Some(c) => Some(path_join(c, d@)),
                None => Some(d@),
            }
        },
        None => if req.system {
            Some(system_bin_dir_spec(env))
        } else {
            default_bin_dir_spec(env)
        },
    }
}

/// The bin dir an install uses.
pub fn choose_bin_dir(env: &InstallEnv, req: &InstallRequest, cwd: Option<&str>) -> (r: Result<String, SelfInstallError>)
    ensures
        match bin_dir_spec(*env, *req, match cwd {
            Some(c) => Some(c@),
            None => None,
        }) {
            Some(d) => r matches Ok(s) && s@ == d,
            None => r matches Err(SelfInstallError::NoBinDir),
        },
{
    match &req.bin_dir {
        Some(d) => {
            if is_absolute_exec(d.as_str(), env.os) {
                Ok(d.clone())
            } else {
                match cwd {
                    Some(c) => Ok(join_path(c, d.as_str())),
                    None => Ok(d.clone()),
                }
            }
        },
        None => if req.system {
            Ok(system_bin_dir(env))
        } else {
            match default_bin_dir(env) {
                Some(d) => Ok(d),
                None => Err(SelfInstallError::NoBinDir),
            }
        },
    }
}

/// Where the binary is placed: the app's file name in the bin dir.
pub fn destination(env: &InstallEnv, bin_dir: &str) -> (r: String)
    ensures
        r@ == path_join(bin_dir@, binary_file_name_spec(env.app@, env.os)),
{
    let name = binary_file_name(env.app.as_str(), env.os);
    join_path(bin_dir, name.as_str())
}

/// The receipt an install builds on: the loaded one; none when there is
/// none, or when it cannot be read and `--force` rewrites it.
pub fn previous_receipt(loaded: Result<Option<InstallReceipt>, ReceiptError>, force: bool) -> (r: Result<
    Option<InstallReceipt>,
    SelfInstallError,
>)
    ensures
        match loaded {
            Ok(p) => r == Ok::<Option<InstallReceipt>, SelfInstallError>(p),
            Err(e) => if force {
                r == Ok::<Option<InstallReceipt>, SelfInstallError>(None)
            } else {
                r matches Err(SelfInstallError::Receipt(_))
            },
        },
{
    match loaded {
        Ok(p) => Ok(p),
        Err(e) => if force {
            Ok(None)
        } else {
            Err(SelfInstallError::Receipt(e))
        },
    }
}

/// Refuse to overwrite a file at the destination that is neither the
/// running binary nor one this app's receipt records, unless forced.
pub fn check_foreign(dest: &str, dest_exists: bool, running_is_dest: bool, ours: bool, force: bool, invocation: &str) -> (r:
    Result<(), SelfInstallError>)
    ensures
        (dest_exists && !running_is_dest && !ours && !force) ==> (r matches Err(
            SelfInstallError::ForeignBinary { path, invocation: inv },
        ) && path@ == dest@ && inv@ == invocation@),
        !(dest_exists && !running_is_dest && !ours && !force) ==> r is Ok,
{
    if dest_exists && !running_is_dest && !ours && !force {
        Err(SelfInstallError::ForeignBinary { path: owned(dest), invocation: owned(invocation) })
    } else {
        Ok(())
    }
}

/// How the source is placed: moved when an installer script ran it or it
/// was unpacked from an archive, copied otherwise.
pub fn place_mode(from_bootstrap: bool, staged: bool) -> (m: PlaceMode)
    ensures
        m == (if from_bootstrap || staged {
            PlaceMode::Move
        } else {
            PlaceMode::Copy
        }),
{
    if from_bootstrap || staged {
        PlaceMode::Move
    } else {
        PlaceMode::Copy
    }
}

/// The downloaded binary a copy leaves behind, which a person may delete.
pub fn source_left_behind(placed: &PlaceResult, mode: PlaceMode, current_exe: &str) -> (r: Option<String>)
    ensures
        (!placed.already_in_place && mode == PlaceMode::Copy) ==> (r matches Some(s) && s@
            == current_exe@),
        !(!placed.already_in_place && mode == PlaceMode::Copy) ==> r is None,
{
    if !placed.already_in_place && mode == PlaceMode::Copy {
        Some(owned(current_exe))
    } else {
        None
    }
}

/// The receipt a managed install writes. A reinstall keeps what earlier
/// installs recorded (path changes and completion files, without
/// repeats), the channel, and the previous version while its `.prev` file
/// still exists.
pub fn install_receipt(
    env: &InstallEnv,
    opts: &SelfInstallOptions,
    req: &InstallRequest,
    previous: &Option<InstallReceipt>,
    version: &str,
    target: &str,
    bin_dir: &str,
    dest: &str,
    modifications: &Vec<PathModification>,
    completions: &Vec<String>,
    prev_exists: bool,
    apps_and_features: Option<String>,
    now: &str,
) -> (r: InstallReceipt)
    ensures
        r.schema_version == RECEIPT_SCHEMA_VERSION,
        r.app == env.app,
        r.version@ == version@,
        r.target@ == target@,
        r.channel@ == match previous {
            Some(p) => p.channel@,
            None => "stable"@,
        },
        r.bin_dir@ == bin_dir@,
        r.binary_path@ == dest@,
        r.method == (if req.from_bootstrap {
            InstallMethod::Script
        } else {
            InstallMethod::SelfInstall
        }),
        mod_keys(r.modified_path@) == merge_unique(
            match previous {
                Some(p) => mod_keys(p.modified_path@),
                None => Seq::empty(),
            },
            mod_keys(modifications@),
        ),
        strings(r.completions@) == merge_unique(
            match previous {
                Some(p) => strings(p.completions@),
                None => Seq::empty(),
            },
            strings(completions@),
        ),
        r.source.source == opts@.source,
        r.source.tag_prefix@ == opts@.tag_prefix,
        r.source.asset_template@ == opts@.asset_template,
        r.installed_at@ == now@,
        r.previous_version == (match previous {
            Some(p) => if prev_exists {
                p.previous_version
            } else {
                None
            },
            None => None,
        }),
        r.system == req.system,
        r.apps_and_features == apps_and_features,
{
    let empty_mods: Vec<PathModification> = Vec::new();
    let empty_paths: Vec<String> = Vec::new();
    let (old_mods, old_completions) = match previous {
        Some(p) => (&p.modified_path, &p.completions),
        None => (&empty_mods, &empty_paths),
    };
    assert(mod_keys(empty_mods@) =~= Seq::empty());
    assert(strings(empty_paths@) =~= Seq::empty());
    let modified_path = merge_modifications(old_mods, modifications);
    let all_completions = merge_paths(old_completions, completions);
    let channel = match previous {
        Some(p) => p.channel.clone(),
        None => owned("stable"),
    };
    proof {
        reveal_strlit("stable");
    }
    let previous_version = match previous {
        Some(p) => if prev_exists {
            clone_opt(&p.previous_version)
        } else {
            None
        },
        None => None,
    };
    InstallReceipt {
        schema_version: RECEIPT_SCHEMA_VERSION,
        app: env.app.clone(),
        version: owned(version),
        target: owned(target),
        channel,
        bin_dir: owned(bin_dir),
        binary_path: owned(dest),
        method: if req.from_bootstrap {
            InstallMethod::Script
        } else {
            InstallMethod::SelfInstall
        },
        modified_path,
        completions: all_completions,
        source: ReceiptSource::from_options(opts),
        installed_at: owned(now),
        previous_version,
        system: req.system,
        apps_and_features,
    }
}

// ───────────────────────── uninstall ─────────────────────────

/// Why uninstall has nothing to do without a receipt: a package manager
/// owns the binary, or it was never installed this way.
pub fn no_receipt_error(env: &InstallEnv, receipt_file: &str, path_method: Option<InstallMethod>) -> (r:
    SelfInstallError)
    ensures
        match path_method {
            Some(m) => if is_package_manager_spec(m) {
                r matches SelfInstallError::ManagedByPackageManager { app, method, hint } && app@
                    == env.app@ && method@ == method_name(m) && hint@ == match upgrade_hint_spec(
                    m,
                    env.app@,
                ) {
                    Some(h) => h,
                    None => Seq::empty(),
                }
            } else {
                r matches SelfInstallError::NoReceipt { app, path, invocation, binary } && app@
                    == env.app@ && path@ == receipt_file@ && invocation@ == env.self_invocation@
                    && binary@ == env.current_exe@
            },
            None => r matches SelfInstallError::NoReceipt { app, path, invocation, binary } && app@
                == env.app@ && path@ == receipt_file@ && invocation@ == env.self_invocation@
                && binary@ == env.current_exe@,
        },
{
    if let Some(m) = path_method {
        if m.is_package_manager() {
            let hint = match upgrade_hint(m, env.app.as_str()) {
                Some(h) => h,
                None => String::new(),
            };
            return SelfInstallError::ManagedByPackageManager {
                app: env.app.clone(),
                method: m.as_str(),
                hint,
            };
        }
    }
    SelfInstallError::NoReceipt {
        app: env.app.clone(),
        path: owned(receipt_file),
        invocation: env.self_invocation.clone(),
        binary: env.current_exe.clone(),
    }
}

/// One piece of uninstall work, in the order it is done.
#[derive(Debug, Clone, PartialEq, Eq)]
pub enum UninstallStep {
    /// Remove the file if it exists, and report it when it did.
    RemoveFile(String),
    /// Leave a shared change in place, and say so.
    Keep(String),
    /// Take the bin dir off the user `Path` under `key`, unless other
    /// programs still live in it.
    UserPathEntry { key: String, entry: String },
    /// Delete the Apps & Features entry at this `HKCU` key.
    AppsFeatures(String),
    /// Remove the leftovers in this bin dir.
    StaleFiles(String),
    /// Remove the receipt, then its directory if empty.
    Receipt(String),
    /// Remove this directory tree, for `--purge`.
    Purge(String),
    /// Remove the binary itself, last.
    Binary(String),
}

/// One step as plain values.
pub enum StepView {
    RemoveFile(Seq<char>),
    Keep(Seq<char>),
    UserPathEntry(Seq<char>, Seq<char>),
    AppsFeatures(Seq<char>),
    StaleFiles(Seq<char>),
    Receipt(Seq<char>),
    Purge(Seq<char>),
    Binary(Seq<char>),
}

pub open spec fn step_view(s: UninstallStep) -> StepView {
    match s {
        UninstallStep::RemoveFile(p) => StepView::RemoveFile(p@),
        UninstallStep::Keep(n) => StepView::Keep(n@),
        UninstallStep::UserPathEntry { key, entry } => StepView::UserPathEntry(key@, entry@),
        UninstallStep::AppsFeatures(k) => StepView::AppsFeatures(k@),
        UninstallStep::StaleFiles(d) => StepView::StaleFiles(d@),
        UninstallStep::Receipt(p) => StepView::Receipt(p@),
        UninstallStep::Purge(d) => StepView::Purge(d@),
        UninstallStep::Binary(p) => StepView::Binary(p@),
    }
}

pub open spec fn step_views(v: Seq<UninstallStep>) -> Seq<StepView> {
    v.map_values(|s: UninstallStep| step_view(s))
}

/// What uninstall does about one recorded path change: a fish `conf.d`
/// file is removed; a shared rc line or env file is kept; a user `Path`
/// entry is taken off.
pub open spec fn modification_step(m: PathModification) -> StepView {
    match m {
        PathModification::FishConf { file } => StepView::RemoveFile(file@),
        PathModification::RcLine { file, line } => StepView::Keep(
            file@ + ": `"@ + line@ + "` (shared with other apps using this bin dir)"@,
        ),
        PathModification::EnvFile { file } => StepView::Keep(
            file@ + " (shared with other apps using this bin dir)"@,
        ),
        PathModification::WindowsUserPath { key, entry } => StepView::UserPathEntry(key@, entry@),
    }
}

/// The whole uninstall, in order: the completion files, the recorded path
/// changes, the kept `.prev`, the Apps & Features entry, the bin dir's
/// leftovers, the receipt, the purged directories, and the binary last.
pub open spec fn uninstall_plan(receipt: InstallReceipt, receipt_file: Seq<char>, roots: Seq<Seq<char>>) -> Seq<
    StepView,
> {
    strings(receipt.completions@).map_values(|p: Seq<char>| StepView::RemoveFile(p))
        + receipt.modified_path@.map_values(|m: PathModification| modification_step(m))
        + seq![StepView::RemoveFile(receipt.binary_path@ + ".prev"@)]
        + match receipt.apps_and_features {
        Some(k) => seq![StepView::AppsFeatures(k@)],
        None => Seq::empty(),
    } + seq![StepView::StaleFiles(receipt.bin_dir@), StepView::Receipt(receipt_file)]
        + roots.map_values(|d: Seq<char>| StepView::Purge(d)) + seq![
        StepView::Binary(receipt.binary_path@),
    ]
}

fn push_step(out: &mut Vec<UninstallStep>, s: UninstallStep)
    ensures
        step_views(final(out)@) == step_views(old(out)@).push(step_view(s)),
{
    let ghost before = out@;
    out.push(s);
    assert(step_views(out@) =~= step_views(before).push(step_view(s)));
}

/// The uninstall steps for a receipt.
pub fn uninstall_steps(receipt: &InstallReceipt, receipt_file: &str, roots: &Vec<String>) -> (out: Vec<
    UninstallStep,
>)
    ensures
        step_views(out@) == uninstall_plan(*receipt, receipt_file@, strings(roots@)),
{
    let mut out: Vec<UninstallStep> = Vec::new();
    let ghost c = strings(receipt.completions@).map_values(|p: Seq<char>| StepView::RemoveFile(p));
    let mut i: usize = 0;
    while i < receipt.completions.len()
        invariant
            i <= receipt.completions@.len(),
            c == strings(receipt.completions@).map_values(|p: Seq<char>| StepView::RemoveFile(p)),
            step_views(out@) == c.take(i as int),
        decreases receipt.completions.len() - i,
    {
        push_step(&mut out, UninstallStep::RemoveFile(receipt.completions[i].clone()));
        assert(c.take(i + 1) =~= c.take(i as int).push(StepView::RemoveFile(receipt.completions@[i as int]@)));
        i = i + 1;
    }
    assert(c.take(c.len() as int) =~= c);
    let ghost m = receipt.modified_path@.map_values(|x: PathModification| modification_step(x));
    let ghost start = step_views(out@);
    let mut j: usize = 0;
    while j < receipt.modified_path.len()
        invariant
            j <= receipt.modified_path@.len(),
            m == receipt.modified_path@.map_values(|x: PathModification| modification_step(x)),
            step_views(out@) == start + m.take(j as int),
        decreases receipt.modified_path.len() - j,
    {
        let step = match &receipt.modified_path[j] {
            PathModification::FishConf { file } => UninstallStep::RemoveFile(file.clone()),
            PathModification::RcLine { file, line } => {
                let mut s = file.clone();
                push_str(&mut s, ": `");
                push_str(&mut s, line.as_str());
                push_str(&mut s, "` (shared with other apps using this bin dir)");
                UninstallStep::Keep(s)
            },
            PathModification::EnvFile { file } => {
                let mut s = file.clone();
                push_str(&mut s, " (shared with other apps using this bin dir)");
                UninstallStep::Keep(s)
            },
            PathModification::WindowsUserPath { key, entry } => UninstallStep::UserPathEntry {
                key: key.clone(),
                entry: entry.clone(),
            },
        };
        assert(step_view(step) == modification_step(receipt.modified_path@[j as int]));
        push_step(&mut out, step);
        assert(m.take(j + 1) =~= m.take(j as int).push(modification_step(receipt.modified_path@[j as int])));
        j = j + 1;
    }
    assert(m.take(m.len() as int) =~= m);
    push_step(&mut out, UninstallStep::RemoveFile(prev_path(receipt.binary_path.as_str())));
    match &receipt.apps_and_features {
        Some(k) => push_step(&mut out, UninstallStep::AppsFeatures(k.clone())),
        None => {},
    }
    push_step(&mut out, UninstallStep::StaleFiles(receipt.bin_dir.clone()));
    push_step(&mut out, UninstallStep::Receipt(owned(receipt_file)));
    let ghost p = strings(roots@).map_values(|d: Seq<char>| StepView::Purge(d));
    let ghost start2 = step_views(out@);
    let mut k: usize = 0;
    while k < roots.len()
        invariant
            k <= roots@.len(),
            p == strings(roots@).map_values(|d: Seq<char>| StepView::Purge(d)),
            step_views(out@) == start2 + p.take(k as int),
        decreases roots.len() - k,
    {
        push_step(&mut out, UninstallStep::Purge(roots[k].clone()));
        assert(p.take(k + 1) =~= p.take(k as int).push(StepView::Purge(roots@[k as int]@)));
        k = k + 1;
    }
    assert(p.take(p.len() as int) =~= p);
    push_step(&mut out, UninstallStep::Binary(receipt.binary_path.clone()));
    assert(step_views(out@) =~= uninstall_plan(*receipt, receipt_file@, strings(roots@)));
    out
}

/// What uninstall reports about a user `Path` entry: removed, kept because
/// other programs live there, or recorded on Windows and left alone here.
pub fn user_path_note(key: &str, entry: &str, windows: bool, others_remain: bool) -> (r: (bool, String))
    ensures
        windows && !others_remain ==> r.0 && r.1@ == "HKCU\\"@ + key@ + "\\Path: "@ + entry@,
        windows && others_remain ==> !r.0 && r.1@ == "user Path entry "@ + entry@
            + " (other programs still live there)"@,
        !windows ==> !r.0 && r.1@ == "user Path entry "@ + entry@
            + " (recorded on Windows; nothing to do here)"@,
{
    if windows && !others_remain {
        let mut s = owned("HKCU\\");
        push_str(&mut s, key);
        push_str(&mut s, "\\Path: ");
        push_str(&mut s, entry);
        (true, s)
    } else if windows {
        let mut s = owned("user Path entry ");
        push_str(&mut s, entry);
        push_str(&mut s, " (other programs still live there)");
        (false, s)
    } else {
        let mut s = owned("user Path entry ");
        push_str(&mut s, entry);
        push_str(&mut s, " (recorded on Windows; nothing to do here)");
        (false, s)
    }
}

/// What uninstall reports about the Apps & Features entry: removed, or
/// kept with the reason.
pub fn apps_features_note(key: &str, error: Option<&str>) -> (r: (bool, String))
    ensures
        match error {
            None => r.0 && r.1@ == "HKCU\\"@ + key@,
            Some(e) => !r.0 && r.1@ == "Apps & Features entry HKCU\\"@ + key@ + " ("@ + e@ + ")"@,
        },
{
    match error {
        None => {
            let mut s = owned("HKCU\\");
            push_str(&mut s, key);
            (true, s)
        },
        Some(e) => {
            let mut s = owned("Apps & Features entry HKCU\\");
            push_str(&mut s, key);
            push_str(&mut s, " (");
            push_str(&mut s, e);
            push_str(&mut s, ")");
            (false, s)
        },
    }
}

/// Where shells read completion data: `XDG_DATA_HOME`, else
/// `~/.local/share`.
pub open spec fn data_home_spec(e: InstallEnv, home: Seq<char>) -> Seq<char> {
    match env_var(e.vars@, "XDG_DATA_HOME"@) {
        Some(d) => d,
        None => path_join(path_join(home, ".local"@), "share"@),
    }
}

/// Where shells read configuration: `XDG_CONFIG_HOME`, else `~/.config`.
pub open spec fn config_home_spec(e: InstallEnv, home: Seq<char>) -> Seq<char> {
    match env_var(e.vars@, "XDG_CONFIG_HOME"@) {
        Some(d) => d,
        None => path_join(home, ".config"@),
    }
}

/// The fish configuration directory, whose existence decides whether fish
/// completions are written; `None` where none are written at all.
pub open spec fn completion_fish_dir_spec(e: InstallEnv) -> Option<Seq<char>> {
    if e.completion_command is None || e.os == Os::Windows {
        None
    } else {
        match e.home {
            Some(h) => Some(path_join(config_home_spec(e, h@), "fish"@)),
            None => None,
        }
    }
}

pub fn completion_fish_dir(env: &InstallEnv) -> (r: Option<String>)
    ensures
        match r {
            Some(d) => completion_fish_dir_spec(*env) == Some(d@),
            None => completion_fish_dir_spec(*env) is None,
        },
{
    if env.completion_command.is_none() || env.os == Os::Windows {
        return None;
    }
    match &env.home {
        Some(h) => {
            let config_home = match env.var("XDG_CONFIG_HOME") {
                Some(d) => owned(d),
                None => join_path(h.as_str(), ".config"),
            };
            Some(join_path(config_home.as_str(), "fish"))
        },
        None => None,
    }
}

/// The completion files an install writes, by shell: bash always, fish
/// when its configuration directory exists. None on Windows or without a
/// home; `Err` with the note to report when the completion command is off.
pub open spec fn completion_targets_spec(e: InstallEnv, fish_dir_exists: bool) -> Result<
    Seq<(Seq<char>, Seq<char>)>,
    Seq<char>,
> {
    if e.completion_command is None {
        Err("completions are enabled but the completion command is disabled"@)
    } else if e.os == Os::Windows {
        Ok(Seq::empty())
    } else {
        match e.home {
            None => Ok(Seq::empty()),
            Some(h) => {
                let bash = (
                    "bash"@,
                    path_join(
                        path_join(path_join(data_home_spec(e, h@), "bash-completion"@), "completions"@),
                        e.app@,
                    ),
                );
                if fish_dir_exists {
                    Ok(seq![
                        bash,
                        (
                            "fish"@,
                            path_join(
                                path_join(path_join(config_home_spec(e, h@), "fish"@), "completions"@),
                                e.app@ + ".fish"@,
                            ),
                        ),
                    ])
                } else {
                    Ok(seq![bash])
                }
            },
        }
    }
}

pub open spec fn target_pairs(v: Seq<(String, String)>) -> Seq<(Seq<char>, Seq<char>)> {
    v.map_values(|p: (String, String)| (p.0@, p.1@))
}

pub fn completion_targets(env: &InstallEnv, fish_dir_exists: bool) -> (r: Result<
    Vec<(String, String)>,
    String,
>)
    ensures
        match r {
            Ok(v) => completion_targets_spec(*env, fish_dir_exists) == Ok::<
                Seq<(Seq<char>, Seq<char>)>,
                Seq<char>,
            >(target_pairs(v@)),
            Err(n) => completion_targets_spec(*env, fish_dir_exists) == Err::<
                Seq<(Seq<char>, Seq<char>)>,
                Seq<char>,
            >(n@),
        },
{
    if env.completion_command.is_none() {
        return Err(owned("completions are enabled but the completion command is disabled"));
    }
    if env.os == Os::Windows {
        let v: Vec<(String, String)> = Vec::new();
        assert(target_pairs(v@) =~= Seq::<(Seq<char>, Seq<char>)>::empty());
        return Ok(v);
    }
    let h = match &env.home {
        Some(h) => h,
        None => {
            let v: Vec<(String, String)> = Vec::new();
            assert(target_pairs(v@) =~= Seq::<(Seq<char>, Seq<char>)>::empty());
            return Ok(v);
        },
    };
    let data_home = match env.var("XDG_DATA_HOME") {
        Some(d) => owned(d),
        None => {
            let l = join_path(h.as_str(), ".local");
            join_path(l.as_str(), "share")
        },
    };
    let config_home = match env.var("XDG_CONFIG_HOME") {
        Some(d) => owned(d),
        None => join_path(h.as_str(), ".config"),
    };
    let b1 = join_path(data_home.as_str(), "bash-completion");
    let b2 = join_path(b1.as_str(), "completions");
    let bash_path = join_path(b2.as_str(), env.app.as_str());
    let mut v: Vec<(String, String)> = vec![(owned("bash"), bash_path)];
    if fish_dir_exists {
        let f1 = join_path(config_home.as_str(), "fish");
        let f2 = join_path(f1.as_str(), "completions");
        let mut name = env.app.clone();
        push_str(&mut name, ".fish");
        let fish_path = join_path(f2.as_str(), name.as_str());
        v.push((owned("fish"), fish_path));
    }
    proof {
        assert(data_home@ == data_home_spec(*env, h@));
        assert(config_home@ == config_home_spec(*env, h@));
        let bash = (
            "bash"@,
            path_join(
                path_join(path_join(data_home_spec(*env, h@), "bash-completion"@), "completions"@),
                env.app@,
            ),
        );
        if fish_dir_exists {
            assert(target_pairs(v@) =~= seq![
                bash,
                (
                    "fish"@,
                    path_join(
                        path_join(path_join(config_home_spec(*env, h@), "fish"@), "completions"@),
                        env.app@ + ".fish"@,
                    ),
                ),
            ]);
        } else {
            assert(target_pairs(v@) =~= seq![bash]);
        }
    }
    Ok(v)
}

/// The note for a shell whose completions could not be written.
pub fn completion_note(shell: &str, reason: &str) -> (r: String)
    ensures
        r@ == shell@ + " completions not written: "@ + reason@,
{
    let mut s = owned(shell);
    push_str(&mut s, " completions not written: ");
    push_str(&mut s, reason);
    s
}

/// Whether a run of the completion command gave something to write: it
/// succeeded and printed output.
pub fn completion_output_usable(succeeded: bool, stdout_len: usize) -> (r: bool)
    ensures
        r == (succeeded && stdout_len > 0),
{
    succeeded && stdout_len > 0
}

/// A file the receipt records as placed by the install: a completion file,
/// a fish `conf.d` file, or the previous binary kept beside it.
pub open spec fn recorded_file(receipt: InstallReceipt, p: Seq<char>) -> bool {
    ||| strings(receipt.completions@).contains(p)
    ||| exists|j: int|
        0 <= j < receipt.modified_path@.len() && (#[trigger] receipt.modified_path@[j]) is FishConf
            && receipt.modified_path@[j]->FishConf_file@ == p
    ||| p == receipt.binary_path@ + ".prev"@
}

/// Uninstall reverses what the receipt records and nothing else: every
/// file it removes is one the install placed, every directory tree it
/// deletes is one the purge named, and the binary goes last.
pub proof fn law_uninstall_touches_only_what_was_recorded(
    receipt: InstallReceipt,
    receipt_file: Seq<char>,
    roots: Seq<Seq<char>>,
)
    ensures
        uninstall_plan(receipt, receipt_file, roots).last() == StepView::Binary(receipt.binary_path@),
        forall|i: int|
            0 <= i < uninstall_plan(receipt, receipt_file, roots).len() ==> match #[trigger] uninstall_plan(
                receipt,
                receipt_file,
                roots,
            )[i] {
                StepView::RemoveFile(p) => recorded_file(receipt, p),
                StepView::Purge(d) => roots.contains(d),
                StepView::Binary(p) => p == receipt.binary_path@ && i == uninstall_plan(
                    receipt,
                    receipt_file,
                    roots,
                ).len() - 1,
                _ => true,
            },
{
    let comps = strings(receipt.completions@).map_values(|p: Seq<char>| StepView::RemoveFile(p));
    let mods = receipt.modified_path@.map_values(|m: PathModification| modification_step(m));
    let prev = seq![StepView::RemoveFile(receipt.binary_path@ + ".prev"@)];
    let apps: Seq<StepView> = match receipt.apps_and_features {
        Some(k) => seq![StepView::AppsFeatures(k@)],
        None => Seq::empty(),
    };
    let mid = seq![StepView::StaleFiles(receipt.bin_dir@), StepView::Receipt(receipt_file)];
    let purge = roots.map_values(|d: Seq<char>| StepView::Purge(d));
    let last = seq![StepView::Binary(receipt.binary_path@)];
    let plan = uninstall_plan(receipt, receipt_file, roots);
    assert(plan =~= comps + mods + prev + apps + mid + purge + last);
    let a = comps.len() as int;
    let b = a + mods.len();
    let c = b + 1;
    let d = c + apps.len();
    let e = d + 2;
    let f = e + purge.len();
    assert(plan.len() == f + 1);
    assert forall|i: int| 0 <= i < plan.len() implies match #[trigger] plan[i] {
        StepView::RemoveFile(p) => recorded_file(receipt, p),
        StepView::Purge(dd) => roots.contains(dd),
        StepView::Binary(p) => p == receipt.binary_path@ && i == plan.len() - 1,
        _ => true,
    } by {
        if i < a {
            assert(plan[i] == comps[i]);
            assert(strings(receipt.completions@)[i] == receipt.completions@[i]@);
            assert(strings(receipt.completions@).contains(strings(receipt.completions@)[i]));
        } else if i < b {
            let j = i - a;
            assert(plan[i] == mods[j]);
            let m = receipt.modified_path@[j];
            match m {
                PathModification::FishConf { file } => {
                    assert(recorded_file(receipt, file@));
                },
                _ => {},
            }
        } else if i < c {
            assert(plan[i] == prev[0]);
        } else if i < d {
            assert(plan[i] == apps[i - c]);
        } else if i < e {
            assert(plan[i] == mid[i - d]);
        } else if i < f {
            assert(plan[i] == purge[i - e]);
            assert(roots.contains(roots[i - e]));
        } else {
            assert(plan[i] == last[0]);
        }
    }
}

} // verus!
