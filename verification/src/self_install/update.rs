//! The decisions of `self update` and `self rollback`: whether the running
//! binary is one they may act on, which channel and version they follow,
//! when they stop early, what they write into the receipt, and where the
//! replaced binary is kept. Downloads, locks and file moves are the
//! caller's.

use crate::self_install::env::{env_var, InstallEnv};
use crate::self_install::layout::env_var_prefix;
use crate::self_install::method::{is_package_manager_spec, method_name, upgrade_hint, upgrade_hint_spec, InstallMethod};
use crate::self_install::ops::SelfInstallError;
use crate::self_install::options::{check_https, https_ok, strip_leading, strip_leading_exec, ReleaseSource, SelfInstallOptions};
use crate::self_install::policy::SelfUpdatePolicy;
use crate::self_install::receipt::InstallReceipt;
use crate::self_install::release::{channel_parse, channel_view, parsed_channel, Channel};
use crate::self_install::version::{semver_cmp, semver_error, semver_has_pre, semver_parses, semver_text, SemVer};
use crate::telemetry::policy::env_prefix;
use crate::text::{clone_opt, debug_quoted, debug_repr, join_path, owned, path_join, push_str, str_eq, string_of};
use vstd::prelude::*;

verus! {

/// Arguments of `self update`.
#[derive(Debug, Clone, PartialEq, Eq)]
pub struct UpdateRequest {
    /// `stable`, `latest` or a version; `None` follows the receipt's channel.
    pub target: Option<String>,
    /// Report what an update would do, without downloading.
    pub check: bool,
    /// A local archive, verified against the `SHA256SUMS` beside it.
    pub from: Option<String>,
    /// Reinstall even when the version is already current.
    pub force: bool,
}

impl Default for UpdateRequest {
    fn default() -> (r: Self)
        ensures
            r.target is None,
            !r.check,
            r.from is None,
            !r.force,
    {
        UpdateRequest { target: None, check: false, from: None, force: false }
    }
}

/// What `self update` found or did.
#[derive(Debug, Clone, Copy, PartialEq, Eq, Structural)]
pub enum UpdateAction {
    UpToDate,
    Available,
    Updated,
}

pub open spec fn update_action_name(a: UpdateAction) -> Seq<char> {
    match a {
        UpdateAction::UpToDate => "up_to_date"@,
        UpdateAction::Available => "available"@,
        UpdateAction::Updated => "updated"@,
    }
}

impl UpdateAction {
    /// The `snake_case` name `--json` prints.
    pub fn as_str(&self) -> (r: &'static str)
        ensures
            r@ == update_action_name(*self),
    {
        match self {
            UpdateAction::UpToDate => "up_to_date",
            UpdateAction::Available => "available",
            UpdateAction::Updated => "updated",
        }
    }
}

#[derive(Debug, Clone)]
pub struct UpdateOutcome {
    pub action: UpdateAction,
    pub current: String,
    pub target: String,
    /// The channel followed, when the target came from one.
    pub channel: Option<String>,
    pub binary_path: String,
    /// Where the replaced binary was kept for `self rollback`.
    pub previous: Option<String>,
    pub notes: Vec<String>,
}

/// What `self rollback` did.
#[derive(Debug, Clone)]
pub struct RollbackOutcome {
    pub from: String,
    pub to: String,
    pub binary_path: String,
    pub notes: Vec<String>,
}

/// `<binary>.prev`: `myapp.prev`, or `myapp.exe.prev` on Windows. It does
/// not end in `.exe`, so it neither runs by name nor counts as another
/// program in the bin dir.
pub fn prev_path(binary: &str) -> (r: String)
    ensures
        r@ == binary@ + ".prev"@,
{
    let mut s = owned(binary);
    push_str(&mut s, ".prev");
    s
}

/// The package manager that owns the install, if any: the receipt's
/// method when it is one, else the one the binary's path shows.
pub open spec fn managing_method(receipt: Option<InstallReceipt>, path_method: Option<InstallMethod>) -> Option<
    InstallMethod,
> {
    match receipt {
        Some(r) if is_package_manager_spec(r.method) => Some(r.method),
        _ => match path_method {
            Some(m) if is_package_manager_spec(m) => Some(m),
            _ => None,
        },
    }
}

/// Check that the receipt describes the running binary: refused when a
/// package manager owns the install, when there is no receipt, and when the
/// receipt records another binary (`same_binary` says whether the recorded
/// path is the running one).
pub fn check_managed(
    env: &InstallEnv,
    receipt_file: &str,
    receipt: Option<InstallReceipt>,
    path_method: Option<InstallMethod>,
    same_binary: bool,
) -> (r: Result<InstallReceipt, SelfInstallError>)
    ensures
        match managing_method(receipt, path_method) {
            Some(m) => r matches Err(SelfInstallError::ManagedByPackageManager { app, method, hint })
                && app@ == env.app@ && method@ == method_name(m) && hint@ == match upgrade_hint_spec(
                m,
                env.app@,
            ) {
                Some(h) => h,
                None => Seq::empty(),
            },
            None => match receipt {
                None => r matches Err(SelfInstallError::NotManaged { app, path, invocation })
                    && app@ == env.app@ && path@ == receipt_file@ && invocation@
                    == env.self_invocation@,
                Some(rec) => if same_binary {
                    r == Ok::<InstallReceipt, SelfInstallError>(rec)
                } else {
                    r matches Err(SelfInstallError::ReceiptMismatch { recorded, running })
                        && recorded@ == rec.binary_path@ && running@ == env.current_exe@
                },
            },
        },
{
    let from_path = match path_method {
        Some(m) => if m.is_package_manager() {
            Some(m)
        } else {
            None
        },
        None => None,
    };
    let method = match &receipt {
        Some(rec) => if rec.method.is_package_manager() {
            Some(rec.method)
        } else {
            from_path
        },
        None => from_path,
    };
    if let Some(m) = method {
        let hint = match upgrade_hint(m, env.app.as_str()) {
            Some(h) => h,
            None => String::new(),
        };
        return Err(
            SelfInstallError::ManagedByPackageManager { app: env.app.clone(), method: m.as_str(), hint },
        );
    }
    match receipt {
        None => Err(
            SelfInstallError::NotManaged {
                app: env.app.clone(),
                path: owned(receipt_file),
                invocation: env.self_invocation.clone(),
            },
        ),
        Some(rec) => if same_binary {
            Ok(rec)
        } else {
            Err(
                SelfInstallError::ReceiptMismatch {
                    recorded: rec.binary_path.clone(),
                    running: env.current_exe.clone(),
                },
            )
        },
    }
}

/// The running version, read with leading `v`s dropped.
pub fn running_version(version: &str) -> (r: Result<SemVer, SelfInstallError>)
    ensures
        match r {
            Ok(v) => v.source() == strip_leading(version@, 'v') && semver_parses(v.source()),
            Err(SelfInstallError::BadRequest(m)) => !semver_parses(strip_leading(version@, 'v'))
                && m@ == "the running version "@ + debug_repr(version@) + " is not semver: "@
                + semver_error(strip_leading(version@, 'v')),
            Err(_) => false,
        },
{
    let t = string_of(strip_leading_exec(version, 'v').as_slice());
    match SemVer::parse(t.as_str()) {
        Ok(v) => Ok(v),
        Err(e) => {
            let mut m = owned("the running version ");
            let q = debug_quoted(version);
            push_str(&mut m, q.as_str());
            push_str(&mut m, " is not semver: ");
            push_str(&mut m, e.as_str());
            Err(SelfInstallError::BadRequest(m))
        },
    }
}

/// Whether a channel asks for more than stable releases.
pub open spec fn widens_stable(c: Channel) -> bool {
    match c {
        Channel::Latest => true,
        Channel::Exact(v) => semver_has_pre(v.source()),
        Channel::Stable => false,
    }
}

/// Whether a channel, as `channel_view` shows it, reaches prereleases.
pub open spec fn widens_view(cv: Option<Option<Seq<char>>>) -> bool {
    match cv {
        None => false,
        Some(None) => true,
        Some(Some(v)) => semver_has_pre(v),
    }
}

/// The channel to follow before the policy's check: the request; else an
/// enforced channel (refused when it does not read); else the receipt's,
/// `stable` when it does not read.
pub open spec fn base_channel(
    requested: Option<Option<Option<Seq<char>>>>,
    recorded: Seq<char>,
    enforced: Option<Seq<char>>,
) -> Result<Option<Option<Seq<char>>>, Seq<char>> {
    match requested {
        Some(q) => Ok(q),
        None => match enforced {
            Some(e) => parsed_channel(e),
            None => match parsed_channel(recorded) {
                Ok(v) => Ok(v),
                Err(_) => Ok(None),
            },
        },
    }
}

/// What choosing a channel gives: the base channel, refused when an
/// enforced `stable` meets a channel that reaches prereleases.
pub open spec fn channel_choice(
    requested: Option<Option<Option<Seq<char>>>>,
    recorded: Seq<char>,
    enforced: Option<Seq<char>>,
    r: Result<Channel, SelfInstallError>,
) -> bool {
    match base_channel(requested, recorded, enforced) {
        Err(m) => r matches Err(SelfInstallError::BadRequest(x)) && x@ == m,
        Ok(cv) => if enforced == Some("stable"@) && widens_view(cv) {
            r matches Err(SelfInstallError::PolicyRefused { key, reason }) && key@
                == "self_update.channel"@ && reason@ == "only stable releases are allowed"@
        } else {
            r matches Ok(c) && channel_view(c) == cv
        },
    }
}

pub open spec fn requested_view(requested: Option<Channel>) -> Option<Option<Option<Seq<char>>>> {
    match requested {
        Some(q) => Some(channel_view(q)),
        None => None,
    }
}

/// The channel to follow: the request; else an enforced channel; else the
/// receipt's, `stable` when it does not read. An enforced `stable` refuses
/// a channel that would reach prereleases.
pub fn choose_channel(requested: Option<Channel>, recorded: &str, policy: &SelfUpdatePolicy) -> (r:
    Result<Channel, SelfInstallError>)
    ensures
        channel_choice(requested_view(requested), recorded@, opt_view(policy.channel), r),
        requested matches Some(q) ==> (r matches Ok(c) ==> c == q),
{
    let channel = match requested {
        Some(c) => c,
        None => match &policy.channel {
            Some(enforced) => match Channel::parse(enforced.as_str()) {
                Ok(c) => c,
                Err(m) => {
                    return Err(SelfInstallError::BadRequest(m));
                },
            },
            None => match Channel::parse(recorded) {
                Ok(c) => c,
                Err(_) => Channel::Stable,
            },
        },
    };
    let enforced_stable = match &policy.channel {
        Some(c) => str_eq(c.as_str(), "stable"),
        None => false,
    };
    if enforced_stable {
        let widens = match &channel {
            Channel::Latest => true,
            Channel::Exact(v) => v.has_pre(),
            Channel::Stable => false,
        };
        if widens {
            return Err(
                SelfInstallError::PolicyRefused {
                    key: "self_update.channel",
                    reason: owned("only stable releases are allowed"),
                },
            );
        }
    }
    Ok(channel)
}

/// Refuse a version below the enforced minimum.
pub fn check_minimum(policy: &SelfUpdatePolicy, version: &SemVer) -> (r: Result<(), SelfInstallError>)
    ensures
        match policy.minimum_version {
            Some(min) => if semver_cmp(version.source(), min.source()) == -1 {
                r matches Err(SelfInstallError::PolicyRefused { key, reason }) && key@
                    == "self_update.minimum_version"@ && reason@ == semver_text(version.source())
                    + " is below the minimum version "@ + semver_text(min.source())
            } else {
                r is Ok
            },
            None => r is Ok,
        },
{
    match &policy.minimum_version {
        Some(min) => {
            if version.compare(min) == -1 {
                let mut reason = owned(version.text());
                push_str(&mut reason, " is below the minimum version ");
                push_str(&mut reason, min.text());
                Err(SelfInstallError::PolicyRefused { key: "self_update.minimum_version", reason })
            } else {
                Ok(())
            }
        },
        None => Ok(()),
    }
}

/// The variable naming a mirror that replaces the app's source.
pub open spec fn base_url_var(app: Seq<char>) -> Seq<char> {
    env_prefix(app) + "_INSTALLER_BASE_URL"@
}

/// The source to download from: an enforced mirror, then
/// `<APP>_INSTALLER_BASE_URL` (HTTPS only), then the app's own declaration.
pub fn effective_source(env: &InstallEnv, opts: &SelfInstallOptions, policy: &SelfUpdatePolicy) -> (r:
    Result<ReleaseSource, SelfInstallError>)
    ensures
        match policy.base_url {
            Some(b) => r matches Ok(ReleaseSource::Http { base_url }) && base_url == b,
            None => match env_var(env.vars@, base_url_var(env.app@)) {
                Some(u) => if https_ok(u) {
                    r matches Ok(ReleaseSource::Http { base_url }) && base_url@ == u
                } else {
                    r matches Err(SelfInstallError::BadRequest(m)) && m@ == base_url_var(env.app@)
                        + ": "@ + "self-install URL "@ + debug_repr(u) + " must use https://"@
                },
                None => r == Ok::<ReleaseSource, SelfInstallError>(opts@.source),
            },
        },
{
    if let Some(base_url) = &policy.base_url {
        return Ok(ReleaseSource::Http { base_url: base_url.clone() });
    }
    let mut var = env_var_prefix(env.app.as_str());
    push_str(&mut var, "_INSTALLER_BASE_URL");
    match env.var(var.as_str()) {
        Some(u) => match check_https(u) {
            Ok(()) => Ok(ReleaseSource::Http { base_url: owned(u) }),
            Err(e) => {
                let mut m = var;
                push_str(&mut m, ": ");
                push_str(&mut m, e.as_str());
                Err(SelfInstallError::BadRequest(m))
            },
        },
        None => Ok(opts.source().clone()),
    }
}

/// The token sent to GitHub: `<APP>_GITHUB_TOKEN`, then `GITHUB_TOKEN`;
/// never for another source.
pub fn github_token(env: &InstallEnv, source: &ReleaseSource) -> (r: Option<String>)
    ensures
        match source {
            ReleaseSource::Github { .. } => match env_var(env.vars@, env_prefix(env.app@) + "_GITHUB_TOKEN"@) {
                Some(t) => r matches Some(s) && s@ == t,
                None => match env_var(env.vars@, "GITHUB_TOKEN"@) {
                    Some(t) => r matches Some(s) && s@ == t,
                    None => r is None,
                },
            },
            ReleaseSource::Http { .. } => r is None,
        },
{
    match source {
        ReleaseSource::Github { .. } => {
            let mut var = env_var_prefix(env.app.as_str());
            push_str(&mut var, "_GITHUB_TOKEN");
            match env.var(var.as_str()) {
                Some(t) => Some(owned(t)),
                None => match env.var("GITHUB_TOKEN") {
                    Some(t) => Some(owned(t)),
                    None => None,
                },
            }
        },
        ReleaseSource::Http { .. } => None,
    }
}

/// What `self update` settled before fetching anything.
#[derive(Debug)]
pub struct UpdatePlan {
    pub current: SemVer,
    pub channel: Channel,
}

/// What `self update` settles before fetching: refused when updates are
/// disabled; the running version must read, the target (if any) must read,
/// and `--from` names no target; then the channel is chosen.
pub open spec fn update_plan_spec(
    version: Seq<char>,
    allows: bool,
    enforced: Option<Seq<char>>,
    target: Option<Seq<char>>,
    from: bool,
    recorded: Seq<char>,
    r: Result<UpdatePlan, SelfInstallError>,
) -> bool {
    let cur = strip_leading(version, 'v');
    if !allows {
        r matches Err(SelfInstallError::PolicyRefused { key, reason }) && key@
            == "self_update.enabled"@ && reason@ == "self update is disabled"@
    } else if !semver_parses(cur) {
        r matches Err(SelfInstallError::BadRequest(m)) && m@ == "the running version "@ + debug_repr(
            version,
        ) + " is not semver: "@ + semver_error(cur)
    } else {
        match target {
            Some(t) => match parsed_channel(t) {
                Err(e) => r matches Err(SelfInstallError::BadRequest(m)) && m@ == e,
                Ok(q) => if from {
                    r matches Err(SelfInstallError::BadRequest(m)) && m@
                        == "--from installs the archive's own version; do not also name one"@
                } else {
                    channel_choice(Some(q), recorded, enforced, plan_channel(r))
                        && (r matches Ok(p) ==> p.current.source() == cur)
                },
            },
            None => channel_choice(None, recorded, enforced, plan_channel(r)) && (r matches Ok(p)
                ==> p.current.source() == cur),
        }
    }
}

/// A plan's channel, errors passed through.
pub open spec fn plan_channel(r: Result<UpdatePlan, SelfInstallError>) -> Result<Channel, SelfInstallError> {
    match r {
        Ok(p) => Ok(p.channel),
        Err(e) => Err(e),
    }
}

/// The checks `self update` makes before fetching: updates allowed, the
/// running version reads, the requested target reads, `--from` names no
/// target, and the channel is allowed.
pub fn plan_update(env: &InstallEnv, policy: &SelfUpdatePolicy, req: &UpdateRequest, recorded_channel: &str) -> (r:
    Result<UpdatePlan, SelfInstallError>)
    ensures
        update_plan_spec(
            env.version@,
            policy.allows_update_spec(),
            opt_view(policy.channel),
            opt_view(req.target),
            req.from is Some,
            recorded_channel@,
            r,
        ),
{
    if !policy.allows_update() {
        return Err(
            SelfInstallError::PolicyRefused {
                key: "self_update.enabled",
                reason: owned("self update is disabled"),
            },
        );
    }
    let current = running_version(env.version.as_str())?;
    let requested = match &req.target {
        Some(t) => match Channel::parse(t.as_str()) {
            Ok(c) => Some(c),
            Err(m) => {
                return Err(SelfInstallError::BadRequest(m));
            },
        },
        None => None,
    };
    if req.from.is_some() && requested.is_some() {
        return Err(
            SelfInstallError::BadRequest(
                owned("--from installs the archive's own version; do not also name one"),
            ),
        );
    }
    let channel = choose_channel(requested, recorded_channel, policy)?;
    Ok(UpdatePlan { current, channel })
}

/// What an update decides once the target version is known: stop as up to
/// date or as available, refuse, or go on (`None`). From a local archive
/// the minimum is checked first; from a release a downgrade is refused
/// unless the version was named.
pub fn target_verdict(
    policy: &SelfUpdatePolicy,
    req: &UpdateRequest,
    current: &SemVer,
    target: &SemVer,
    exact: bool,
    invocation: &str,
) -> (r: Result<Option<UpdateAction>, SelfInstallError>)
    ensures
        ({
            let c = semver_cmp(target.source(), current.source());
            let below_min = policy.minimum_version matches Some(min) && semver_cmp(
                target.source(),
                min.source(),
            ) == -1;
            if req.from is Some {
                if below_min {
                    r matches Err(SelfInstallError::PolicyRefused { .. })
                } else if c == 0 && !req.force {
                    r == Ok::<Option<UpdateAction>, SelfInstallError>(Some(UpdateAction::UpToDate))
                } else if req.check {
                    r == Ok::<Option<UpdateAction>, SelfInstallError>(Some(UpdateAction::Available))
                } else {
                    r == Ok::<Option<UpdateAction>, SelfInstallError>(None)
                }
            } else {
                if c == 0 && !req.force {
                    r == Ok::<Option<UpdateAction>, SelfInstallError>(Some(UpdateAction::UpToDate))
                } else if c == -1 && !exact {
                    r matches Err(SelfInstallError::Downgrade { current: cur, target: tgt, invocation: inv })
                        && cur@ == semver_text(current.source()) && tgt@ == semver_text(target.source())
                        && inv@ == invocation@
                } else if below_min {
                    r matches Err(SelfInstallError::PolicyRefused { .. })
                } else if req.check {
                    r == Ok::<Option<UpdateAction>, SelfInstallError>(Some(UpdateAction::Available))
                } else {
                    r == Ok::<Option<UpdateAction>, SelfInstallError>(None)
                }
            }
        }),
{
    let c = target.compare(current);
    if req.from.is_some() {
        check_minimum(policy, target)?;
        if c == 0 && !req.force {
            return Ok(Some(UpdateAction::UpToDate));
        }
        if req.check {
            return Ok(Some(UpdateAction::Available));
        }
        return Ok(None);
    }
    if c == 0 && !req.force {
        return Ok(Some(UpdateAction::UpToDate));
    }
    if c == -1 && !exact {
        return Err(
            SelfInstallError::Downgrade {
                current: owned(current.text()),
                target: owned(target.text()),
                invocation: owned(invocation),
            },
        );
    }
    check_minimum(policy, target)?;
    if req.check {
        return Ok(Some(UpdateAction::Available));
    }
    Ok(None)
}

/// Refuse a release whose binary reports another version than its tag.
pub fn check_reported(reported: &SemVer, version: &SemVer, tag: &str) -> (r: Result<(), SelfInstallError>)
    ensures
        semver_cmp(reported.source(), version.source()) == 0 <==> r is Ok,
        r matches Err(e) ==> e matches SelfInstallError::BadRelease(m) && m@ == "release "@ + tag@
            + " holds a binary that reports version "@ + semver_text(reported.source()),
{
    if reported.compare(version) == 0 {
        Ok(())
    } else {
        let mut m = owned("release ");
        push_str(&mut m, tag);
        push_str(&mut m, " holds a binary that reports version ");
        push_str(&mut m, reported.text());
        Err(SelfInstallError::BadRelease(m))
    }
}

/// The receipt after an update to `target`: the running version becomes
/// the previous one, the target and triple are recorded, the channel too
/// when it has a name and the update did not come from a local archive.
pub fn updated_receipt(
    receipt: InstallReceipt,
    current: &SemVer,
    target: &SemVer,
    target_triple: &str,
    channel: &Channel,
    from_archive: bool,
    now: &str,
) -> (r: InstallReceipt)
    ensures
        r.previous_version matches Some(p) && p@ == semver_text(current.source()),
        r.version@ == semver_text(target.source()),
        r.target@ == target_triple@,
        r.installed_at@ == now@,
        r.channel@ == match (channel, from_archive) {
            (Channel::Stable, false) => "stable"@,
            (Channel::Latest, false) => "latest"@,
            _ => receipt.channel@,
        },
        r.app == receipt.app,
        r.bin_dir == receipt.bin_dir,
        r.binary_path == receipt.binary_path,
        r.method == receipt.method,
        r.modified_path == receipt.modified_path,
        r.completions == receipt.completions,
        r.source == receipt.source,
        r.system == receipt.system,
        r.apps_and_features == receipt.apps_and_features,
        r.schema_version == receipt.schema_version,
{
    let mut r = receipt;
    r.previous_version = Some(owned(current.text()));
    r.version = owned(target.text());
    r.target = owned(target_triple);
    if !from_archive {
        match channel.name() {
            Some(n) => {
                r.channel = owned(n);
            },
            None => {},
        }
    }
    r.installed_at = owned(now);
    r
}

/// What `self rollback` restores: the recorded previous version,
/// `unknown` when none is recorded.
pub open spec fn rollback_target(receipt: InstallReceipt) -> Seq<char> {
    match receipt.previous_version {
        Some(v) => v@,
        None => "unknown"@,
    }
}

/// The checks `self rollback` makes: rollback allowed, a kept `.prev`
/// exists, and the version it restores, when it reads as one, is not below
/// the enforced minimum.
pub fn plan_rollback(receipt: &InstallReceipt, policy: &SelfUpdatePolicy, prev: &str, prev_exists: bool) -> (r:
    Result<String, SelfInstallError>)
    ensures
        !policy.allows_update_spec() ==> (r matches Err(SelfInstallError::PolicyRefused { key, reason })
            && key@ == "self_update.enabled"@ && reason@ == "self rollback is disabled"@),
        policy.allows_update_spec() && !prev_exists ==> (r matches Err(
            SelfInstallError::NothingToRollBack { path },
        ) && path@ == prev@),
        r matches Ok(to) ==> to@ == rollback_target(*receipt) && policy.allows_update_spec() && prev_exists,
        policy.allows_update_spec() && prev_exists ==> (if semver_parses(rollback_target(*receipt))
            && (policy.minimum_version matches Some(min) && semver_cmp(
            rollback_target(*receipt),
            min.source(),
        ) == -1) {
            r matches Err(SelfInstallError::PolicyRefused { key, reason }) && key@
                == "self_update.minimum_version"@ && reason@ == semver_text(rollback_target(*receipt))
                + " is below the minimum version "@ + semver_text(
                policy.minimum_version->0.source(),
            )
        } else {
            r is Ok
        }),
{
    if !policy.allows_update() {
        return Err(
            SelfInstallError::PolicyRefused {
                key: "self_update.enabled",
                reason: owned("self rollback is disabled"),
            },
        );
    }
    if !prev_exists {
        return Err(SelfInstallError::NothingToRollBack { path: owned(prev) });
    }
    let to = match &receipt.previous_version {
        Some(v) => v.clone(),
        None => owned("unknown"),
    };
    proof {
        reveal_strlit("unknown");
    }
    match SemVer::parse(to.as_str()) {
        Ok(v) => {
            check_minimum(policy, &v)?;
        },
        Err(_) => {},
    }
    Ok(to)
}

/// The whitespace-separated words of a text, in order; `cur` is the word
/// read so far.
pub open spec fn words_from(s: Seq<char>, cur: Seq<char>) -> Seq<Seq<char>>
    decreases s.len(),
{
    let done: Seq<Seq<char>> = if cur.len() > 0 {
        seq![cur]
    } else {
        Seq::empty()
    };
    if s.len() == 0 {
        done
    } else if crate::text::is_space(s[0]) {
        done + words_from(s.drop_first(), Seq::empty())
    } else {
        words_from(s.drop_first(), cur.push(s[0]))
    }
}

/// What `str::split_whitespace` yields.
pub open spec fn words(s: Seq<char>) -> Seq<Seq<char>> {
    words_from(s, Seq::empty())
}

/// The first word that reads as a version once its leading `v`s are
/// dropped, so dropped.
pub open spec fn first_version(ws: Seq<Seq<char>>) -> Option<Seq<char>>
    decreases ws.len(),
{
    if ws.len() == 0 {
        None
    } else if semver_parses(strip_leading(ws[0], 'v')) {
        Some(strip_leading(ws[0], 'v'))
    } else {
        first_version(ws.drop_first())
    }
}

proof fn lemma_first_version_append(a: Seq<Seq<char>>, b: Seq<Seq<char>>)
    requires
        first_version(a) is None,
    ensures
        first_version(a + b) == first_version(b),
    decreases a.len(),
{
    if a.len() > 0 {
        assert((a + b).drop_first() =~= a.drop_first() + b);
        lemma_first_version_append(a.drop_first(), b);
    } else {
        assert(a + b =~= b);
    }
}

/// The version a binary's `--version` output names: the first word that
/// reads as one once leading `v`s are dropped.
pub fn version_in_output(text: &str) -> (r: Option<SemVer>)
    ensures
        match first_version(words(text@)) {
            Some(v) => r matches Some(x) && x.source() == v,
            None => r is None,
        },
{
    let chars = crate::text::chars_of(text);
    let ghost s = chars@;
    let mut cur: Vec<char> = Vec::new();
    let mut i: usize = 0;
    assert(s.subrange(0, s.len() as int) =~= s);
    while i < chars.len()
        invariant
            i <= s.len(),
            s == chars@,
            s == text@,
            first_version(words(text@)) == first_version(words_from(
                s.subrange(i as int, s.len() as int),
                cur@,
            )),
        decreases chars.len() - i,
    {
        let ghost rest = s.subrange(i as int, s.len() as int);
        assert(rest.drop_first() =~= s.subrange(i + 1, s.len() as int));
        assert(rest[0] == chars@[i as int]);
        let c = chars[i];
        let ghost done: Seq<Seq<char>> = if cur@.len() > 0 {
            seq![cur@]
        } else {
            Seq::empty()
        };
        assert(rest.len() > 0);
        assert(words_from(rest, cur@) == if crate::text::is_space(rest[0]) {
            done + words_from(rest.drop_first(), Seq::empty())
        } else {
            words_from(rest.drop_first(), cur@.push(rest[0]))
        });
        if crate::text::is_space_exec(c) {
            if cur.len() > 0 {
                let w = crate::text::string_of(cur.as_slice());
                let t = crate::text::string_of(strip_leading_exec(w.as_str(), 'v').as_slice());
                if let Ok(v) = SemVer::parse(t.as_str()) {
                    assert(first_version(seq![cur@] + words_from(rest.drop_first(), Seq::empty()))
                        == Some(strip_leading(cur@, 'v'))) by {
                        let ws = seq![cur@] + words_from(rest.drop_first(), Seq::empty());
                        assert(ws.len() > 0);
                        assert(ws[0] == cur@);
                    }
                    return Some(v);
                }
                proof {
                    let tail = words_from(rest.drop_first(), Seq::empty());
                    assert(t@ == strip_leading(cur@, 'v'));
                    assert(first_version(seq![cur@]) is None) by {
                        assert(seq![cur@].drop_first() =~= Seq::<Seq<char>>::empty());
                        assert(seq![cur@][0] == cur@);
                        assert(first_version(Seq::<Seq<char>>::empty()) is None);
                    }
                    lemma_first_version_append(seq![cur@], tail);
                }
                cur = Vec::new();
                assert(cur@ =~= Seq::<char>::empty());
                assert(first_version(words(text@)) == first_version(words_from(rest.drop_first(), cur@)));
            } else {
                proof {
                    assert(Seq::<Seq<char>>::empty() + words_from(rest.drop_first(), Seq::empty())
                        =~= words_from(rest.drop_first(), Seq::empty()));
                    assert(cur@ =~= Seq::<char>::empty());
                }
                assert(first_version(words(text@)) == first_version(words_from(rest.drop_first(), cur@)));
            }
        } else {
            let ghost before = cur@;
            cur.push(c);
            assert(cur@ == before.push(rest[0]));
            assert(first_version(words(text@)) == first_version(words_from(rest.drop_first(), cur@)));
        }
        i = i + 1;
    }
    assert(s.subrange(i as int, s.len() as int) =~= Seq::<char>::empty());
    assert(words_from(Seq::<char>::empty(), cur@) == if cur@.len() > 0 {
        seq![cur@]
    } else {
        Seq::<Seq<char>>::empty()
    });
    if cur.len() > 0 {
        let w = crate::text::string_of(cur.as_slice());
        let t = crate::text::string_of(strip_leading_exec(w.as_str(), 'v').as_slice());
        match SemVer::parse(t.as_str()) {
            Ok(v) => {
                assert(seq![cur@][0] == cur@);
                Some(v)
            },
            Err(_) => {
                assert(seq![cur@].drop_first() =~= Seq::<Seq<char>>::empty());
                assert(first_version(Seq::<Seq<char>>::empty()) is None);
                None
            },
        }
    } else {
        None
    }
}

/// An optional text as a plain value.
pub open spec fn opt_view(o: Option<String>) -> Option<Seq<char>> {
    match o {
        Some(s) => Some(s@),
        None => None,
    }
}

/// `after` is `before` rolled back: the recorded previous version (or
/// `unknown`) is the version now, the version before is the previous one,
/// and what the receipt says about the install is unchanged.
pub open spec fn rolled_back(before: InstallReceipt, after: InstallReceipt) -> bool {
    &&& after.version@ == rollback_target(before)
    &&& opt_view(after.previous_version) == Some(before.version@)
    &&& after.binary_path == before.binary_path
    &&& after.bin_dir == before.bin_dir
    &&& after.channel == before.channel
    &&& after.target == before.target
    &&& after.method == before.method
    &&& after.modified_path == before.modified_path
    &&& after.completions == before.completions
    &&& after.apps_and_features == before.apps_and_features
}

/// The receipt after a rollback to `to`: the versions swap.
pub fn rolled_back_receipt(receipt: InstallReceipt, to: String, now: &str) -> (r: (InstallReceipt, String))
    ensures
        r.0.version == to,
        r.1 == receipt.version,
        r.0.previous_version == Some(receipt.version),
        r.0.installed_at@ == now@,
        to@ == rollback_target(receipt) ==> rolled_back(receipt, r.0),
{
    let mut r = receipt;
    let from = r.version.clone();
    r.version = to;
    r.previous_version = Some(from.clone());
    r.installed_at = owned(now);
    (r, from)
}

/// Rolling back twice rolls forward again: the version and the recorded
/// previous version are the ones before the first rollback.
pub proof fn law_rollback_twice_restores(a: InstallReceipt, b: InstallReceipt, c: InstallReceipt)
    requires
        a.previous_version is Some,
        rolled_back(a, b),
        rolled_back(b, c),
    ensures
        c.version@ == a.version@,
        opt_view(c.previous_version) == opt_view(a.previous_version),
{
}

/// A rollback right after an update restores the version that was running
/// before it, and keeps the updated one as the previous version.
pub proof fn law_rollback_undoes_update(updated: InstallReceipt, after: InstallReceipt, current: Seq<char>, target: Seq<char>)
    requires
        opt_view(updated.previous_version) == Some(current),
        updated.version@ == target,
        rolled_back(updated, after),
    ensures
        after.version@ == current,
        opt_view(after.previous_version) == Some(target),
{
}

/// How long a lock file may stand before it is taken for one a crashed
/// run left behind, in seconds.
pub const STALE_LOCK_SECS: u64 = 900;

/// Where the update lock lives: `.<app>.lock` in the bin dir.
pub fn update_lock_path(bin_dir: &str, app: &str) -> (r: String)
    ensures
        r@ == path_join(bin_dir@, "."@ + app@ + ".lock"@),
{
    let mut name = owned(".");
    push_str(&mut name, app);
    push_str(&mut name, ".lock");
    join_path(bin_dir, name.as_str())
}

/// What one attempt to create the lock file found.
#[derive(Debug, Clone, PartialEq, Eq)]
pub enum LockAttempt {
    /// The file was created: the lock is ours.
    Created,
    /// The file exists; its age in whole seconds, rounded up, when it could
    /// be read.
    Exists { age_secs: Option<u64> },
    /// Creating it failed otherwise.
    Failed { message: String },
}

/// What to do after an attempt.
#[derive(Debug, Clone, PartialEq, Eq)]
pub enum LockStep {
    /// The lock is held.
    Acquired,
    /// Another run holds it.
    Locked,
    /// A stale lock: remove it and try again.
    RemoveStaleAndRetry,
    /// A stale lock on the last attempt: remove it, and report the lock as
    /// held.
    RemoveStaleThenLocked,
    /// Creating the lock failed.
    Failed { message: String },
}

/// The lock protocol, for attempt `attempt` (0 or 1): a created file is
/// ours; an existing one is another run's unless older than the stale
/// limit, in which case it is removed and tried once more; a second stale
/// lock is removed too, and the lock reported as held.
pub open spec fn lock_step_spec(attempt: u32, found: LockAttempt) -> LockStep {
    match found {
        LockAttempt::Created => LockStep::Acquired,
        LockAttempt::Exists { age_secs } => if age_secs matches Some(a) && a > STALE_LOCK_SECS {
            if attempt < 1 {
                LockStep::RemoveStaleAndRetry
            } else {
                LockStep::RemoveStaleThenLocked
            }
        } else {
            LockStep::Locked
        },
        LockAttempt::Failed { message } => LockStep::Failed { message },
    }
}

pub fn lock_step(attempt: u32, found: LockAttempt) -> (r: LockStep)
    ensures
        r == lock_step_spec(attempt, found),
{
    match found {
        LockAttempt::Created => LockStep::Acquired,
        LockAttempt::Exists { age_secs } => {
            let stale = match age_secs {
                Some(a) => a > STALE_LOCK_SECS,
                None => false,
            };
            if !stale {
                LockStep::Locked
            } else if attempt < 1 {
                LockStep::RemoveStaleAndRetry
            } else {
                LockStep::RemoveStaleThenLocked
            }
        },
        LockAttempt::Failed { message } => LockStep::Failed { message },
    }
}

/// The protocol never retries more than once: the second attempt ends it.
pub proof fn law_lock_attempts_are_bounded(found: LockAttempt)
    ensures
        !(lock_step_spec(1, found) is RemoveStaleAndRetry),
{
}

} // verus!
