//! The passive update notice: after a successful command, one stderr line
//! when a newer release exists. This module decides when it stays silent
//! and how long a cached answer stands.

use crate::self_install::env::{env_var, InstallEnv};
use crate::self_install::layout::env_var_prefix;
use crate::self_install::method::{upgrade_command, upgrade_command_spec, InstallMethod};
use crate::self_install::ops::SelfInstallError;
use crate::self_install::receipt::InstallReceipt;
use crate::self_install::release::{channel_parse, Channel};
use crate::self_install::version::{semver_cmp, semver_parses, semver_text, SemVer};
use crate::telemetry::policy::env_prefix;
use crate::self_install::options::SelfInstallOptions;
use crate::text::{chars_of, is_prefix_of, join_path, owned, path_join, push_str, str_eq, strings, trim_seq};
use std::sync::Arc;
use vstd::prelude::*;

verus! {

/// The cache file's name inside `<state_root>/<app>`.
pub open spec fn check_cache_file() -> Seq<char> {
    "update-check.json"@
}

/// How long an answer, or a failure, stands: a day, in seconds.
pub const CHECK_INTERVAL_SECS: u64 = 86_400;

/// The last check's answer.
#[derive(Debug, Clone, PartialEq, Eq)]
pub struct CheckCache {
    /// Unix seconds of the last attempt, successful or not.
    pub checked_at: u64,
    /// The newest version found; `None` when the attempt failed.
    pub latest: Option<String>,
}

/// An answer stands while it is under a day old; one from the future (a
/// clock set back) counts as stale.
pub fn cache_is_fresh(checked_at: u64, now: u64) -> (r: bool)
    ensures
        r == (now >= checked_at && now - checked_at < CHECK_INTERVAL_SECS),
{
    now >= checked_at && now - checked_at < CHECK_INTERVAL_SECS
}

/// Everything the notice needs, captured at build time.
pub struct UpdateNotice {
    app: String,
    version: String,
    options: Arc<SelfInstallOptions>,
    self_invocation: String,
    /// argv prefixes (after the binary) the notice never follows.
    exempt: Vec<Vec<String>>,
}

/// The words of an argv after the binary that are not options.
pub open spec fn command_words(argv: Seq<String>) -> Seq<Seq<char>>
    decreases argv.len(),
{
    if argv.len() <= 1 {
        Seq::empty()
    } else {
        let rest = command_words(argv.drop_last());
        let w = argv.last()@;
        if is_prefix_of("-"@, w) {
            rest
        } else {
            rest.push(w)
        }
    }
}

/// Whether a prefix starts the words.
pub open spec fn starts_words(prefix: Seq<Seq<char>>, words: Seq<Seq<char>>) -> bool {
    prefix.len() <= words.len() && forall|i: int| 0 <= i < prefix.len() ==> #[trigger] prefix[i]
        == words[i]
}

fn with_leaf(namespace: &[String], leaf: &str) -> (v: Vec<String>)
    ensures
        strings(v@) == strings(namespace@).push(leaf@),
{
    let mut v: Vec<String> = Vec::new();
    let mut i: usize = 0;
    while i < namespace.len()
        invariant
            i <= namespace@.len(),
            strings(v@) == strings(namespace@).take(i as int),
        decreases namespace.len() - i,
    {
        let ghost before = strings(v@);
        v.push(namespace[i].clone());
        assert(strings(v@) =~= before.push(namespace@[i as int]@));
        assert(strings(namespace@).take(i + 1) =~= strings(namespace@).take(i as int).push(
            namespace@[i as int]@,
        ));
        i = i + 1;
    }
    assert(strings(namespace@).take(namespace@.len() as int) =~= strings(namespace@));
    let ghost before = strings(v@);
    v.push(owned(leaf));
    assert(strings(v@) =~= before.push(leaf@));
    v
}

impl UpdateNotice {
    /// The notice for an app whose built-in commands live under `namespace`.
    pub fn new(app: &str, version: &str, options: Arc<SelfInstallOptions>, namespace: &[String]) -> (
        n: Self)
        ensures
            n.exempt_prefixes().len() == 3,
            n.exempt_prefixes()[0] == strings(namespace@).push("self"@),
            n.exempt_prefixes()[1] == strings(namespace@).push("completion"@),
            n.exempt_prefixes()[2] == seq!["mcp"@, "serve"@],
            n.self_invocation_spec() == crate::text::join_with(
                seq![app@] + strings(namespace@).push("self"@),
                " "@,
            ),
    {
        let self_words = with_leaf(namespace, "self");
        let mut invocation = owned(app);
        let mut i: usize = 0;
        proof {
            reveal_strlit(" ");
        }
        while i < self_words.len()
            invariant
                i <= self_words@.len(),
                invocation@ == crate::text::join_with(
                    seq![app@] + strings(self_words@).take(i as int),
                    " "@,
                ),
            decreases self_words.len() - i,
        {
            let ghost parts = seq![app@] + strings(self_words@).take(i + 1);
            assert(parts.drop_last() =~= seq![app@] + strings(self_words@).take(i as int));
            assert(parts.last() == self_words@[i as int]@);
            push_str(&mut invocation, " ");
            push_str(&mut invocation, self_words[i].as_str());
            i = i + 1;
        }
        assert(strings(self_words@).take(self_words@.len() as int) =~= strings(self_words@));
        let completion = with_leaf(namespace, "completion");
        let mcp: Vec<String> = vec![owned("mcp"), owned("serve")];
        let ghost e0 = strings(self_words@);
        let ghost e1 = strings(completion@);
        let ghost e2 = strings(mcp@);
        assert(e2 =~= seq!["mcp"@, "serve"@]);
        let exempt = vec![self_words, completion, mcp];
        let n = UpdateNotice {
            app: owned(app),
            version: owned(version),
            options,
            self_invocation: invocation,
            exempt,
        };
        assert(n.exempt_prefixes() =~= seq![e0, e1, e2]);
        n
    }

    pub closed spec fn exempt_prefixes(&self) -> Seq<Seq<Seq<char>>> {
        self.exempt@.map_values(|v: Vec<String>| strings(v@))
    }

    pub closed spec fn self_invocation_spec(&self) -> Seq<char> {
        self.self_invocation@
    }

    /// How a person invokes the self group, for the notice's message.
    pub fn self_invocation(&self) -> (r: &str)
        ensures
            r@ == self.self_invocation_spec(),
    {
        self.self_invocation.as_str()
    }

    /// Whether the command in `argv` is one the notice never follows: the
    /// `self` group, `completion`, or `mcp serve`, options ignored.
    pub fn exempt(&self, argv: &[String]) -> (r: bool)
        ensures
            r == exists|k: int|
                0 <= k < self.exempt_prefixes().len() && starts_words(
                    #[trigger] self.exempt_prefixes()[k],
                    command_words(argv@),
                ),
    {
        let mut words: Vec<String> = Vec::new();
        let mut i: usize = 1;
        proof {
            reveal_strlit("-");
        }
        if argv.len() > 1 {
            assert(command_words(argv@.take(1)) =~= Seq::<Seq<char>>::empty());
        }
        while i < argv.len()
            invariant
                1 <= i,
                i <= argv@.len() || argv@.len() == 0,
                argv@.len() > 0 ==> strings(words@) == command_words(argv@.take(i as int)),
                argv@.len() == 0 ==> words@.len() == 0,
            decreases argv.len() - i,
        {
            proof {
                assert(argv@.take(i + 1).drop_last() =~= argv@.take(i as int));
                assert(argv@.take(i + 1).last() == argv@[i as int]);
            }
            let w = chars_of(argv[i].as_str());
            proof {
                reveal_strlit("-");
            }
            if !(w.len() > 0 && w[0] == '-') {
                assert(!is_prefix_of("-"@, argv@[i as int]@)) by {
                    if is_prefix_of("-"@, argv@[i as int]@) {
                        assert(argv@[i as int]@.subrange(0, 1)[0] == argv@[i as int]@[0]);
                        assert("-"@[0] == '-');
                    }
                }
                let ghost before = strings(words@);
                words.push(argv[i].clone());
                assert(strings(words@) =~= before.push(argv@[i as int]@));
            } else {
                assert(argv@[i as int]@.subrange(0, 1) =~= "-"@);
                assert(is_prefix_of("-"@, argv@[i as int]@));
            }
            i = i + 1;
        }
        proof {
            if argv@.len() > 0 {
                assert(argv@.take(argv@.len() as int) =~= argv@);
            } else {
                assert(command_words(argv@) =~= Seq::<Seq<char>>::empty());
                assert(strings(words@) =~= Seq::<Seq<char>>::empty());
            }
        }
        let ghost ws = strings(words@);
        let mut k: usize = 0;
        while k < self.exempt.len()
            invariant
                k <= self.exempt@.len(),
                ws == strings(words@),
                ws == command_words(argv@),
                forall|j: int|
                    0 <= j < k ==> !starts_words(#[trigger] self.exempt_prefixes()[j], ws),
            decreases self.exempt.len() - k,
        {
            let prefix = &self.exempt[k];
            assert(self.exempt_prefixes()[k as int] == strings(prefix@));
            if prefix.len() <= words.len() {
                let mut j: usize = 0;
                let mut all = true;
                while j < prefix.len()
                    invariant
                        j <= prefix@.len(),
                        prefix@.len() <= words@.len(),
                        all == forall|m: int| 0 <= m < j ==> prefix@[m]@ == words@[m]@,
                    decreases prefix.len() - j,
                {
                    if !str_eq(prefix[j].as_str(), words[j].as_str()) {
                        all = false;
                    }
                    j = j + 1;
                }
                if all {
                    assert(starts_words(strings(prefix@), ws));
                    return true;
                }
                assert(!starts_words(strings(prefix@), ws)) by {
                    if starts_words(strings(prefix@), ws) {
                        assert forall|m: int| 0 <= m < prefix@.len() implies prefix@[m]@ == words@[m]@ by {
                            assert(strings(prefix@)[m] == ws[m]);
                        }
                    }
                }
            }
            k = k + 1;
        }
        false
    }
}

/// Where the cache lives: `<state_root>/<app>/update-check.json`.
pub fn check_cache_path(env: &InstallEnv) -> (r: Option<String>)
    ensures
        match r {
            Some(p) => env.state_root matches Some(root) && p@ == path_join(
                path_join(root@, env.app@),
                check_cache_file(),
            ),
            None => env.state_root is None,
        },
{
    match &env.state_root {
        Some(root) => {
            let dir = join_path(root.as_str(), env.app.as_str());
            Some(join_path(dir.as_str(), "update-check.json"))
        },
        None => None,
    }
}

/// Whether the notice stays silent in this environment: on CI, or when
/// `<APP>_NO_UPDATE_CHECK` is set.
pub open spec fn notice_suppressed_spec(e: InstallEnv) -> bool {
    env_var(e.vars@, "CI"@) is Some || env_var(e.vars@, env_prefix(e.app@) + "_NO_UPDATE_CHECK"@) is Some
}

pub fn notice_suppressed(env: &InstallEnv) -> (r: bool)
    ensures
        r == notice_suppressed_spec(*env),
{
    if env.var("CI").is_some() {
        return true;
    }
    let mut key = env_var_prefix(env.app.as_str());
    push_str(&mut key, "_NO_UPDATE_CHECK");
    env.var(key.as_str()).is_some()
}

/// A channel's kind: stable, latest or an exact version's text.
pub open spec fn channel_kind(c: Channel) -> (int, Seq<char>) {
    match c {
        Channel::Stable => (0, Seq::empty()),
        Channel::Latest => (1, Seq::empty()),
        Channel::Exact(v) => (2, v.source()),
    }
}

/// The channel a receipt's text names; stable when it names none.
pub open spec fn receipt_channel(raw: Seq<char>) -> (int, Seq<char>) {
    match channel_parse(raw) {
        Ok(Some(v)) => (2, v),
        Ok(None) => if trim_seq(raw) == "latest"@ {
            (1, Seq::empty())
        } else {
            (0, Seq::empty())
        },
        Err(_) => (0, Seq::empty()),
    }
}

/// Which release line the notice watches, and what it tells a person to
/// run.
pub struct NoticeAction {
    pub channel: Channel,
    pub action: String,
}

/// The notice's channel and action, when the binary can act on one: a
/// self-managed install follows its receipt's channel (stable when the
/// policy enforces it) and is told to `self update`; a package-manager
/// install watches stable and is told its manager's upgrade command; any
/// other install gets no notice.
pub fn notice_action(
    env: &InstallEnv,
    managed: Result<InstallReceipt, SelfInstallError>,
    path_method: Option<InstallMethod>,
    policy_channel: Option<&str>,
) -> (r: Option<NoticeAction>)
    ensures
        match managed {
            Ok(rc) => r matches Some(n) && n.action@ == "run `"@ + env.self_invocation@ + " update`"@
                && channel_kind(n.channel) == if policy_channel matches Some(p) && p@ == "stable"@ {
                (0int, Seq::<char>::empty())
            } else {
                receipt_channel(rc.channel@)
            },
            Err(SelfInstallError::ManagedByPackageManager { .. }) => match path_method {
                Some(m) => match upgrade_command_spec(m, env.app@) {
                    Some(cmd) => r matches Some(n) && n.action@ == "run `"@ + cmd + "`"@
                        && n.channel is Stable,
                    None => r is None,
                },
                None => r is None,
            },
            Err(_) => r is None,
        },
{
    let (channel, action) = match managed {
        Ok(rc) => {
            let c = match Channel::parse(rc.channel.as_str()) {
                Ok(c) => c,
                Err(_) => Channel::Stable,
            };
            proof {
                reveal_strlit("latest");
                reveal_strlit("stable");
                assert("stable"@[0] != "latest"@[0]);
                assert(channel_kind(c) == receipt_channel(rc.channel@));
            }
            let mut a = owned("run `");
            push_str(&mut a, env.self_invocation.as_str());
            push_str(&mut a, " update`");
            (c, a)
        },
        Err(SelfInstallError::ManagedByPackageManager { .. }) => {
            let command = match path_method {
                Some(m) => match upgrade_command(m, env.app.as_str()) {
                    Some(c) => c,
                    None => {
                        return None;
                    },
                },
                None => {
                    return None;
                },
            };
            let mut a = owned("run `");
            push_str(&mut a, command.as_str());
            push_str(&mut a, "`");
            (Channel::Stable, a)
        },
        Err(_) => {
            return None;
        },
    };
    let channel = match policy_channel {
        Some(p) => if str_eq(p, "stable") {
            Channel::Stable
        } else {
            channel
        },
        None => channel,
    };
    Some(NoticeAction { channel, action })
}

/// The notice line: when the newest release found parses and is above the
/// running version, `<app> <latest> is available (you have <current>);
/// <action>`.
pub fn notice_text(app: &str, current: &SemVer, latest: Option<&str>, action: &str) -> (r: Option<String>)
    ensures
        match latest {
            Some(l) => if semver_parses(l@) && semver_cmp(l@, current.source()) > 0 {
                r matches Some(t) && t@ == app@ + " "@ + semver_text(l@) + " is available (you have "@
                    + semver_text(current.source()) + "); "@ + action@
            } else {
                r is None
            },
            None => r is None,
        },
{
    let l = match latest {
        Some(l) => l,
        None => {
            return None;
        },
    };
    let newest = match SemVer::parse(l) {
        Ok(v) => v,
        Err(_) => {
            return None;
        },
    };
    if newest.compare(current) <= 0 {
        return None;
    }
    let mut t = owned(app);
    push_str(&mut t, " ");
    push_str(&mut t, newest.text());
    push_str(&mut t, " is available (you have ");
    push_str(&mut t, current.text());
    push_str(&mut t, "); ");
    push_str(&mut t, action);
    Some(t)
}

} // verus!
