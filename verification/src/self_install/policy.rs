//! The `self_update.*` keys an organisation enforces through managed
//! configuration. Only the enforced tree counts: a recommendation cannot stop
//! a person from updating their own binary, and every refusal names the key
//! that caused it.

use crate::self_install::options::{check_https, https_ok, strip_leading, strip_leading_exec};
use crate::self_install::version::{semver_parses, SemVer};
use crate::text::{owned, str_eq, string_of};
use vstd::prelude::*;

verus! {

pub open spec fn key_enabled() -> Seq<char> {
    "self_update.enabled"@
}

pub open spec fn key_channel() -> Seq<char> {
    "self_update.channel"@
}

pub open spec fn key_base_url() -> Seq<char> {
    "self_update.base_url"@
}

pub open spec fn key_minimum_version() -> Seq<char> {
    "self_update.minimum_version"@
}

/// A value of the enforced tree, as far as these keys read it.
#[derive(Debug, Clone, PartialEq, Eq)]
pub enum PolicyValue {
    Bool(bool),
    Str(String),
    /// A number, list or object.
    Other,
}

/// The first value enforced under `key`.
pub open spec fn enforced_get(enforced: Seq<(String, PolicyValue)>, key: Seq<char>) -> Option<PolicyValue>
    decreases enforced.len(),
{
    if enforced.len() == 0 {
        None
    } else if enforced[0].0@ == key {
        Some(enforced[0].1)
    } else {
        enforced_get(enforced.subrange(1, enforced.len() as int), key)
    }
}

fn enforced_lookup<'a>(enforced: &'a [(String, PolicyValue)], key: &str) -> (r: Option<&'a PolicyValue>)
    ensures
        match r {
            Some(v) => enforced_get(enforced@, key@) == Some(*v),
            None => enforced_get(enforced@, key@) is None,
        },
{
    let mut i: usize = 0;
    assert(enforced@.subrange(0, enforced@.len() as int) =~= enforced@);
    while i < enforced.len()
        invariant
            i <= enforced@.len(),
            enforced_get(enforced@, key@) == enforced_get(
                enforced@.subrange(i as int, enforced@.len() as int),
                key@,
            ),
        decreases enforced.len() - i,
    {
        let ghost rest = enforced@.subrange(i as int, enforced@.len() as int);
        assert(rest[0] == enforced@[i as int]);
        assert(rest.subrange(1, rest.len() as int) =~= enforced@.subrange(i + 1, enforced@.len() as int));
        if str_eq(enforced[i].0.as_str(), key) {
            return Some(&enforced[i].1);
        }
        i = i + 1;
    }
    None
}

/// The enforced `self_update.*` values. The default is "no policy".
#[derive(Debug)]
pub struct SelfUpdatePolicy {
    /// `false` disables `self update`, `self rollback` and the notice.
    pub enabled: Option<bool>,
    /// `stable` or `latest`: the only channel updates may follow.
    pub channel: Option<String>,
    /// An HTTPS mirror that replaces the app's release source.
    pub base_url: Option<String>,
    /// No update or rollback may land below this version.
    pub minimum_version: Option<SemVer>,
    /// Keys present with a value of the wrong type or shape. They are
    /// reported, and the safe reading applies: a malformed `enabled` counts
    /// as `false`.
    pub malformed: Vec<String>,
}

impl Default for SelfUpdatePolicy {
    fn default() -> (p: Self)
        ensures
            p.enabled is None,
            p.channel is None,
            p.base_url is None,
            p.minimum_version is None,
            p.malformed@.len() == 0,
    {
        SelfUpdatePolicy {
            enabled: None,
            channel: None,
            base_url: None,
            minimum_version: None,
            malformed: Vec::new(),
        }
    }
}

/// What `enabled` reads from the enforced value.
pub open spec fn enabled_of(v: Option<PolicyValue>) -> Option<bool> {
    match v {
        None => None,
        Some(PolicyValue::Bool(b)) => Some(b),
        Some(_) => Some(false),
    }
}

/// Whether the enforced `channel` value is one of the two accepted names.
pub open spec fn channel_ok(v: Option<PolicyValue>) -> bool {
    v matches Some(PolicyValue::Str(s)) && (s@ == "stable"@ || s@ == "latest"@)
}

/// Whether the enforced `base_url` value is an acceptable HTTPS URL.
pub open spec fn base_url_ok(v: Option<PolicyValue>) -> bool {
    v matches Some(PolicyValue::Str(s)) && https_ok(s@)
}

/// Whether the enforced `minimum_version` value reads as a version.
pub open spec fn minimum_ok(v: Option<PolicyValue>) -> bool {
    v matches Some(PolicyValue::Str(s)) && semver_parses(strip_leading(s@, 'v'))
}

/// The keys present with a value that does not read, in key order.
pub open spec fn malformed_keys(enforced: Seq<(String, PolicyValue)>) -> Seq<Seq<char>> {
    let e = enforced_get(enforced, key_enabled());
    let c = enforced_get(enforced, key_channel());
    let b = enforced_get(enforced, key_base_url());
    let m = enforced_get(enforced, key_minimum_version());
    (if e is Some && !(e matches Some(PolicyValue::Bool(_))) {
        seq![key_enabled()]
    } else {
        Seq::empty()
    }) + (if c is Some && !channel_ok(c) {
        seq![key_channel()]
    } else {
        Seq::empty()
    }) + (if b is Some && !base_url_ok(b) {
        seq![key_base_url()]
    } else {
        Seq::empty()
    }) + (if m is Some && !minimum_ok(m) {
        seq![key_minimum_version()]
    } else {
        Seq::empty()
    })
}

impl SelfUpdatePolicy {
    /// Read the keys from an enforced tree, given as `(key, value)` pairs.
    pub fn from_policy(enforced: &[(String, PolicyValue)]) -> (p: Self)
        ensures
            p.enabled == enabled_of(enforced_get(enforced@, key_enabled())),
            match p.channel {
                Some(s) => channel_ok(enforced_get(enforced@, key_channel())) && enforced_get(
                    enforced@,
                    key_channel(),
                ) == Some(PolicyValue::Str(s)),
                None => !channel_ok(enforced_get(enforced@, key_channel())),
            },
            match p.base_url {
                Some(s) => base_url_ok(enforced_get(enforced@, key_base_url())) && enforced_get(
                    enforced@,
                    key_base_url(),
                ) == Some(PolicyValue::Str(s)),
                None => !base_url_ok(enforced_get(enforced@, key_base_url())),
            },
            match p.minimum_version {
                Some(v) => minimum_ok(enforced_get(enforced@, key_minimum_version()))
                    && (enforced_get(enforced@, key_minimum_version()) matches Some(
                    PolicyValue::Str(s),
                ) && v.source() == strip_leading(s@, 'v')),
                None => !minimum_ok(enforced_get(enforced@, key_minimum_version())),
            },
            crate::text::strings(p.malformed@) == malformed_keys(enforced@),
    {
        proof {
            reveal_strlit("stable");
            reveal_strlit("latest");
        }
        let mut out = SelfUpdatePolicy::default();
        let ghost e0 = out.malformed@;
        match enforced_lookup(enforced, "self_update.enabled") {
            None => {},
            Some(PolicyValue::Bool(b)) => {
                out.enabled = Some(*b);
            },
            Some(_) => {
                out.enabled = Some(false);
                out.malformed.push(owned("self_update.enabled"));
            },
        }
        let ghost e1 = out.malformed@;
        match enforced_lookup(enforced, "self_update.channel") {
            None => {},
            Some(PolicyValue::Str(s)) => {
                if str_eq(s.as_str(), "stable") || str_eq(s.as_str(), "latest") {
                    out.channel = Some(s.clone());
                } else {
                    out.malformed.push(owned("self_update.channel"));
                }
            },
            Some(_) => {
                out.malformed.push(owned("self_update.channel"));
            },
        }
        let ghost e2 = out.malformed@;
        match enforced_lookup(enforced, "self_update.base_url") {
            None => {},
            Some(PolicyValue::Str(s)) => {
                if check_https(s.as_str()).is_ok() {
                    out.base_url = Some(s.clone());
                } else {
                    out.malformed.push(owned("self_update.base_url"));
                }
            },
            Some(_) => {
                out.malformed.push(owned("self_update.base_url"));
            },
        }
        let ghost e3 = out.malformed@;
        match enforced_lookup(enforced, "self_update.minimum_version") {
            None => {},
            Some(PolicyValue::Str(s)) => {
                let t = string_of(strip_leading_exec(s.as_str(), 'v').as_slice());
                match SemVer::parse(t.as_str()) {
                    Ok(v) => {
                        out.minimum_version = Some(v);
                    },
                    Err(_) => {
                        out.malformed.push(owned("self_update.minimum_version"));
                    },
                }
            },
            Some(_) => {
                out.malformed.push(owned("self_update.minimum_version"));
            },
        }
        assert(crate::text::strings(out.malformed@) =~= malformed_keys(enforced@));
        out
    }

    /// Whether updates are allowed at all: unless `enabled` is `false`.
    pub open spec fn allows_update_spec(&self) -> bool {
        self.enabled != Some(false)
    }

    /// Whether updates are allowed at all.
    pub fn allows_update(&self) -> (r: bool)
        ensures
            r == self.allows_update_spec(),
    {
        !matches!(self.enabled, Some(false))
    }
}

} // verus!
