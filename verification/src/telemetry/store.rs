//! What the framework's own settings file holds, and whether it is usable.
//!
//! The file is `<config_dir>/<app>/telemetry.<json|toml>`. A store whose
//! directory cannot be created is unavailable; that is never a startup
//! failure: reads fall back to defaults, Attribution degrades to anonymous,
//! writes fail with the reason, and the doctor reports it. Reading and
//! writing the file is the caller's.

use crate::telemetry::axes::{Attribution, TelemetryLevel};
use crate::text::{join_path, owned, path_join, push_str, str_eq, strings};
use vstd::prelude::*;

verus! {

/// Schema version of `TelemetrySettings`.
pub const TELEMETRY_SCHEMA_VERSION: u32 = 1;

/// The format of the settings file; it follows the application's own.
#[derive(Debug, Clone, Copy, PartialEq, Eq, Structural)]
pub enum ConfigFormat {
    Json,
    Toml,
}

impl Default for ConfigFormat {
    fn default() -> (f: Self)
        ensures
            f == ConfigFormat::Json,
    {
        ConfigFormat::Json
    }
}

/// What an Install has stored about its own telemetry. Every field is
/// optional because "not chosen" and "chosen to be off" differ.
#[derive(Debug, Clone, PartialEq, Eq)]
pub struct TelemetrySettings {
    pub schema_version: u32,
    pub level: Option<TelemetryLevel>,
    pub attribution: Option<Attribution>,
    pub endpoint: Option<String>,
    pub install_id: Option<String>,
    /// The telemetry level that was announced when the notice was last shown.
    pub notice_shown: Option<TelemetryLevel>,
    /// `telemetry.<probe>.enabled` overrides, one per id. Absent means
    /// enabled.
    pub probes: Vec<(String, bool)>,
}

impl Default for TelemetrySettings {
    fn default() -> (s: Self)
        ensures
            s.schema_version == 0,
            s.level is None,
            s.attribution is None,
            s.endpoint is None,
            s.install_id is None,
            s.notice_shown is None,
            s.probes@.len() == 0,
    {
        TelemetrySettings {
            schema_version: 0,
            level: None,
            attribution: None,
            endpoint: None,
            install_id: None,
            notice_shown: None,
            probes: Vec::new(),
        }
    }
}

/// The overrides without any entry for `id`, in order.
pub open spec fn probes_without(p: Seq<(String, bool)>, id: Seq<char>) -> Seq<(String, bool)> {
    p.filter(not_id(id))
}

/// An entry for another id.
pub open spec fn not_id(id: Seq<char>) -> spec_fn((String, bool)) -> bool {
    |e: (String, bool)| e.0@ != id
}

/// The ids whose stored `enabled` is false, in order.
pub open spec fn disabled_ids(p: Seq<(String, bool)>) -> Seq<Seq<char>>
    decreases p.len(),
{
    if p.len() == 0 {
        Seq::empty()
    } else {
        let rest = disabled_ids(p.drop_last());
        if !p.last().1 {
            rest.push(p.last().0@)
        } else {
            rest
        }
    }
}

fn without(p: &Vec<(String, bool)>, id: &str) -> (out: Vec<(String, bool)>)
    ensures
        out@ == probes_without(p@, id@),
{
    let ghost pred = not_id(id@);
    let mut out: Vec<(String, bool)> = Vec::new();
    let mut i: usize = 0;
    while i < p.len()
        invariant
            i <= p@.len(),
            out@ == p@.take(i as int).filter(pred),
            pred == not_id(id@),
        decreases p.len() - i,
    {
        proof {
            reveal(Seq::filter);
            assert(p@.take(i + 1).drop_last() =~= p@.take(i as int));
            assert(p@.take(i + 1).last() == p@[i as int]);
        }
        if !str_eq(p[i].0.as_str(), id) {
            out.push((p[i].0.clone(), p[i].1));
        }
        i = i + 1;
    }
    assert(p@.take(p@.len() as int) =~= p@);
    out
}

impl TelemetrySettings {
    /// Store `enabled = false` for one probe id, replacing an earlier value.
    pub fn disable_probe(&mut self, id: &str)
        ensures
            final(self).probes@ == probes_without(old(self).probes@, id@).push(
                (final(self).probes@.last().0, false),
            ),
            final(self).probes@.last().0@ == id@,
            final(self).level == old(self).level,
            final(self).attribution == old(self).attribution,
            final(self).endpoint == old(self).endpoint,
            final(self).install_id == old(self).install_id,
            final(self).notice_shown == old(self).notice_shown,
            final(self).schema_version == old(self).schema_version,
    {
        let mut p = without(&self.probes, id);
        p.push((owned(id), false));
        self.probes = p;
    }

    /// Forget the stored value for one probe id: absent means enabled.
    pub fn enable_probe(&mut self, id: &str)
        ensures
            final(self).probes@ == probes_without(old(self).probes@, id@),
            final(self).level == old(self).level,
            final(self).attribution == old(self).attribution,
            final(self).endpoint == old(self).endpoint,
            final(self).install_id == old(self).install_id,
            final(self).notice_shown == old(self).notice_shown,
            final(self).schema_version == old(self).schema_version,
    {
        self.probes = without(&self.probes, id);
    }

    /// The probe ids stored as disabled, in order.
    pub fn disabled_probes(&self) -> (out: Vec<String>)
        ensures
            strings(out@) == disabled_ids(self.probes@),
    {
        let mut out: Vec<String> = Vec::new();
        let mut i: usize = 0;
        while i < self.probes.len()
            invariant
                i <= self.probes@.len(),
                strings(out@) == disabled_ids(self.probes@.take(i as int)),
            decreases self.probes.len() - i,
        {
            proof {
                assert(self.probes@.take(i + 1).drop_last() =~= self.probes@.take(i as int));
                assert(self.probes@.take(i + 1).last() == self.probes@[i as int]);
            }
            if !self.probes[i].1 {
                let ghost before = strings(out@);
                out.push(self.probes[i].0.clone());
                assert(strings(out@) =~= before.push(self.probes@[i as int].0@));
            }
            i = i + 1;
        }
        assert(self.probes@.take(self.probes@.len() as int) =~= self.probes@);
        out
    }
}

/// Whether the settings file is usable, and why not when it is not.
#[derive(Debug, Clone, PartialEq, Eq)]
pub enum StoreState {
    Ready(String),
    Unavailable(String),
}

impl Default for StoreState {
    fn default() -> (s: Self)
        ensures
            s matches StoreState::Unavailable(r) && r@ == "not opened"@,
    {
        StoreState::Unavailable(owned("not opened"))
    }
}

pub open spec fn describe_spec(s: StoreState) -> Seq<char> {
    match s {
        StoreState::Ready(path) => path@,
        StoreState::Unavailable(reason) => "unavailable: "@ + reason@,
    }
}

impl StoreState {
    pub fn is_ready(&self) -> (r: bool)
        ensures
            r == (*self is Ready),
    {
        match self {
            StoreState::Ready(_) => true,
            StoreState::Unavailable(_) => false,
        }
    }

    pub fn reason(&self) -> (r: Option<&str>)
        ensures
            match self {
                StoreState::Ready(_) => r is None,
                StoreState::Unavailable(reason) => r matches Some(s) && s@ == reason@,
            },
    {
        match self {
            StoreState::Ready(_) => None,
            StoreState::Unavailable(reason) => Some(reason.as_str()),
        }
    }

    /// One line for `telemetry status` and the doctor.
    pub fn describe(&self) -> (out: String)
        ensures
            out@ == describe_spec(*self),
    {
        match self {
            StoreState::Ready(path) => path.clone(),
            StoreState::Unavailable(reason) => {
                let mut s = owned("unavailable: ");
                push_str(&mut s, reason.as_str());
                s
            },
        }
    }
}

pub open spec fn settings_file_name_spec(format: ConfigFormat) -> Seq<char> {
    match format {
        ConfigFormat::Json => "telemetry.json"@,
        ConfigFormat::Toml => "telemetry.toml"@,
    }
}

/// The settings file's name for a configuration format.
pub fn settings_file_name(format: ConfigFormat) -> (r: &'static str)
    ensures
        r@ == settings_file_name_spec(format),
{
    match format {
        ConfigFormat::Json => "telemetry.json",
        ConfigFormat::Toml => "telemetry.toml",
    }
}

/// Where an app's settings file lives under a configuration directory.
pub fn settings_path(config_dir: &str, app: &str, format: ConfigFormat) -> (r: String)
    ensures
        r@ == path_join(path_join(config_dir@, app@), settings_file_name_spec(format)),
{
    let dir = join_path(config_dir, app);
    join_path(dir.as_str(), settings_file_name(format))
}

/// Why a store could not be opened because its directory could not be made.
pub fn cannot_create(dir: &str, error: &str) -> (s: StoreState)
    ensures
        s matches StoreState::Unavailable(r) && r@ == "cannot create "@ + dir@ + ": "@ + error@,
{
    let mut r = owned("cannot create ");
    push_str(&mut r, dir);
    push_str(&mut r, ": ");
    push_str(&mut r, error);
    StoreState::Unavailable(r)
}

/// The state of a platform without a configuration directory.
pub fn no_config_dir() -> (s: StoreState)
    ensures
        s matches StoreState::Unavailable(r) && r@
            == "this platform has no resolvable configuration directory"@,
{
    StoreState::Unavailable(owned("this platform has no resolvable configuration directory"))
}

/// Where a process's telemetry settings file lives: `dir: None` is the
/// platform configuration directory.
#[derive(Debug, Clone)]
pub struct TelemetryStoreLocation {
    pub dir: Option<String>,
    pub format: ConfigFormat,
}

impl Default for TelemetryStoreLocation {
    fn default() -> (l: Self)
        ensures
            l.dir is None,
            l.format == ConfigFormat::Json,
    {
        TelemetryStoreLocation { dir: None, format: ConfigFormat::Json }
    }
}

/// The install id to keep: the stored one, else the freshly minted one.
pub fn install_id_to_keep(stored: &Option<String>, minted: &str) -> (r: String)
    ensures
        match stored {
            Some(s) => r@ == s@,
            None => r@ == minted@,
        },
{
    match stored {
        Some(s) => s.clone(),
        None => owned(minted),
    }
}

/// Disabling a probe and enabling it again leaves no override for it.
pub proof fn law_enable_undoes_disable(p: Seq<(String, bool)>, id: Seq<char>, e: (String, bool))
    requires
        e.0@ == id,
    ensures
        probes_without(probes_without(p, id).push(e), id) == probes_without(p, id),
{
    let q = probes_without(p, id);
    let pred = not_id(id);
    reveal(Seq::filter);
    assert(q.push(e).drop_last() =~= q);
    assert(q.push(e).filter(pred) == q.filter(pred));
    assert(p.filter(pred).filter(pred) =~= p.filter(pred)) by {
        lemma_filter_idempotent(p, pred);
    }
}

proof fn lemma_filter_idempotent(s: Seq<(String, bool)>, pred: spec_fn((String, bool)) -> bool)
    ensures
        s.filter(pred).filter(pred) == s.filter(pred),
    decreases s.len(),
{
    reveal(Seq::filter);
    if s.len() > 0 {
        lemma_filter_idempotent(s.drop_last(), pred);
        let f = s.drop_last().filter(pred);
        if pred(s.last()) {
            assert(f.push(s.last()).drop_last() =~= f);
        }
    }
}

} // verus!
