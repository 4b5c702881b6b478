//! Probes: the named units telemetry is turned on and off by.
//!
//! A probe is `{ id, min_level, summary, sends }`. Ids are dotted and
//! hierarchical: `cli.command.args` is a child of `cli.command`, and a
//! disabled parent disables its whole subtree.

use crate::telemetry::axes::{level_rank, TelemetryLevel};
use crate::text::{
    chars_of, join_with, lemma_seq_less_irreflexive, lemma_seq_less_total,
    lemma_seq_less_transitive, lemma_split_nonempty, owned, push_all, push_str, seq_eq, seq_less,
    seqs, split_char, split_on, str_eq, str_in, str_less, string_in, strings, strs,
};
use vstd::prelude::*;

verus! {

/// First segments an application may not claim, because they collide with the
/// non-probe keys of the `telemetry.` configuration subtree.
pub open spec fn reserved_segment_names() -> Seq<Seq<char>> {
    seq![
        "level"@,
        "attribution"@,
        "install_id"@,
        "notice_shown"@,
        "endpoint"@,
        "traces"@,
        "metrics"@,
        "logs"@,
    ]
}

/// The reserved first segments, in order.
pub fn reserved_first_segments() -> (out: Vec<&'static str>)
    ensures
        strs(out@) == reserved_segment_names(),
{
    let out = vec!["level", "attribution", "install_id", "notice_shown", "endpoint", "traces", "metrics", "logs"];
    assert(strs(out@) =~= reserved_segment_names());
    out
}

/// One probe's declaration. `summary` and `sends` are shown by
/// `telemetry info`, so they are written for a person, not a developer.
#[derive(Debug, Clone, Copy, PartialEq, Eq)]
pub struct ProbeSpec {
    pub id: &'static str,
    pub min_level: TelemetryLevel,
    pub summary: &'static str,
    pub sends: &'static str,
}

#[derive(Debug, Clone, PartialEq, Eq)]
pub enum ProbeIdError {
    Malformed(String),
    Reserved(String, &'static str),
    Duplicate(String),
}

impl ProbeIdError {
    /// The error's text, code first.
    pub fn message(&self) -> (out: String)
        ensures
            match self {
                ProbeIdError::Malformed(id) => out@ == "PB001: probe id '"@ + id@
                    + "' is malformed; expected ^[a-z0-9]+(\\.[a-z0-9_]+)*$"@,
                ProbeIdError::Reserved(id, seg) => out@ == "PB002: probe id '"@ + id@
                    + "' starts with the reserved segment '"@ + seg@ + "'"@,
                ProbeIdError::Duplicate(id) => out@ == "PB003: duplicate probe id '"@ + id@ + "'"@,
            },
    {
        match self {
            ProbeIdError::Malformed(id) => {
                let mut out = owned("PB001: probe id '");
                push_str(&mut out, id.as_str());
                push_str(&mut out, "' is malformed; expected ^[a-z0-9]+(\\.[a-z0-9_]+)*$");
                out
            },
            ProbeIdError::Reserved(id, seg) => {
                let mut out = owned("PB002: probe id '");
                push_str(&mut out, id.as_str());
                push_str(&mut out, "' starts with the reserved segment '");
                push_str(&mut out, seg);
                push_str(&mut out, "'");
                out
            },
            ProbeIdError::Duplicate(id) => {
                let mut out = owned("PB003: duplicate probe id '");
                push_str(&mut out, id.as_str());
                push_str(&mut out, "'");
                out
            },
        }
    }
}

/// A character the id grammar admits: `[a-z0-9]`, plus `_` where allowed.
pub open spec fn is_id_char(c: char, underscore_ok: bool) -> bool {
    ('a' <= c && c <= 'z') || ('0' <= c && c <= '9') || (underscore_ok && c == '_')
}

/// A non-empty run of id characters.
pub open spec fn segment_ok(s: Seq<char>, underscore_ok: bool) -> bool {
    s.len() > 0 && forall|i: int| 0 <= i < s.len() ==> is_id_char(#[trigger] s[i], underscore_ok)
}

pub open spec fn first_segment(id: Seq<char>) -> Seq<char> {
    split_on(id, '.')[0]
}

/// The id matches `^[a-z0-9]+(\.[a-z0-9_]+)*$` and its first segment is not
/// reserved.
pub open spec fn valid_probe_id(id: Seq<char>) -> bool {
    &&& !reserved_segment_names().contains(first_segment(id))
    &&& segment_ok(first_segment(id), false)
    &&& forall|k: int|
        1 <= k < split_on(id, '.').len() ==> segment_ok(#[trigger] split_on(id, '.')[k], true)
}

fn segment_ok_exec(s: &Vec<char>, underscore_ok: bool) -> (r: bool)
    ensures
        r == segment_ok(s@, underscore_ok),
{
    if s.len() == 0 {
        return false;
    }
    let mut i: usize = 0;
    while i < s.len()
        invariant
            i <= s.len(),
            forall|j: int| 0 <= j < i ==> is_id_char(#[trigger] s@[j], underscore_ok),
        decreases s.len() - i,
    {
        let c = s[i];
        let ok = ('a' <= c && c <= 'z') || ('0' <= c && c <= '9') || (underscore_ok && c == '_');
        if !ok {
            return false;
        }
        i = i + 1;
    }
    true
}

/// Check an id against `^[a-z0-9]+(\.[a-z0-9_]+)*$` and the reserved list.
///
/// The reserved-segment check runs before the first segment's character-class
/// check: two reserved names (`install_id`, `notice_shown`) contain an
/// underscore, which the first segment's grammar otherwise forbids, and a
/// probe author who types one of those must see `Reserved`, not `Malformed`.
pub fn validate_probe_id(id: &str) -> (res: Result<(), ProbeIdError>)
    ensures
        res is Ok <==> valid_probe_id(id@),
        reserved_segment_names().contains(first_segment(id@)) ==> (res matches Err(
            ProbeIdError::Reserved(s, r),
        ) && s@ == id@ && r@ == first_segment(id@)),
        !reserved_segment_names().contains(first_segment(id@)) && !valid_probe_id(id@) ==> (
        res matches Err(ProbeIdError::Malformed(s)) && s@ == id@),
{
    let chars = chars_of(id);
    let parts = split_char(chars.as_slice(), '.');
    proof {
        lemma_split_nonempty(id@, '.');
    }
    assert(seqs(parts@)[0] == parts@[0]@);
    let reserved = reserved_first_segments();
    let mut r: usize = 0;
    while r < reserved.len()
        invariant
            r <= reserved.len(),
            strs(reserved@) == reserved_segment_names(),
            parts@.len() >= 1,
            parts@[0]@ == first_segment(id@),
            forall|j: int| 0 <= j < r ==> reserved_segment_names()[j] != first_segment(id@),
        decreases reserved.len() - r,
    {
        let rc = chars_of(reserved[r]);
        assert(strs(reserved@)[r as int] == reserved@[r as int]@);
        if seq_eq(rc.as_slice(), parts[0].as_slice()) {
            assert(reserved_segment_names()[r as int] == first_segment(id@));
            return Err(ProbeIdError::Reserved(owned(id), reserved[r]));
        }
        r = r + 1;
    }
    assert(!reserved_segment_names().contains(first_segment(id@)));
    if !segment_ok_exec(&parts[0], false) {
        return Err(ProbeIdError::Malformed(owned(id)));
    }
    let mut k: usize = 1;
    while k < parts.len()
        invariant
            1 <= k <= parts.len(),
            seqs(parts@) == split_on(id@, '.'),
            !reserved_segment_names().contains(first_segment(id@)),
            segment_ok(first_segment(id@), false),
            forall|j: int| 1 <= j < k ==> segment_ok(#[trigger] split_on(id@, '.')[j], true),
        decreases parts.len() - k,
    {
        assert(seqs(parts@)[k as int] == parts@[k as int]@);
        if !segment_ok_exec(&parts[k], true) {
            return Err(ProbeIdError::Malformed(owned(id)));
        }
        k = k + 1;
    }
    Ok(())
}

/// The first probe with this id.
pub open spec fn registry_find(s: Seq<ProbeSpec>, id: Seq<char>) -> Option<ProbeSpec>
    decreases s.len(),
{
    if s.len() == 0 {
        None
    } else if s[0].id@ == id {
        Some(s[0])
    } else {
        registry_find(s.drop_first(), id)
    }
}

/// Strictly increasing ids, every one valid.
pub open spec fn registry_wf(s: Seq<ProbeSpec>) -> bool {
    &&& forall|i: int, j: int| 0 <= i < j < s.len() ==> seq_less(s[i].id@, s[j].id@)
    &&& forall|i: int| 0 <= i < s.len() ==> valid_probe_id(#[trigger] s[i].id@)
}

pub proof fn lemma_find_some(s: Seq<ProbeSpec>, id: Seq<char>)
    ensures
        registry_find(s, id) is Some <==> exists|i: int| 0 <= i < s.len() && s[i].id@ == id,
        registry_find(s, id) matches Some(p) ==> s.contains(p) && p.id@ == id,
    decreases s.len(),
{
    if s.len() > 0 {
        lemma_find_some(s.drop_first(), id);
        if s[0].id@ != id {
            if exists|i: int| 0 <= i < s.len() && s[i].id@ == id {
                let i = choose|i: int| 0 <= i < s.len() && s[i].id@ == id;
                assert(s.drop_first()[i - 1].id@ == id);
            }
            if registry_find(s, id) is Some {
                let p = registry_find(s, id)->0;
                let k = choose|k: int| 0 <= k < s.drop_first().len() && s.drop_first()[k] == p;
                assert(s[k + 1] == p);
            }
        } else {
            assert(s[0] == s[0]);
        }
    }
}

/// Every probe an app knows about, kept sorted by id so `telemetry info` and
/// the generated manifest section are stable.
#[derive(Debug)]
pub struct ProbeRegistry {
    probes: Vec<ProbeSpec>,
}

impl View for ProbeRegistry {
    type V = Seq<ProbeSpec>;

    closed spec fn view(&self) -> Seq<ProbeSpec> {
        self.probes@
    }
}

impl ProbeRegistry {
    #[verifier::type_invariant]
    closed spec fn wf(self) -> bool {
        registry_wf(self.probes@)
    }

    pub fn new() -> (r: Self)
        ensures
            r@ == Seq::<ProbeSpec>::empty(),
    {
        ProbeRegistry { probes: Vec::new() }
    }

    /// Add one probe, keeping the ids sorted.
    pub fn register(&mut self, spec: ProbeSpec) -> (res: Result<(), ProbeIdError>)
        ensures
            !valid_probe_id(spec.id@) ==> res is Err && !(res matches Err(
                ProbeIdError::Duplicate(_),
            )) && final(self)@ == old(self)@,
            valid_probe_id(spec.id@) && registry_find(old(self)@, spec.id@) is Some ==> (
            res matches Err(ProbeIdError::Duplicate(s)) && s@ == spec.id@ && final(self)@ == old(
                self,
            )@),
            valid_probe_id(spec.id@) && registry_find(old(self)@, spec.id@) is None ==> (res is Ok
                && exists|k: int|
                0 <= k <= old(self)@.len() && final(self)@ == old(self)@.insert(k, spec)),
            registry_wf(final(self)@),
    {
        proof {
            use_type_invariant(&*self);
        }
        match validate_probe_id(spec.id) {
            Err(e) => {
                return Err(e);
            },
            Ok(()) => {},
        }
        let n = self.probes.len();
        let mut k: usize = 0;
        while k < n && str_less(self.probes[k].id, spec.id)
            invariant
                k <= n,
                n == self.probes@.len(),
                registry_wf(self.probes@),
                forall|j: int| 0 <= j < k ==> seq_less(self.probes@[j].id@, spec.id@),
            decreases n - k,
        {
            k = k + 1;
        }
        if k < n && str_eq(self.probes[k].id, spec.id) {
            proof {
                lemma_find_some(self.probes@, spec.id@);
            }
            return Err(ProbeIdError::Duplicate(owned(spec.id)));
        }
        let ghost old_s = self.probes@;
        proof {
            if k < n {
                lemma_seq_less_total(old_s[k as int].id@, spec.id@);
            }
            assert forall|j: int| k <= j < n implies seq_less(spec.id@, #[trigger] old_s[j].id@) by {
                if j > k {
                    lemma_seq_less_transitive(spec.id@, old_s[k as int].id@, old_s[j].id@);
                }
            }
            assert forall|j: int| 0 <= j < n implies old_s[j].id@ != spec.id@ by {
                if j < k {
                    lemma_seq_less_irreflexive(spec.id@);
                } else {
                    lemma_seq_less_irreflexive(spec.id@);
                }
            }
            lemma_find_some(old_s, spec.id@);
        }
        let mut probes = Vec::new();
        std::mem::swap(&mut probes, &mut self.probes);
        probes.insert(k, spec);
        let ghost s = probes@;
        assert(s == old_s.insert(k as int, spec));
        assert forall|i: int, j: int| 0 <= i < j < s.len() implies seq_less(s[i].id@, s[j].id@) by {
            if j < k {
                assert(s[i] == old_s[i] && s[j] == old_s[j]);
            } else if j == k {
                assert(s[i] == old_s[i]);
            } else if i < k {
                assert(s[i] == old_s[i] && s[j] == old_s[j - 1]);
            } else if i == k {
                assert(s[j] == old_s[j - 1]);
            } else {
                assert(s[i] == old_s[i - 1] && s[j] == old_s[j - 1]);
            }
        }
        assert forall|i: int| 0 <= i < s.len() implies valid_probe_id(#[trigger] s[i].id@) by {
            if i < k {
                assert(s[i] == old_s[i]);
            } else if i > k {
                assert(s[i] == old_s[i - 1]);
            }
        }
        self.probes = probes;
        Ok(())
    }

    pub fn get(&self, id: &str) -> (r: Option<&ProbeSpec>)
        ensures
            match r {
                Some(p) => registry_find(self@, id@) == Some(*p),
                None => registry_find(self@, id@) is None,
            },
    {
        let mut i: usize = 0;
        assert(self.probes@.subrange(0, self.probes@.len() as int) =~= self.probes@);
        while i < self.probes.len()
            invariant
                i <= self.probes@.len(),
                registry_find(self.probes@, id@) == registry_find(
                    self.probes@.subrange(i as int, self.probes@.len() as int),
                    id@,
                ),
            decreases self.probes.len() - i,
        {
            let ghost rest = self.probes@.subrange(i as int, self.probes@.len() as int);
            assert(rest.drop_first() =~= self.probes@.subrange(i + 1, self.probes@.len() as int));
            if str_eq(self.probes[i].id, id) {
                return Some(&self.probes[i]);
            }
            i = i + 1;
        }
        None
    }

    pub fn contains(&self, id: &str) -> (r: bool)
        ensures
            r == registry_find(self@, id@) is Some,
    {
        self.get(id).is_some()
    }

    /// The probes, sorted by id; no id occurs twice and every id is valid.
    pub fn iter(&self) -> (out: &[ProbeSpec])
        ensures
            out@ == self@,
            registry_wf(out@),
    {
        proof {
            use_type_invariant(self);
        }
        self.probes.as_slice()
    }

    pub fn len(&self) -> (n: usize)
        ensures
            n == self@.len(),
    {
        self.probes.len()
    }

    pub fn is_empty(&self) -> (r: bool)
        ensures
            r == (self@.len() == 0),
    {
        self.probes.len() == 0
    }
}

impl Clone for ProbeRegistry {
    fn clone(&self) -> (r: Self)
        ensures
            r@ == self@,
    {
        proof {
            use_type_invariant(self);
        }
        let mut probes: Vec<ProbeSpec> = Vec::new();
        let mut i: usize = 0;
        while i < self.probes.len()
            invariant
                i <= self.probes@.len(),
                probes@ == self.probes@.subrange(0, i as int),
            decreases self.probes.len() - i,
        {
            probes.push(self.probes[i]);
            i = i + 1;
        }
        assert(probes@ =~= self.probes@);
        ProbeRegistry { probes }
    }
}

impl Default for ProbeRegistry {
    fn default() -> (r: Self)
        ensures
            r@ == Seq::<ProbeSpec>::empty(),
    {
        ProbeRegistry::new()
    }
}

/// The ancestor-or-self of `id` made of its first `k` segments.
pub open spec fn id_prefix(id: Seq<char>, k: int) -> Seq<char> {
    join_with(split_on(id, '.').take(k), seq!['.'])
}

/// `effective(probe) = level >= probe.min_level && every registered
/// ancestor-or-self is enabled`, with `off` recording nothing. `disabled`
/// holds the ids whose stored `enabled` is false; a probe with no stored
/// value is enabled.
pub open spec fn probe_effective(
    reg: Seq<ProbeSpec>,
    level: TelemetryLevel,
    id: Seq<char>,
    disabled: Seq<Seq<char>>,
) -> bool {
    match registry_find(reg, id) {
        None => false,
        Some(spec) => {
            &&& level != TelemetryLevel::Off
            &&& level_rank(level) >= level_rank(spec.min_level)
            &&& forall|k: int|
                1 <= k <= split_on(id, '.').len() ==> (registry_find(reg, #[trigger] id_prefix(id, k))
                    is Some ==> !disabled.contains(id_prefix(id, k)))
        },
    }
}

/// Whether one probe may emit at this level.
pub fn effective(
    registry: &ProbeRegistry,
    level: TelemetryLevel,
    id: &str,
    disabled: &[String],
) -> (r: bool)
    ensures
        r == probe_effective(registry@, level, id@, strings(disabled@)),
{
    let spec = match registry.get(id) {
        None => {
            return false;
        },
        Some(s) => *s,
    };
    if level == TelemetryLevel::Off || level.rank() < spec.min_level.rank() {
        return false;
    }
    let chars = chars_of(id);
    let parts = split_char(chars.as_slice(), '.');
    let ghost segs = split_on(id@, '.');
    let mut prefix: Vec<char> = Vec::new();
    let mut k: usize = 0;
    while k < parts.len()
        invariant
            k <= parts.len(),
            seqs(parts@) == segs,
            segs == split_on(id@, '.'),
            k > 0 ==> prefix@ == id_prefix(id@, k as int),
            k == 0 ==> prefix@ == Seq::<char>::empty(),
            forall|j: int|
                1 <= j <= k ==> (registry_find(registry@, #[trigger] id_prefix(id@, j)) is Some
                    ==> !strings(disabled@).contains(id_prefix(id@, j))),
        decreases parts.len() - k,
    {
        if k > 0 {
            prefix.push('.');
        }
        let ghost before = prefix@;
        let mut p: usize = 0;
        while p < parts[k].len()
            invariant
                k < parts.len(),
                p <= parts@[k as int]@.len(),
                prefix@ == before + parts@[k as int]@.subrange(0, p as int),
            decreases parts@[k as int]@.len() - p,
        {
            prefix.push(parts[k][p]);
            p = p + 1;
        }
        proof {
            assert(parts@[k as int]@.subrange(0, p as int) =~= parts@[k as int]@);
            assert(seqs(parts@)[k as int] == parts@[k as int]@);
            let t = segs.take(k + 1);
            if k == 0 {
                assert(t =~= seq![segs[0]]);
                assert(before =~= Seq::<char>::empty());
                assert(prefix@ =~= segs[0]);
            } else {
                assert(t.drop_last() =~= segs.take(k as int));
                assert(t.last() == segs[k as int]);
                assert(prefix@ =~= id_prefix(id@, k as int) + seq!['.'] + segs[k as int]);
            }
            assert(prefix@ == id_prefix(id@, k + 1));
        }
        let text = crate::text::string_of(prefix.as_slice());
        if registry.contains(text.as_str()) && string_in(disabled, text.as_str()) {
            return false;
        }
        k = k + 1;
    }
    true
}

/// What marking a feature does.
#[derive(Debug, Clone, Copy, PartialEq, Eq, Structural)]
pub enum FeatureOutcome {
    /// Registered: emit the event and the metric with a `feature` label.
    Recorded,
    /// Not registered: emit the event, warn once for this name, never label.
    Unregistered,
}

pub fn feature_outcome(registered: &[&str], name: &str) -> (r: FeatureOutcome)
    ensures
        r == (if strs(registered@).contains(name@) {
            FeatureOutcome::Recorded
        } else {
            FeatureOutcome::Unregistered
        }),
{
    if str_in(registered, name) {
        FeatureOutcome::Recorded
    } else {
        FeatureOutcome::Unregistered
    }
}

} // verus!
