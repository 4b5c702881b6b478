//! The six telemetry doctor checks: did the subscriber install, is the
//! settings store usable, can the collector be reached, is a policy
//! managing this install, which attribution mode is active, and did an
//! environment variable typo silently do nothing.
//!
//! A check whose subject is absent reports `Skipped`, never `Passed`; no
//! finding names the install or session identifier; every warning carries
//! a remediation. Reaching the collector is the caller's: it probes the
//! `host:port` this module reads from the endpoint and hands back what
//! happened.

use crate::doctor::{opt_text, CheckSeverity, DoctorFinding, FindingView};
use crate::telemetry::axes::Attribution;
use crate::telemetry::policy::TelemetryPolicy;
use crate::telemetry::store::StoreState;
use crate::telemetry::startup::StartupReport;
use crate::telemetry::subscriber::SubscriberOutcome;
use crate::text::{
    chars_of, first_index_of, find_char, is_ascii_digit, join_with, lemma_first_index_bounds, occurs_at,
    occurs_at_exec, owned, push_str, slice_range, string_of, strings,
};
use std::sync::Arc;
use vstd::prelude::*;

verus! {

// ───────────────────────── host:port ─────────────────────────

/// The first position from `i` on where `p` occurs in `s`; `s.len()` when
/// it does not.
pub open spec fn find_from(s: Seq<char>, p: Seq<char>, i: int) -> int
    decreases s.len() - i,
{
    if i < 0 || i >= s.len() || i + p.len() > s.len() {
        s.len() as int
    } else if occurs_at(s, p, i) {
        i
    } else {
        find_from(s, p, i + 1)
    }
}

proof fn lemma_find_from(s: Seq<char>, p: Seq<char>, i: int)
    requires
        0 <= i,
    ensures
        find_from(s, p, i) == s.len() || (i <= find_from(s, p, i) && find_from(s, p, i) + p.len() <= s.len()
            && occurs_at(s, p, find_from(s, p, i))),
    decreases s.len() - i,
{
    if i < s.len() && i + p.len() <= s.len() && !occurs_at(s, p, i) {
        lemma_find_from(s, p, i + 1);
    }
}

/// The last position of `c` in `s`; -1 when it does not occur.
pub open spec fn last_index_of(s: Seq<char>, c: char) -> int
    decreases s.len(),
{
    if s.len() == 0 {
        -1
    } else if s.last() == c {
        s.len() - 1
    } else {
        last_index_of(s.drop_last(), c)
    }
}

proof fn lemma_last_index(s: Seq<char>, c: char)
    ensures
        -1 <= last_index_of(s, c) < s.len(),
        last_index_of(s, c) >= 0 ==> s[last_index_of(s, c)] == c,
    decreases s.len(),
{
    if s.len() > 0 && s.last() != c {
        lemma_last_index(s.drop_last(), c);
    }
}

/// The value of a string of ASCII digits.
pub open spec fn digits_value(d: Seq<char>) -> int
    decreases d.len(),
{
    if d.len() == 0 {
        0
    } else {
        digits_value(d.drop_last()) * 10 + (d.last() as int - '0' as int)
    }
}

proof fn lemma_digits_grow(d: Seq<char>, k: int)
    requires
        0 <= k <= d.len(),
        forall|j: int| 0 <= j < d.len() ==> is_ascii_digit(#[trigger] d[j]),
    ensures
        digits_value(d.take(k)) <= digits_value(d),
        0 <= digits_value(d.take(k)),
    decreases d.len() - k,
{
    if k < d.len() {
        lemma_digits_grow(d, k + 1);
        assert(d.take(k + 1).drop_last() =~= d.take(k));
        assert(is_ascii_digit(d[k]));
    } else {
        assert(d.take(k) =~= d);
        lemma_digits_nonneg(d);
    }
}

proof fn lemma_digits_nonneg(d: Seq<char>)
    requires
        forall|j: int| 0 <= j < d.len() ==> is_ascii_digit(#[trigger] d[j]),
    ensures
        0 <= digits_value(d),
    decreases d.len(),
{
    if d.len() > 0 {
        assert(is_ascii_digit(d[d.len() - 1]));
        lemma_digits_nonneg(d.drop_last());
    }
}

/// The digits after an optional leading `+`.
pub open spec fn unsigned_digits(s: Seq<char>) -> Seq<char> {
    if s.len() > 0 && s[0] == '+' {
        s.drop_first()
    } else {
        s
    }
}

/// Every character is an ASCII digit.
pub open spec fn all_digits(d: Seq<char>) -> bool {
    forall|j: int| 0 <= j < d.len() ==> is_ascii_digit(#[trigger] d[j])
}

/// What `u16`'s `FromStr` reads: an optional `+`, then one or more ASCII
/// digits whose value fits.
pub open spec fn parse_u16(s: Seq<char>) -> Option<int> {
    let d = unsigned_digits(s);
    if d.len() > 0 && all_digits(d) && digits_value(d) <= 65535 {
        Some(digits_value(d))
    } else {
        None
    }
}

fn parse_u16_exec(s: &[char]) -> (r: Option<u16>)
    ensures
        match r {
            Some(v) => parse_u16(s@) == Some(v as int),
            None => parse_u16(s@) is None,
        },
{
    let start: usize = if s.len() > 0 && s[0] == '+' {
        1
    } else {
        0
    };
    let ghost d = unsigned_digits(s@);
    assert(d =~= s@.subrange(start as int, s@.len() as int));
    if start >= s.len() {
        return None;
    }
    let mut i: usize = start;
    let mut acc: u32 = 0;
    while i < s.len()
        invariant
            start <= i <= s@.len(),
            d =~= s@.subrange(start as int, s@.len() as int),
            d == unsigned_digits(s@),
            forall|j: int| 0 <= j < i - start ==> is_ascii_digit(#[trigger] d[j]),
            acc as int == digits_value(d.take(i - start)),
            acc <= 65535,
        decreases s.len() - i,
    {
        let c = s[i];
        assert(d[i - start] == s@[i as int]);
        if !('0' <= c && c <= '9') {
            assert(!is_ascii_digit(d[i - start]));
            return None;
        }
        assert(d.take(i - start + 1).drop_last() =~= d.take(i - start));
        assert(d.take(i - start + 1).last() == c);
        let next: u32 = acc * 10 + (c as u32 - '0' as u32);
        if next > 65535 {
            proof {
                assert forall|j: int| 0 <= j < i - start + 1 implies is_ascii_digit(#[trigger] d.take(i - start + 1)[j]) by {
                    if j < i - start {
                        assert(d.take(i - start + 1)[j] == d[j]);
                    }
                }
                if all_digits(d) {
                    lemma_digits_grow(d, i - start + 1);
                }
            }
            return None;
        }
        acc = next;
        i = i + 1;
    }
    assert(d.take(d.len() as int) =~= d);
    Some(acc as u16)
}

/// The endpoint without a leading `scheme://`.
pub open spec fn without_scheme(e: Seq<char>) -> Seq<char> {
    let i = find_from(e, "://"@, 0);
    if i < e.len() {
        e.subrange(i + 3, e.len() as int)
    } else {
        e
    }
}

/// The `host:port` of an endpoint, tolerating a leading `scheme://` and a
/// trailing path: the authority is split at its last `:`, the host must be
/// non-empty and the port must read as a `u16`.
pub open spec fn host_port_spec(endpoint: Seq<char>) -> Option<(Seq<char>, int)> {
    let w = without_scheme(endpoint);
    let a = w.subrange(0, first_index_of(w, '/'));
    let k = last_index_of(a, ':');
    if k < 0 {
        None
    } else {
        let host = a.subrange(0, k);
        let port = a.subrange(k + 1, a.len() as int);
        match parse_u16(port) {
            Some(p) => if host.len() > 0 {
                Some((host, p))
            } else {
                None
            },
            None => None,
        }
    }
}

fn find_seq(e: &Vec<char>, p: &Vec<char>) -> (r: usize)
    ensures
        r as int == find_from(e@, p@, 0),
{
    let mut i: usize = 0;
    while i < e.len()
        invariant
            i <= e@.len(),
            find_from(e@, p@, 0) == find_from(e@, p@, i as int),
        decreases e.len() - i,
    {
        if p.len() > e.len() - i {
            return e.len();
        }
        if occurs_at_exec(e.as_slice(), p.as_slice(), i) {
            return i;
        }
        i = i + 1;
    }
    e.len()
}

fn last_index_exec(a: &Vec<char>, c: char) -> (r: Option<usize>)
    ensures
        match r {
            Some(k) => last_index_of(a@, c) == k as int,
            None => last_index_of(a@, c) == -1,
        },
{
    let mut k: usize = a.len();
    assert(a@.take(a@.len() as int) =~= a@);
    while k > 0
        invariant
            k <= a@.len(),
            last_index_of(a@, c) == last_index_of(a@.take(k as int), c),
        decreases k,
    {
        assert(a@.take(k as int).drop_last() =~= a@.take(k - 1));
        if a[k - 1] == c {
            return Some(k - 1);
        }
        k = k - 1;
    }
    assert(a@.take(0) =~= Seq::<char>::empty());
    None
}

/// The `host:port` of an endpoint.
pub fn host_port(endpoint: &str) -> (r: Option<(String, u16)>)
    ensures
        match r {
            Some((h, p)) => host_port_spec(endpoint@) == Some((h@, p as int)),
            None => host_port_spec(endpoint@) is None,
        },
{
    let e = chars_of(endpoint);
    let sep = chars_of("://");
    proof {
        reveal_strlit("://");
        lemma_find_from(e@, sep@, 0);
    }
    let found = find_seq(&e, &sep);
    let w = if found < e.len() {
        slice_range(e.as_slice(), found + 3, e.len())
    } else {
        e.clone()
    };
    assert(w@ == without_scheme(endpoint@));
    let slash = find_char(w.as_slice(), '/');
    proof {
        lemma_first_index_bounds(w@, '/');
    }
    let a = slice_range(w.as_slice(), 0, slash);
    proof {
        lemma_last_index(a@, ':');
    }
    match last_index_exec(&a, ':') {
        None => None,
        Some(c) => {
            let host = slice_range(a.as_slice(), 0, c);
            let port = slice_range(a.as_slice(), c + 1, a.len());
            match parse_u16_exec(port.as_slice()) {
                Some(p) => if host.len() > 0 {
                    Some((string_of(host.as_slice()), p))
                } else {
                    None
                },
                None => None,
            }
        },
    }
}

// ───────────────────────── the checks ─────────────────────────

/// A finding with no detail, from plain values.
pub open spec fn plain(
    id: Seq<char>,
    title: Seq<char>,
    severity: CheckSeverity,
    message: Seq<char>,
    remediation: Option<Seq<char>>,
) -> FindingView {
    FindingView { check_id: id, title, severity, message, detail: None, remediation }
}

fn make(id: &str, title: &str, severity: CheckSeverity, message: String, remediation: Option<String>) -> (f:
    DoctorFinding)
    ensures
        f@ == plain(id@, title@, severity, message@, opt_text(remediation)),
{
    DoctorFinding {
        check_id: owned(id),
        title: owned(title),
        severity,
        message,
        detail: None,
        remediation,
    }
}

pub open spec fn subscriber_finding_spec(outcome: SubscriberOutcome) -> FindingView {
    match outcome {
            SubscriberOutcome::Installed => plain(
                "telemetry.subscriber"@,
                "Tracing subscriber"@,
                CheckSeverity::Passed,
                "the framework installed the tracing subscriber; spans and events reach the OTel bridge"@,
                None,
            ),
            SubscriberOutcome::ForeignSubscriber => plain(
                "telemetry.subscriber"@,
                "Tracing subscriber"@,
                CheckSeverity::Warning,
                "another crate already installed a tracing subscriber; traces and logs are not exported, but metrics are unaffected"@,
                Some(
                    "compose cli_framework::telemetry::init::otel_layer into your own subscriber instead of calling with_telemetry()"@,
                ),
            ),
        }
}

/// `telemetry.subscriber`: installed, or lost to another subscriber.
pub fn subscriber_finding(outcome: SubscriberOutcome) -> (f: DoctorFinding)
    ensures
        f@ == subscriber_finding_spec(outcome),
{
    match outcome {
        SubscriberOutcome::Installed => make(
            "telemetry.subscriber",
            "Tracing subscriber",
            CheckSeverity::Passed,
            owned(
                "the framework installed the tracing subscriber; spans and events reach the OTel bridge",
            ),
            None,
        ),
        SubscriberOutcome::ForeignSubscriber => make(
            "telemetry.subscriber",
            "Tracing subscriber",
            CheckSeverity::Warning,
            owned(
                "another crate already installed a tracing subscriber; traces and logs are not exported, but metrics are unaffected",
            ),
            Some(
                owned(
                    "compose cli_framework::telemetry::init::otel_layer into your own subscriber instead of calling with_telemetry()",
                ),
            ),
        ),
    }
}

pub open spec fn store_finding_spec(state: StoreState) -> FindingView {
    match state {
            StoreState::Ready(p) => plain(
                "telemetry.store"@,
                "Settings store"@,
                CheckSeverity::Passed,
                "the telemetry settings file is available at "@ + p@,
                None,
            ),
            StoreState::Unavailable(r) => plain(
                "telemetry.store"@,
                "Settings store"@,
                CheckSeverity::Warning,
                "the telemetry settings file is unavailable: "@ + r@,
                Some("check that the configuration directory exists and is writable by this user"@),
            ),
        }
}

/// `telemetry.store`: the settings file's availability.
pub fn store_finding(state: &StoreState) -> (f: DoctorFinding)
    ensures
        f@ == store_finding_spec(*state),
{
    match state {
        StoreState::Ready(p) => {
            let mut m = owned("the telemetry settings file is available at ");
            push_str(&mut m, p.as_str());
            make("telemetry.store", "Settings store", CheckSeverity::Passed, m, None)
        },
        StoreState::Unavailable(r) => {
            let mut m = owned("the telemetry settings file is unavailable: ");
            push_str(&mut m, r.as_str());
            make(
                "telemetry.store",
                "Settings store",
                CheckSeverity::Warning,
                m,
                Some(owned("check that the configuration directory exists and is writable by this user")),
            )
        },
    }
}

/// What probing the collector found.
#[derive(Debug, Clone, PartialEq, Eq)]
pub enum EndpointProbe {
    /// A connection was made.
    Reached,
    /// Resolving or connecting failed, with the reason.
    Failed(String),
    /// The probe itself could not run.
    NotRun,
    /// Nothing answered within the two-second bound.
    TimedOut,
}

/// The remedy for an unreachable collector.
pub open spec fn endpoint_remedy(endpoint: Seq<char>) -> Seq<char> {
    "confirm the collector at "@ + endpoint
        + " is reachable from this host, or unset the configured endpoint if this app should not export telemetry"@
}

pub open spec fn endpoint_finding_spec(endpoint: Option<Seq<char>>, probe: EndpointProbe) -> FindingView {
    match endpoint {
            None => plain(
                "telemetry.endpoint"@,
                "Collector reachability"@,
                CheckSeverity::Skipped,
                "no OTLP endpoint is configured"@,
                None,
            ),
            Some(e) => match probe {
                EndpointProbe::Reached => plain(
                    "telemetry.endpoint"@,
                    "Collector reachability"@,
                    CheckSeverity::Passed,
                    "reached the configured collector at "@ + e,
                    None,
                ),
                EndpointProbe::Failed(why) => plain(
                    "telemetry.endpoint"@,
                    "Collector reachability"@,
                    CheckSeverity::Warning,
                    "could not reach the configured collector at "@ + e + ": "@ + why@,
                    Some(endpoint_remedy(e)),
                ),
                EndpointProbe::NotRun => plain(
                    "telemetry.endpoint"@,
                    "Collector reachability"@,
                    CheckSeverity::Warning,
                    "could not check reachability of the configured collector at "@ + e,
                    Some(endpoint_remedy(e)),
                ),
                EndpointProbe::TimedOut => plain(
                    "telemetry.endpoint"@,
                    "Collector reachability"@,
                    CheckSeverity::Warning,
                    "timed out after 2s reaching the configured collector at "@ + e,
                    Some(endpoint_remedy(e)),
                ),
            },
        }
}

/// `telemetry.endpoint`: skipped without an endpoint; otherwise what the
/// probe found, an unreachable collector being a warning, never an error.
pub fn endpoint_finding(endpoint: Option<&str>, probe: &EndpointProbe) -> (f: DoctorFinding)
    ensures
        f@ == endpoint_finding_spec(match endpoint { Some(e) => Some(e@), None => None }, *probe),
{
    match endpoint {
        None => make(
            "telemetry.endpoint",
            "Collector reachability",
            CheckSeverity::Skipped,
            owned("no OTLP endpoint is configured"),
            None,
        ),
        Some(e) => {
            let mut remedy = owned("confirm the collector at ");
            push_str(&mut remedy, e);
            push_str(
                &mut remedy,
                " is reachable from this host, or unset the configured endpoint if this app should not export telemetry",
            );
            match probe {
                EndpointProbe::Reached => {
                    let mut m = owned("reached the configured collector at ");
                    push_str(&mut m, e);
                    make("telemetry.endpoint", "Collector reachability", CheckSeverity::Passed, m, None)
                },
                EndpointProbe::Failed(why) => {
                    let mut m = owned("could not reach the configured collector at ");
                    push_str(&mut m, e);
                    push_str(&mut m, ": ");
                    push_str(&mut m, why.as_str());
                    make(
                        "telemetry.endpoint",
                        "Collector reachability",
                        CheckSeverity::Warning,
                        m,
                        Some(remedy),
                    )
                },
                EndpointProbe::NotRun => {
                    let mut m = owned("could not check reachability of the configured collector at ");
                    push_str(&mut m, e);
                    make(
                        "telemetry.endpoint",
                        "Collector reachability",
                        CheckSeverity::Warning,
                        m,
                        Some(remedy),
                    )
                },
                EndpointProbe::TimedOut => {
                    let mut m = owned("timed out after 2s reaching the configured collector at ");
                    push_str(&mut m, e);
                    make(
                        "telemetry.endpoint",
                        "Collector reachability",
                        CheckSeverity::Warning,
                        m,
                        Some(remedy),
                    )
                },
            }
        },
    }
}

pub open spec fn policy_finding_spec() -> FindingView {
    plain(
            "telemetry.policy"@,
            "Managed policy"@,
            CheckSeverity::Skipped,
            "telemetry policy is not managed by an organizational policy client in this build"@,
            None,
        )
}

/// `telemetry.policy`: always skipped, since no organisational policy
/// client manages telemetry in this build.
pub fn policy_finding() -> (f: DoctorFinding)
    ensures
        f@ == policy_finding_spec(),
{
    make(
        "telemetry.policy",
        "Managed policy",
        CheckSeverity::Skipped,
        owned("telemetry policy is not managed by an organizational policy client in this build"),
        None,
    )
}

pub open spec fn identity_finding_spec(attribution: Attribution) -> FindingView {
    plain(
            "telemetry.identity"@,
            "Attribution"@,
            CheckSeverity::Passed,
            match attribution {
                Attribution::Anonymous => "attribution is anonymous; no install or session identifier is sent"@,
                Attribution::Pseudonymous => "attribution is pseudonymous; a locally minted install identifier is in use"@,
                Attribution::Identified => "attribution is identified; the application's identity hook supplies a principal"@,
            },
            None,
        )
}

/// `telemetry.identity`: the attribution mode, never the identifier.
pub fn identity_finding(attribution: Attribution) -> (f: DoctorFinding)
    ensures
        f@ == identity_finding_spec(attribution),
{
    let m = match attribution {
        Attribution::Anonymous => owned("attribution is anonymous; no install or session identifier is sent"),
        Attribution::Pseudonymous => owned(
            "attribution is pseudonymous; a locally minted install identifier is in use",
        ),
        Attribution::Identified => owned(
            "attribution is identified; the application's identity hook supplies a principal",
        ),
    };
    make("telemetry.identity", "Attribution", CheckSeverity::Passed, m, None)
}

pub open spec fn env_finding_spec(unmatched: Seq<Seq<char>>) -> FindingView {
    if unmatched.len() == 0 {
            plain(
                "telemetry.env"@,
                "Environment variables"@,
                CheckSeverity::Passed,
                "every <APP>_TELEMETRY_* variable that was set matched a known setting"@,
                None,
            )
        } else {
            plain(
                "telemetry.env"@,
                "Environment variables"@,
                CheckSeverity::Warning,
                "these variables were set but matched no known telemetry setting: "@ + join_with(
                    unmatched,
                    ", "@,
                ),
                Some("check for a typo against the documented <APP>_TELEMETRY_* variable names"@),
            )
        }
}

/// `telemetry.env`: every `<APP>_TELEMETRY_*` variable matched, or the
/// names that did not.
pub fn env_finding(unmatched: &Vec<String>) -> (f: DoctorFinding)
    ensures
        f@ == env_finding_spec(strings(unmatched@)),
{
    if unmatched.len() == 0 {
        make(
            "telemetry.env",
            "Environment variables",
            CheckSeverity::Passed,
            owned("every <APP>_TELEMETRY_* variable that was set matched a known setting"),
            None,
        )
    } else {
        let mut m = owned("these variables were set but matched no known telemetry setting: ");
        let joined = crate::text::join_strings(unmatched, ", ");
        push_str(&mut m, joined.as_str());
        make(
            "telemetry.env",
            "Environment variables",
            CheckSeverity::Warning,
            m,
            Some(owned("check for a typo against the documented <APP>_TELEMETRY_* variable names")),
        )
    }
}

/// One of the six telemetry checks, holding what it reads.
#[derive(Debug, Clone)]
pub enum TelemetryCheck {
    Subscriber(SubscriberCheck),
    Store(StoreCheck),
    Endpoint(EndpointCheck),
    Policy(PolicyCheck),
    Identity(IdentityCheck),
    Env(EnvCheck),
}

/// `telemetry.subscriber`.
#[derive(Debug, Clone)]
pub struct SubscriberCheck {
    pub report: Arc<StartupReport>,
}

/// `telemetry.store`.
#[derive(Debug, Clone)]
pub struct StoreCheck {
    pub report: Arc<StartupReport>,
}

/// `telemetry.endpoint`: the only check that does I/O, which the caller
/// performs.
#[derive(Debug, Clone)]
pub struct EndpointCheck {
    pub policy: Arc<TelemetryPolicy>,
}

/// `telemetry.policy`.
#[derive(Debug, Clone, Copy)]
pub struct PolicyCheck;

/// `telemetry.identity`.
#[derive(Debug, Clone)]
pub struct IdentityCheck {
    pub policy: Arc<TelemetryPolicy>,
}

/// `telemetry.env`.
#[derive(Debug, Clone)]
pub struct EnvCheck {
    pub report: Arc<StartupReport>,
}

impl SubscriberCheck {
    pub fn run(&self) -> (f: DoctorFinding)
        ensures
            f@ == subscriber_finding_spec(self.report.subscriber),
    {
        subscriber_finding(self.report.subscriber)
    }
}

impl StoreCheck {
    pub fn run(&self) -> (f: DoctorFinding)
        ensures
            f@ == store_finding_spec(self.report.store),
    {
        store_finding(&self.report.store)
    }
}

impl EndpointCheck {
    /// The endpoint to probe, if one is configured.
    pub fn endpoint(&self) -> (r: Option<&str>)
        ensures
            match r {
                Some(e) => self.policy.endpoint matches Some(s) && s@ == e@,
                None => self.policy.endpoint is None,
            },
    {
        match &self.policy.endpoint {
            Some(e) => Some(e.as_str()),
            None => None,
        }
    }

    /// The finding, given what probing the endpoint found.
    pub fn finding(&self, probe: &EndpointProbe) -> (f: DoctorFinding)
        ensures
            f@ == endpoint_finding_spec(opt_text(self.policy.endpoint), *probe),
    {
        endpoint_finding(self.endpoint(), probe)
    }
}

impl PolicyCheck {
    pub fn run(&self) -> (f: DoctorFinding)
        ensures
            f@ == policy_finding_spec(),
    {
        policy_finding()
    }
}

impl IdentityCheck {
    pub fn run(&self) -> (f: DoctorFinding)
        ensures
            f@ == identity_finding_spec(self.policy.attribution),
    {
        identity_finding(self.policy.attribution)
    }
}

impl EnvCheck {
    pub fn run(&self) -> (f: DoctorFinding)
        ensures
            f@ == env_finding_spec(strings(self.report.unmatched_env@)),
    {
        env_finding(&self.report.unmatched_env)
    }
}

impl TelemetryCheck {
    /// The check's fixed id.
    pub fn id(&self) -> (r: &'static str)
        ensures
            r@ == check_id(*self),
    {
        match self {
            TelemetryCheck::Subscriber(_) => "telemetry.subscriber",
            TelemetryCheck::Store(_) => "telemetry.store",
            TelemetryCheck::Endpoint(_) => "telemetry.endpoint",
            TelemetryCheck::Policy(_) => "telemetry.policy",
            TelemetryCheck::Identity(_) => "telemetry.identity",
            TelemetryCheck::Env(_) => "telemetry.env",
        }
    }
}

/// A check's fixed id.
pub open spec fn check_id(c: TelemetryCheck) -> Seq<char> {
    match c {
        TelemetryCheck::Subscriber(_) => "telemetry.subscriber"@,
        TelemetryCheck::Store(_) => "telemetry.store"@,
        TelemetryCheck::Endpoint(_) => "telemetry.endpoint"@,
        TelemetryCheck::Policy(_) => "telemetry.policy"@,
        TelemetryCheck::Identity(_) => "telemetry.identity"@,
        TelemetryCheck::Env(_) => "telemetry.env"@,
    }
}

/// The six checks, in the order the doctor lists them, reading the given
/// policy and startup report.
pub fn telemetry_checks(policy: Arc<TelemetryPolicy>, report: Arc<StartupReport>) -> (r: Vec<TelemetryCheck>)
    ensures
        r@.len() == 6,
        r@[0] matches TelemetryCheck::Subscriber(c) && *c.report == *report,
        r@[1] matches TelemetryCheck::Store(c) && *c.report == *report,
        r@[2] matches TelemetryCheck::Endpoint(c) && *c.policy == *policy,
        r@[3] is Policy,
        r@[4] matches TelemetryCheck::Identity(c) && *c.policy == *policy,
        r@[5] matches TelemetryCheck::Env(c) && *c.report == *report,
{
    let mut r: Vec<TelemetryCheck> = Vec::new();
    r.push(TelemetryCheck::Subscriber(SubscriberCheck { report: report.clone() }));
    r.push(TelemetryCheck::Store(StoreCheck { report: report.clone() }));
    r.push(TelemetryCheck::Endpoint(EndpointCheck { policy: policy.clone() }));
    r.push(TelemetryCheck::Policy(PolicyCheck));
    r.push(TelemetryCheck::Identity(IdentityCheck { policy }));
    r.push(TelemetryCheck::Env(EnvCheck { report }));
    r
}

} // verus!
