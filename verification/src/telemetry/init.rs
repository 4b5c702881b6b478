//! The decisions taken when the export pipeline starts: which service
//! identity it reports, whether the configured protocol can be used, where
//! each signal is sent, and which metric labels survive.

use crate::telemetry::config::{supported_protocol, TelemetryConfig};
use crate::telemetry::policy::TelemetryPolicy;
use crate::telemetry::redact::{metric_label_allowlist, metric_label_is_allowed};
use crate::text::{lower_seq, owned, push_str, strings};
use vstd::prelude::*;

verus! {

/// The service name and version the resource reports: the config's value
/// where it carries one, else the caller's default.
pub fn resolve_service<'a>(
    config: &'a TelemetryConfig,
    service_name: &'a str,
    service_version: &'a str,
) -> (r: (&'a str, &'a str))
    ensures
        r.0@ == match config.service_name {
            Some(n) => n@,
            None => service_name@,
        },
        r.1@ == match config.service_version {
            Some(v) => v@,
            None => service_version@,
        },
{
    let name = match &config.service_name {
        Some(n) => n.as_str(),
        None => service_name,
    };
    let version = match &config.service_version {
        Some(v) => v.as_str(),
        None => service_version,
    };
    (name, version)
}

/// Whether start-up must refuse this config because its protocol is not the
/// one this crate can export with. The caller reports the refusal.
pub fn reject_unsupported_protocol(config: &TelemetryConfig) -> (r: bool)
    ensures
        r == (lower_seq(config.protocol@) != lower_seq(supported_protocol())),
{
    !config.protocol_is_supported()
}

/// `s` without its trailing `c`s.
pub open spec fn trim_end_char(s: Seq<char>, c: char) -> Seq<char>
    decreases s.len(),
{
    if s.len() > 0 && s.last() == c {
        trim_end_char(s.drop_last(), c)
    } else {
        s
    }
}

/// The OTLP URL of one signal: the endpoint without trailing slashes, then
/// `/v1/` and the signal's name.
pub fn signal_url(endpoint: &str, signal: &str) -> (r: String)
    ensures
        r@ == trim_end_char(endpoint@, '/') + "/v1/"@ + signal@,
{
    let mut n: usize = endpoint.unicode_len();
    assert(endpoint@.subrange(0, n as int) =~= endpoint@);
    while n > 0 && endpoint.get_char(n - 1) == '/'
        invariant
            n <= endpoint@.len(),
            trim_end_char(endpoint@.subrange(0, n as int), '/') == trim_end_char(endpoint@, '/'),
        decreases n,
    {
        assert(endpoint@.subrange(0, n as int).drop_last() =~= endpoint@.subrange(0, n - 1));
        n = n - 1;
    }
    let mut r = owned(endpoint.substring_char(0, n));
    push_str(&mut r, "/v1/");
    push_str(&mut r, signal);
    r
}

/// The keys of `s` that are on the metric-label allowlist, in order.
pub open spec fn allowed_labels(s: Seq<Seq<char>>) -> Seq<Seq<char>>
    decreases s.len(),
{
    if s.len() == 0 {
        Seq::empty()
    } else if metric_label_allowlist().contains(s.last()) {
        allowed_labels(s.drop_last()).push(s.last())
    } else {
        allowed_labels(s.drop_last())
    }
}

/// The candidates that may appear as metric labels, in their order.
pub fn view_keys_for_test(candidates: &[&str]) -> (r: Vec<String>)
    ensures
        strings(r@) == allowed_labels(candidates@.map_values(|k: &str| k@)),
{
    let ghost cs = candidates@.map_values(|k: &str| k@);
    let mut r: Vec<String> = Vec::new();
    let mut i: usize = 0;
    assert(strings(r@) =~= allowed_labels(cs.take(0)));
    while i < candidates.len()
        invariant
            i <= candidates@.len(),
            cs == candidates@.map_values(|k: &str| k@),
            strings(r@) == allowed_labels(cs.take(i as int)),
        decreases candidates.len() - i,
    {
        proof {
            assert(cs.take(i + 1).drop_last() =~= cs.take(i as int));
            assert(cs.take(i + 1).last() == candidates@[i as int]@);
        }
        let k = candidates[i];
        if metric_label_is_allowed(k) {
            let ghost before = strings(r@);
            r.push(owned(k));
            assert(strings(r@) =~= before.push(k@));
        }
        i = i + 1;
    }
    assert(cs.take(candidates@.len() as int) =~= cs);
    r
}

/// The head sampler a policy asks for.
#[derive(Debug, Clone, Copy, PartialEq, Eq, Structural)]
pub enum SamplerChoice {
    /// Keep every trace.
    AlwaysOn,
    /// Keep a sampled parent's children; decide a root by the policy's ratio.
    ParentBasedRatio,
}

/// End-user installs and `debug` sample everything; everything else samples
/// by ratio under a parent-based sampler.
pub fn sampler_for_policy(policy: &TelemetryPolicy) -> (r: SamplerChoice)
    ensures
        (r == SamplerChoice::AlwaysOn) == (policy.deployment is EndUser || policy.level
            == crate::telemetry::axes::TelemetryLevel::Debug),
{
    if policy.sampler_is_always_on() {
        SamplerChoice::AlwaysOn
    } else {
        SamplerChoice::ParentBasedRatio
    }
}

} // verus!
