//! W3C Trace Context on the way in: reading a caller's `traceparent` so a
//! request continues the caller's trace instead of starting its own. Only
//! `traceparent` and `tracestate` are read; baggage is not propagated.

use opentelemetry::propagation::TextMapPropagator;
use opentelemetry::trace::TraceContextExt;
use opentelemetry::Context;
use opentelemetry_sdk::propagation::TraceContextPropagator;
use std::collections::HashMap;
use vstd::prelude::*;

verus! {

/// What the W3C trace-context propagator reads out of a set of headers:
/// whether the span context it yields is valid, and its trace and span ids
/// in lower-case hex.
pub uninterp spec fn trace_context_fields(headers: Seq<(Seq<char>, Seq<char>)>) -> (bool, Seq<char>, Seq<char>);

/// The span context a caller's headers carry, as plain values.
#[derive(Debug, Clone, PartialEq, Eq)]
pub struct RemoteContext {
    /// Whether a usable remote span came with the request.
    pub valid: bool,
    /// The trace id, 32 lower-case hex digits (all zeros when invalid).
    pub trace_id: String,
    /// The span id, 16 lower-case hex digits (all zeros when invalid).
    pub span_id: String,
}

pub open spec fn pairs(v: Seq<(String, String)>) -> Seq<(Seq<char>, Seq<char>)> {
    v.map_values(|p: (String, String)| (p.0@, p.1@))
}

/// The headers a request with this `traceparent` (none when `None`) hands
/// the propagator.
pub open spec fn carrier(traceparent: Option<&str>) -> Seq<(Seq<char>, Seq<char>)> {
    match traceparent {
        Some(v) => seq![("traceparent"@, v@)],
        None => Seq::empty(),
    }
}

/// `TraceContextPropagator::extract_with_context` on a map of the given
/// headers (a later value for a name replacing an earlier one), starting
/// from an empty `Context::new()` rather than the thread's current one, then
/// the resulting context's span context: `is_valid`, `trace_id` and
/// `span_id` as `Display` writes them. Starting from an empty context, the
/// result depends on the headers alone.
#[verifier::external_body]
fn propagator_extract(headers: &Vec<(String, String)>) -> (r: (bool, String, String))
    ensures
        (r.0, r.1@, r.2@) == trace_context_fields(pairs(headers@)),
{
    let map: HashMap<String, String> = headers.iter().cloned().collect();
    let cx = TraceContextPropagator::new().extract_with_context(&Context::new(), &map);
    let span = cx.span();
    let sc = span.span_context();
    (sc.is_valid(), sc.trace_id().to_string(), sc.span_id().to_string())
}

/// Read a remote parent context out of an inbound request's `traceparent`
/// header (`None` when the request has none).
pub fn extract_context(traceparent: Option<&str>) -> (cx: RemoteContext)
    ensures
        (cx.valid, cx.trace_id@, cx.span_id@) == trace_context_fields(carrier(traceparent)),
{
    let mut headers: Vec<(String, String)> = Vec::new();
    if let Some(v) = traceparent {
        headers.push((crate::text::owned("traceparent"), crate::text::owned(v)));
    }
    assert(pairs(headers@) =~= carrier(traceparent));
    let (valid, trace_id, span_id) = propagator_extract(&headers);
    RemoteContext { valid, trace_id, span_id }
}

/// Whether an extracted context carries a usable remote span. A request
/// without one starts a fresh root trace.
pub fn has_remote_parent(cx: &RemoteContext) -> (r: bool)
    ensures
        r == cx.valid,
{
    cx.valid
}

/// The ids a request continues, when it carries a usable parent.
pub fn remote_parent(cx: &RemoteContext) -> (r: Option<(String, String)>)
    ensures
        match r {
            Some(p) => cx.valid && p.0@ == cx.trace_id@ && p.1@ == cx.span_id@,
            None => !cx.valid,
        },
{
    if cx.valid {
        Some((cx.trace_id.clone(), cx.span_id.clone()))
    } else {
        None
    }
}

} // verus!
