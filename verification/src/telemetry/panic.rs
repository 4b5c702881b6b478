//! The `cli.panic` probe: what a panic records. The location (source
//! coordinates, which say what broke and nothing about who ran it) goes out
//! at `cli.panic`; the message, which routinely quotes program data, only
//! when `cli.panic.message` is on too. Installing the hook is the front
//! end's.

use crate::telemetry::policy::TelemetryPolicy;
use crate::telemetry::probe::probe_effective;
use crate::text::{decimal, decimal_vec, owned, push_all, push_str, strings};
use vstd::prelude::*;

verus! {

/// What the panic probe records.
#[derive(Debug, Clone, PartialEq, Eq, Default)]
pub struct PanicRecord {
    /// `file:line:column` of the panic's location.
    pub location: Option<String>,
    /// The panic payload when it is text; `None` for any other payload.
    pub message: Option<String>,
}

/// A location as `file:line:column`.
pub fn panic_location(file: &str, line: u32, column: u32) -> (r: String)
    ensures
        r@ == file@ + ":"@ + decimal(line as nat) + ":"@ + decimal(column as nat),
{
    let mut s = owned(file);
    push_str(&mut s, ":");
    let l = decimal_vec(line as u64);
    push_all(&mut s, l.as_slice());
    push_str(&mut s, ":");
    let c = decimal_vec(column as u64);
    push_all(&mut s, c.as_slice());
    s
}

/// What a panic sends under a policy: nothing unless `cli.panic` is on;
/// then the location (empty when unknown) and, when `cli.panic.message` is
/// on as well, the message.
pub struct PanicReport {
    pub location: String,
    pub message: Option<String>,
}

pub open spec fn effective_in(policy: TelemetryPolicy, id: Seq<char>) -> bool {
    probe_effective(policy.registry@, policy.level, id, strings(policy.disabled_probes@))
}

pub fn panic_report(policy: &TelemetryPolicy, record: PanicRecord) -> (r: Option<PanicReport>)
    ensures
        r is Some <==> effective_in(*policy, "cli.panic"@),
        r matches Some(rep) ==> {
            &&& rep.location@ == match record.location {
                Some(l) => l@,
                None => Seq::<char>::empty(),
            }
            &&& match rep.message {
                Some(m) => effective_in(*policy, "cli.panic.message"@) && (record.message
                    matches Some(x) && x@ == m@),
                None => !effective_in(*policy, "cli.panic.message"@) || record.message is None,
            }
        },
{
    if !policy.effective("cli.panic") {
        return None;
    }
    let location = match record.location {
        Some(l) => l,
        None => String::new(),
    };
    let message = match record.message {
        Some(m) => if policy.effective("cli.panic.message") {
            Some(m)
        } else {
            None
        },
        None => None,
    };
    Some(PanicReport { location, message })
}

} // verus!
