//! The install receipt: what `self install` did, so `self uninstall` can
//! reverse exactly that and nothing else. Paths are held as text; reading
//! and writing the file is the caller's.

use crate::self_install::method::InstallMethod;
use crate::self_install::options::{ReleaseSource, SelfInstallOptions};
use crate::text::{decimal, decimal_vec, owned, push_all, push_str, zero_pad, zero_pad_vec};
use vstd::arithmetic::div_mod::{lemma_div_multiples_vanish_fancy, lemma_fundamental_div_mod};
use vstd::prelude::*;

verus! {

/// The one schema version this library reads and writes.
pub const RECEIPT_SCHEMA_VERSION: u32 = 1;

/// Where the application's releases come from, as recorded at install time.
#[derive(Debug, Clone, PartialEq, Eq)]
pub struct ReceiptSource {
    pub source: ReleaseSource,
    pub tag_prefix: String,
    pub asset_template: String,
}

impl ReceiptSource {
    /// The source, tag prefix and asset template of an app's declaration.
    pub fn from_options(o: &SelfInstallOptions) -> (r: Self)
        ensures
            r.source == o@.source,
            r.tag_prefix@ == o@.tag_prefix,
            r.asset_template@ == o@.asset_template,
    {
        ReceiptSource {
            source: o.source().clone(),
            tag_prefix: owned(o.get_tag_prefix()),
            asset_template: owned(o.get_asset_template()),
        }
    }
}

/// One change made outside the bin dir to put it on PATH.
#[derive(Debug, Clone, PartialEq, Eq)]
pub enum PathModification {
    /// The shared `env` or `env.fish` file was created; uninstall keeps it.
    EnvFile { file: String },
    /// One line appended to an existing rc file; uninstall keeps it.
    RcLine { file: String, line: String },
    /// A per-app fish `conf.d` file, removed on uninstall.
    FishConf { file: String },
    /// The bin dir was prepended to the user `Path` in the registry.
    WindowsUserPath { key: String, entry: String },
}

/// Schema version 1 of `install-receipt.json`.
#[derive(Debug, Clone, PartialEq, Eq)]
pub struct InstallReceipt {
    pub schema_version: u32,
    pub app: String,
    pub version: String,
    pub target: String,
    pub channel: String,
    pub bin_dir: String,
    pub binary_path: String,
    pub method: InstallMethod,
    pub modified_path: Vec<PathModification>,
    pub completions: Vec<String>,
    pub source: ReceiptSource,
    /// RFC 3339, UTC: when the binary at `binary_path` was last placed.
    pub installed_at: String,
    /// The version kept beside the binary as `<binary>.prev`.
    pub previous_version: Option<String>,
    /// Installed with `--system` into a machine-wide bin dir.
    pub system: bool,
    /// The `HKCU` Apps & Features key this install created (Windows).
    pub apps_and_features: Option<String>,
}

#[derive(Debug)]
pub enum ReceiptError {
    Read { path: String, message: String },
    Invalid { path: String, reason: String },
    Write { path: String, message: String },
}

impl ReceiptError {
    pub fn message(&self) -> (out: String)
        ensures
            match self {
                ReceiptError::Read { path, message } => out@ == "cannot read install receipt "@
                    + path@ + ": "@ + message@,
                ReceiptError::Invalid { path, reason } => out@ == "install receipt "@ + path@
                    + " is not valid: "@ + reason@,
                ReceiptError::Write { path, message } => out@ == "cannot write install receipt "@
                    + path@ + ": "@ + message@,
            },
    {
        let mut out = String::new();
        match self {
            ReceiptError::Read { path, message } => {
                push_str(&mut out, "cannot read install receipt ");
                push_str(&mut out, path.as_str());
                push_str(&mut out, ": ");
                push_str(&mut out, message.as_str());
            },
            ReceiptError::Invalid { path, reason } => {
                push_str(&mut out, "install receipt ");
                push_str(&mut out, path.as_str());
                push_str(&mut out, " is not valid: ");
                push_str(&mut out, reason.as_str());
            },
            ReceiptError::Write { path, message } => {
                push_str(&mut out, "cannot write install receipt ");
                push_str(&mut out, path.as_str());
                push_str(&mut out, ": ");
                push_str(&mut out, message.as_str());
            },
        }
        out
    }
}

/// A receipt of another schema version is refused, naming both versions.
pub fn check_schema_version(version: u32, path: &str) -> (r: Result<(), ReceiptError>)
    ensures
        version == RECEIPT_SCHEMA_VERSION <==> r is Ok,
        r matches Err(e) ==> e matches ReceiptError::Invalid { path: p, reason } && p@ == path@
            && reason@ == "schema version "@ + decimal(version as nat)
            + " is not supported (expected 1)"@,
{
    if version == RECEIPT_SCHEMA_VERSION {
        return Ok(());
    }
    let mut reason = owned("schema version ");
    push_all(&mut reason, decimal_vec(version as u64).as_slice());
    push_str(&mut reason, " is not supported (expected 1)");
    Err(ReceiptError::Invalid { path: owned(path), reason })
}

/// Division truncating toward zero, as `/` on signed integers computes.
pub open spec fn tdiv(a: int, b: int) -> int {
    if a >= 0 {
        a / b
    } else {
        -((-a) / b)
    }
}

/// The civil date and time of a Unix instant, by the days-from-civil
/// inverse: `(year, month, day, hour, minute, second)`. The day count and
/// era are Euclidean; the steps within an era truncate, as written.
pub open spec fn civil_from_unix(secs: int) -> (int, int, int, int, int, int) {
    let days = secs / 86400;
    let rem = secs % 86400;
    let z = days + 719468;
    let era = z / 146097;
    let doe = z - era * 146097;
    let yoe = tdiv(doe - tdiv(doe, 1460) + tdiv(doe, 36524) - tdiv(doe, 146096), 365);
    let y = yoe + era * 400;
    let doy = doe - (365 * yoe + tdiv(yoe, 4) - tdiv(yoe, 100));
    let mp = tdiv(5 * doy + 2, 153);
    let d = doy - tdiv(153 * mp + 2, 5) + 1;
    let m = if mp < 10 {
        mp + 3
    } else {
        mp - 9
    };
    let y2 = if m <= 2 {
        y + 1
    } else {
        y
    };
    (y2, m, d, tdiv(rem, 3600), tdiv(rem % 3600, 60), rem % 60)
}

/// A number as `{:0w}` writes it: zero-padded to `w` places, a minus sign
/// counting as one.
pub open spec fn signed_pad(v: int, w: nat) -> Seq<char> {
    if v < 0 {
        seq!['-'] + zero_pad((-v) as nat, if w > 0 { (w - 1) as nat } else { 0 })
    } else {
        zero_pad(v as nat, w)
    }
}

/// `YYYY-MM-DDTHH:MM:SSZ`.
pub open spec fn rfc3339_spec(secs: int) -> Seq<char> {
    let c = civil_from_unix(secs);
    signed_pad(c.0, 4) + "-"@ + signed_pad(c.1, 2) + "-"@ + signed_pad(c.2, 2) + "T"@
        + signed_pad(c.3, 2) + ":"@ + signed_pad(c.4, 2) + ":"@ + signed_pad(c.5, 2) + "Z"@
}

proof fn lemma_div_shift(a: int, k: int, d: int)
    requires
        d > 0,
    ensures
        (a + d * k) / d == a / d + k,
        (a + d * k) % d == a % d,
{
    lemma_fundamental_div_mod(a, d);
    assert(a + d * k == d * (a / d + k) + a % d) by (nonlinear_arith)
        requires
            a == d * (a / d) + a % d,
    ;
    lemma_div_multiples_vanish_fancy(a / d + k, a % d, d);
    lemma_fundamental_div_mod(a + d * k, d);
    assert(d * (a / d + k) == d * (a / d) + d * k) by (nonlinear_arith);
}

/// Shifting an instant by whole eras before the Euclidean divisions gives
/// the same remainder, the same day of the era, and the era moved by the
/// shift.
proof fn lemma_era_shift(secs: int, eras: int)
    requires
        eras >= 0,
    ensures
        ({
            let s = secs + 86400 * (146097 * eras);
            let days = secs / 86400;
            let z = days + 719468;
            &&& s % 86400 == secs % 86400
            &&& (s / 86400 + 719468) / 146097 == z / 146097 + eras
            &&& (s / 86400 + 719468) % 146097 == z - (z / 146097) * 146097
        }),
{
    let days = secs / 86400;
    let z = days + 719468;
    lemma_div_shift(secs, 146097 * eras, 86400);
    lemma_div_shift(z, eras, 146097);
    lemma_fundamental_div_mod(z, 146097);
}

fn signed_pad_exec(out: &mut String, v: i128, w: usize)
    requires
        -0x1_0000_0000_0000_0000 < v < 0x1_0000_0000_0000_0000,
        w <= 4,
    ensures
        final(out)@ == old(out)@ + signed_pad(v as int, w as nat),
{
    if v < 0 {
        out.push('-');
        let ghost mid = out@;
        push_all(out, zero_pad_vec((-v) as u64, if w > 0 { w - 1 } else { 0 }).as_slice());
        assert(out@ =~= old(out)@ + signed_pad(v as int, w as nat));
    } else {
        push_all(out, zero_pad_vec(v as u64, w).as_slice());
    }
}

/// Whole eras added to an instant so that every division is of a
/// non-negative number.
const ERA_SHIFT: i128 = 1_000_000_000;

/// An instant as RFC 3339 in UTC, second precision.
#[verifier::rlimit(50)]
pub fn rfc3339_from_unix(secs: i64) -> (out: String)
    ensures
        out@ == rfc3339_spec(secs as int),
{
    // 86_400 * 146_097 seconds in an era.
    let s: i128 = (secs as i128) + 12_622_780_800 * ERA_SHIFT;
    let days_s: i128 = s / 86_400;
    let rem: i128 = s % 86_400;
    let z_s: i128 = days_s + 719_468;
    let era_s: i128 = z_s / 146_097;
    let doe: i128 = z_s % 146_097;
    proof {
        lemma_era_shift(secs as int, ERA_SHIFT as int);
        assert(86400 * (146097 * (ERA_SHIFT as int)) == 12_622_780_800 * ERA_SHIFT);
    }
    let era: i128 = era_s - ERA_SHIFT;
    let yoe: i128 = (doe - doe / 1460 + doe / 36_524 - doe / 146_096) / 365;
    let y: i128 = yoe + era * 400;
    let doy: i128 = doe - (365 * yoe + yoe / 4 - yoe / 100);
    let mp: i128 = (5 * doy + 2) / 153;
    let d: i128 = doy - (153 * mp + 2) / 5 + 1;
    let m: i128 = if mp < 10 {
        mp + 3
    } else {
        mp - 9
    };
    let y: i128 = if m <= 2 {
        y + 1
    } else {
        y
    };
    let hh: i128 = rem / 3600;
    let mm: i128 = (rem % 3600) / 60;
    let ss: i128 = rem % 60;
    let mut out = String::new();
    signed_pad_exec(&mut out, y, 4);
    out.push('-');
    signed_pad_exec(&mut out, m, 2);
    out.push('-');
    signed_pad_exec(&mut out, d, 2);
    out.push('T');
    signed_pad_exec(&mut out, hh, 2);
    out.push(':');
    signed_pad_exec(&mut out, mm, 2);
    out.push(':');
    signed_pad_exec(&mut out, ss, 2);
    out.push('Z');
    proof {
        reveal_strlit("-");
        reveal_strlit("T");
        reveal_strlit(":");
        reveal_strlit("Z");
        let c = civil_from_unix(secs as int);
        assert(c.0 == y && c.1 == m && c.2 == d && c.3 == hh && c.4 == mm && c.5 == ss);
        assert(out@ =~= rfc3339_spec(secs as int));
    }
    out
}

} // verus!
