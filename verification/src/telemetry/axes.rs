//! The three axes every telemetry decision is made on: where the app runs
//! (Deployment), how much it may send (telemetry level), and how the sender
//! is identified (Attribution).

use crate::text::{owned, push_str, str_eq};
use vstd::prelude::*;

verus! {

/// A value that is not one of an axis's names.
#[derive(Debug, Clone, PartialEq, Eq)]
pub struct ParseAxisError {
    pub kind: String,
    pub value: String,
    pub expected: String,
}

impl ParseAxisError {
    /// `TA001: '<value>' is not a valid <kind>; expected one of <expected>`.
    pub fn message(&self) -> (out: String)
        ensures
            out@ == "TA001: '"@ + self.value@ + "' is not a valid "@ + self.kind@
                + "; expected one of "@ + self.expected@,
    {
        let mut out = owned("TA001: '");
        push_str(&mut out, self.value.as_str());
        push_str(&mut out, "' is not a valid ");
        push_str(&mut out, self.kind.as_str());
        push_str(&mut out, "; expected one of ");
        push_str(&mut out, self.expected.as_str());
        out
    }
}

/// Where a derived app runs.
#[derive(Debug, Clone, PartialEq, Eq)]
pub enum Deployment {
    /// Runs on a person's own machine. Telemetry is off until they consent.
    EndUser {
        /// Appended to the telemetry notice as `Details: <url>` when set.
        privacy_url: Option<String>,
    },
    /// Runs as fleet infrastructure the operator already controls.
    Service,
}

impl Default for Deployment {
    fn default() -> (d: Self)
        ensures
            d == (Deployment::EndUser { privacy_url: None }),
    {
        Deployment::EndUser { privacy_url: None }
    }
}

pub open spec fn deployment_name(d: Deployment) -> Seq<char> {
    match d {
        Deployment::EndUser { .. } => "end_user"@,
        Deployment::Service => "service"@,
    }
}

impl Deployment {
    pub fn is_end_user(&self) -> (r: bool)
        ensures
            r == (self is EndUser),
    {
        match self {
            Deployment::EndUser { .. } => true,
            Deployment::Service => false,
        }
    }

    pub fn privacy_url(&self) -> (r: Option<&str>)
        ensures
            match self {
                Deployment::EndUser { privacy_url: Some(u) } => r matches Some(s) && s@ == u@,
                _ => r is None,
            },
    {
        match self {
            Deployment::EndUser { privacy_url: Some(u) } => Some(u.as_str()),
            _ => None,
        }
    }

    /// The value recorded as the `cli.deployment` Resource attribute.
    pub fn as_str(&self) -> (r: &'static str)
        ensures
            r@ == deployment_name(*self),
    {
        match self {
            Deployment::EndUser { .. } => "end_user",
            Deployment::Service => "service",
        }
    }
}

/// How much an Install may send. Ordered: `Off < Usage < Diagnostic < Debug`.
#[derive(Debug, Clone, Copy, PartialEq, Eq, PartialOrd, Ord, Hash, Structural)]
pub enum TelemetryLevel {
    Off,
    Usage,
    Diagnostic,
    Debug,
}

/// The position of a level in `Off < Usage < Diagnostic < Debug`.
pub open spec fn level_rank(l: TelemetryLevel) -> nat {
    match l {
        TelemetryLevel::Off => 0,
        TelemetryLevel::Usage => 1,
        TelemetryLevel::Diagnostic => 2,
        TelemetryLevel::Debug => 3,
    }
}

pub open spec fn level_name(l: TelemetryLevel) -> Seq<char> {
    match l {
        TelemetryLevel::Off => "off"@,
        TelemetryLevel::Usage => "usage"@,
        TelemetryLevel::Diagnostic => "diagnostic"@,
        TelemetryLevel::Debug => "debug"@,
    }
}

/// The level a name denotes, if it denotes one.
pub open spec fn level_of_name(s: Seq<char>) -> Option<TelemetryLevel> {
    if s == "off"@ {
        Some(TelemetryLevel::Off)
    } else if s == "usage"@ {
        Some(TelemetryLevel::Usage)
    } else if s == "diagnostic"@ {
        Some(TelemetryLevel::Diagnostic)
    } else if s == "debug"@ {
        Some(TelemetryLevel::Debug)
    } else {
        None
    }
}

impl Default for TelemetryLevel {
    fn default() -> (l: Self)
        ensures
            l == TelemetryLevel::Off,
    {
        TelemetryLevel::Off
    }
}

impl TelemetryLevel {
    /// Every telemetry level, lowest first.
    pub const ALL: [TelemetryLevel; 4] = [
        TelemetryLevel::Off,
        TelemetryLevel::Usage,
        TelemetryLevel::Diagnostic,
        TelemetryLevel::Debug,
    ];

    pub fn as_str(&self) -> (r: &'static str)
        ensures
            r@ == level_name(*self),
    {
        match self {
            TelemetryLevel::Off => "off",
            TelemetryLevel::Usage => "usage",
            TelemetryLevel::Diagnostic => "diagnostic",
            TelemetryLevel::Debug => "debug",
        }
    }

    /// The level's position in the order.
    pub fn rank(&self) -> (r: u8)
        ensures
            r as nat == level_rank(*self),
    {
        match self {
            TelemetryLevel::Off => 0,
            TelemetryLevel::Usage => 1,
            TelemetryLevel::Diagnostic => 2,
            TelemetryLevel::Debug => 3,
        }
    }

    /// The level as displayed: its name.
    pub fn to_display(&self) -> (out: String)
        ensures
            out@ == level_name(*self),
    {
        owned(self.as_str())
    }

    /// Parse one of `off`, `usage`, `diagnostic`, `debug`.
    pub fn parse(s: &str) -> (res: Result<TelemetryLevel, ParseAxisError>)
        ensures
            level_of_name(s@) matches Some(l) ==> res == Ok::<TelemetryLevel, ParseAxisError>(l),
            level_of_name(s@) is None ==> (res matches Err(e) && e.value@ == s@
                && e.kind@ == "telemetry level"@ && e.expected@ == "off, usage, diagnostic, debug"@),
    {
        if str_eq(s, "off") {
            Ok(TelemetryLevel::Off)
        } else if str_eq(s, "usage") {
            Ok(TelemetryLevel::Usage)
        } else if str_eq(s, "diagnostic") {
            Ok(TelemetryLevel::Diagnostic)
        } else if str_eq(s, "debug") {
            Ok(TelemetryLevel::Debug)
        } else {
            Err(ParseAxisError {
                kind: owned("telemetry level"),
                value: owned(s),
                expected: owned("off, usage, diagnostic, debug"),
            })
        }
    }
}

impl core::str::FromStr for TelemetryLevel {
    type Err = ParseAxisError;

    fn from_str(s: &str) -> Result<TelemetryLevel, ParseAxisError> {
        TelemetryLevel::parse(s)
    }
}

/// How the sender of a signal is identified.
#[derive(Debug, Clone, Copy, PartialEq, Eq, Hash, Structural)]
pub enum Attribution {
    /// No install id, no session id, no principal.
    Anonymous,
    /// A locally minted install id. The default.
    Pseudonymous,
    /// The app's own identity hook supplied a principal.
    Identified,
}

pub open spec fn attribution_name(a: Attribution) -> Seq<char> {
    match a {
        Attribution::Anonymous => "anonymous"@,
        Attribution::Pseudonymous => "pseudonymous"@,
        Attribution::Identified => "identified"@,
    }
}

pub open spec fn attribution_of_name(s: Seq<char>) -> Option<Attribution> {
    if s == "anonymous"@ {
        Some(Attribution::Anonymous)
    } else if s == "pseudonymous"@ {
        Some(Attribution::Pseudonymous)
    } else if s == "identified"@ {
        Some(Attribution::Identified)
    } else {
        None
    }
}

impl Default for Attribution {
    fn default() -> (a: Self)
        ensures
            a == Attribution::Pseudonymous,
    {
        Attribution::Pseudonymous
    }
}

impl Attribution {
    /// Every attribution mode.
    pub const ALL: [Attribution; 3] = [
        Attribution::Anonymous,
        Attribution::Pseudonymous,
        Attribution::Identified,
    ];

    pub fn as_str(&self) -> (r: &'static str)
        ensures
            r@ == attribution_name(*self),
    {
        match self {
            Attribution::Anonymous => "anonymous",
            Attribution::Pseudonymous => "pseudonymous",
            Attribution::Identified => "identified",
        }
    }

    /// Parse one of `anonymous`, `pseudonymous`, `identified`.
    pub fn parse(s: &str) -> (res: Result<Attribution, ParseAxisError>)
        ensures
            attribution_of_name(s@) matches Some(a) ==> res == Ok::<Attribution, ParseAxisError>(a),
            attribution_of_name(s@) is None ==> (res matches Err(e) && e.value@ == s@
                && e.kind@ == "attribution"@ && e.expected@ == "anonymous, pseudonymous, identified"@),
    {
        if str_eq(s, "anonymous") {
            Ok(Attribution::Anonymous)
        } else if str_eq(s, "pseudonymous") {
            Ok(Attribution::Pseudonymous)
        } else if str_eq(s, "identified") {
            Ok(Attribution::Identified)
        } else {
            Err(ParseAxisError {
                kind: owned("attribution"),
                value: owned(s),
                expected: owned("anonymous, pseudonymous, identified"),
            })
        }
    }
}

impl core::str::FromStr for Attribution {
    type Err = ParseAxisError;

    fn from_str(s: &str) -> Result<Attribution, ParseAxisError> {
        Attribution::parse(s)
    }
}

/// Every level's name parses back to that level.
pub proof fn law_level_name_roundtrip(l: TelemetryLevel)
    ensures
        level_of_name(level_name(l)) == Some(l),
{
    reveal_strlit("off");
    reveal_strlit("usage");
    reveal_strlit("diagnostic");
    reveal_strlit("debug");
    assert("off"@.len() == 3 && "usage"@.len() == 5 && "diagnostic"@.len() == 10
        && "debug"@.len() == 5);
    assert("usage"@[0] != "debug"@[0]);
}

/// Every attribution's name parses back to that attribution.
pub proof fn law_attribution_name_roundtrip(a: Attribution)
    ensures
        attribution_of_name(attribution_name(a)) == Some(a),
{
    reveal_strlit("anonymous");
    reveal_strlit("pseudonymous");
    reveal_strlit("identified");
    assert("anonymous"@.len() == 9 && "pseudonymous"@.len() == 12 && "identified"@.len() == 10);
}

} // verus!
