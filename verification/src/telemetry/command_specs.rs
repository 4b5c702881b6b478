//! The `telemetry` command group: each leaf's declaration, and what its
//! run decides from its arguments and from what the settings store did.
//! Opening the store and printing are the caller's.

use crate::spec::arg_spec::{ArgKind, ArgSpec, ArgValueType, Cardinality};
use crate::spec::command_tree::{CommandSpec, ExitCodeEntry, GroupMetadata};
use crate::spec::diagnostic::{Diagnostic, DiagnosticCategory, DiagnosticView};
use crate::spec::value::{value_of, ArgValue, ArgValues};
use crate::telemetry::axes::{level_name, level_of_name, TelemetryLevel};
use crate::telemetry::commands::{SetOutcome, TelemetryCommandError};
use crate::text::{debug_quoted, debug_repr, owned, push_str};
use vstd::prelude::*;

verus! {

/// A refusal of a `telemetry` command, under its code.
pub open spec fn failure(code: Seq<char>, message: Seq<char>) -> DiagnosticView {
    DiagnosticView { code, category: DiagnosticCategory::Validation, message, suggestion: None }
}

fn fail(code: &str, message: String) -> (d: Diagnostic)
    ensures
        d@ == failure(code@, message@),
{
    Diagnostic { code: owned(code), category: DiagnosticCategory::Validation, message, suggestion: None }
}

fn exit_code(code: i32, description: &str) -> (e: ExitCodeEntry)
    ensures
        e.code == code,
        e.description@ == description@,
{
    ExitCodeEntry { code, description: owned(description) }
}

fn positional(name: &str, value_type: ArgValueType, help: &str) -> (a: ArgSpec)
    ensures
        a.name@ == name@,
        a.kind == ArgKind::Positional,
        a.cardinality == Cardinality::Required,
        a.value_type == value_type,
        a.help@ == help@,
        a.short is None && a.long is None && a.default is None,
        a.conflicts_with@.len() == 0 && a.requires@.len() == 0,
        a.min is None && a.max is None && a.min_f is None && a.max_f is None,
        a.pattern is None && a.min_occurs is None,
{
    let mut a = ArgSpec::default();
    a.name = owned(name);
    a.kind = ArgKind::Positional;
    a.value_type = value_type;
    a.cardinality = Cardinality::Required;
    a.help = owned(help);
    a
}

fn telemetry_spec(summary: &str, args: Vec<ArgSpec>, exit_codes: Vec<ExitCodeEntry>) -> (s: CommandSpec)
    ensures
        s.summary@ == summary@,
        s.category matches Some(c) && c@ == "Telemetry"@,
        s.args == args,
        s.exit_codes == exit_codes,
        !s.hidden,
{
    CommandSpec {
        summary: owned(summary),
        long_about: None,
        examples: Vec::new(),
        aliases: Vec::new(),
        hidden_aliases: Vec::new(),
        hidden: false,
        deprecated: None,
        env_vars: Vec::new(),
        exit_codes,
        args,
        notes: None,
        category: Some(owned("Telemetry")),
        syntax: None,
    }
}

/// The group's own metadata.
pub fn telemetry_group() -> (g: GroupMetadata)
    ensures
        g.summary@ == "Inspect and control this application's telemetry"@,
        !g.hidden,
{
    GroupMetadata {
        summary: owned("Inspect and control this application's telemetry"),
        hidden: false,
        category: None,
    }
}

/// The six leaves under `telemetry`, in registration order.
pub fn telemetry_leaves() -> (r: Vec<&'static str>)
    ensures
        r@.len() == 6,
        r@[0]@ == "status"@,
        r@[1]@ == "set"@,
        r@[2]@ == "info"@,
        r@[3]@ == "disable"@,
        r@[4]@ == "enable"@,
        r@[5]@ == "reset"@,
{
    vec!["status", "set", "info", "disable", "enable", "reset"]
}

/// `telemetry set <level>`: one required positional level, one of the
/// four names.
pub fn set_command_spec() -> (s: CommandSpec)
    ensures
        s.summary@ == "Set the telemetry level (off, usage, diagnostic, or debug)"@,
        s.category matches Some(c) && c@ == "Telemetry"@,
        s.args@.len() == 1,
        s.args@[0].name@ == "level"@,
        s.args@[0].kind == ArgKind::Positional,
        s.args@[0].cardinality == Cardinality::Required,
        s.args@[0].value_type matches ArgValueType::Enum(v) && crate::text::strings(v@) == seq![
            "off"@,
            "usage"@,
            "diagnostic"@,
            "debug"@,
        ],
        s.args@[0].help@ == "The telemetry level to apply: off, usage, diagnostic, or debug"@,
        s.exit_codes@.len() == 2,
        s.exit_codes@[0].code == 0,
        s.exit_codes@[0].description@ == "Level applied (possibly clamped by a kill switch)"@,
        s.exit_codes@[1].code == 1,
        s.exit_codes@[1].description@
            == "The level was invalid, or the settings file could not be written"@,
{
    let levels = vec![owned("off"), owned("usage"), owned("diagnostic"), owned("debug")];
    assert(crate::text::strings(levels@) =~= seq!["off"@, "usage"@, "diagnostic"@, "debug"@]);
    let arg = positional(
        "level",
        ArgValueType::Enum(levels),
        "The telemetry level to apply: off, usage, diagnostic, or debug",
    );
    let exits = vec![
        exit_code(0, "Level applied (possibly clamped by a kill switch)"),
        exit_code(1, "The level was invalid, or the settings file could not be written"),
    ];
    telemetry_spec("Set the telemetry level (off, usage, diagnostic, or debug)", vec![arg], exits)
}

/// `telemetry disable <probe_id>` or `telemetry enable <probe_id>`.
pub fn probe_command_spec(disable: bool) -> (s: CommandSpec)
    ensures
        s.summary@ == (if disable {
            "Disable one probe id (and, implicitly, everything under it)"@
        } else {
            "Re-enable one probe id"@
        }),
        s.category matches Some(c) && c@ == "Telemetry"@,
        s.args@.len() == 1,
        s.args@[0].name@ == "probe_id"@,
        s.args@[0].kind == ArgKind::Positional,
        s.args@[0].cardinality == Cardinality::Required,
        s.args@[0].value_type is Str,
        s.args@[0].help@ == (if disable {
            "The probe id to disable, e.g. cli.command.arg_values"@
        } else {
            "The probe id to re-enable, e.g. cli.command.arg_values"@
        }),
        s.exit_codes@.len() == 2,
        s.exit_codes@[0].code == 0,
        s.exit_codes@[0].description@ == (if disable {
            "Probe disabled"@
        } else {
            "Probe enabled"@
        }),
        s.exit_codes@[1].code == 1,
        s.exit_codes@[1].description@
            == "Unknown probe id, or the settings file could not be written"@,
{
    let (summary, help, done) = if disable {
        (
            "Disable one probe id (and, implicitly, everything under it)",
            "The probe id to disable, e.g. cli.command.arg_values",
            "Probe disabled",
        )
    } else {
        ("Re-enable one probe id", "The probe id to re-enable, e.g. cli.command.arg_values", "Probe enabled")
    };
    let arg = positional("probe_id", ArgValueType::Str, help);
    let exits = vec![
        exit_code(0, done),
        exit_code(1, "Unknown probe id, or the settings file could not be written"),
    ];
    telemetry_spec(summary, vec![arg], exits)
}

/// `telemetry reset`: no arguments.
pub fn reset_command_spec() -> (s: CommandSpec)
    ensures
        s.summary@ == "Forget every stored telemetry choice (the install id is kept)"@,
        s.category matches Some(c) && c@ == "Telemetry"@,
        s.args@.len() == 0,
        s.exit_codes@.len() == 2,
        s.exit_codes@[0].code == 0,
        s.exit_codes@[0].description@ == "Settings reset"@,
        s.exit_codes@[1].code == 1,
        s.exit_codes@[1].description@ == "The settings file could not be written"@,
{
    let exits = vec![exit_code(0, "Settings reset"), exit_code(1, "The settings file could not be written")];
    telemetry_spec("Forget every stored telemetry choice (the install id is kept)", Vec::new(), exits)
}

/// The level text `telemetry set` was given: an enum token or a string.
pub open spec fn level_text(args: Seq<(Seq<char>, ArgValue)>) -> Option<Seq<char>> {
    match value_of(args, "level"@) {
        Some(ArgValue::Enum(s)) => Some(s@),
        Some(ArgValue::Str(s)) => Some(s@),
        _ => None,
    }
}

/// The level `telemetry set` applies, or why it refuses (TEL001).
pub fn set_level_arg(args: &ArgValues) -> (r: Result<TelemetryLevel, Diagnostic>)
    ensures
        match level_text(args@) {
            None => r matches Err(d) && d@ == failure(
                "TEL001"@,
                "a level is required: one of off, usage, diagnostic, debug"@,
            ),
            Some(t) => match level_of_name(t) {
                Some(l) => r == Ok::<TelemetryLevel, Diagnostic>(l),
                None => r matches Err(d) && d@ == failure(
                    "TEL001"@,
                    debug_repr(t) + " is not a valid telemetry level; valid levels are: off, usage, diagnostic, debug"@,
                ),
            },
        },
{
    proof {
        reveal_strlit("level");
    }
    let text: &str = match args.get("level") {
        Some(ArgValue::Enum(s)) => s.as_str(),
        Some(ArgValue::Str(s)) => s.as_str(),
        _ => {
            return Err(fail("TEL001", owned("a level is required: one of off, usage, diagnostic, debug")));
        },
    };
    match TelemetryLevel::parse(text) {
        Ok(l) => Ok(l),
        Err(_) => {
            let mut m = debug_quoted(text);
            push_str(&mut m, " is not a valid telemetry level; valid levels are: off, usage, diagnostic, debug");
            Err(fail("TEL001", m))
        },
    }
}

/// What `telemetry set` prints, or its refusal (TEL003) when the settings
/// could not be written.
pub fn set_report(level: TelemetryLevel, outcome: &Result<SetOutcome, TelemetryCommandError>) -> (r: Result<
    String,
    Diagnostic,
>)
    ensures
        match outcome {
            Ok(SetOutcome::Applied) => r matches Ok(m) && m@ == "telemetry level set to "@ + level_name(
                level,
            ),
            Ok(SetOutcome::AppliedButClamped { effective, reason }) => r matches Ok(m) && m@
                == "telemetry level saved as "@ + level_name(level) + ", but the effective level is "@
                + level_name(*effective) + ": "@ + reason@,
            Err(e) => r matches Err(d) && d@.code == "TEL003"@ && d@.category
                == DiagnosticCategory::Validation && d@.suggestion is None,
        },
{
    match outcome {
        Ok(SetOutcome::Applied) => {
            let mut m = owned("telemetry level set to ");
            push_str(&mut m, level.as_str());
            Ok(m)
        },
        Ok(SetOutcome::AppliedButClamped { effective, reason }) => {
            let mut m = owned("telemetry level saved as ");
            push_str(&mut m, level.as_str());
            push_str(&mut m, ", but the effective level is ");
            push_str(&mut m, effective.as_str());
            push_str(&mut m, ": ");
            push_str(&mut m, reason.as_str());
            Ok(m)
        },
        Err(e) => Err(fail("TEL003", e.message())),
    }
}

/// The probe id `telemetry disable` / `enable` was given, or the refusal
/// (TEL001).
pub fn probe_id_arg(args: &ArgValues) -> (r: Result<&str, Diagnostic>)
    ensures
        match value_of(args@, "probe_id"@) {
            Some(ArgValue::Str(s)) => r matches Ok(id) && id@ == s@,
            _ => r matches Err(d) && d@ == failure("TEL001"@, "a probe id is required"@),
        },
{
    proof {
        reveal_strlit("probe_id");
    }
    match args.get("probe_id") {
        Some(ArgValue::Str(s)) => Ok(s.as_str()),
        _ => Err(fail("TEL001", owned("a probe id is required"))),
    }
}

/// What `telemetry disable` / `enable` prints, or its refusal under the
/// error's code.
pub fn probe_report(id: &str, disable: bool, outcome: &Result<(), TelemetryCommandError>) -> (r: Result<String, Diagnostic>)
    ensures
        match outcome {
            Ok(()) => r matches Ok(m) && m@ == "probe "@ + id@ + (if disable {
                " disabled"@
            } else {
                " enabled"@
            }),
            Err(e) => r matches Err(d) && d@.code == (if *e is UnknownProbe {
                "TEL002"@
            } else {
                "TEL003"@
            }) && d@.category == DiagnosticCategory::Validation,
        },
{
    match outcome {
        Ok(()) => {
            let mut m = owned("probe ");
            push_str(&mut m, id);
            push_str(&mut m, if disable {
                " disabled"
            } else {
                " enabled"
            });
            Ok(m)
        },
        Err(e) => Err(fail(e.code(), e.message())),
    }
}

/// What `telemetry reset` prints, or its refusal (TEL003).
pub fn reset_report(outcome: &Result<(), TelemetryCommandError>) -> (r: Result<&'static str, Diagnostic>)
    ensures
        match outcome {
            Ok(()) => r matches Ok(m) && m@ == "telemetry settings reset; nothing has been chosen yet"@,
            Err(e) => r matches Err(d) && d@.code == "TEL003"@,
        },
{
    match outcome {
        Ok(()) => Ok("telemetry settings reset; nothing has been chosen yet"),
        Err(e) => Err(fail("TEL003", e.message())),
    }
}

/// The optional `--json` flag, off by default.
pub fn json_flag_arg(help: &str) -> (a: ArgSpec)
    ensures
        a.name@ == "json"@,
        a.kind == ArgKind::Flag,
        a.long matches Some(l) && l@ == "json"@,
        a.value_type is Bool,
        a.cardinality == Cardinality::Optional,
        a.default matches Some(ArgValue::Bool(b)) && !b,
        a.help@ == help@,
{
    let mut a = ArgSpec::default();
    a.name = owned("json");
    a.kind = ArgKind::Flag;
    a.long = Some(owned("json"));
    a.value_type = ArgValueType::Bool;
    a.cardinality = Cardinality::Optional;
    a.default = Some(ArgValue::Bool(false));
    a.help = owned(help);
    a
}

/// Whether `--json` was given as true.
pub fn wants_json(args: &ArgValues) -> (r: bool)
    ensures
        r == (value_of(args@, "json"@) matches Some(ArgValue::Bool(b)) && b),
{
    proof {
        reveal_strlit("json");
    }
    match args.get("json") {
        Some(ArgValue::Bool(b)) => *b,
        _ => false,
    }
}

/// `telemetry status` (`info` false) or `telemetry info` (`info` true):
/// one `--json` flag, one exit code.
pub fn report_command_spec(info: bool) -> (s: CommandSpec)
    ensures
        s.summary@ == (if info {
            "List every telemetry probe this build can emit, and what it sends"@
        } else {
            "Show the resolved telemetry level, attribution, and probe states"@
        }),
        s.category matches Some(c) && c@ == "Telemetry"@,
        s.args@.len() == 1,
        s.args@[0].name@ == "json"@,
        s.args@[0].help@ == (if info {
            "Print the catalog as JSON instead of a human-readable list"@
        } else {
            "Print the status as JSON instead of a human-readable summary"@
        }),
        s.exit_codes@.len() == 1,
        s.exit_codes@[0].code == 0,
        s.exit_codes@[0].description@ == (if info {
            "Catalog printed"@
        } else {
            "Status printed"@
        }),
{
    let (summary, help, done) = if info {
        (
            "List every telemetry probe this build can emit, and what it sends",
            "Print the catalog as JSON instead of a human-readable list",
            "Catalog printed",
        )
    } else {
        (
            "Show the resolved telemetry level, attribution, and probe states",
            "Print the status as JSON instead of a human-readable summary",
            "Status printed",
        )
    };
    telemetry_spec(summary, vec![json_flag_arg(help)], vec![exit_code(0, done)])
}

} // verus!
