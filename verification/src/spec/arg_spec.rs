//! Argument declarations of a typed command.

use crate::spec::value::ArgValue;
use vstd::prelude::*;

verus! {

/// Argument kind.
#[derive(Debug, Clone, Copy, PartialEq, Eq, Structural)]
pub enum ArgKind {
    /// Boolean presence; no value token (`--verbose`).
    Flag,
    /// Key-value option (`--output json`).
    Option,
    /// Positional argument.
    Positional,
}

/// The value type expected for an argument.
#[derive(Debug, Clone)]
pub enum ArgValueType {
    /// Unconstrained string value.
    Str,
    Bool,
    Int,
    Float,
    /// Exhaustive set of allowed string tokens.
    Enum(Vec<String>),
}

/// Cardinality of an argument.
#[derive(Debug, Clone, Copy, PartialEq, Eq, Structural)]
pub enum Cardinality {
    /// Must appear exactly once.
    Required,
    /// May appear zero or one time.
    Optional,
    /// May appear one or more times; the value becomes `ArgValue::List`.
    Repeated,
}

/// Declares a single argument for a command.
#[derive(Debug)]
pub struct ArgSpec {
    pub name: String,
    pub kind: ArgKind,
    pub short: Option<char>,
    /// Overrides the long flag name used in the CLI and the schema; `name`
    /// when `None`.
    pub long: Option<String>,
    pub value_type: ArgValueType,
    pub cardinality: Cardinality,
    pub default: Option<ArgValue>,
    pub conflicts_with: Vec<String>,
    pub requires: Vec<String>,
    pub help: String,
    /// Numeric lower bound for `Int` args (inclusive).
    pub min: Option<i64>,
    /// Numeric upper bound for `Int` args (inclusive).
    pub max: Option<i64>,
    /// Lower bound for `Float` args (inclusive), as IEEE-754 bits.
    pub min_f: Option<u64>,
    /// Upper bound for `Float` args (inclusive), as IEEE-754 bits.
    pub max_f: Option<u64>,
    /// Regex pattern constraint for `String` args.
    pub pattern: Option<String>,
    /// Minimum number of occurrences for a `Repeated` arg: one or more makes
    /// the arg mandatory in the schema; `None` and zero mean zero-or-more.
    /// Ignored for the other cardinalities.
    pub min_occurs: Option<usize>,
}

impl Default for ArgSpec {
    fn default() -> (s: Self)
        ensures
            s.name@.len() == 0,
            s.kind == ArgKind::Flag,
            s.short is None,
            s.long is None,
            s.value_type is Str,
            s.cardinality == Cardinality::Optional,
            s.default is None,
            s.conflicts_with@.len() == 0,
            s.requires@.len() == 0,
            s.help@.len() == 0,
            s.min is None && s.max is None && s.min_f is None && s.max_f is None,
            s.pattern is None,
            s.min_occurs is None,
    {
        ArgSpec {
            name: String::new(),
            kind: ArgKind::Flag,
            short: None,
            long: None,
            value_type: ArgValueType::Str,
            cardinality: Cardinality::Optional,
            default: None,
            conflicts_with: Vec::new(),
            requires: Vec::new(),
            help: String::new(),
            min: None,
            max: None,
            min_f: None,
            max_f: None,
            pattern: None,
            min_occurs: None,
        }
    }
}

/// Whether the schema lists the arg as required: a `Required` arg, or a
/// `Repeated` one declaring at least one occurrence.
pub open spec fn schema_required(s: ArgSpec) -> bool {
    match s.cardinality {
        Cardinality::Required => true,
        Cardinality::Repeated => s.min_occurs matches Some(m) && m >= 1,
        Cardinality::Optional => false,
    }
}

impl ArgSpec {
    /// Whether the generated JSON Schema must list this arg in `required`.
    pub fn is_schema_required(&self) -> (r: bool)
        ensures
            r == schema_required(*self),
    {
        match self.cardinality {
            Cardinality::Required => true,
            Cardinality::Repeated => match self.min_occurs {
                Some(m) => m >= 1,
                None => false,
            },
            Cardinality::Optional => false,
        }
    }

    /// The declared minimum arity, or `None` when the arg is zero-or-more.
    pub fn positive_min_occurs(&self) -> (r: Option<usize>)
        ensures
            r == (match self.min_occurs {
                Some(m) => if m >= 1 {
                    Some(m)
                } else {
                    None
                },
                None => None,
            }),
    {
        match self.min_occurs {
            Some(m) => if m >= 1 {
                Some(m)
            } else {
                None
            },
            None => None,
        }
    }
}

} // verus!
