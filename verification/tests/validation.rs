use cli_framework::spec::arg_spec::{ArgKind, ArgSpec, ArgValueType, Cardinality};
use cli_framework::spec::command_tree::CommandSpec;
use cli_framework::spec::validation::{pattern_findings, value_matches_type, FloatBreach};
use cli_framework::spec::value::{ArgValue, ArgValues};

fn make_spec_with_args(args: Vec<ArgSpec>) -> CommandSpec {
    CommandSpec {
        args,
        ..Default::default()
    }
}

fn required_str_arg(name: &str) -> ArgSpec {
    ArgSpec {
        name: name.to_string(),
        kind: ArgKind::Option,
        short: None,
        long: None,
        value_type: ArgValueType::Str,
        cardinality: Cardinality::Required,
        default: None,
        conflicts_with: vec![],
        requires: vec![],
        help: String::new(),
        ..Default::default()
    }
}

fn optional_str_arg(name: &str) -> ArgSpec {
    ArgSpec {
        name: name.to_string(),
        kind: ArgKind::Option,
        short: None,
        long: None,
        value_type: ArgValueType::Str,
        cardinality: Cardinality::Optional,
        default: None,
        conflicts_with: vec![],
        requires: vec![],
        help: String::new(),
        ..Default::default()
    }
}

fn int_arg(name: &str) -> ArgSpec {
    ArgSpec {
        name: name.to_string(),
        kind: ArgKind::Option,
        short: None,
        long: None,
        value_type: ArgValueType::Int,
        cardinality: Cardinality::Optional,
        default: None,
        conflicts_with: vec![],
        requires: vec![],
        help: String::new(),
        ..Default::default()
    }
}

fn flag_arg(name: &str, conflicts_with: Vec<String>, requires: Vec<String>) -> ArgSpec {
    ArgSpec {
        name: name.to_string(),
        kind: ArgKind::Flag,
        short: None,
        long: None,
        value_type: ArgValueType::Bool,
        cardinality: Cardinality::Optional,
        default: None,
        conflicts_with,
        requires,
        help: String::new(),
        ..Default::default()
    }
}

#[test]
fn e003_missing_required_arg() {
    let spec = make_spec_with_args(vec![required_str_arg("output")]);
    let args = ArgValues::new();
    let diags = spec.validate_typed_args(&args, &[]);
    assert_eq!(diags.len(), 1);
    assert_eq!(diags[0].code, "E003");
    assert!(diags[0].suggestion.as_deref().unwrap().contains("output"));
}

#[test]
fn e003_required_arg_present_no_error() {
    let spec = make_spec_with_args(vec![required_str_arg("output")]);
    let mut args = ArgValues::new();
    args.insert("output".to_string(), ArgValue::Str("json".to_string()));
    let diags = spec.validate_typed_args(&args, &[]);
    assert!(diags.iter().all(|d| d.code != "E003"));
}

#[test]
fn e004_wrong_type() {
    let spec = make_spec_with_args(vec![int_arg("count")]);
    let mut args = ArgValues::new();
    args.insert("count".to_string(), ArgValue::Str("notanumber".to_string()));
    let diags = spec.validate_typed_args(&args, &[]);
    assert!(diags.iter().any(|d| d.code == "E004"));
}

#[test]
fn e004_correct_type_no_error() {
    let spec = make_spec_with_args(vec![int_arg("count")]);
    let mut args = ArgValues::new();
    args.insert("count".to_string(), ArgValue::Int(42));
    let diags = spec.validate_typed_args(&args, &[]);
    assert!(diags.iter().all(|d| d.code != "E004"));
}

#[test]
fn e005_conflict_both_present() {
    let spec = make_spec_with_args(vec![
        flag_arg("arg_a", vec!["arg_b".to_string()], vec![]),
        optional_str_arg("arg_b"),
    ]);
    let mut args = ArgValues::new();
    args.insert("arg_a".to_string(), ArgValue::Bool(true));
    args.insert("arg_b".to_string(), ArgValue::Str("x".to_string()));
    let diags = spec.validate_typed_args(&args, &[]);
    let conflict_diags: Vec<_> = diags.iter().filter(|d| d.code == "E005").collect();
    assert_eq!(conflict_diags.len(), 1);
    assert!(conflict_diags[0].suggestion.is_some());
}

#[test]
fn e005_no_conflict_when_only_one_present() {
    let spec = make_spec_with_args(vec![
        flag_arg("arg_a", vec!["arg_b".to_string()], vec![]),
        optional_str_arg("arg_b"),
    ]);
    let mut args = ArgValues::new();
    args.insert("arg_a".to_string(), ArgValue::Bool(true));
    let diags = spec.validate_typed_args(&args, &[]);
    assert!(diags.iter().all(|d| d.code != "E005"));
}

#[test]
fn e006_requires_missing() {
    let spec = make_spec_with_args(vec![
        flag_arg("arg_a", vec![], vec!["arg_b".to_string()]),
        optional_str_arg("arg_b"),
    ]);
    let mut args = ArgValues::new();
    args.insert("arg_a".to_string(), ArgValue::Bool(true));
    let diags = spec.validate_typed_args(&args, &[]);
    let req_diags: Vec<_> = diags.iter().filter(|d| d.code == "E006").collect();
    assert_eq!(req_diags.len(), 1);
    assert!(req_diags[0].suggestion.is_some());
}

#[test]
fn e006_requires_satisfied() {
    let spec = make_spec_with_args(vec![
        flag_arg("arg_a", vec![], vec!["arg_b".to_string()]),
        optional_str_arg("arg_b"),
    ]);
    let mut args = ArgValues::new();
    args.insert("arg_a".to_string(), ArgValue::Bool(true));
    args.insert("arg_b".to_string(), ArgValue::Str("val".to_string()));
    let diags = spec.validate_typed_args(&args, &[]);
    assert!(diags.iter().all(|d| d.code != "E006"));
}

#[test]
fn all_suggestions_non_empty_in_validate_errors() {
    let spec = make_spec_with_args(vec![required_str_arg("out")]);
    let args = ArgValues::new();
    let diags = spec.validate_typed_args(&args, &[]);
    for d in &diags {
        assert!(
            d.suggestion
                .as_deref()
                .map(|s| !s.is_empty())
                .unwrap_or(false),
            "suggestion must be non-empty for code {}",
            d.code
        );
    }
}

#[test]
fn messages_name_the_argument_exactly() {
    let spec = make_spec_with_args(vec![required_str_arg("output")]);
    let diags = spec.validate_typed_args(&ArgValues::new(), &[]);
    assert_eq!(diags[0].message, "missing required argument '--output'");
    assert_eq!(diags[0].suggestion.as_deref(), Some("Provide --output <value>"));
}

#[test]
fn integer_bounds_are_inclusive() {
    let mut arg = int_arg("n");
    arg.min = Some(1);
    arg.max = Some(10);
    let spec = make_spec_with_args(vec![arg]);
    for (v, bad) in [(0i64, true), (1, false), (10, false), (11, true)] {
        let mut args = ArgValues::new();
        args.insert("n".to_string(), ArgValue::Int(v));
        let diags = spec.validate_typed_args(&args, &[]);
        assert_eq!(!diags.is_empty(), bad, "value {v}");
    }
    let mut args = ArgValues::new();
    args.insert("n".to_string(), ArgValue::Int(-3));
    let diags = spec.validate_typed_args(&args, &[]);
    assert_eq!(diags[0].message, "value -3 for '--n' is below minimum 1");
    assert_eq!(diags[0].suggestion.as_deref(), Some("Provide a value >= 1 for --n"));
}

#[test]
fn type_message_uses_the_declared_type() {
    let mut arg = int_arg("mode");
    arg.value_type = ArgValueType::Enum(vec!["a".to_string(), "b".to_string()]);
    let spec = make_spec_with_args(vec![arg]);
    let mut args = ArgValues::new();
    args.insert("mode".to_string(), ArgValue::Int(1));
    let diags = spec.validate_typed_args(&args, &[]);
    assert_eq!(
        diags[0].message,
        "invalid value type for '--mode': expected Enum([\"a\", \"b\"])"
    );
}

#[test]
fn lists_match_when_every_element_does() {
    let ok = ArgValue::List(vec![ArgValue::Int(1), ArgValue::Int(2)]);
    let bad = ArgValue::List(vec![ArgValue::Int(1), ArgValue::Str("x".to_string())]);
    assert!(value_matches_type(&ok, &ArgValueType::Int));
    assert!(!value_matches_type(&bad, &ArgValueType::Int));
    assert!(value_matches_type(&ArgValue::Count(3), &ArgValueType::Str));
}

#[test]
fn patterns_are_checked_with_the_regex_engine() {
    let mut arg = optional_str_arg("id");
    arg.pattern = Some("^[a-z]+$".to_string());
    let spec = make_spec_with_args(vec![arg]);
    let mut args = ArgValues::new();
    args.insert("id".to_string(), ArgValue::Str("abc".to_string()));
    assert!(spec.validate_typed_args(&args, &[]).is_empty());
    let mut args = ArgValues::new();
    args.insert("id".to_string(), ArgValue::Str("ABC".to_string()));
    let diags = spec.validate_typed_args(&args, &[]);
    assert_eq!(diags[0].message, "value 'ABC' for '--id' does not match pattern '^[a-z]+$'");

    let mut broken = optional_str_arg("id");
    broken.pattern = Some("(".to_string());
    let spec = make_spec_with_args(vec![broken]);
    let diags = spec.validate_typed_args(&args, &[]);
    assert!(diags[0].message.starts_with("invalid pattern '(' for '--id': "));
    assert_eq!(diags[0].suggestion.as_deref(), Some("Fix the pattern spec for --id"));
}

#[test]
fn pattern_findings_follow_the_outcome() {
    assert!(pattern_findings("id", "x", "p", &Ok(true)).is_empty());
    let d = pattern_findings("id", "x", "p", &Err("boom".to_string()));
    assert_eq!(d[0].message, "invalid pattern 'p' for '--id': boom");
}

#[test]
fn float_findings_come_from_the_caller() {
    let mut arg = int_arg("ratio");
    arg.value_type = ArgValueType::Float;
    arg.min_f = Some(0.0f64.to_bits());
    let spec = make_spec_with_args(vec![arg]);
    let mut args = ArgValues::new();
    args.insert("ratio".to_string(), ArgValue::Float((-0.5f64).to_bits()));
    let breach = FloatBreach {
        arg: "ratio".to_string(),
        below_min: Some(("-0.5".to_string(), "0".to_string())),
        above_max: None,
    };
    let diags = spec.validate_typed_args(&args, &[breach]);
    assert_eq!(diags.len(), 1);
    assert_eq!(diags[0].message, "value -0.5 for '--ratio' is below minimum 0");
}

#[test]
fn checks_run_in_stage_order() {
    let spec = make_spec_with_args(vec![
        flag_arg("a", vec!["b".to_string()], vec!["c".to_string()]),
        optional_str_arg("b"),
        required_str_arg("c"),
    ]);
    let mut args = ArgValues::new();
    args.insert("a".to_string(), ArgValue::Str("oops".to_string()));
    args.insert("b".to_string(), ArgValue::Str("x".to_string()));
    let codes: Vec<String> = spec
        .validate_typed_args(&args, &[])
        .into_iter()
        .map(|d| d.code)
        .collect();
    assert_eq!(codes, vec!["E003", "E004", "E005", "E006"]);
}

#[test]
fn inserting_a_name_again_replaces_its_value() {
    let mut args = ArgValues::new();
    args.insert("n".to_string(), ArgValue::Int(1));
    args.insert("n".to_string(), ArgValue::Int(2));
    assert_eq!(args.len(), 1);
    assert!(matches!(args.get("n"), Some(ArgValue::Int(2))));
    assert!(!args.contains_key("m"));
}
