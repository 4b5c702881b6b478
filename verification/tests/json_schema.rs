use cli_framework::spec::arg_spec::{ArgKind, ArgSpec, ArgValueType, Cardinality};
use cli_framework::spec::command_tree::CommandSpec;
use cli_framework::spec::json::Json;

fn member<'a>(j: &'a Json, key: &str) -> Option<&'a Json> {
    match j {
        Json::Object(m) => m.iter().find(|(k, _)| k == key).map(|(_, v)| v),
        _ => None,
    }
}

fn keys(j: &Json) -> Vec<String> {
    match j {
        Json::Object(m) => m.iter().map(|(k, _)| k.clone()).collect(),
        _ => Vec::new(),
    }
}

fn text(j: Option<&Json>) -> Option<String> {
    match j {
        Some(Json::Str(s)) => Some(s.clone()),
        _ => None,
    }
}

fn arg(name: &str) -> ArgSpec {
    ArgSpec {
        name: name.to_string(),
        ..Default::default()
    }
}

#[test]
fn string_arg_with_pattern_and_help() {
    let a = ArgSpec {
        kind: ArgKind::Option,
        pattern: Some("^[a-z]+$".to_string()),
        help: "The cluster name".to_string(),
        ..arg("cluster")
    };
    let (name, schema) = a.to_json_schema_property();
    assert_eq!(name, "cluster");
    assert_eq!(keys(&schema), vec!["type", "pattern", "description"]);
    assert_eq!(text(member(&schema, "type")).as_deref(), Some("string"));
    assert_eq!(text(member(&schema, "pattern")).as_deref(), Some("^[a-z]+$"));
    assert_eq!(text(member(&schema, "description")).as_deref(), Some("The cluster name"));
}

#[test]
fn long_name_is_the_property_name() {
    let a = ArgSpec {
        long: Some("dry-run".to_string()),
        value_type: ArgValueType::Bool,
        ..arg("dry_run")
    };
    let (name, schema) = a.to_json_schema_property();
    assert_eq!(name, "dry-run");
    assert_eq!(keys(&schema), vec!["type"]);
    assert_eq!(text(member(&schema, "type")).as_deref(), Some("boolean"));
}

#[test]
fn int_bounds_become_minimum_and_maximum() {
    let a = ArgSpec {
        value_type: ArgValueType::Int,
        min: Some(-3),
        max: Some(10),
        ..arg("count")
    };
    let (_, schema) = a.to_json_schema_property();
    assert!(matches!(member(&schema, "minimum"), Some(Json::Int(-3))));
    assert!(matches!(member(&schema, "maximum"), Some(Json::Int(10))));
}

#[test]
fn float_bounds_keep_their_bits() {
    let a = ArgSpec {
        value_type: ArgValueType::Float,
        min_f: Some(0.5f64.to_bits()),
        ..arg("ratio")
    };
    let (_, schema) = a.to_json_schema_property();
    assert_eq!(text(member(&schema, "type")).as_deref(), Some("number"));
    match member(&schema, "minimum") {
        Some(Json::Float(b)) => assert_eq!(f64::from_bits(*b), 0.5),
        other => panic!("unexpected minimum: {other:?}"),
    }
    assert!(member(&schema, "maximum").is_none());
}

#[test]
fn enum_lists_its_variants() {
    let a = ArgSpec {
        value_type: ArgValueType::Enum(vec!["json".to_string(), "table".to_string()]),
        ..arg("format")
    };
    let (_, schema) = a.to_json_schema_property();
    match member(&schema, "enum") {
        Some(Json::Array(vs)) => {
            let vs: Vec<String> = vs.iter().map(|v| text(Some(v)).unwrap()).collect();
            assert_eq!(vs, vec!["json", "table"]);
        }
        other => panic!("unexpected enum: {other:?}"),
    }
}

#[test]
fn repeated_flag_counts_occurrences() {
    let a = ArgSpec {
        kind: ArgKind::Flag,
        cardinality: Cardinality::Repeated,
        min_occurs: Some(2),
        help: "More output".to_string(),
        ..arg("verbose")
    };
    let (_, schema) = a.to_json_schema_property();
    assert_eq!(keys(&schema), vec!["type", "minimum", "description"]);
    assert_eq!(text(member(&schema, "type")).as_deref(), Some("integer"));
    assert!(matches!(member(&schema, "minimum"), Some(Json::UInt(2))));
}

#[test]
fn repeated_positional_is_an_array_of_strings() {
    let a = ArgSpec {
        kind: ArgKind::Positional,
        cardinality: Cardinality::Repeated,
        min_occurs: Some(0),
        ..arg("ids")
    };
    let (_, schema) = a.to_json_schema_property();
    assert_eq!(keys(&schema), vec!["type", "items"]);
    assert_eq!(text(member(&schema, "type")).as_deref(), Some("array"));
    let items = member(&schema, "items").unwrap();
    assert_eq!(text(member(items, "type")).as_deref(), Some("string"));
}

#[test]
fn schema_lists_required_and_one_or_more_args() {
    let spec = CommandSpec {
        args: vec![
            ArgSpec {
                cardinality: Cardinality::Required,
                kind: ArgKind::Positional,
                ..arg("name")
            },
            ArgSpec {
                cardinality: Cardinality::Repeated,
                kind: ArgKind::Positional,
                min_occurs: Some(1),
                ..arg("ids")
            },
            ArgSpec {
                cardinality: Cardinality::Repeated,
                kind: ArgKind::Option,
                ..arg("header")
            },
            arg("verbose"),
        ],
        ..Default::default()
    };
    let schema = spec.to_json_schema();
    assert_eq!(keys(&schema), vec!["type", "properties", "required"]);
    assert_eq!(text(member(&schema, "type")).as_deref(), Some("object"));
    let props = member(&schema, "properties").unwrap();
    assert_eq!(keys(props), vec!["name", "ids", "header", "verbose"]);
    match member(&schema, "required") {
        Some(Json::Array(vs)) => {
            let vs: Vec<String> = vs.iter().map(|v| text(Some(v)).unwrap()).collect();
            assert_eq!(vs, vec!["name", "ids"]);
        }
        other => panic!("unexpected required: {other:?}"),
    }
}

#[test]
fn schema_without_required_args_has_no_required_member() {
    let spec = CommandSpec {
        args: vec![arg("verbose")],
        ..Default::default()
    };
    let schema = spec.to_json_schema();
    assert_eq!(keys(&schema), vec!["type", "properties"]);
}

#[test]
fn a_later_arg_replaces_an_earlier_property_of_the_same_name() {
    let spec = CommandSpec {
        args: vec![
            arg("x"),
            ArgSpec {
                value_type: ArgValueType::Int,
                ..arg("x")
            },
        ],
        ..Default::default()
    };
    let schema = spec.to_json_schema();
    let props = member(&schema, "properties").unwrap();
    assert_eq!(keys(props), vec!["x"]);
    assert_eq!(text(member(member(props, "x").unwrap(), "type")).as_deref(), Some("integer"));
}
