use cli_framework::spec::command_tree::{CommandPath, CommandPathError};

#[test]
fn path_to_path_string_roundtrip() {
    let path = CommandPath::new(&["cluster", "get"]).unwrap();
    assert_eq!(path.to_path_string(), "cluster/get");
}

#[test]
fn path_single_segment_to_string() {
    let path = CommandPath::root_for("hello");
    assert_eq!(path.to_path_string(), "hello");
}

#[test]
fn path_parent_root_is_none() {
    let path = CommandPath::root_for("hello");
    assert!(path.parent().is_none());
}

#[test]
fn path_parent_nested() {
    let path = CommandPath::new(&["cluster", "get"]).unwrap();
    assert_eq!(path.parent(), Some(CommandPath::root_for("cluster")));
}

#[test]
fn path_push_success() {
    let path = CommandPath::root_for("cluster");
    let pushed = path.push("get").unwrap();
    assert_eq!(pushed.to_path_string(), "cluster/get");
}

#[test]
fn path_push_slash_segment_error() {
    let path = CommandPath::root_for("cluster");
    let err = path.push("bad/segment").unwrap_err();
    match err {
        CommandPathError::InvalidSegment { segment } => {
            assert_eq!(segment, "bad/segment");
        }
    }
}

#[test]
fn path_new_invalid_segment_error() {
    let err = CommandPath::new(&["bad/segment"]).unwrap_err();
    match err {
        CommandPathError::InvalidSegment { segment } => {
            assert_eq!(segment, "bad/segment");
        }
    }
}

#[test]
fn path_leaf() {
    let path = CommandPath::new(&["cluster", "get"]).unwrap();
    assert_eq!(path.leaf(), Some("get"));
}

#[test]
fn path_leaf_root() {
    let path = CommandPath::root_for("hello");
    assert_eq!(path.leaf(), Some("hello"));
}

#[test]
fn path_empty_leaf_is_none() {
    let path = CommandPath(vec![]);
    assert!(path.leaf().is_none());
}

#[test]
fn pushing_then_taking_the_parent_gives_the_path_back() {
    let path = CommandPath::new(&["a", "b"]).unwrap();
    let pushed = path.push("c").unwrap();
    assert_eq!(pushed.parent(), Some(path));
}

#[test]
fn invalid_segment_message_names_the_segment() {
    let err = CommandPath::new(&["x/y"]).unwrap_err();
    assert!(err.message().contains("x/y"));
}
