use invoker::routes::{RouteConfigError, RouteTable};

#[test]
fn config_routes_functions_to_subjects() {
    let table = RouteTable::from_config(r#"{"hello": "hello.trigger", "acl": "handler"}"#).ok().unwrap();
    assert_eq!(table.subject_for("hello"), Some("hello.trigger".to_string()));
    assert_eq!(table.subject_for("acl"), Some("handler".to_string()));
    assert_eq!(table.subject_for("log"), None);
}

#[test]
fn empty_config_routes_nothing() {
    let table = RouteTable::from_config("{}").ok().unwrap();
    assert_eq!(table.subject_for("hello"), None);
}

#[test]
fn malformed_config_is_refused() {
    for text in ["", "[]", r#"{"a": 1}"#, r#"{"a": "b""#, "null"] {
        match RouteTable::from_config(text) {
            Err(RouteConfigError::Json(_)) => {}
            Ok(_) => panic!("accepted {text:?}"),
        }
    }
}

#[test]
fn later_config_entry_wins() {
    let table = RouteTable::from_config(r#"{"a": "first", "a": "second"}"#).ok().unwrap();
    assert_eq!(table.subject_for("a"), Some("second".to_string()));
}

#[test]
fn later_pair_wins() {
    let table = RouteTable::from_pairs(vec![
        ("f".to_string(), "one".to_string()),
        ("g".to_string(), "two".to_string()),
        ("f".to_string(), "three".to_string()),
    ]);
    assert_eq!(table.subject_for("f"), Some("three".to_string()));
    assert_eq!(table.subject_for("g"), Some("two".to_string()));
    assert_eq!(table.subject_for("h"), None);
}
