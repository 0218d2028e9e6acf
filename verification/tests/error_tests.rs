use harmonizer::compose::CompositionError;
use harmonizer::compose::CompositionErrorExtensions;
use harmonizer::compose::ServiceDefinition;
use harmonizer::plan::PlanningError;
use harmonizer::plan::PlanningErrorExtensions;

#[test]
fn a_supplied_code_is_exposed() {
    let e = CompositionError {
        message: Some(String::from("field is external and unused")),
        extensions: Some(CompositionErrorExtensions {
            code: String::from("EXTERNAL_UNUSED"),
        }),
    };
    assert_eq!(e.code(), "EXTERNAL_UNUSED");
    assert_eq!(
        e.display_string(),
        "EXTERNAL_UNUSED: field is external and unused"
    );
}

#[test]
fn a_missing_code_is_the_sentinel() {
    let e = PlanningError {
        message: None,
        extensions: None,
    };
    assert_eq!(e.code(), "UNKNOWN");
    assert_eq!(e.display_string(), "UNKNOWN");
}

#[test]
fn a_message_without_a_code_displays_under_the_sentinel() {
    let e = PlanningError {
        message: Some(String::from("Syntax Error: Unexpected Name \"Garbage\".")),
        extensions: Some(PlanningErrorExtensions {
            code: String::from("GRAPHQL_PARSE_FAILED"),
        }),
    };
    assert_eq!(e.code(), "GRAPHQL_PARSE_FAILED");
    let bare = PlanningError {
        message: Some(String::from("Syntax Error: Unexpected Name \"Garbage\".")),
        extensions: None,
    };
    assert_eq!(
        bare.display_string(),
        "UNKNOWN: Syntax Error: Unexpected Name \"Garbage\"."
    );
}

#[test]
fn error_equality_is_structural() {
    let a = PlanningError {
        message: Some(String::from("m")),
        extensions: Some(PlanningErrorExtensions {
            code: String::from("C"),
        }),
    };
    let b = PlanningError {
        message: Some(String::from("m")),
        extensions: Some(PlanningErrorExtensions {
            code: String::from("C"),
        }),
    };
    let c = PlanningError {
        message: Some(String::from("m")),
        extensions: None,
    };
    assert_eq!(a, b);
    assert_ne!(a, c);
    let d = CompositionError {
        message: None,
        extensions: None,
    };
    let e = CompositionError {
        message: None,
        extensions: None,
    };
    assert_eq!(d, e);
}

#[test]
fn a_service_definition_keeps_its_fields() {
    let s = ServiceDefinition::new("users", "undefined", "type Query { users: [User!] }");
    assert_eq!(s.name, "users");
    assert_eq!(s.url, "undefined");
    assert_eq!(s.type_defs, "type Query { users: [User!] }");
}
