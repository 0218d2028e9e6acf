use harmonizer::compose::ServiceDefinition;
use harmonizer::marshal::marshal_context;
use harmonizer::marshal::marshal_options;
use harmonizer::marshal::marshal_service_list;
use harmonizer::plan::OperationalContext;
use harmonizer::plan::QueryPlanOptions;

fn json_after(prefix: &str, s: &str) -> serde_json::Value {
    assert!(s.starts_with(prefix), "missing prefix in {s}");
    serde_json::from_str(&s[prefix.len()..]).expect("marshaled text must be valid JSON")
}

#[test]
fn service_list_marshals_in_order() {
    let list = vec![
        ServiceDefinition::new("users", "undefined", "type Query { users: [User!] }"),
        ServiceDefinition::new("movies", "undefined", "type Query { movies: [Movie!] }"),
    ];
    let out = marshal_service_list(&list);
    let v = json_after("serviceList = ", &out);
    let arr = v.as_array().expect("an array");
    assert_eq!(arr.len(), 2);
    assert_eq!(arr[0]["name"].as_str(), Some("users"));
    assert_eq!(arr[0]["url"].as_str(), Some("undefined"));
    assert_eq!(
        arr[0]["typeDefs"].as_str(),
        Some("type Query { users: [User!] }")
    );
    assert_eq!(arr[1]["name"].as_str(), Some("movies"));
}

#[test]
fn service_list_escapes_hostile_schema_text() {
    let hostile = "a\"b\\c\nd\re\tf\u{1}g; serviceList = []";
    let list = vec![ServiceDefinition::new("evil", "http://x", hostile)];
    let out = marshal_service_list(&list);
    let v = json_after("serviceList = ", &out);
    assert_eq!(v[0]["typeDefs"].as_str(), Some(hostile));
}

#[test]
fn empty_service_list_marshals_to_empty_array() {
    let out = marshal_service_list(&Vec::new());
    assert_eq!(out, "serviceList = []");
}

#[test]
fn context_marshals_all_fields() {
    let ctx = OperationalContext {
        schema: String::from("schema { query: Query }"),
        query: String::from("{ me { name } }"),
        operation: String::new(),
    };
    let out = marshal_context(&ctx);
    let v = json_after("context = ", &out);
    assert_eq!(v["schema"].as_str(), Some("schema { query: Query }"));
    assert_eq!(v["query"].as_str(), Some("{ me { name } }"));
    assert_eq!(v["operation"].as_str(), Some(""));
}

#[test]
fn options_marshal_exactly() {
    assert_eq!(
        marshal_options(&QueryPlanOptions {
            auto_fragmentization: false
        }),
        "options = {\"autoFragmentization\":false}"
    );
    assert_eq!(
        marshal_options(&QueryPlanOptions {
            auto_fragmentization: true
        }),
        "options = {\"autoFragmentization\":true}"
    );
    let d = QueryPlanOptions::default();
    assert!(!d.auto_fragmentization);
}

#[test]
fn marshaling_is_deterministic() {
    let list = vec![ServiceDefinition::new("a", "u", "t")];
    assert_eq!(marshal_service_list(&list), marshal_service_list(&list));
    let ctx = OperationalContext {
        schema: String::from("s"),
        query: String::from("q"),
        operation: String::from("o"),
    };
    assert_eq!(marshal_context(&ctx), marshal_context(&ctx));
}
