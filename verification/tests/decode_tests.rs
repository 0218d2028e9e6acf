use harmonizer::decode::decode_payload;
use harmonizer::decode::DecodedPayload;

#[test]
fn decodes_a_success_payload() {
    match decode_payload("{\"data\":\"supergraph sdl\"}") {
        Some(DecodedPayload::Data(s)) => assert_eq!(s, "supergraph sdl"),
        _ => panic!("expected a success payload"),
    }
}

#[test]
fn decodes_escapes_in_a_success_payload() {
    match decode_payload("{\"data\":\"a\\\"b\\\\c\\nd\\te\\u0007f\\/g\"}") {
        Some(DecodedPayload::Data(s)) => assert_eq!(s, "a\"b\\c\nd\te\u{7}f/g"),
        _ => panic!("expected a success payload"),
    }
}

#[test]
fn decodes_what_the_reference_encoder_produced() {
    let original = "weird \" text \\ with \n controls \u{2} and unicode \u{263a}";
    let payload = format!(
        "{{\"data\":{}}}",
        serde_json::to_string(original).expect("encoding a string cannot fail")
    );
    match decode_payload(&payload) {
        Some(DecodedPayload::Data(s)) => assert_eq!(s, original),
        _ => panic!("expected a success payload"),
    }
}

#[test]
fn decodes_an_error_list_without_extensions() {
    let payload = "{\"errors\":[{\"message\":\"Syntax Error: Unexpected Name \\\"Garbage\\\".\",\"extensions\":null}]}";
    match decode_payload(payload) {
        Some(DecodedPayload::Errors(l)) => {
            assert_eq!(l.len(), 1);
            assert_eq!(
                l[0].message.as_deref(),
                Some("Syntax Error: Unexpected Name \"Garbage\".")
            );
            assert!(l[0].code.is_none());
        },
        _ => panic!("expected an error payload"),
    }
}

#[test]
fn decodes_an_error_list_with_codes_in_order() {
    let payload = "{\"errors\":[{\"message\":\"first\",\"extensions\":{\"code\":\"KEY_MISSING_ON_BASE\"}},{\"message\":null,\"extensions\":{\"code\":\"EXTERNAL_UNUSED\"}}]}";
    match decode_payload(payload) {
        Some(DecodedPayload::Errors(l)) => {
            assert_eq!(l.len(), 2);
            assert_eq!(l[0].message.as_deref(), Some("first"));
            assert_eq!(l[0].code.as_deref(), Some("KEY_MISSING_ON_BASE"));
            assert!(l[1].message.is_none());
            assert_eq!(l[1].code.as_deref(), Some("EXTERNAL_UNUSED"));
        },
        _ => panic!("expected an error payload"),
    }
}

#[test]
fn refuses_malformed_payloads() {
    assert!(decode_payload("Garbage").is_none());
    assert!(decode_payload("").is_none());
    assert!(decode_payload("{\"data\":\"x\"} ").is_none());
    assert!(decode_payload("{\"data\":\"x\"").is_none());
    assert!(decode_payload("{\"errors\":[]}").is_none());
    assert!(decode_payload("{\"data\":42}").is_none());
    assert!(decode_payload("{\"other\":\"x\"}").is_none());
}

#[test]
fn refuses_broken_strings() {
    assert!(decode_payload("{\"data\":\"bad \\q escape\"}").is_none());
    assert!(decode_payload("{\"data\":\"raw \n control\"}").is_none());
    assert!(decode_payload("{\"data\":\"high \\u0080 escape\"}").is_none());
    assert!(decode_payload("{\"data\":\"short \\u00g7 digits\"}").is_none());
}
