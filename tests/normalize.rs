use edamame_cli::json::parse_payload;
use edamame_cli::normalize::{normalize, NormalizationError};
use edamame_cli::payload::InputPayload;
use edamame_cli::signature::{Argument, MethodSignature};

fn signature(method: &str, args: &[(&str, &str)]) -> MethodSignature {
    MethodSignature {
        method_name: method.to_string(),
        return_type: "String".to_string(),
        arguments: args
            .iter()
            .map(|(n, t)| Argument { name: n.to_string(), type_tag: t.to_string() })
            .collect(),
    }
}

fn ping() -> MethodSignature {
    signature("ping", &[("host", "String")])
}

#[test]
fn object_in_signature_order_regardless_of_key_order() {
    let sig = signature("m", &[("b", "i32"), ("a", "String"), ("c", "bool")]);
    let forward = parse_payload(r#"{"a": "x", "b": 1, "c": true}"#);
    let backward = parse_payload(r#"{"c": true, "b": 1, "a": "x"}"#);
    let expected = vec!["1".to_string(), "\"x\"".to_string(), "true".to_string()];
    assert_eq!(normalize(&forward, &sig).ok(), Some(expected.clone()));
    assert_eq!(normalize(&backward, &sig).ok(), Some(expected));
}

#[test]
fn object_with_entries_built_by_hand() {
    let sig = signature("m", &[("first", "String"), ("second", "u32")]);
    let payload = InputPayload::Object(vec![
        ("second".to_string(), "7".to_string()),
        ("first".to_string(), "\"a\"".to_string()),
    ]);
    assert_eq!(normalize(&payload, &sig).ok(), Some(vec!["\"a\"".to_string(), "7".to_string()]));
}

#[test]
fn object_missing_name_is_reported() {
    let sig = signature("m", &[("a", "String"), ("b", "u32")]);
    let payload = parse_payload(r#"{"a": "x"}"#);
    match normalize(&payload, &sig) {
        Err(NormalizationError::FieldMismatch { missing, unknown }) => {
            assert_eq!(missing, vec!["b".to_string()]);
            assert!(unknown.is_empty());
        }
        _ => panic!("expected a field mismatch"),
    }
}

#[test]
fn empty_object_lacks_every_name() {
    let sig = signature("m", &[("a", "String"), ("b", "u32")]);
    match normalize(&parse_payload("{}"), &sig) {
        Err(NormalizationError::FieldMismatch { missing, unknown }) => {
            assert_eq!(missing, vec!["a".to_string(), "b".to_string()]);
            assert!(unknown.is_empty());
        }
        _ => panic!("expected a field mismatch"),
    }
}

#[test]
fn empty_object_against_no_arguments_is_accepted() {
    let sig = signature("m", &[]);
    assert_eq!(normalize(&parse_payload("{}"), &sig).ok(), Some(Vec::<String>::new()));
}

#[test]
fn object_unknown_key_without_close_name() {
    let sig = signature("m", &[("host", "String")]);
    let payload = parse_payload(r#"{"host": "h", "zzzzzz": 1}"#);
    match normalize(&payload, &sig) {
        Err(NormalizationError::FieldMismatch { missing, unknown }) => {
            assert!(missing.is_empty());
            assert_eq!(unknown.len(), 1);
            assert_eq!(unknown[0].token, "zzzzzz");
            assert_eq!(unknown[0].best_match, None);
        }
        _ => panic!("expected a field mismatch"),
    }
}

#[test]
fn object_misspelled_key_gets_suggestion() {
    let payload = parse_payload(r#"{"hots": "1.2.3.4"}"#);
    match normalize(&payload, &ping()) {
        Err(NormalizationError::FieldMismatch { missing, unknown }) => {
            assert_eq!(missing, vec!["host".to_string()]);
            assert_eq!(unknown.len(), 1);
            assert_eq!(unknown[0].token, "hots");
            assert_eq!(unknown[0].best_match, Some("host".to_string()));
        }
        _ => panic!("expected a field mismatch"),
    }
}

#[test]
fn array_is_passed_through_without_type_checks() {
    let sig = signature("m", &[("a", "u32"), ("b", "String")]);
    let payload = parse_payload(r#"["7", true]"#);
    assert_eq!(
        normalize(&payload, &sig).ok(),
        Some(vec!["\"7\"".to_string(), "true".to_string()])
    );
}

#[test]
fn array_length_is_not_checked() {
    let sig = signature("m", &[("a", "u32")]);
    let payload = parse_payload("[1, 2, 3]");
    assert_eq!(
        normalize(&payload, &sig).ok(),
        Some(vec!["1".to_string(), "2".to_string(), "3".to_string()])
    );
}

#[test]
fn scalar_input_is_rejected() {
    let payload = parse_payload("42");
    assert!(matches!(payload, InputPayload::Invalid(ref m) if m == "expected a JSON array or object"));
    assert!(matches!(normalize(&payload, &ping()), Err(NormalizationError::NotArrayOrObject)));
}

#[test]
fn malformed_input_is_rejected() {
    let payload = parse_payload("[1, 2");
    assert!(matches!(payload, InputPayload::Invalid(ref m) if m.starts_with("Error(")));
    assert!(matches!(normalize(&payload, &ping()), Err(NormalizationError::NotArrayOrObject)));
}

#[test]
fn parse_encodes_values_compactly() {
    match parse_payload(r#"[ {"k" : [1, 2]}, "a b", null ]"#) {
        InputPayload::Array(items) => {
            assert_eq!(items, vec![r#"{"k":[1,2]}"#.to_string(), "\"a b\"".to_string(), "null".to_string()]);
        }
        _ => panic!("expected an array"),
    }
}

#[test]
fn parse_object_keeps_each_key_once() {
    match parse_payload(r#"{"a": 1, "a": 2}"#) {
        InputPayload::Object(entries) => {
            assert_eq!(entries.len(), 1);
            assert_eq!(entries[0].0, "a");
        }
        _ => panic!("expected an object"),
    }
}
