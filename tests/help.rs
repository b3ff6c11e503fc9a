use edamame_cli::help::{classify_type, make_example_value, render_help, TypeKind};
use edamame_cli::signature::{Argument, MethodSignature};
use edamame_cli::text::{decimal_text, join, same_text, starts_with_text};

fn signature(method: &str, ret: &str, args: &[(&str, &str)]) -> MethodSignature {
    MethodSignature {
        method_name: method.to_string(),
        return_type: ret.to_string(),
        arguments: args
            .iter()
            .map(|(n, t)| Argument { name: n.to_string(), type_tag: t.to_string() })
            .collect(),
    }
}

#[test]
fn type_tags_are_classified() {
    assert_eq!(classify_type("String"), TypeKind::Text);
    assert_eq!(classify_type("bool"), TypeKind::Boolean);
    for t in ["i32", "u32", "i64", "u64", "usize"] {
        assert_eq!(classify_type(t), TypeKind::Integer);
    }
    assert_eq!(classify_type("f32"), TypeKind::Float);
    assert_eq!(classify_type("f64"), TypeKind::Float);
    assert_eq!(classify_type("Vec<String>"), TypeKind::Container);
    assert_eq!(classify_type("Option<u32>"), TypeKind::Optional);
    assert_eq!(classify_type("HashMap<String, u32>"), TypeKind::Unrecognized);
    assert_eq!(classify_type("Vec"), TypeKind::Unrecognized);
    assert_eq!(classify_type("i8"), TypeKind::Unrecognized);
}

#[test]
fn example_values_follow_the_type() {
    assert_eq!(make_example_value("String", "host"), "\"example_host\"");
    assert_eq!(make_example_value("bool", "flag"), "true");
    assert_eq!(make_example_value("u64", "n"), "123");
    assert_eq!(make_example_value("f64", "x"), "1.5");
    assert_eq!(make_example_value("Vec<u8>", "bytes"), "[]");
    assert_eq!(make_example_value("Option<String>", "o"), "null");
    assert_eq!(make_example_value("Custom", "thing"), "\"example_thing\"");
}

#[test]
fn help_for_method_with_arguments() {
    let sig = signature("set_flag", "bool", &[("name", "String"), ("on", "bool")]);
    let expected = vec![
        "Method: set_flag",
        "Return type: bool",
        "Arguments:",
        "  - name: String",
        "  - on: bool",
        "",
        "Usage examples:",
        "  edamame_cli rpc set_flag '[\"example_name\", true]'",
        "  edamame_cli rpc set_flag '[\"example_name\", true]' --pretty",
        "  edamame_cli rpc set_flag '{\"name\": \"example_name\", \"on\": true}'",
        "  edamame_cli rpc set_flag '{\"name\": \"example_name\", \"on\": true}' --pretty",
        "",
        "Parameter mapping (array form):",
        "  [0] -> name (String)",
        "  [1] -> on (bool)",
        "",
        "Notes:",
        "  - You can pass arguments as a JSON array of values or a single JSON object.",
        "  - In array form, each element must be a valid JSON literal of the expected type.",
        "  - In object form, use the exact argument names shown above as keys.",
    ];
    assert_eq!(render_help(&sig), expected);
}

#[test]
fn help_for_method_without_arguments() {
    let sig = signature("get_status", "String", &[]);
    let expected = vec![
        "Method: get_status",
        "Return type: String",
        "Arguments: None",
        "",
        "Usage examples:",
        "  edamame_cli rpc get_status",
        "  edamame_cli rpc get_status --pretty",
    ];
    assert_eq!(render_help(&sig), expected);
}

#[test]
fn help_is_deterministic() {
    let a = signature("m", "String", &[("x", "u32"), ("y", "Vec<u8>")]);
    let b = signature("m", "String", &[("x", "u32"), ("y", "Vec<u8>")]);
    assert_eq!(render_help(&a), render_help(&a));
    assert_eq!(render_help(&a), render_help(&b));
}

#[test]
fn help_numbers_many_arguments() {
    let names: Vec<String> = (0..12).map(|i| format!("a{}", i)).collect();
    let args: Vec<(&str, &str)> = names.iter().map(|n| (n.as_str(), "u32")).collect();
    let lines = render_help(&signature("m", "()", &args));
    assert!(lines.contains(&"  [11] -> a11 (u32)".to_string()));
    assert!(lines.contains(&"  [0] -> a0 (u32)".to_string()));
}

#[test]
fn decimal_digits() {
    assert_eq!(decimal_text(0), "0");
    assert_eq!(decimal_text(7), "7");
    assert_eq!(decimal_text(10), "10");
    assert_eq!(decimal_text(1234567890), "1234567890");
    assert_eq!(decimal_text(usize::MAX), usize::MAX.to_string());
}

#[test]
fn text_helpers() {
    assert!(same_text("abc", "abc"));
    assert!(!same_text("abc", "abd"));
    assert!(!same_text("abc", "ab"));
    assert!(starts_with_text("Vec<u8>", "Vec<"));
    assert!(!starts_with_text("Ve", "Vec<"));
    assert_eq!(join(&vec!["a".to_string(), "b".to_string(), "c".to_string()], ", "), "a, b, c");
    assert_eq!(join(&Vec::new(), ", "), "");
}
