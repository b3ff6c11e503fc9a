use edamame_cli::dispatch::{
    after_call, after_signature, help_outcome, render_result, start_dispatch, ExitStatus, Step,
    ERROR_CODE_PARAM, ERROR_CODE_SERVER_ERROR,
};
use edamame_cli::json::{parse_payload, reformat_pretty};
use edamame_cli::listing::{info_line, list_methods_outcome, method_info_outcome, methods_error};
use edamame_cli::signature::{fetch_outcome, Argument, FetchError, MethodSignature};

fn ping() -> MethodSignature {
    MethodSignature {
        method_name: "ping".to_string(),
        return_type: "String".to_string(),
        arguments: vec![Argument { name: "host".to_string(), type_tag: "String".to_string() }],
    }
}

fn strings(items: &[&str]) -> Vec<String> {
    items.iter().map(|s| s.to_string()).collect()
}

#[test]
fn exit_codes() {
    assert_eq!(ExitStatus::Success.code(), 0);
    assert_eq!(ExitStatus::ParamError.code(), ERROR_CODE_PARAM);
    assert_eq!(ExitStatus::ServerError.code(), ERROR_CODE_SERVER_ERROR);
    assert_eq!(ERROR_CODE_PARAM, 3);
    assert_eq!(ERROR_CODE_SERVER_ERROR, 12);
}

#[test]
fn ping_end_to_end() {
    let payload = parse_payload(r#"{"host": "1.2.3.4"}"#);
    assert!(matches!(start_dispatch(&payload), Step::FetchSignature));
    match after_signature("ping", &payload, Ok(ping())) {
        Step::Call(args) => assert_eq!(args, vec!["\"1.2.3.4\"".to_string()]),
        _ => panic!("expected a call"),
    }
    let finish = after_call(Ok("\"pong\"".to_string()), true);
    assert_eq!(finish.output, vec!["\"pong\"".to_string()]);
    assert!(finish.report.is_empty());
    assert!(!finish.show_help);
    assert_eq!(finish.status, ExitStatus::Success);
}

#[test]
fn ping_misspelled_field() {
    let payload = parse_payload(r#"{"hots": "1.2.3.4"}"#);
    match after_signature("ping", &payload, Ok(ping())) {
        Step::Done(finish) => {
            assert_eq!(
                finish.report,
                strings(&[
                    ">>>> Missing field 'host' in provided JSON object for method ping",
                    "Unknown fields present: hots",
                    "     'hots' is not expected. Did you mean 'host' ?",
                ])
            );
            assert!(finish.output.is_empty());
            assert!(finish.show_help);
            assert_eq!(finish.status, ExitStatus::ParamError);
            assert_eq!(finish.status.code(), 3);
        }
        _ => panic!("no call may be made"),
    }
}

#[test]
fn unknown_fields_listed_together() {
    let payload = parse_payload(r#"{"host": "h", "qqqqq": 1, "hostt": 2}"#);
    match after_signature("ping", &payload, Ok(ping())) {
        Step::Done(finish) => {
            assert_eq!(
                finish.report,
                strings(&[
                    "Unknown fields present: hostt, qqqqq",
                    "     'hostt' is not expected. Did you mean 'host' ?",
                ])
            );
        }
        _ => panic!("no call may be made"),
    }
}

#[test]
fn array_is_called_without_signature() {
    let payload = parse_payload(r#"["7", true]"#);
    match start_dispatch(&payload) {
        Step::Call(args) => assert_eq!(args, strings(&["\"7\"", "true"])),
        _ => panic!("expected a call"),
    }
}

#[test]
fn invalid_input_is_a_parameter_error() {
    match start_dispatch(&parse_payload("\"just a string\"")) {
        Step::Done(finish) => {
            assert_eq!(
                finish.report,
                strings(&[">>>> Error parsing JSON arguments: expected a JSON array or object"])
            );
            assert!(finish.show_help);
            assert_eq!(finish.status, ExitStatus::ParamError);
        }
        _ => panic!("expected a stop"),
    }
    match start_dispatch(&parse_payload("{oops")) {
        Step::Done(finish) => {
            assert!(finish.report[0].starts_with(">>>> Error parsing JSON arguments: Error("));
            assert_eq!(finish.status, ExitStatus::ParamError);
        }
        _ => panic!("expected a stop"),
    }
}

#[test]
fn fetch_failure_is_a_server_error() {
    let payload = parse_payload(r#"{"host": "h"}"#);
    let fetched = fetch_outcome("ping", Err("connection refused".to_string()));
    match after_signature("ping", &payload, fetched) {
        Step::Done(finish) => {
            assert_eq!(finish.report, strings(&["Could not fetch method info: connection refused"]));
            assert!(!finish.show_help);
            assert_eq!(finish.status, ExitStatus::ServerError);
        }
        _ => panic!("expected a stop"),
    }
    match fetch_outcome("nope", Ok(None)) {
        Err(e) => {
            assert!(matches!(e, FetchError::Unknown(ref m) if m == "nope"));
            assert_eq!(e.message(), "No information available for method: nope");
        }
        Ok(_) => panic!("expected an error"),
    }
    assert!(matches!(fetch_outcome("ping", Ok(Some(ping()))), Ok(ref s) if s.method_name == "ping"));
}

#[test]
fn call_failure_is_a_server_error_with_help() {
    let finish = after_call(Err("timeout".to_string()), false);
    assert_eq!(finish.report, strings(&[">>>> Error calling RPC method: timeout"]));
    assert!(finish.output.is_empty());
    assert!(finish.show_help);
    assert_eq!(finish.status, ExitStatus::ServerError);
}

#[test]
fn result_rendering() {
    assert_eq!(render_result("\"pong\"", false), "\"pong\"");
    assert_eq!(render_result("plain", false), "plain");
    assert_eq!(render_result("not json", true), "not json");
    assert_eq!(render_result("\"pong\"", true), "\"pong\"");
    assert_eq!(render_result(r#"{"a":[1,2]}"#, true), "{\n  \"a\": [\n    1,\n    2\n  ]\n}");
    assert_eq!(reformat_pretty("[1]"), Some("[\n  1\n]".to_string()));
    assert_eq!(reformat_pretty("[1"), None);
}

#[test]
fn help_after_fetch() {
    let shown = help_outcome(&Ok(ping()));
    assert_eq!(shown.output[0], "Method: ping");
    assert!(shown.report.is_empty());
    let failed = help_outcome(&Err(FetchError::Transport("down".to_string())));
    assert!(failed.output.is_empty());
    assert_eq!(failed.report, strings(&["Could not fetch method info: down"]));
}

#[test]
fn method_list_sorted() {
    let pretty = list_methods_outcome(Ok(strings(&["zeta", "alpha", "mid"])), true);
    assert_eq!(pretty.output, strings(&["Available RPC methods:", "  alpha", "  mid", "  zeta"]));
    assert_eq!(pretty.status, ExitStatus::Success);
    let plain = list_methods_outcome(Ok(strings(&["b", "a"])), false);
    assert_eq!(plain.output, strings(&["Available RPC methods: [\"a\", \"b\"]"]));
    let empty = list_methods_outcome(Ok(Vec::new()), false);
    assert_eq!(empty.output, strings(&["Available RPC methods: []"]));
    let failed = list_methods_outcome(Err("down".to_string()), true);
    assert_eq!(failed.report, strings(&[">>>> Error getting API methods: down"]));
    assert_eq!(failed.status, ExitStatus::ServerError);
}

#[test]
fn method_info_cases() {
    let found = method_info_outcome("ping", Ok(Some(ping())));
    assert_eq!(found.output[1], "Return type: String");
    assert_eq!(found.status, ExitStatus::Success);
    let none = method_info_outcome("nope", Ok(None));
    assert_eq!(none.output, strings(&["No information available for method: nope"]));
    assert_eq!(none.status, ExitStatus::ServerError);
    let failed = method_info_outcome("ping", Err("down".to_string()));
    assert_eq!(failed.report, strings(&[">>>> Error getting API info: down"]));
    assert_eq!(failed.status, ExitStatus::ServerError);
}

#[test]
fn plain_result_printed_verbatim() {
    let finish = after_call(Ok("{\"a\": 1}".to_string()), false);
    assert_eq!(finish.output, strings(&["{\"a\": 1}"]));
    assert_eq!(finish.status, ExitStatus::Success);
}

#[test]
fn method_infos_lines() {
    assert_eq!(
        info_line("ping", &Ok("Some(ApiInfo)".to_string())),
        Ok("Method: ping, Info: Some(ApiInfo)".to_string())
    );
    assert_eq!(
        info_line("ping", &Err("down".to_string())),
        Err(">>>> Error getting API info: down".to_string())
    );
    let failed = methods_error("down");
    assert_eq!(failed.report, strings(&[">>>> Error getting API methods: down"]));
    assert!(failed.output.is_empty());
    assert_eq!(failed.status, ExitStatus::ServerError);
}

#[test]
fn scalar_payload_is_never_called() {
    for text in ["42", "true", "null", "\"s\""] {
        match start_dispatch(&parse_payload(text)) {
            Step::Done(finish) => assert_eq!(finish.status, ExitStatus::ParamError),
            _ => panic!("a scalar may not be called"),
        }
    }
}
