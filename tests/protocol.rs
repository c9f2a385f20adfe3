use zamm::api::{process, sidecar_args, MockSidecarExecutor};
use zamm::errors::ZammError;
use zamm::greet::{greet_helper, greeting_via_rust};
use zamm::json::ToJson;
use zamm::python_api::{GreetArgs, GreetResponse};

fn decode_greeting(s: &String) -> Result<GreetResponse, serde_json::Error> {
    let v: serde_json::Value = serde_json::from_str(s)?;
    match v.get("greeting").and_then(|g| g.as_str()) {
        Some(g) => Ok(GreetResponse { greeting: g.to_string() }),
        None => Err(<serde_json::Error as serde::de::Error>::missing_field("greeting")),
    }
}

fn decode_value(s: &String) -> Result<serde_json::Value, serde_json::Error> {
    serde_json::from_str(s)
}

fn parse_greet(args_str: &str) -> serde_json::Value {
    serde_json::from_str(args_str).unwrap()
}

fn check_greet_sample(request: &[&str], response: &str, rust_input: &str, rust_result: &str) {
    let mut mock = MockSidecarExecutor::new(Ok(response.to_string()));
    let result = greet_helper(&mut mock, rust_input, &decode_greeting).unwrap();
    assert_eq!(result, rust_result);

    assert_eq!(mock.calls.len(), 1);
    let (cmd, actual_cmd_args) = &mock.calls[0];
    assert_eq!(cmd, "zamm-python");
    assert_eq!(actual_cmd_args.len(), request.len());
    assert_eq!(actual_cmd_args[0], request[0]);
    assert_eq!(parse_greet(&actual_cmd_args[1]), parse_greet(request[1]));
}

#[test]
fn commands_test_greet_name() {
    check_greet_sample(
        &["greet", "{\"name\": \"Test\"}"],
        "{\"greeting\": \"Hello, Test! You have been greeted from Python\"}\n",
        "Test",
        "Hello, Test! You have been greeted from Python via Rust",
    );
}

#[test]
fn commands_test_greet_empty_name() {
    check_greet_sample(
        &["greet", "{\"name\": \"\"}"],
        "{\"greeting\": \"Hello, ! You have been greeted from Python\"}\n",
        "",
        "Hello, ! You have been greeted from Python via Rust",
    );
}

#[test]
fn greet_test_greet_name() {
    check_greet_sample(
        &["greet", "{\"name\": \"Test\"}"],
        "{\"greeting\": \"Hello, Test! You have been greeted from Python\"}\n",
        "Test",
        "Hello, Test! You have been greeted from Python via Rust",
    );
}

#[test]
fn greet_test_greet_empty_name() {
    check_greet_sample(
        &["greet", "{\"name\": \"\"}"],
        "{\"greeting\": \"Hello, ! You have been greeted from Python\"}\n",
        "",
        "Hello, ! You have been greeted from Python via Rust",
    );
}

#[test]
fn end_to_end_greet() {
    let mut mock = MockSidecarExecutor::new(Ok("{\"greeting\":\"Hello, Test!\"}".to_string()));
    let args = GreetArgs { name: "Test".to_string() };
    let response = process(&mut mock, "zamm-python", "greet", &args, &decode_greeting).unwrap();
    assert_eq!(response.greeting, "Hello, Test!");
    assert_eq!(greeting_via_rust(&response.greeting), "Hello, Test! via Rust");
    assert_eq!(
        mock.calls[0].1,
        vec!["greet".to_string(), "{\"name\":\"Test\"}".to_string()]
    );
}

#[test]
fn round_trip_returns_encoded_value() {
    let mut fields = serde_json::Map::new();
    fields.insert("greeting".to_string(), serde_json::Value::String("Hello, \"x\"!".to_string()));
    fields.insert("count".to_string(), serde_json::Value::from(3));
    fields.insert("tags".to_string(), serde_json::Value::Array(vec![serde_json::Value::Null, serde_json::Value::Bool(true)]));
    let expected = serde_json::Value::Object(fields);
    let raw = serde_json::to_string(&expected).unwrap();
    let mut mock = MockSidecarExecutor::new(Ok(raw));
    let args = GreetArgs { name: "x".to_string() };
    let got = process(&mut mock, "zamm-python", "greet", &args, &decode_value).unwrap();
    assert_eq!(got, expected);
}

#[test]
fn parse_failure_keeps_request_and_response() {
    let raw = "  not json at all \n".to_string();
    let mut mock = MockSidecarExecutor::new(Ok(raw.clone()));
    let args = GreetArgs { name: "Test".to_string() };
    match process(&mut mock, "zamm-python", "greet", &args, &decode_greeting) {
        Err(ZammError::SidecarResponse { source }) => {
            assert_eq!(source.response, raw);
            assert_eq!(source.request.len(), 3);
            assert!(source.request[0].ends_with("zamm-python") || source.request[0].ends_with("zamm-python.exe"));
            assert_eq!(source.request[1], "greet");
            assert_eq!(source.request[2], "{\"name\":\"Test\"}");
        }
        other => panic!("expected a response error, got {:?}", other.map(|r| r.greeting)),
    }
}

#[test]
fn schema_mismatch_is_a_parse_failure() {
    let raw = "{\"salutation\":\"hi\"}".to_string();
    let mut mock = MockSidecarExecutor::new(Ok(raw.clone()));
    let args = GreetArgs { name: "Test".to_string() };
    match process(&mut mock, "zamm-python", "greet", &args, &decode_greeting) {
        Err(ZammError::SidecarResponse { source }) => assert_eq!(source.response, raw),
        other => panic!("expected a response error, got {:?}", other.map(|r| r.greeting)),
    }
}

#[test]
fn executor_failure_is_forwarded() {
    let mut mock = MockSidecarExecutor::new(Err(ZammError::SidecarCommandErr { line: "boom".to_string() }));
    match greet_helper(&mut mock, "Test", &decode_greeting) {
        Err(ZammError::SidecarCommandErr { line }) => assert_eq!(line, "boom"),
        other => panic!("expected the command error, got {:?}", other),
    }
}

#[test]
fn mock_answers_once() {
    let mut mock = MockSidecarExecutor::new(Ok("{\"greeting\":\"hi\"}".to_string()));
    assert!(greet_helper(&mut mock, "a", &decode_greeting).is_ok());
    assert!(matches!(greet_helper(&mut mock, "b", &decode_greeting), Err(ZammError::Tauri { .. })));
    assert_eq!(mock.calls.len(), 2);
}

#[test]
fn greet_args_encode_escaped_name() {
    let args = GreetArgs { name: "Te\"st\n".to_string() };
    assert_eq!(args.to_json().unwrap(), "{\"name\":\"Te\\\"st\\n\"}");
    let empty = GreetArgs { name: String::new() };
    assert_eq!(empty.to_json().unwrap(), "{\"name\":\"\"}");
}

#[test]
fn sidecar_args_are_command_then_json() {
    assert_eq!(sidecar_args("greet", "{}"), vec!["greet".to_string(), "{}".to_string()]);
}

#[test]
fn greet_args_encode_control_characters() {
    let args = GreetArgs { name: "a\u{1}\u{1f}\t\\/é".to_string() };
    assert_eq!(args.to_json().unwrap(), "{\"name\":\"a\\u0001\\u001f\\t\\\\/é\"}");
}

#[test]
fn encoded_request_is_exact_for_empty_name() {
    let mut mock = MockSidecarExecutor::new(Ok("{\"greeting\":\"Hello, !\"}".to_string()));
    let result = greet_helper(&mut mock, "", &decode_greeting).unwrap();
    assert_eq!(result, "Hello, ! via Rust");
    assert_eq!(mock.calls[0].0, "zamm-python");
    assert_eq!(mock.calls[0].1, vec!["greet".to_string(), "{\"name\":\"\"}".to_string()]);
    assert!(mock.response.is_none());
}
