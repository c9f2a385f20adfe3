use zamm::errors::{SidecarResponseError, ZammError};

fn json_error() -> serde_json::Error {
    serde_json::from_str::<serde_json::Value>("{").unwrap_err()
}

#[test]
fn response_error_report_lists_request_response_and_cause() {
    let cause = json_error();
    let cause_text = cause.to_string();
    let e = SidecarResponseError {
        request: vec!["/opt/zamm-python".to_string(), "greet".to_string(), "{\"name\":\"T\"}".to_string()],
        response: "oops".to_string(),
        source: cause,
    };
    assert_eq!(
        e.to_display_string(),
        format!(
            "Failed to parse sidecar JSON.\nRequest: /opt/zamm-python greet {{\"name\":\"T\"}} \nResponse: oops\nError: {}",
            cause_text
        )
    );
    assert_eq!(
        e.describe("why"),
        "Failed to parse sidecar JSON.\nRequest: /opt/zamm-python greet {\"name\":\"T\"} \nResponse: oops\nError: why"
    );
}

#[test]
fn response_error_with_empty_request() {
    let e = SidecarResponseError { request: vec![], response: String::new(), source: json_error() };
    assert_eq!(e.describe("c"), "Failed to parse sidecar JSON.\nRequest: \nResponse: \nError: c");
}

#[test]
fn error_texts() {
    let spawn = ZammError::SidecarSpawn {
        expected_path: "/opt/zamm-python".to_string(),
        tauri_error: "not found".to_string(),
    };
    assert_eq!(spawn.to_display_string(), "Failed to spawn sidecar at /opt/zamm-python: not found");
    let cmd = ZammError::SidecarCommandErr { line: "boom".to_string() };
    assert_eq!(cmd.to_display_string(), "Sidecar command error event: boom");
    assert_eq!(ZammError::SidecarUnexpectedCommandEvent.to_display_string(), "Unexpected sidecar command event");
    let tauri = ZammError::Tauri { message: "Could not evaluate executable dir".to_string() };
    assert_eq!(tauri.to_display_string(), "Could not evaluate executable dir");
    let cause = json_error();
    let text = cause.to_string();
    assert_eq!(ZammError::Serde { source: cause }.to_display_string(), text);
}

#[test]
fn response_error_text_is_transparent() {
    let cause = json_error();
    let text = cause.to_string();
    let e = ZammError::SidecarResponse {
        source: SidecarResponseError { request: vec!["p".to_string()], response: "r".to_string(), source: cause },
    };
    assert_eq!(e.to_display_string(), format!("Failed to parse sidecar JSON.\nRequest: p \nResponse: r\nError: {}", text));
}
