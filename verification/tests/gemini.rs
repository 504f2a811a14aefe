//! Scenarios of reading Gemini answers.

use orchy::enums::action::Action;
use orchy::enums::llm_response::DecodedJson;
use orchy::mcp::gemini::{GeminiCLI, RetryDecision};
use orchy::error::OrchestratorError;

/// A document that decodes as an action list and as nothing else.
fn decoded_as_actions(actions: Vec<Action>) -> DecodedJson {
    DecodedJson {
        todos: None,
        actions: Some(actions),
        ci_cd_fix: None,
        docker_deployment: None,
        qa_analysis: None,
        api_synchronization: None,
        performance_optimization: None,
        tasks: None,
        code_review_input: None,
        conflict_resolution_input: None,
        rejection: None,
    }
}

/// The `Write` actions of a JSON array of actions, decoded from its text.
fn write_actions_of(json: &str) -> Vec<Action> {
    let value: serde_json::Value = serde_json::from_str(json).unwrap();
    value
        .as_array()
        .unwrap()
        .iter()
        .filter_map(|item| item.get("Write"))
        .map(|w| Action::Write {
            path: w["path"].as_str().unwrap().to_string(),
            content: w["content"].as_str().unwrap().to_string(),
        })
        .collect()
}

/// A document that decodes as an agent's rejection and as nothing else.
fn decoded_as_rejection(reason: &str, blocking_issues: Vec<&str>) -> DecodedJson {
    let mut d = decoded_as_actions(Vec::new());
    d.actions = None;
    d.rejection = Some((
        reason.to_string(),
        blocking_issues.into_iter().map(|s| s.to_string()).collect(),
    ));
    d
}

#[test]
fn test_json_extraction() {
    let markdown_response = r#"```json
[
  {
    "title": "Test Task",
    "description": "A test task"
  }
]
```"#;

    let extracted = GeminiCLI::extract_json_from_response(markdown_response);
    assert!(extracted.is_ok());

    if let Ok(json_str) = extracted {
        assert!(json_str.starts_with('['));
        assert!(json_str.ends_with(']'));
    }
}

#[test]
fn test_pure_json_extraction() {
    let json_response = r#"{"status": "success", "data": [1, 2, 3]}"#;

    let extracted = GeminiCLI::extract_json_from_response(json_response);
    assert!(extracted.is_ok());

    if let Ok(json_str) = extracted {
        assert_eq!(json_str, json_response);
    }
}

#[test]
fn test_response_type_detection() {
    // Test action array detection
    let action_response = r#"```json
[
  {
    "Write": {
      "path": "test.txt",
      "content": "test"
    }
  }
]
```"#;
    assert_eq!(GeminiCLI::detect_response_type(action_response), "action_array");

    // Test rejection detection
    let rejection_response = r#"```json
{
  "Reject": {
    "reason": "Code doesn't compile",
    "blocking_issues": ["Syntax errors"]
  }
}
```"#;
    assert_eq!(GeminiCLI::detect_response_type(rejection_response), "agent_rejection");

    // Test text response
    let text_response = "This is just plain text without JSON";
    assert_eq!(GeminiCLI::detect_response_type(text_response), "text");
}

#[test]
fn test_structured_response_parsing() {
    // Test parsing action array
    let action_response = r#"```json
[
  {
    "Write": {
      "path": "test.txt",
      "content": "Hello World"
    }
  }
]
```"#;
    
    // What decoding the extracted document as each response shape gives: it
    // is an action list (and not a todo list). The document is decoded here
    // from the answer's own text.
    let json = GeminiCLI::extract_json_from_response(action_response).unwrap();
    let decoded = decoded_as_actions(write_actions_of(&json));
    assert_eq!(
        decoded.actions,
        Some(vec![Action::Write { path: "test.txt".to_string(), content: "Hello World".to_string() }])
    );
    let parsed = GeminiCLI::parse_response(action_response, decoded);
    assert!(parsed.is_ok());
    
    if let Ok(llm_response) = parsed {
        assert!(llm_response.has_actions());
        assert_eq!(llm_response.response_type(), "feature_development");
        let actions = llm_response.extract_actions();
        assert_eq!(actions.len(), 1);
    }
}

#[test]
fn test_rejection_detection() {
    let rejection_response = r#"Some text with Reject keyword and blocking_issues"#;
    assert!(GeminiCLI::is_rejection_response(rejection_response));

    let normal_response = r#"[{"Write": {"path": "test.txt", "content": "test"}}]"#;
    assert!(!GeminiCLI::is_rejection_response(normal_response));
}

#[test]
fn client_arguments_name_model_and_prompt() {
    assert_eq!(
        GeminiCLI::session_query_args("hi", None),
        vec!["--model", "gemini-2.5-flash", "-p", "hi"]
    );
    assert_eq!(
        GeminiCLI::session_query_args("hi", Some("gemini-2.5-pro")),
        vec!["--model", "gemini-2.5-pro", "-p", "hi"]
    );
    assert_eq!(GeminiCLI::continue_session_args("hi", None), vec!["-p", "hi"]);
    assert_eq!(
        GeminiCLI::continue_session_args("hi", Some("m")),
        vec!["--model", "m", "-p", "hi"]
    );
    assert_eq!(GeminiCLI::generate_args("hi", "m"), vec!["gen", "-m", "m", "-p", "hi"]);
    assert_eq!(
        GeminiCLI::json_query_args("hi"),
        vec!["--model", "gemini-2.5-flash", "--format", "json", "hi"]
    );
    match GeminiCLI::cli_failure("bad", "") {
        orchy::error::OrchestratorError::Internal { message } => {
            assert_eq!(message, "Gemini CLI failed: stderr: bad, stdout: ")
        }
        _ => panic!("expected an internal error"),
    }
}

#[test]
fn connection_test_and_model_info() {
    assert_eq!(GeminiCLI::model_info_args("m"), vec!["--model-info", "m", "--format", "json"]);
    assert!(GeminiCLI::check_connection_reply("  Gemini CLI is working\n").is_ok());
    match GeminiCLI::check_connection_reply("hello") {
        Err(orchy::error::OrchestratorError::Internal { message }) => {
            assert_eq!(message, "Unexpected response from Gemini CLI: hello")
        }
        _ => panic!("expected an internal error"),
    }
    assert_eq!(
        GeminiCLI::connection_test_prompt(),
        "Respond with exactly: 'Gemini CLI is working'"
    );
    match GeminiCLI::cli_stderr_failure("boom") {
        orchy::error::OrchestratorError::Internal { message } => {
            assert_eq!(message, "Gemini CLI failed: boom")
        }
        _ => panic!("expected an internal error"),
    }
}

#[test]
fn embedded_json_after_non_ascii_text_is_the_first_balanced_object() {
    let response = "é {\"a\": 1} and {\"b\": 2}";
    assert_eq!(
        GeminiCLI::extract_json_from_response(response).unwrap(),
        "{\"a\": 1}".to_string()
    );
}

#[test]
fn embedded_json_takes_the_kind_that_opens_first() {
    let response = "prefix {\"a\": [1, 2]} tail ]";
    assert_eq!(
        GeminiCLI::extract_json_from_response(response).unwrap(),
        "{\"a\": [1, 2]}".to_string()
    );
    let nested = "ü [[1], [2]] rest";
    assert_eq!(GeminiCLI::extract_json_from_response(nested).unwrap(), "[[1], [2]]".to_string());
}

#[test]
fn embedded_json_errors() {
    match GeminiCLI::extract_json_from_response("no json at all") {
        Err(OrchestratorError::Internal { message }) => assert_eq!(message, "No JSON found in response"),
        _ => panic!("expected an internal error"),
    }
    match GeminiCLI::extract_json_from_response("text { unclosed") {
        Err(OrchestratorError::Internal { message }) => {
            assert_eq!(message, "No matching closing bracket/brace found")
        }
        _ => panic!("expected an internal error"),
    }
}

#[test]
fn rejection_details_of_a_rejection_document() {
    let response = "```json\n{\"Reject\": {\"reason\": \"Code doesn't compile\", \"blocking_issues\": [\"Syntax errors\"]}}\n```";
    let decoded = decoded_as_rejection("Code doesn't compile", vec!["Syntax errors"]);
    assert_eq!(
        GeminiCLI::extract_rejection_details(response, decoded),
        Some(("Code doesn't compile".to_string(), vec!["Syntax errors".to_string()]))
    );
}

#[test]
fn rejection_details_need_a_json_document() {
    let decoded = decoded_as_rejection("ignored", vec![]);
    assert_eq!(GeminiCLI::extract_rejection_details("plain text, Reject", decoded), None);
    let not_rejection = decoded_as_actions(Vec::new());
    assert_eq!(GeminiCLI::extract_rejection_details("[]", not_rejection), None);
}

/// Drives a query's retry loop whose attempt `k` (from 1) gives
/// `outcomes[k - 1]` (`None` on success, else the client's error output): the
/// waits it makes and whether it ends in success.
fn drive_query_retries(max_retries: u32, outcomes: &[Option<&str>]) -> (Vec<u64>, bool) {
    let mut waits = Vec::new();
    for attempt in 1..=max_retries {
        match outcomes[(attempt - 1) as usize] {
            None => return (waits, true),
            Some(stderr) => match GeminiCLI::retry_decision(attempt, max_retries, stderr) {
                RetryDecision::GiveUp => return (waits, false),
                RetryDecision::RetryAfter(seconds) => waits.push(seconds),
            },
        }
    }
    (waits, false)
}

#[test]
fn queries_retry_only_retryable_errors_with_doubling_waits() {
    let busy = Some("500 INTERNAL");
    assert_eq!(drive_query_retries(4, &[busy, busy, None, None]), (vec![1, 2], true));
    assert_eq!(drive_query_retries(3, &[busy, busy, busy]), (vec![1, 2], false));
    assert_eq!(drive_query_retries(3, &[busy, Some("invalid API key"), None]), (vec![1], false));
    assert_eq!(drive_query_retries(1, &[busy]), (vec![], false));
}
