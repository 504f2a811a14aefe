//! Scenarios of the managers' statistics, retry policy and model routing.

use orchy::enums::TechStack;
use orchy::error::OrchestratorError;
use orchy::managers::common::{BackoffStep, CommonStatistics, ManagerHelpers};
use orchy::managers::mcp_manager::{
    availability_changes, context_file_name, frame_actions_array, frame_tasks_array,
    generic_context_content, prompt_target, McpCounters, McpModel,
};

#[test]
fn statistics_count_each_operation_once() {
    let mut s = CommonStatistics::default();
    s.update_success(100);
    s.update_failure(50);
    s.update_success(25);
    assert_eq!(s.total_operations, 3);
    assert_eq!(s.successful_operations, 2);
    assert_eq!(s.failed_operations, 1);
    assert_eq!(s.total_execution_time_ms, 175);
    assert_eq!(s.total_operations, s.successful_operations + s.failed_operations);
}

#[test]
fn backoff_doubles_until_the_last_attempt() {
    assert_eq!(ManagerHelpers::backoff_step(0, 3, 100, true), BackoffStep::Succeed);
    assert_eq!(
        ManagerHelpers::backoff_step(0, 3, 100, false),
        BackoffStep::Retry { wait_ms: 100, next_delay_ms: 200 }
    );
    assert_eq!(
        ManagerHelpers::backoff_step(2, 3, 400, false),
        BackoffStep::Retry { wait_ms: 400, next_delay_ms: 800 }
    );
    assert_eq!(ManagerHelpers::backoff_step(3, 3, 800, false), BackoffStep::GiveUp);
    assert_eq!(ManagerHelpers::backoff_step(0, 0, 100, false), BackoffStep::GiveUp);
}

#[test]
fn batch_outcomes_are_sorted_in_order() {
    let outcomes: Vec<Result<u32, OrchestratorError>> = vec![
        Ok(1),
        Err(OrchestratorError::validation("bad".to_string())),
        Ok(2),
        Err(OrchestratorError::timeout("slow".to_string())),
        Ok(3),
    ];
    let (results, errors) = ManagerHelpers::partition_outcomes(outcomes);
    assert_eq!(results, vec![1, 2, 3]);
    assert_eq!(errors.len(), 2);
    assert!(matches!(&errors[0], OrchestratorError::Validation { message } if message == "bad"));
    assert!(matches!(&errors[1], OrchestratorError::Timeout { operation } if operation == "slow"));
}

#[test]
fn model_names() {
    assert_eq!(McpModel::Gemini.to_string(), "gemini");
    assert_eq!(McpModel::Secondary.to_string(), "secondary");
}

#[test]
fn context_files_follow_the_front_end() {
    assert_eq!(context_file_name(TechStack::Vue), "context.vue.md");
    assert_eq!(context_file_name(TechStack::React), "context.react.md");
    assert_eq!(context_file_name(TechStack::Rust), "context.rust.asyncgraphql.md");
    assert_eq!(context_file_name(TechStack::FullstackRustVue), "context.vue.md");
    assert_eq!(context_file_name(TechStack::FullstackRustReact), "context.react.md");
}

#[test]
fn test_context_content_generation() {
    let content = generic_context_content(TechStack::Rust);

    assert!(content.contains("Technology Stack"));
    assert!(content.contains("Rust"));
    assert!(content.contains("Development Guidelines"));
    assert!(content.contains("Code Quality"));
    assert!(content.contains("Security"));
    assert!(content.contains("Performance"));
    assert!(content.contains("Testing"));
    assert!(content.contains("Documentation"));
}

#[test]
fn generic_context_names_the_stack_under_its_heading() {
    let content = generic_context_content(TechStack::FullstackRustReact);
    assert!(content.starts_with("# Project Context\n\n## Technology Stack\nFullstackRustReact\n\n## Development Guidelines\n"));
    assert!(content.ends_with("Maintain separation of concerns and modular architecture.\n"));
}

#[test]
fn prompts_go_to_gemini_in_the_project_directory() {
    let dir = Some("/tmp/project".to_string());
    assert_eq!(prompt_target(McpModel::Gemini, true, &dir).unwrap(), "/tmp/project");
    match prompt_target(McpModel::Gemini, false, &dir) {
        Err(OrchestratorError::Internal { message }) => assert_eq!(message, "Gemini CLI not available"),
        _ => panic!("expected an internal error"),
    }
    match prompt_target(McpModel::Gemini, true, &None) {
        Err(OrchestratorError::Internal { message }) => {
            assert_eq!(message, "No project path set for MCP Manager")
        }
        _ => panic!("expected an internal error"),
    }
    match prompt_target(McpModel::Secondary, true, &dir) {
        Err(OrchestratorError::Internal { message }) => {
            assert_eq!(message, "Secondary model integration not yet implemented")
        }
        _ => panic!("expected an internal error"),
    }
}

#[test]
fn bare_arrays_are_framed_before_decoding() {
    let tasks = r#"[{"id": "test"}]"#;
    assert_eq!(frame_tasks_array(tasks), r#"{"tasks": [{"id": "test"}]}"#);
    assert_eq!(frame_tasks_array("  [1]"), r#"{"tasks":   [1]}"#);
    assert_eq!(frame_tasks_array(r#"{"tasks": []}"#), r#"{"tasks": []}"#);
    assert_eq!(frame_actions_array("[]"), r#"{"actions": []}"#);
    assert_eq!(frame_actions_array("This is not JSON"), "This is not JSON");
}

#[test]
fn counters_track_outcome_and_model() {
    let mut c = McpCounters::new();
    c.record_prompt(McpModel::Gemini, true);
    c.record_prompt(McpModel::Gemini, false);
    assert_eq!(c.total_prompts_executed, 2);
    assert_eq!(c.successful_executions, 1);
    assert_eq!(c.failed_executions, 1);
    assert_eq!(c.gemini_calls, 2);
    assert_eq!(c.secondary_calls, 0);
    c.record_context_files();
    assert_eq!(c.context_files_created, 2);
}

#[test]
fn availability_changes_are_announced_once() {
    assert_eq!(availability_changes(false, false, true), vec![(McpModel::Gemini, true)]);
    assert_eq!(availability_changes(true, false, true), vec![]);
    assert_eq!(
        availability_changes(true, true, false),
        vec![(McpModel::Gemini, false), (McpModel::Secondary, false)]
    );
}

use orchy::managers::project_files::{
    is_hidden_name, is_relevant_extension, is_skipped_directory, relevant_extensions, truncated_content,
};

#[test]
fn context_files_are_chosen_by_name_and_extension() {
    assert_eq!(relevant_extensions().len(), 31);
    assert!(is_relevant_extension("rs") && is_relevant_extension("dockerfile") && is_relevant_extension("xml"));
    assert!(!is_relevant_extension("png") && !is_relevant_extension("RS"));
    assert!(is_hidden_name(".env") && !is_hidden_name("src"));
    assert!(is_skipped_directory("node_modules") && is_skipped_directory(".git"));
    assert!(!is_skipped_directory("src"));
}

#[test]
fn long_files_are_cut_at_two_thousand_bytes() {
    assert_eq!(truncated_content("short"), "short");
    let long = "a".repeat(2500);
    let cut = truncated_content(&long);
    assert_eq!(cut, format!("{}...\n[Content truncated - 2500 total characters]", "a".repeat(2000)));
    let exactly = "b".repeat(2000);
    assert_eq!(truncated_content(&exactly), exactly);
    // Byte 2000 falls inside `é`: the cut goes back to the last whole character.
    let split = format!("{}é{}", "c".repeat(1999), "d".repeat(10));
    assert_eq!(
        truncated_content(&split),
        format!("{}...\n[Content truncated - 2011 total characters]", "c".repeat(1999))
    );
}

use orchy::managers::mcp_manager::{answer_json, error_recovery_json, ExpectedAnswer};

#[test]
fn answers_are_extracted_and_framed_before_decoding() {
    let json_response = r#"[{"id": "test", "title": "Test Task", "description": "Test", "priority": "High", "complexity": 5, "agent_type": "TestAgent", "tags": [], "depends_on": []}]"#;
    assert_eq!(
        answer_json(ExpectedAnswer::IdeaBreakdown, json_response).unwrap(),
        format!("{{\"tasks\": {}}}", json_response)
    );
    let markdown_response = format!("```json\n{}\n```", json_response);
    assert_eq!(
        answer_json(ExpectedAnswer::IdeaBreakdown, &markdown_response).unwrap(),
        format!("{{\"tasks\": {}}}", json_response)
    );
    assert_eq!(answer_json(ExpectedAnswer::FeatureDevelopment, "[]").unwrap(), "{\"actions\": []}");
    assert_eq!(answer_json(ExpectedAnswer::Other, "[]").unwrap(), "[]");
    match answer_json(ExpectedAnswer::IdeaBreakdown, "This is not JSON") {
        Err(OrchestratorError::Internal { message }) => assert_eq!(message, "No JSON found in response"),
        _ => panic!("expected an internal error"),
    }
}

/// Drives a backoff loop whose attempt `k` succeeds when `succeeded[k]`:
/// the waits it makes and whether it ends in success.
fn drive_backoff(max_retries: u32, initial: u64, succeeded: &[bool]) -> (Vec<u64>, bool) {
    let mut waits = Vec::new();
    let mut attempt: u32 = 0;
    let mut delay = initial;
    loop {
        match ManagerHelpers::backoff_step(attempt, max_retries, delay, succeeded[attempt as usize]) {
            BackoffStep::Succeed => return (waits, true),
            BackoffStep::GiveUp => return (waits, false),
            BackoffStep::Retry { wait_ms, next_delay_ms } => {
                waits.push(wait_ms);
                delay = next_delay_ms;
                attempt += 1;
            }
        }
    }
}

#[test]
fn backoff_retries_until_success_or_the_limit() {
    assert_eq!(drive_backoff(3, 100, &[false, false, true, true]), (vec![100, 200], true));
    assert_eq!(drive_backoff(3, 100, &[false, false, false, false]), (vec![100, 200, 400], false));
    assert_eq!(drive_backoff(3, 100, &[true, false, false, false]), (vec![], true));
    assert_eq!(drive_backoff(0, 100, &[false]), (vec![], false));
}

#[test]
fn error_recovery_answers_must_be_json() {
    assert_eq!(error_recovery_json("```json\n{\"fix\": 1}\n```").unwrap(), "{\"fix\": 1}");
    match error_recovery_json("text {not: json} more") {
        Err(OrchestratorError::JsonParsing { context, .. }) => assert_eq!(context, "AI model response"),
        other => panic!("unexpected {:?}", other.map(|_| ())),
    }
    match error_recovery_json("no document") {
        Err(OrchestratorError::Internal { message }) => assert_eq!(message, "No JSON found in response"),
        other => panic!("unexpected {:?}", other.map(|_| ())),
    }
}
