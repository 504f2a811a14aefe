//! Scenarios of the pipeline runs' text handling.

use orchy::e2e_tests::answer_text::ActionsText;
use orchy::e2e_tests::framework::{clean_write_path, command_failure_message, resolve_in_app_dir};
use orchy::e2e_tests::{E2ETestConfig, E2ETestRunner};

fn runner() -> E2ETestRunner {
    E2ETestRunner::new(E2ETestConfig::default())
}

#[test]
fn default_configuration() {
    let c = E2ETestConfig::default();
    assert_eq!(c.test_app_dir, "testing_apps");
    assert_eq!(c.max_retries, 3);
    assert_eq!(c.retry_delay_ms, 1000);
    assert_eq!(c.timeout_seconds, 300);
    assert_eq!(c.gemini_model, "gemini-2.5-flash");
    assert_eq!(runner().config().max_retries, 3);
}

#[test]
fn app_status_leaves_checks_to_the_model() {
    let s = runner().assess_app_status("testing_apps/app", "frontend");
    assert!(s.builds_successfully && s.tests_pass && s.deployment_ready);
    assert!(s.functionality_works && s.performance_acceptable);
}

#[test]
fn write_paths_lose_foreign_prefixes() {
    assert_eq!(clean_write_path("/home/dev/project/src/router/index.ts"), "src/router/index.ts");
    assert_eq!(clean_write_path("/Users/dev/project/package.json"), "package.json");
    assert_eq!(clean_write_path("login-frontend-app/src/router/index.ts"), "src/router/index.ts");
    assert_eq!(clean_write_path("src/main.ts"), "src/main.ts");
    assert_eq!(clean_write_path("/etc/hosts"), "/etc/hosts");
}

#[test]
fn relative_paths_land_in_the_app_directory() {
    assert_eq!(resolve_in_app_dir("apps/a", "src/main.ts"), "apps/a/src/main.ts");
    assert_eq!(resolve_in_app_dir("apps/a", "/tmp/x"), "/tmp/x");
}

#[test]
fn failed_commands_report_both_streams() {
    assert_eq!(
        command_failure_message("npm test", "out", "err"),
        "Command failed: npm test\nSTDOUT: out\nSTDERR: err"
    );
}

#[test]
fn tech_stack_is_named_from_dependencies() {
    let deps = vec!["vue".to_string(), "express".to_string()];
    let dev = vec!["vite".to_string(), "typescript".to_string()];
    assert_eq!(
        E2ETestRunner::tech_stack_from_dependencies(&deps, &dev),
        "Vue 3, Express, TypeScript, Vite"
    );
    assert_eq!(E2ETestRunner::tech_stack_from_dependencies(&vec![], &vec![]), "");
    let react = vec!["react".to_string(), "apollo-server-express".to_string()];
    assert_eq!(E2ETestRunner::tech_stack_from_dependencies(&react, &vec![]), "React, Apollo Server");
}

#[test]
fn idea_breakdown_json_runs_from_first_bracket_to_last() {
    let r = runner();
    let answer = "Here you go: [{\"id\": \"a\"}, [1]] thanks";
    assert_eq!(r.idea_breakdown_json(answer), Some("[{\"id\": \"a\"}, [1]]".to_string()));
    assert_eq!(r.idea_breakdown_json("no array here"), None);
    assert_eq!(r.idea_breakdown_json("] then ... ["), None);
    assert_eq!(r.idea_breakdown_json("]["), None);
    assert_eq!(r.idea_breakdown_json("only a close ]"), None);
    assert_eq!(r.idea_breakdown_json("only an open ["), None);
    assert_eq!(r.idea_breakdown_json("é [1] ü"), Some("[1]".to_string()));
}

#[test]
fn actions_are_read_after_notices_and_fences() {
    let r = runner();
    let answer = "Loaded cached credentials.\nHere are the actions:\n```json\n[{\"Write\": {\"path\": \"a\", \"content\": \"b\"}}]\n```";
    assert_eq!(
        r.actions_response_text(answer),
        ActionsText::Json("[{\"Write\": {\"path\": \"a\", \"content\": \"b\"}}]".to_string())
    );
}

#[test]
fn notices_alone_give_no_actions() {
    let r = runner();
    assert_eq!(r.actions_response_text("Loaded cached credentials."), ActionsText::NoActions);
    assert_eq!(r.actions_response_text("  "), ActionsText::NoActions);
    assert_eq!(
        r.actions_response_text("The code looks good, nothing to do."),
        ActionsText::NoActions
    );
}

#[test]
fn answers_without_an_array_are_refused() {
    let r = runner();
    assert_eq!(
        r.actions_response_text("I could not decide what to do"),
        ActionsText::Invalid(
            "No valid JSON array found in response. Cleaned response was: 'I could not decide what to do'"
                .to_string()
        )
    );
    assert_eq!(
        r.actions_response_text("] backwards ["),
        ActionsText::Invalid(
            "Invalid JSON array boundaries in response. Cleaned response was: '] backwards ['"
                .to_string()
        )
    );
}

use orchy::e2e_tests::report::{PipelineResult, StageResult};
use orchy::e2e_tests::AppStatus;

fn stage(name: &str, success: bool, errors: Vec<&str>) -> StageResult {
    StageResult {
        stage_name: name.to_string(),
        success,
        actions_executed: vec![serde_json::Value::Null, serde_json::Value::Bool(true)],
        errors: errors.into_iter().map(|e| e.to_string()).collect(),
        duration_ms: 1200,
        retry_count: 1,
    }
}

#[test]
fn a_pipeline_succeeds_when_every_stage_does() {
    assert!(E2ETestRunner::overall_success(&vec![stage("a", true, vec![]), stage("b", true, vec![])]));
    assert!(!E2ETestRunner::overall_success(&vec![stage("a", true, vec![]), stage("b", false, vec![])]));
    assert!(E2ETestRunner::overall_success(&vec![]));
}

#[test]
fn a_stage_that_never_succeeded_reports_its_error() {
    let s = runner().failed_stage("QA Testing", "timeout");
    assert_eq!(s.stage_name, "QA Testing");
    assert!(!s.success);
    assert!(s.actions_executed.is_empty());
    assert_eq!(s.errors, vec!["Stage failed: timeout".to_string()]);
    assert_eq!(s.duration_ms, 0);
    assert_eq!(s.retry_count, 3);
}

#[test]
fn idea_breakdown_inputs_depend_on_the_app_type() {
    let (idea, context, stack) = E2ETestRunner::idea_breakdown_inputs("frontend").unwrap();
    assert!(idea.starts_with("Create a Vue.js login page"));
    assert_eq!(context, "Building a frontend application for E2E testing");
    assert_eq!(stack, "Vue 3, TypeScript, Vite, Pinia, Vue Router, Tailwind CSS");
    let (_, context, _) = E2ETestRunner::idea_breakdown_inputs("backend").unwrap();
    assert_eq!(context, "Building a backend application for E2E testing");
    assert_eq!(E2ETestRunner::idea_breakdown_inputs("mobile").unwrap_err(), "Invalid app type");
}

#[test]
fn the_report_lists_pipelines_stages_and_status() {
    let status = AppStatus {
        builds_successfully: true,
        tests_pass: false,
        deployment_ready: true,
        functionality_works: true,
        performance_acceptable: false,
    };
    let result = PipelineResult {
        pipeline_type: "frontend".to_string(),
        app_name: "login-frontend-app".to_string(),
        stages: vec![stage("Idea Breakdown", true, vec![]), stage("QA Testing", false, vec!["boom"])],
        overall_success: false,
        total_duration_ms: 2400,
        final_app_status: status,
    };
    let report = runner().test_report(&vec![result], "2024-01-01 00:00:00 UTC");
    let expected = "# E2E Pipeline Test Report\n\nGenerated: 2024-01-01 00:00:00 UTC\n\n\
## FRONTEND Pipeline\n\n**Application**: login-frontend-app\n**Overall Success**: ❌ FAIL\n**Total Duration**: 2400ms\n\n\
### Stages\n\n\
#### Idea Breakdown\n- **Status**: ✅ PASS\n- **Duration**: 1200ms\n- **Retry Count**: 1\n- **Actions Executed**: 2\n\n\
#### QA Testing\n- **Status**: ❌ FAIL\n- **Duration**: 1200ms\n- **Retry Count**: 1\n- **Actions Executed**: 2\n- **Errors**:\n  - boom\n\n\
### Final Application Status\n\n\
- **Builds Successfully**: ✅\n- **Tests Pass**: ❌\n- **Deployment Ready**: ✅\n- **Functionality Works**: ✅\n- **Performance Acceptable**: ❌\n\n";
    assert_eq!(report, expected);
}

#[test]
fn context_files_and_source_extensions() {
    let keys = E2ETestRunner::key_context_files();
    assert_eq!(keys.len(), 7);
    assert_eq!(keys[0], "package.json");
    assert_eq!(keys[6], "vite.config.js");
    for ext in ["js", "ts", "vue", "jsx", "tsx", "json"] {
        assert!(E2ETestRunner::is_source_extension(ext));
    }
    assert!(!E2ETestRunner::is_source_extension("rs"));
    assert!(!E2ETestRunner::is_source_extension("JS"));
}

#[test]
fn refusals_preview_whole_characters_only() {
    let r = runner();
    // Byte 200 falls inside the `é` at bytes 199 and 200: the preview stops
    // before it.
    let answer = format!("{}é and more text", "x".repeat(199));
    assert_eq!(
        r.actions_response_text(&answer),
        ActionsText::Invalid(format!(
            "No valid JSON array found in response. Cleaned response was: '{}'",
            "x".repeat(199)
        ))
    );
}

#[test]
fn notices_are_cut_whatever_the_case_of_the_answer() {
    let r = runner();
    let answer = "LOADED CACHED CREDENTIALS. [{\"Read\": {\"path\": \"a\"}}]";
    assert_eq!(
        r.actions_response_text(answer),
        ActionsText::Json("[{\"Read\": {\"path\": \"a\"}}]".to_string())
    );
    // Lower-casing `İ` takes one byte more than the letter itself: the cut
    // after the notice lands inside `é` and goes back to the last whole
    // character rather than failing.
    let shifted = "İ loaded cached credentialsé [1]";
    match r.actions_response_text(shifted) {
        ActionsText::Json(j) => assert_eq!(j, "[1]"),
        other => panic!("unexpected {:?}", other),
    }
}

#[test]
fn the_stack_is_named_from_package_json() {
    let r = runner();
    let package = r#"{"name": "app", "dependencies": {"vue": "^3", "express": "^4"}, "devDependencies": {"vite": "^5", "typescript": "^5"}}"#;
    assert_eq!(r.detect_tech_stack(Some(package)), Ok("Vue 3, Express, TypeScript, Vite".to_string()));
    assert_eq!(r.detect_tech_stack(Some(r#"{"name": "bare"}"#)), Ok(String::new()));
    assert_eq!(r.detect_tech_stack(Some(r#"{"dependencies": ["vue"]}"#)), Ok(String::new()));
    assert_eq!(r.detect_tech_stack(None), Ok("Unknown".to_string()));
    let err = r.detect_tech_stack(Some("{ not json")).unwrap_err();
    assert_eq!(err, serde_json::from_str::<serde_json::Value>("{ not json").unwrap_err().to_string());
}

#[test]
fn idea_breakdown_tasks_are_the_array_values() {
    let r = runner();
    let tasks = r.idea_breakdown_tasks("Tasks: [{\"title\": \"a\"}, {\"title\": \"b\"}] done").unwrap();
    assert_eq!(tasks.len(), 2);
    assert_eq!(tasks[1]["title"], "b");
    assert_eq!(
        r.idea_breakdown_tasks("no json here").unwrap_err(),
        "Failed to parse idea breakdown response: no JSON array in the response"
    );
    let err = r.idea_breakdown_tasks("[1, oops]").unwrap_err();
    let serde_err = serde_json::from_str::<Vec<serde_json::Value>>("[1, oops]").unwrap_err().to_string();
    assert_eq!(err, format!("Failed to parse idea breakdown response: {}", serde_err));
}
