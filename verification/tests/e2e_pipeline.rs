//! Scenarios of the pipeline run's reading of answers.

use orchy::e2e_pipeline::{
    enhanced_description, extract_code_blocks_from_response, feedback_context,
    has_essential_files, parse_code_review_response, parse_devops_response, parse_qa_response,
    review_suggestions,
};

#[test]
fn code_blocks_become_files() {
    let answer = "Here is the code\nsrc/main.rs\n```rust\nfn main() {}\n```\n```toml\n[package]\nname = \"x\"\n```\n```\n```\n```rust\nmod a;\n```";
    let files = extract_code_blocks_from_response(answer);
    assert_eq!(files.len(), 3);
    assert_eq!(files[0], ("src/main.rs".to_string(), "fn main() {}".to_string()));
    assert_eq!(files[1], ("Cargo.toml".to_string(), "[package]\nname = \"x\"".to_string()));
    assert_eq!(files[2], ("src/lib_2.rs".to_string(), "mod a;".to_string()));
}

#[test]
fn block_paths_come_from_the_fence_line_or_the_language() {
    let answer = "```src/lib.rs\npub fn f() {}\n```\n```Dockerfile\nFROM rust\n```\n```yaml\non: push\n```\n```python\nprint(1)\n```\n```rust\nunclosed";
    let files = extract_code_blocks_from_response(answer);
    assert_eq!(files.len(), 5);
    assert_eq!(files[0].0, "src/lib.rs");
    assert_eq!(files[1].0, "Dockerfile");
    assert_eq!(files[2].0, ".github/workflows/ci.yml");
    assert_eq!(files[3].0, "src/generated.rs");
    assert_eq!(files[4], ("src/lib_4.rs".to_string(), "unclosed".to_string()));
}

#[test]
fn review_suggestions_are_bullets_and_notes() {
    let answer = "Review:\n- add tests\n  * not a bullet after trim?\n* rename x\nline with TODO inside \nplain";
    assert_eq!(
        review_suggestions(answer),
        vec!["- add tests".to_string(), "* rename x".to_string(), "line with TODO inside".to_string()]
    );
    assert_eq!(
        parse_code_review_response("anything", &Some(Some("unsafe code".to_string()))),
        vec!["REJECTION: unsafe code".to_string()]
    );
    assert_eq!(
        parse_code_review_response("anything", &Some(None)),
        vec!["REJECTION: Unknown reason".to_string()]
    );
}

#[test]
fn qa_and_devops_answers_need_files() {
    let with_block = "tests/a.rs\n```rust\n#[test] fn t() {}\n```";
    assert_eq!(parse_qa_response(with_block, &None).unwrap().len(), 1);
    assert_eq!(
        parse_qa_response("no code", &None).unwrap_err(),
        "LLM failed to generate test files - QA prompt needs improvement"
    );
    assert_eq!(parse_qa_response(with_block, &Some(None)).unwrap_err(), "QA Rejected: Unknown reason");
    assert_eq!(
        parse_devops_response("no code", &None).unwrap_err(),
        "LLM failed to generate DevOps files - DevOps prompt needs improvement"
    );
    assert_eq!(
        parse_devops_response(with_block, &Some(Some("no CI".to_string()))).unwrap_err(),
        "DevOps Rejected: no CI"
    );
}

#[test]
fn essential_files_are_a_manifest_and_a_crate_root() {
    let f = |p: &str| (p.to_string(), String::new());
    assert!(has_essential_files(&vec![f("Cargo.toml"), f("src/lib.rs")]));
    assert!(has_essential_files(&vec![f("src/main.rs"), f("Cargo.toml")]));
    assert!(!has_essential_files(&vec![f("Cargo.toml")]));
    assert!(!has_essential_files(&vec![f("src/main.rs")]));
    assert!(!has_essential_files(&vec![]));
}

#[test]
fn feedback_is_numbered_from_one() {
    assert_eq!(feedback_context(&vec![]), "");
    let fb = feedback_context(&vec!["build failed".to_string(), "tests failed".to_string()]);
    assert_eq!(
        fb,
        "\n\n🚨 PREVIOUS ATTEMPTS FAILED - LEARN FROM THESE ERRORS:\nAttempt 1: build failed\nAttempt 2: tests failed\n\n⚠️ YOU MUST FIX ALL THESE ISSUES AND CREATE WORKING CODE:\n"
    );
    let d = enhanced_description("Login", "Add a form", "");
    assert!(d.starts_with("Login: Add a form\n\n🎯 CRITICAL:"));
}

use orchy::e2e_pipeline::{
    after_failed_query, after_failed_verification, brace_json, query_failure_feedback,
    AttemptOutcome, MAX_FEATURE_ATTEMPTS,
};

#[test]
fn feature_attempts_stop_after_the_last() {
    assert_eq!(after_failed_verification(1, MAX_FEATURE_ATTEMPTS, "e"), AttemptOutcome::TryAgain { next_attempt: 2 });
    assert_eq!(
        after_failed_verification(5, MAX_FEATURE_ATTEMPTS, "build failed"),
        AttemptOutcome::GiveUp { message: "Feature development failed after 5 attempts. Last errors:\nbuild failed".to_string() }
    );
    assert_eq!(after_failed_query(4, 5), AttemptOutcome::TryAgain { next_attempt: 5 });
    assert_eq!(
        after_failed_query(5, 5),
        AttemptOutcome::GiveUp { message: "Feature development failed after 5 LLM query attempts".to_string() }
    );
    assert_eq!(query_failure_feedback("timeout"), "LLM query failed: timeout");
}

#[test]
fn the_object_runs_from_first_brace_to_last() {
    assert_eq!(brace_json("x {\"a\": {\"b\": 1}} y"), Some("{\"a\": {\"b\": 1}}".to_string()));
    assert_eq!(brace_json("no object"), None);
    assert_eq!(brace_json("}{"), None);
    assert_eq!(brace_json("} x {"), None);
    assert_eq!(brace_json("{}"), Some("{}".to_string()));
    assert_eq!(brace_json("é {\"k\": 1} ü"), Some("{\"k\": 1}".to_string()));
}
