//! Scenarios of the response model: todos, agent results and responses.

use orchy::enums::action::Action;
use orchy::enums::llm_response::{AgentResult, LLMResponse, Todo};

#[test]
fn test_agent_result_creation() {
    let accept_result: AgentResult<Vec<Action>> = AgentResult::accept(vec![]);
    assert!(accept_result.is_accept());
    assert!(!accept_result.is_reject());
    
    let reject_result: AgentResult<Vec<Action>> = AgentResult::reject(
        "Test rejection".to_string(),
        vec!["Issue 1".to_string(), "Issue 2".to_string()]
    );
    assert!(reject_result.is_reject());
    assert!(!reject_result.is_accept());
}

#[test] 
fn test_llm_response_actions_extraction() {
    let actions = vec![
        Action::Write {
            path: "test.txt".to_string(),
            content: "test content".to_string(),
        }
    ];
    
    let todo = Todo::new("Test Todo".to_string(), actions.clone());
    let response = LLMResponse::FeatureDevelopment {
        todos: vec![todo]
    };
    
    assert_eq!(response.extract_actions(), actions);
    assert!(response.has_actions());
    assert!(!response.is_rejection());
}

#[test]
fn test_llm_response_rejection() {
    let response = LLMResponse::CodeReviewAgent {
        result: AgentResult::reject(
            "Code quality issues".to_string(),
            vec!["Syntax errors".to_string()]
        )
    };
    
    assert!(response.is_rejection());
    assert_eq!(response.get_rejection_reason(), Some("Code quality issues"));
    assert_eq!(response.get_blocking_issues(), vec!["Syntax errors"]);
    assert!(!response.has_actions());
}

#[test]
fn test_response_type_identification() {
    let response = LLMResponse::FeatureDevelopment { todos: vec![] };
    assert_eq!(response.response_type(), "feature_development");
    
    let response = LLMResponse::Raw { content: "test".to_string() };
    assert_eq!(response.response_type(), "raw");
}

#[test]
fn test_utility_constructors() {
    // Test feature development constructor
    let actions = vec![Action::Write {
        path: "test.txt".to_string(),
        content: "test".to_string(),
    }];
    let response = LLMResponse::feature_development(actions.clone());
    assert_eq!(response.extract_actions(), actions);
    
    // Test rejection constructors
    let rejection = LLMResponse::code_review_rejection(
        "Issues found".to_string(),
        vec!["Error 1".to_string()]
    );
    assert!(rejection.is_rejection());
    assert_eq!(rejection.get_rejection_reason(), Some("Issues found"));
    
    // Test text constructor
    let text_response = LLMResponse::text("Hello world".to_string());
    assert_eq!(text_response.response_type(), "text");
    
    // Test followup requirement
    let feature_response = LLMResponse::feature_development(actions);
    assert!(feature_response.requires_followup());
    
    let empty_response = LLMResponse::feature_development(vec![]);
    assert!(!empty_response.requires_followup());
}

#[test]
fn test_todo_structure() {
    let actions = vec![
        Action::Write {
            path: "test.txt".to_string(),
            content: "test content".to_string(),
        }
    ];
    
    let todo = Todo::new("Test Todo".to_string(), actions.clone());
    assert_eq!(todo.title, "Test Todo");
    assert_eq!(todo.actions, actions);
    assert_eq!(todo.action_count(), 1);
    assert!(todo.has_actions());
    
    let detailed_todo = Todo::with_details(
        "Detailed Todo".to_string(),
        Some("Description".to_string()),
        actions.clone(),
        Some("High".to_string()),
        Some("Medium".to_string()),
    );
    assert_eq!(detailed_todo.title, "Detailed Todo");
    assert_eq!(detailed_todo.description, Some("Description".to_string()));
    assert_eq!(detailed_todo.priority, Some("High".to_string()));
    assert_eq!(detailed_todo.complexity, Some("Medium".to_string()));
}

#[test]
fn the_actions_of_a_response_are_its_todos_flattened() {
    let write = |p: &str| Action::Write { path: p.to_string(), content: "x".to_string() };
    let response = LLMResponse::FeatureDevelopment {
        todos: vec![
            Todo::new("first".to_string(), vec![write("a"), write("b")]),
            Todo::new("empty".to_string(), vec![]),
            Todo::new("last".to_string(), vec![write("c")]),
        ],
    };
    let flattened: Vec<Action> = response.extract_todos().into_iter().flat_map(|t| t.actions).collect();
    assert_eq!(response.extract_actions(), flattened);
    assert_eq!(flattened, vec![write("a"), write("b"), write("c")]);
}
