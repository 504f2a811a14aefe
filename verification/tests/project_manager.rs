//! Scenarios of the project manager's decisions.

use orchy::enums::agent_status::AgentStatus;
use orchy::enums::issue_status::IssueStatus;
use orchy::enums::priority::Priority;
use orchy::enums::task_status::TaskStatus;
use orchy::enums::tech_stack::TechStack;
use orchy::error::OrchestratorError;
use orchy::managers::project_manager::{
    after_task_run, agent_types_for, begin_task_run, choose_agent, completed_dependency_titles,
    default_agent_types, dependencies_satisfied, finish_task_run, idea_breakdown_context,
    idea_breakdown_result, next_task_decision, project_statistics, sync_all_events_for,
    task_development_request, update_task_status, RunEvent, SyncEvent, TaskRunDecision,
    IDEA_BREAKDOWN_TIMEOUT_SECS,
};

fn strings(v: &[&str]) -> Vec<String> {
    v.iter().map(|s| s.to_string()).collect()
}

#[test]
fn test_statistics_calculation() {
    let stats = project_statistics(&vec![], &vec![], &vec![], 0);
    assert_eq!(stats.total_tasks, 0);
    assert_eq!(stats.total_agents, 0);

    let stats = project_statistics(&vec![TaskStatus::Pending], &vec![], &vec![], 0);
    assert_eq!(stats.total_tasks, 1);
    assert_eq!(stats.pending_tasks, 1);
    assert_eq!(stats.completed_tasks, 0);
}

#[test]
fn statistics_count_each_state() {
    let tasks = vec![
        TaskStatus::Completed,
        TaskStatus::InProgress,
        TaskStatus::Pending,
        TaskStatus::Completed,
        TaskStatus::Failed,
    ];
    let agents = vec![AgentStatus::Active, AgentStatus::Idle, AgentStatus::Active];
    let issues = vec![IssueStatus::Open, IssueStatus::Closed];
    let stats = project_statistics(&tasks, &agents, &issues, 4);
    assert_eq!(stats.total_tasks, 5);
    assert_eq!(stats.completed_tasks, 2);
    assert_eq!(stats.in_progress_tasks, 1);
    assert_eq!(stats.pending_tasks, 1);
    assert_eq!(stats.total_agents, 3);
    assert_eq!(stats.active_agents, 2);
    assert_eq!(stats.total_issues, 2);
    assert_eq!(stats.open_issues, 1);
    assert_eq!(stats.unsynced_items, 4);
}

#[test]
fn the_first_available_agent_is_chosen() {
    let agents = vec![AgentStatus::Working, AgentStatus::Error, AgentStatus::Active, AgentStatus::Idle];
    assert_eq!(choose_agent(&agents), Some(2));
    assert_eq!(choose_agent(&vec![AgentStatus::Busy, AgentStatus::Maintenance]), None);
    assert_eq!(choose_agent(&vec![]), None);
}

#[test]
fn a_run_begins_by_starting_the_task_and_an_agent() {
    let start = begin_task_run(TaskStatus::Pending, false, &vec![AgentStatus::Working, AgentStatus::Idle]);
    assert_eq!(start.task_status, TaskStatus::InProgress);
    assert_eq!(start.agent, Some(1));
    assert_eq!(start.agent_status, Some(AgentStatus::Working));
    assert_eq!(
        start.events,
        vec![
            RunEvent::TaskStatusChanged { old_status: TaskStatus::Pending, new_status: TaskStatus::InProgress },
            RunEvent::AgentStatusChanged { old_status: AgentStatus::Idle, new_status: AgentStatus::Working },
            RunEvent::AgentStartedWorking,
            RunEvent::TaskAssigned,
            RunEvent::McpTaskExecutionStarted,
            RunEvent::McpFeatureDevelopmentStarted,
        ]
    );
}

#[test]
fn a_run_keeps_an_assigned_agent_and_a_task_that_cannot_start() {
    let start = begin_task_run(TaskStatus::Completed, true, &vec![AgentStatus::Idle]);
    assert_eq!(start.task_status, TaskStatus::Completed);
    assert_eq!(start.agent, None);
    assert_eq!(start.agent_status, None);
    assert_eq!(
        start.events,
        vec![RunEvent::McpTaskExecutionStarted, RunEvent::McpFeatureDevelopmentStarted]
    );
    let start = begin_task_run(TaskStatus::Pending, false, &vec![AgentStatus::Busy]);
    assert_eq!(start.agent, None);
    assert_eq!(start.events.len(), 3);
}

#[test]
fn a_failed_run_fails_the_task_and_its_agent() {
    let end = finish_task_run(&Err("model down".to_string()), TaskStatus::InProgress, Some(AgentStatus::Working));
    assert_eq!(end.task_status, TaskStatus::Failed);
    assert_eq!(end.agent_status, Some(AgentStatus::Error));
    assert_eq!(end.agent_error, Some("Task execution failed: model down".to_string()));
    assert_eq!(
        end.events,
        vec![
            RunEvent::TaskStatusChanged { old_status: TaskStatus::InProgress, new_status: TaskStatus::Failed },
            RunEvent::AgentStatusChanged { old_status: AgentStatus::Working, new_status: AgentStatus::Error },
            RunEvent::McpTaskExecutionCompleted { success: false },
        ]
    );
}

#[test]
fn a_successful_run_moves_what_its_rules_allow() {
    // From `InProgress` a task's rules do not lead to `Completed` directly.
    let end = finish_task_run(&Ok(3), TaskStatus::InProgress, Some(AgentStatus::Working));
    assert_eq!(end.task_status, TaskStatus::InProgress);
    assert_eq!(end.agent_status, Some(AgentStatus::Active));
    assert_eq!(end.agent_error, None);
    assert_eq!(
        end.events,
        vec![
            RunEvent::McpFeatureDevelopmentCompleted { actions_count: 3 },
            RunEvent::AgentFinishedWorking,
            RunEvent::AgentStatusChanged { old_status: AgentStatus::Working, new_status: AgentStatus::Active },
            RunEvent::McpTaskExecutionCompleted { success: true },
        ]
    );
    let end = finish_task_run(&Ok(0), TaskStatus::Testing, None);
    assert_eq!(end.task_status, TaskStatus::Completed);
    assert_eq!(end.agent_status, None);
    assert_eq!(
        end.events,
        vec![
            RunEvent::McpFeatureDevelopmentCompleted { actions_count: 0 },
            RunEvent::TaskStatusChanged { old_status: TaskStatus::InProgress, new_status: TaskStatus::Completed },
            RunEvent::TaskCompleted,
            RunEvent::McpTaskExecutionCompleted { success: true },
        ]
    );
}

#[test]
fn tasks_run_only_after_their_dependencies() {
    let mut completed: Vec<u128> = vec![];
    assert!(dependencies_satisfied(&vec![], &completed));
    assert_eq!(next_task_decision(&vec![], &completed, TaskStatus::Pending), TaskRunDecision::Run);
    assert_eq!(after_task_run(1, true, &mut completed), None);
    assert_eq!(completed, vec![1]);
    assert_eq!(next_task_decision(&vec![1], &completed, TaskStatus::Pending), TaskRunDecision::Run);
    assert_eq!(
        after_task_run(2, false, &mut completed),
        Some(RunEvent::TaskStatusChanged { old_status: TaskStatus::InProgress, new_status: TaskStatus::Failed })
    );
    assert_eq!(completed, vec![1]);
    assert!(!dependencies_satisfied(&vec![1, 2], &completed));
    // Task 3 depends on the failed task 2: it is skipped. A pending task
    // cannot move to `Failed`, so it keeps its state.
    assert_eq!(
        next_task_decision(&vec![1, 2], &completed, TaskStatus::Pending),
        TaskRunDecision::SkipAsFailed {
            new_status: TaskStatus::Pending,
            event: RunEvent::TaskStatusChanged { old_status: TaskStatus::Pending, new_status: TaskStatus::Failed },
        }
    );
    match next_task_decision(&vec![9], &completed, TaskStatus::Blocked) {
        TaskRunDecision::SkipAsFailed { new_status, .. } => assert_eq!(new_status, TaskStatus::Blocked),
        TaskRunDecision::Run => panic!("expected a skip"),
    }
}

#[test]
fn default_agents_follow_the_stack() {
    assert_eq!(default_agent_types(TechStack::Rust), strings(&["BackendEngineerRust"]));
    assert_eq!(default_agent_types(TechStack::Vue), strings(&["FrontendEngineerVue"]));
    assert_eq!(default_agent_types(TechStack::React), strings(&["FrontendEngineerReact"]));
    assert_eq!(
        default_agent_types(TechStack::FullstackRustVue),
        strings(&["BackendEngineerRust", "FrontendEngineerVue", "DevOpsEngineer"])
    );
    assert_eq!(
        default_agent_types(TechStack::FullstackRustReact),
        strings(&["BackendEngineerRust", "FrontendEngineerReact", "DevOpsEngineer"])
    );
    assert_eq!(agent_types_for(vec![], TechStack::Vue), strings(&["FrontendEngineerVue"]));
    assert_eq!(agent_types_for(strings(&["DesignerAgent"]), TechStack::Vue), strings(&["DesignerAgent"]));
}

#[test]
fn idea_breakdown_is_asked_with_the_project_context() {
    assert_eq!(
        idea_breakdown_context("shop", TechStack::FullstackRustReact, "./shop"),
        "Project: shop\nTech Stack: FullstackRustReact\nPath: ./shop"
    );
    assert_eq!(IDEA_BREAKDOWN_TIMEOUT_SECS, 120);
}

#[test]
fn idea_breakdown_failures_become_errors() {
    assert_eq!(idea_breakdown_result(Some(Ok(7))).unwrap(), 7);
    match idea_breakdown_result::<u8>(Some(Err("no model".to_string()))) {
        Err(OrchestratorError::Internal { message }) => assert_eq!(message, "MCP integration failed: no model"),
        _ => panic!("expected an internal error"),
    }
    match idea_breakdown_result::<u8>(None) {
        Err(OrchestratorError::Timeout { operation }) => assert_eq!(operation, "MCP idea_breakdown call"),
        _ => panic!("expected a time-out"),
    }
}

#[test]
fn a_task_is_developed_with_its_completed_dependencies() {
    let deps = vec![
        ("Set up database".to_string(), TaskStatus::Completed),
        ("Write API".to_string(), TaskStatus::InProgress),
        ("Say \"hi\"".to_string(), TaskStatus::Completed),
    ];
    let titles = completed_dependency_titles(&deps);
    assert_eq!(titles, strings(&["Set up database", "Say \"hi\""]));
    let request = task_development_request(
        "Build the login page",
        None,
        Priority::High,
        strings(&["ui", "auth"]),
        titles,
        TechStack::Vue,
    );
    assert_eq!(request.complexity, 5);
    assert_eq!(request.priority, "High");
    assert_eq!(request.tags, strings(&["ui", "auth"]));
    assert_eq!(request.tech_stack, "Vue");
    assert_eq!(request.acceptance_criteria, strings(&["Build the login page"]));
    assert_eq!(request.completed_dependencies, strings(&["Set up database", "Say \"hi\""]));
    assert_eq!(
        request.codebase_context,
        "Project using Vue technology stack. Task dependencies: [\"Set up database\", \"Say \\\"hi\\\"\"]"
    );
    let request = task_development_request("x", Some(8), Priority::Low, vec![], vec![], TechStack::Rust);
    assert_eq!(request.priority, "Low");
    assert_eq!(request.complexity, 8);
    assert_eq!(request.codebase_context, "Project using Rust technology stack. Task dependencies: []");
}

#[test]
fn task_status_updates_follow_the_status_rules() {
    let (status, events) = update_task_status(TaskStatus::Testing, TaskStatus::Completed).unwrap();
    assert_eq!(status, TaskStatus::Completed);
    assert_eq!(
        events,
        vec![
            RunEvent::TaskStatusChanged { old_status: TaskStatus::Testing, new_status: TaskStatus::Completed },
            RunEvent::TaskCompleted,
        ]
    );
    let (_, events) = update_task_status(TaskStatus::Pending, TaskStatus::InProgress).unwrap();
    assert_eq!(events.len(), 1);
    match update_task_status(TaskStatus::Pending, TaskStatus::Completed) {
        Err(OrchestratorError::TaskTransition { from, to }) => {
            assert_eq!(from, TaskStatus::Pending);
            assert_eq!(to, TaskStatus::Completed);
        }
        _ => panic!("expected a refused transition"),
    }
}

#[test]
fn syncing_reports_start_progress_and_end() {
    assert_eq!(
        sync_all_events_for(2, 1, 3),
        vec![
            SyncEvent::Started { item_count: 6 },
            SyncEvent::Progress { completed: 1, total: 6 },
            SyncEvent::Progress { completed: 2, total: 6 },
            SyncEvent::Completed { success_count: 2, error_count: 0 },
        ]
    );
    assert_eq!(
        sync_all_events_for(0, 0, 0),
        vec![SyncEvent::Started { item_count: 0 }, SyncEvent::Completed { success_count: 0, error_count: 0 }]
    );
}
