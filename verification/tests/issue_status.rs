//! Scenarios of the issue status state machine.

use orchy::enums::IssueStatus;

#[test]
fn test_issue_status_default() {
    assert_eq!(IssueStatus::default(), IssueStatus::Open);
}

#[test]
fn test_issue_status_display() {
    assert_eq!(IssueStatus::Open.to_string(), "Open");
    assert_eq!(IssueStatus::InProgress.to_string(), "InProgress");
    assert_eq!(IssueStatus::InReview.to_string(), "InReview");
    assert_eq!(IssueStatus::Closed.to_string(), "Closed");
}

#[test]
fn test_issue_status_from_str() {
    assert_eq!("Open".parse::<IssueStatus>().unwrap(), IssueStatus::Open);
    assert_eq!("InProgress".parse::<IssueStatus>().unwrap(), IssueStatus::InProgress);
    assert_eq!("InReview".parse::<IssueStatus>().unwrap(), IssueStatus::InReview);
    assert_eq!("Closed".parse::<IssueStatus>().unwrap(), IssueStatus::Closed);

    assert!("Invalid".parse::<IssueStatus>().is_err());
}

#[test]
fn test_issue_status_normal_workflow() {
    let mut status = IssueStatus::Open;

    // Open -> InProgress
    status = status.transition_to(IssueStatus::InProgress).expect("Should transition to InProgress");
    assert_eq!(status, IssueStatus::InProgress);

    // InProgress -> InReview
    status = status.transition_to(IssueStatus::InReview).expect("Should transition to InReview");
    assert_eq!(status, IssueStatus::InReview);

    // InReview -> Closed
    status = status.transition_to(IssueStatus::Closed).expect("Should transition to Closed");
    assert_eq!(status, IssueStatus::Closed);
}

#[test]
fn test_issue_status_progress_method() {
    assert_eq!(IssueStatus::Open.progress().unwrap(), IssueStatus::InProgress);
    assert_eq!(IssueStatus::InProgress.progress().unwrap(), IssueStatus::InReview);
    assert_eq!(IssueStatus::InReview.progress().unwrap(), IssueStatus::Closed);

    // Closed is terminal
    assert!(IssueStatus::Closed.progress().is_err());
}

#[test]
fn test_issue_status_rework_flow() {
    let mut status = IssueStatus::InReview;

    // InReview -> InProgress (for rework)
    status = status.transition_to(IssueStatus::InProgress).expect("Should transition back to InProgress");
    assert_eq!(status, IssueStatus::InProgress);

    // InProgress -> InReview (after rework)
    status = status.transition_to(IssueStatus::InReview).expect("Should transition to InReview");
    assert_eq!(status, IssueStatus::InReview);
}

#[test]
fn test_issue_status_direct_close() {
    // Can close directly from Open (for invalid/duplicate issues)
    let status = IssueStatus::Open.transition_to(IssueStatus::Closed).expect("Should close directly");
    assert_eq!(status, IssueStatus::Closed);
}

#[test]
fn test_issue_status_reopen() {
    // Can reopen closed issues
    let status = IssueStatus::Closed.transition_to(IssueStatus::Open).expect("Should reopen");
    assert_eq!(status, IssueStatus::Open);
}

#[test]
fn test_issue_status_invalid_transitions() {
    // Cannot skip states in normal flow
    assert!(IssueStatus::Open.transition_to(IssueStatus::InReview).is_err());
    assert!(IssueStatus::InProgress.transition_to(IssueStatus::Closed).is_err());

    // Cannot go backwards except for specific cases
    assert!(IssueStatus::InProgress.transition_to(IssueStatus::Open).is_err());
    assert!(IssueStatus::Closed.transition_to(IssueStatus::InProgress).is_err());
    assert!(IssueStatus::Closed.transition_to(IssueStatus::InReview).is_err());

    // Cannot stay in same state
    assert!(IssueStatus::Open.transition_to(IssueStatus::Open).is_err());
    assert!(IssueStatus::InProgress.transition_to(IssueStatus::InProgress).is_err());
    assert!(IssueStatus::InReview.transition_to(IssueStatus::InReview).is_err());
    assert!(IssueStatus::Closed.transition_to(IssueStatus::Closed).is_err());
}

#[test]
fn test_issue_status_is_terminal() {
    assert!(!IssueStatus::Open.is_terminal());
    assert!(!IssueStatus::InProgress.is_terminal());
    assert!(!IssueStatus::InReview.is_terminal());
    assert!(IssueStatus::Closed.is_terminal());
}

#[test]
fn test_issue_status_is_active() {
    assert!(!IssueStatus::Open.is_active());
    assert!(IssueStatus::InProgress.is_active());
    assert!(IssueStatus::InReview.is_active());
    assert!(!IssueStatus::Closed.is_active());
}

#[test]
fn test_issue_status_valid_transitions() {
    let open_transitions = IssueStatus::Open.valid_transitions();
    assert!(open_transitions.contains(&IssueStatus::InProgress));
    assert!(open_transitions.contains(&IssueStatus::Closed));
    assert_eq!(open_transitions.len(), 2);

    let in_progress_transitions = IssueStatus::InProgress.valid_transitions();
    assert!(in_progress_transitions.contains(&IssueStatus::InReview));
    assert_eq!(in_progress_transitions.len(), 1);

    let in_review_transitions = IssueStatus::InReview.valid_transitions();
    assert!(in_review_transitions.contains(&IssueStatus::Closed));
    assert!(in_review_transitions.contains(&IssueStatus::InProgress));
    assert_eq!(in_review_transitions.len(), 2);

    let closed_transitions = IssueStatus::Closed.valid_transitions();
    assert!(closed_transitions.contains(&IssueStatus::Open));
    assert_eq!(closed_transitions.len(), 1);
}
