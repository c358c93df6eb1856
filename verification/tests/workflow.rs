use autocommit::branch::resolve_branch;
use autocommit::message::noop_message;
use autocommit::message::plan_message;
use autocommit::message::MessagePlan;
use autocommit::workflow::advance;
use autocommit::workflow::exit_code;
use autocommit::workflow::pending_action;
use autocommit::workflow::GitStep;
use autocommit::workflow::WorkflowAction;
use autocommit::workflow::WorkflowEvent;
use autocommit::workflow::WorkflowState;

/// Drives a run against stubbed git outcomes and records every action taken.
fn drive_stubbed(stage_ok: bool, commit_ok: bool, push_ok: bool) -> (WorkflowState, Vec<WorkflowAction>) {
    let mut state = WorkflowState::Start;
    let mut taken: Vec<WorkflowAction> = Vec::new();
    while let Some(action) = pending_action(&state) {
        taken.push(action);
        let event = match action {
            WorkflowAction::RunStage => WorkflowEvent::GitFinished(stage_ok),
            WorkflowAction::GenerateMessage => WorkflowEvent::MessageGenerated,
            WorkflowAction::RunCommit => WorkflowEvent::GitFinished(commit_ok),
            WorkflowAction::RunPush => WorkflowEvent::GitFinished(push_ok),
            WorkflowAction::ReportSuccess => WorkflowEvent::SuccessReported,
        };
        state = advance(state, event);
    }
    (state, taken)
}

#[test]
fn stage_failure_exits_one_without_commit_or_push() {
    let (state, taken) = drive_stubbed(false, true, true);
    assert_eq!(state, WorkflowState::Failed(GitStep::Stage));
    assert_eq!(exit_code(&state), 1);
    assert_eq!(taken, vec![WorkflowAction::RunStage]);
    assert!(!taken.contains(&WorkflowAction::RunCommit));
    assert!(!taken.contains(&WorkflowAction::RunPush));
    assert!(!taken.contains(&WorkflowAction::ReportSuccess));
}

#[test]
fn commit_failure_stops_before_push() {
    let (state, taken) = drive_stubbed(true, false, true);
    assert_eq!(state, WorkflowState::Failed(GitStep::Commit));
    assert_eq!(exit_code(&state), 1);
    assert_eq!(
        taken,
        vec![
            WorkflowAction::RunStage,
            WorkflowAction::GenerateMessage,
            WorkflowAction::RunCommit,
        ]
    );
}

#[test]
fn push_failure_reports_no_success() {
    let (state, taken) = drive_stubbed(true, true, false);
    assert_eq!(state, WorkflowState::Failed(GitStep::Push));
    assert_eq!(exit_code(&state), 1);
    assert!(!taken.contains(&WorkflowAction::ReportSuccess));
}

#[test]
fn full_run_with_empty_diff_succeeds_end_to_end() {
    // Stage succeeds, the diff is empty, commit and push succeed, the branch
    // query fails over to the default: one success report, exit code zero.
    let mut state = WorkflowState::Start;
    let mut message = String::new();
    let mut branch = String::new();
    let mut success_reports = 0;
    while let Some(action) = pending_action(&state) {
        let event = match action {
            WorkflowAction::RunStage => WorkflowEvent::GitFinished(true),
            WorkflowAction::GenerateMessage => {
                let plan = plan_message(&Some("key".to_string()), "");
                message = match plan {
                    MessagePlan::UseNoop => noop_message(),
                    _ => panic!("an empty diff must plan the no-op message"),
                };
                WorkflowEvent::MessageGenerated
            }
            WorkflowAction::RunCommit => WorkflowEvent::GitFinished(true),
            WorkflowAction::RunPush => {
                branch = resolve_branch(&None);
                WorkflowEvent::GitFinished(true)
            }
            WorkflowAction::ReportSuccess => {
                success_reports += 1;
                WorkflowEvent::SuccessReported
            }
        };
        state = advance(state, event);
    }
    assert_eq!(state, WorkflowState::Done);
    assert_eq!(exit_code(&state), 0);
    assert_eq!(message, "Minor updates");
    assert_eq!(branch, "main");
    assert_eq!(success_reports, 1);
}

#[test]
fn terminal_states_accept_no_further_action() {
    assert_eq!(pending_action(&WorkflowState::Done), None);
    assert_eq!(pending_action(&WorkflowState::Failed(GitStep::Push)), None);
}

#[test]
fn mismatched_event_changes_nothing() {
    let state = advance(WorkflowState::Start, WorkflowEvent::MessageGenerated);
    assert_eq!(state, WorkflowState::Start);
    let state = advance(WorkflowState::Staged, WorkflowEvent::GitFinished(false));
    assert_eq!(state, WorkflowState::Staged);
}
