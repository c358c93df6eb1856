//! The stage/commit/push workflow as a state machine: each state names what
//! the run still owes, each event reports how one step went, and a failed
//! version-control step halts the run where it happened.

use vstd::prelude::*;

verus! {

/// The three version-control steps whose failure halts the run.
#[derive(Clone, Copy, Debug, PartialEq, Eq, Structural)]
pub enum GitStep {
    Stage,
    Commit,
    Push,
}

/// Where a run stands. `Failed` names the step that broke; it and `Done` are
/// terminal.
#[derive(Clone, Copy, Debug, PartialEq, Eq, Structural)]
pub enum WorkflowState {
    Start,
    Staged,
    MessageReady,
    Committed,
    Pushed,
    Done,
    Failed(GitStep),
}

/// What has to happen next in a run. Message generation has no failure event:
/// it always yields a message.
#[derive(Clone, Copy, Debug, PartialEq, Eq, Structural)]
pub enum WorkflowAction {
    RunStage,
    GenerateMessage,
    RunCommit,
    RunPush,
    ReportSuccess,
}

/// How one pending action went: a version-control step finished with the
/// given success flag, a message was generated, or success was reported.
#[derive(Clone, Copy, Debug, PartialEq, Eq, Structural)]
pub enum WorkflowEvent {
    GitFinished(bool),
    MessageGenerated,
    SuccessReported,
}

/// The action a state still owes; `None` on the two terminal states.
pub open spec fn spec_pending(s: WorkflowState) -> Option<WorkflowAction> {
    match s {
        WorkflowState::Start => Some(WorkflowAction::RunStage),
        WorkflowState::Staged => Some(WorkflowAction::GenerateMessage),
        WorkflowState::MessageReady => Some(WorkflowAction::RunCommit),
        WorkflowState::Committed => Some(WorkflowAction::RunPush),
        WorkflowState::Pushed => Some(WorkflowAction::ReportSuccess),
        WorkflowState::Done => None,
        WorkflowState::Failed(_) => None,
    }
}

/// The state after an event: each step advances the run one state, a failed
/// version-control step moves it to `Failed` at that step, and an event that
/// does not answer the state's pending action changes nothing.
pub open spec fn spec_advance(s: WorkflowState, ev: WorkflowEvent) -> WorkflowState {
    match (s, ev) {
        (WorkflowState::Start, WorkflowEvent::GitFinished(ok)) => if ok {
            WorkflowState::Staged
        } else {
            WorkflowState::Failed(GitStep::Stage)
        },
        (WorkflowState::Staged, WorkflowEvent::MessageGenerated) => WorkflowState::MessageReady,
        (WorkflowState::MessageReady, WorkflowEvent::GitFinished(ok)) => if ok {
            WorkflowState::Committed
        } else {
            WorkflowState::Failed(GitStep::Commit)
        },
        (WorkflowState::Committed, WorkflowEvent::GitFinished(ok)) => if ok {
            WorkflowState::Pushed
        } else {
            WorkflowState::Failed(GitStep::Push)
        },
        (WorkflowState::Pushed, WorkflowEvent::SuccessReported) => WorkflowState::Done,
        _ => s,
    }
}

/// The action the run still owes in state `s`.
pub fn pending_action(s: &WorkflowState) -> (r: Option<WorkflowAction>)
    ensures
        r == spec_pending(*s),
{
    match s {
        WorkflowState::Start => Some(WorkflowAction::RunStage),
        WorkflowState::Staged => Some(WorkflowAction::GenerateMessage),
        WorkflowState::MessageReady => Some(WorkflowAction::RunCommit),
        WorkflowState::Committed => Some(WorkflowAction::RunPush),
        WorkflowState::Pushed => Some(WorkflowAction::ReportSuccess),
        WorkflowState::Done => None,
        WorkflowState::Failed(_) => None,
    }
}

/// The state after `ev` happens in state `s`.
pub fn advance(s: WorkflowState, ev: WorkflowEvent) -> (r: WorkflowState)
    ensures
        r == spec_advance(s, ev),
{
    match (s, ev) {
        (WorkflowState::Start, WorkflowEvent::GitFinished(ok)) => {
            if ok {
                WorkflowState::Staged
            } else {
                WorkflowState::Failed(GitStep::Stage)
            }
        },
        (WorkflowState::Staged, WorkflowEvent::MessageGenerated) => WorkflowState::MessageReady,
        (WorkflowState::MessageReady, WorkflowEvent::GitFinished(ok)) => {
            if ok {
                WorkflowState::Committed
            } else {
                WorkflowState::Failed(GitStep::Commit)
            }
        },
        (WorkflowState::Committed, WorkflowEvent::GitFinished(ok)) => {
            if ok {
                WorkflowState::Pushed
            } else {
                WorkflowState::Failed(GitStep::Push)
            }
        },
        (WorkflowState::Pushed, WorkflowEvent::SuccessReported) => WorkflowState::Done,
        (other, _) => other,
    }
}

/// The process exit code a finished run reports: success is zero, a failed
/// version-control step is one.
pub fn exit_code(s: &WorkflowState) -> (r: i32)
    requires
        s is Done || s is Failed,
    ensures
        s is Done ==> r == 0,
        s is Failed ==> r == 1,
{
    match s {
        WorkflowState::Failed(_) => 1,
        _ => 0,
    }
}

/// A whole run driven to its end: from state `s`, with the three
/// version-control steps answering with the given success flags, the final
/// state and every action taken, in order. `fuel` bounds the walk; a full run
/// takes five steps.
pub open spec fn drive(
    s: WorkflowState,
    stage_ok: bool,
    commit_ok: bool,
    push_ok: bool,
    fuel: nat,
) -> (WorkflowState, Seq<WorkflowAction>)
    decreases fuel,
{
    if fuel == 0 {
        (s, Seq::empty())
    } else {
        match spec_pending(s) {
            None => (s, Seq::empty()),
            Some(a) => {
                let ev = match a {
                    WorkflowAction::RunStage => WorkflowEvent::GitFinished(stage_ok),
                    WorkflowAction::GenerateMessage => WorkflowEvent::MessageGenerated,
                    WorkflowAction::RunCommit => WorkflowEvent::GitFinished(commit_ok),
                    WorkflowAction::RunPush => WorkflowEvent::GitFinished(push_ok),
                    WorkflowAction::ReportSuccess => WorkflowEvent::SuccessReported,
                };
                let rest = drive(
                    spec_advance(s, ev),
                    stage_ok,
                    commit_ok,
                    push_ok,
                    (fuel - 1) as nat,
                );
                (rest.0, seq![a] + rest.1)
            },
        }
    }
}

/// Enough fuel for the longest run: five actions, then a terminal state.
pub open spec fn full_fuel() -> nat {
    6
}

/// Law: when staging fails, the run halts failed at the stage step; staging
/// is the only action taken — neither commit nor push is attempted, and no
/// success is reported — and the run's exit code is one.
pub proof fn lemma_stage_failure_halts_run(commit_ok: bool, push_ok: bool)
    ensures
        drive(WorkflowState::Start, false, commit_ok, push_ok, full_fuel()).0
            == WorkflowState::Failed(GitStep::Stage),
        drive(WorkflowState::Start, false, commit_ok, push_ok, full_fuel()).1 =~= seq![
            WorkflowAction::RunStage,
        ],
{
    reveal_with_fuel(drive, 7);
}

/// Law: when every version-control step succeeds, the run ends done with exit
/// code zero, having taken each action exactly once and in order: stage,
/// generate the message, commit, push, report success.
pub proof fn lemma_full_success_run()
    ensures
        drive(WorkflowState::Start, true, true, true, full_fuel()).0 == WorkflowState::Done,
        drive(WorkflowState::Start, true, true, true, full_fuel()).1 =~= seq![
            WorkflowAction::RunStage,
            WorkflowAction::GenerateMessage,
            WorkflowAction::RunCommit,
            WorkflowAction::RunPush,
            WorkflowAction::ReportSuccess,
        ],
{
    reveal_with_fuel(drive, 7);
}

/// Law: a run halted by a failed commit has attempted stage and commit only,
/// and a run halted by a failed push has attempted all three steps but
/// reported no success.
pub proof fn lemma_later_failures_halt_run(push_ok: bool)
    ensures
        drive(WorkflowState::Start, true, false, push_ok, full_fuel()).0 == WorkflowState::Failed(
            GitStep::Commit,
        ),
        drive(WorkflowState::Start, true, false, push_ok, full_fuel()).1 =~= seq![
            WorkflowAction::RunStage,
            WorkflowAction::GenerateMessage,
            WorkflowAction::RunCommit,
        ],
        drive(WorkflowState::Start, true, true, false, full_fuel()).0 == WorkflowState::Failed(
            GitStep::Push,
        ),
        drive(WorkflowState::Start, true, true, false, full_fuel()).1 =~= seq![
            WorkflowAction::RunStage,
            WorkflowAction::GenerateMessage,
            WorkflowAction::RunCommit,
            WorkflowAction::RunPush,
        ],
{
    reveal_with_fuel(drive, 7);
}

} // verus!
