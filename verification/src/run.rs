//! The run of one job, as a state machine.
//!
//! The runtime performs an action, reports what happened as an event, and
//! is told the next action. A run writes the files of its plan in order,
//! starts the command, waits for it to end, stores the image that a build
//! left behind, and finishes with the status of the job. Any failure on the
//! way finishes the run as `Failed`; nothing that happens after the finish
//! changes it.

use vstd::prelude::*;
use vstd::string::*;
use crate::error::{AppError, AppErrorView};
use crate::model::JobStatus;
use crate::plan::{JobPlan, JobPlanView};

verus! {

/// How far a run has come.
#[derive(Clone, Copy, Debug, PartialEq, Eq, Structural)]
pub enum Stage {
    /// The file at this position of the plan is being written.
    Writing(usize),
    /// The command is being started.
    Spawning,
    /// The command runs; its output is being captured.
    Running,
    /// The command ended cleanly; the image it left behind is being moved
    /// into the image store.
    Storing,
    /// The run is over, with this status for the job.
    Finished(JobStatus),
}

/// Mathematical content of a [`RunEvent`].
pub enum RunEventView {
    WriteDone,
    WriteFailed(Seq<char>),
    Spawned,
    SpawnFailed(Seq<char>),
    Exited(bool),
    WaitFailed(Seq<char>),
    Stored,
    NothingToStore,
    StoreFailed(Seq<char>),
}

/// What the runtime reports after an action. Failures carry their cause in
/// words.
#[derive(Debug, Clone, PartialEq, Eq)]
pub enum RunEvent {
    WriteDone,
    WriteFailed(String),
    Spawned,
    SpawnFailed(String),
    /// The command ended; `true` for a clean exit.
    Exited(bool),
    WaitFailed(String),
    /// The image is in the image store.
    Stored,
    /// The command left no image behind; there was nothing to move.
    NothingToStore,
    StoreFailed(String),
}

impl View for RunEvent {
    type V = RunEventView;

    open spec fn view(&self) -> RunEventView {
        match self {
            RunEvent::WriteDone => RunEventView::WriteDone,
            RunEvent::WriteFailed(cause) => RunEventView::WriteFailed(cause@),
            RunEvent::Spawned => RunEventView::Spawned,
            RunEvent::SpawnFailed(cause) => RunEventView::SpawnFailed(cause@),
            RunEvent::Exited(clean) => RunEventView::Exited(*clean),
            RunEvent::WaitFailed(cause) => RunEventView::WaitFailed(cause@),
            RunEvent::Stored => RunEventView::Stored,
            RunEvent::NothingToStore => RunEventView::NothingToStore,
            RunEvent::StoreFailed(cause) => RunEventView::StoreFailed(cause@),
        }
    }
}

/// Mathematical content of a [`RunAction`].
pub enum RunActionView {
    Write(usize),
    Spawn,
    Await,
    Store,
    Finish { status: JobStatus, error: Option<AppErrorView> },
    Nothing,
}

/// What the runtime does next.
#[derive(Debug, Clone, PartialEq, Eq)]
pub enum RunAction {
    /// Write the file at this position of the plan.
    Write(usize),
    /// Start the command of the plan.
    Spawn,
    /// Capture the output of the command and wait for it to end.
    Await,
    /// Move the image that the command left behind into the image store,
    /// under the host name of the plan.
    Store,
    /// Record the status in the registry. `error` is what to log.
    Finish { status: JobStatus, error: Option<AppError> },
    /// The run was over before the event; there is nothing to do.
    Nothing,
}

impl View for RunAction {
    type V = RunActionView;

    open spec fn view(&self) -> RunActionView {
        match self {
            RunAction::Write(i) => RunActionView::Write(*i),
            RunAction::Spawn => RunActionView::Spawn,
            RunAction::Await => RunActionView::Await,
            RunAction::Store => RunActionView::Store,
            RunAction::Finish { status, error } => RunActionView::Finish {
                status: *status,
                error: match error {
                    Some(e) => Some(e@),
                    None => None,
                },
            },
            RunAction::Nothing => RunActionView::Nothing,
        }
    }
}

/// The error that reports a failed step: what failed, then the cause.
pub open spec fn failure_report(what: Seq<char>, cause: Seq<char>) -> AppErrorView {
    AppErrorView::Internal(what + ": "@ + cause)
}

/// The error that reports an event that does not answer the action before
/// it.
pub open spec fn out_of_turn() -> AppErrorView {
    AppErrorView::Internal("Unexpected event for this stage of the job"@)
}

/// The end of a run that failed with `error`.
pub open spec fn failed_with(error: AppErrorView) -> (Stage, RunActionView) {
    (
        Stage::Finished(JobStatus::Failed),
        RunActionView::Finish { status: JobStatus::Failed, error: Some(error) },
    )
}

/// The end of a run in which every step succeeded.
pub open spec fn succeeded() -> (Stage, RunActionView) {
    (
        Stage::Finished(JobStatus::Success),
        RunActionView::Finish { status: JobStatus::Success, error: None },
    )
}

/// How a failure to store the image is reported, without the cause.
pub open spec fn store_failure() -> Seq<char> {
    "Failed to move image to storage"@
}

/// The step that follows when the files before position `next` are written:
/// the next file, or the start of the command after the last one.
pub open spec fn write_or_spawn(plan: JobPlanView, next: usize) -> (Stage, RunActionView) {
    if next < plan.writes.len() {
        (Stage::Writing(next), RunActionView::Write(next))
    } else {
        (Stage::Spawning, RunActionView::Spawn)
    }
}

/// The first step of a run.
pub open spec fn first_step(plan: JobPlanView) -> (Stage, RunActionView) {
    write_or_spawn(plan, 0)
}

/// What follows the end of the command. An exit that is not clean ends the
/// run as `Failed`. A clean exit ends it as `Success` where the plan stores
/// no image; where it stores one, the image is stored first, and the run is
/// not over.
pub open spec fn exited(plan: JobPlanView, clean: bool) -> (Stage, RunActionView) {
    if !clean {
        (
            Stage::Finished(JobStatus::Failed),
            RunActionView::Finish { status: JobStatus::Failed, error: None },
        )
    } else if plan.artifact_host is Some {
        (Stage::Storing, RunActionView::Store)
    } else {
        succeeded()
    }
}

/// The stage that follows `stage` on `event`, and the action to perform.
pub open spec fn after_event(plan: JobPlanView, stage: Stage, event: RunEventView) -> (
    Stage,
    RunActionView,
) {
    match stage {
        Stage::Finished(_) => (stage, RunActionView::Nothing),
        Stage::Writing(i) => if i < plan.writes.len() {
            match event {
                RunEventView::WriteDone => write_or_spawn(plan, (i + 1) as usize),
                RunEventView::WriteFailed(cause) => failed_with(
                    failure_report(plan.writes[i as int].failure, cause),
                ),
                _ => failed_with(out_of_turn()),
            }
        } else {
            failed_with(out_of_turn())
        },
        Stage::Spawning => match event {
            RunEventView::Spawned => (Stage::Running, RunActionView::Await),
            RunEventView::SpawnFailed(cause) => failed_with(
                failure_report(plan.spawn_failure, cause),
            ),
            _ => failed_with(out_of_turn()),
        },
        Stage::Running => match event {
            RunEventView::Exited(clean) => exited(plan, clean),
            RunEventView::WaitFailed(cause) => failed_with(failure_report(plan.wait_failure, cause)),
            _ => failed_with(out_of_turn()),
        },
        Stage::Storing => match event {
            RunEventView::Stored => succeeded(),
            RunEventView::NothingToStore => succeeded(),
            RunEventView::StoreFailed(cause) => failed_with(failure_report(store_failure(), cause)),
            _ => failed_with(out_of_turn()),
        },
    }
}

/// Builds the error that reports a failed step.
fn report_failure(what: &str, cause: &str) -> (error: AppError)
    ensures
        error@ == failure_report(what@, cause@),
{
    AppError::Internal(String::from_str(what).concat(": ").concat(cause))
}

/// Ends a run as failed.
fn fail(error: AppError) -> (step: (Stage, RunAction))
    ensures
        (step.0, step.1@) == failed_with(error@),
{
    (
        Stage::Finished(JobStatus::Failed),
        RunAction::Finish { status: JobStatus::Failed, error: Some(error) },
    )
}

/// Ends a run in which every step succeeded.
fn succeed() -> (step: (Stage, RunAction))
    ensures
        (step.0, step.1@) == succeeded(),
{
    (Stage::Finished(JobStatus::Success), RunAction::Finish { status: JobStatus::Success, error: None })
}

/// Ends a run on an event that does not fit its stage.
fn fail_out_of_turn() -> (step: (Stage, RunAction))
    ensures
        (step.0, step.1@) == failed_with(out_of_turn()),
{
    fail(AppError::Internal(String::from_str("Unexpected event for this stage of the job")))
}

/// Goes on to the file at position `next`, or to the start of the command.
fn continue_at(plan: &JobPlan, next: usize) -> (step: (Stage, RunAction))
    ensures
        (step.0, step.1@) == write_or_spawn(plan@, next),
{
    if next < plan.writes.len() {
        (Stage::Writing(next), RunAction::Write(next))
    } else {
        (Stage::Spawning, RunAction::Spawn)
    }
}

/// Starts a run: the stage it is in and the first action.
pub fn begin(plan: &JobPlan) -> (step: (Stage, RunAction))
    ensures
        (step.0, step.1@) == first_step(plan@),
{
    continue_at(plan, 0)
}

/// Moves a run on by one event: the stage that follows and the next action.
pub fn advance(plan: &JobPlan, stage: Stage, event: &RunEvent) -> (step: (Stage, RunAction))
    ensures
        (step.0, step.1@) == after_event(plan@, stage, event@),
{
    match stage {
        Stage::Finished(_) => (stage, RunAction::Nothing),
        Stage::Writing(i) => {
            if i < plan.writes.len() {
                match event {
                    RunEvent::WriteDone => continue_at(plan, i + 1),
                    RunEvent::WriteFailed(cause) => fail(
                        report_failure(plan.writes[i].failure.as_str(), cause.as_str()),
                    ),
                    _ => fail_out_of_turn(),
                }
            } else {
                fail_out_of_turn()
            }
        },
        Stage::Spawning => match event {
            RunEvent::Spawned => (Stage::Running, RunAction::Await),
            RunEvent::SpawnFailed(cause) => fail(
                report_failure(plan.spawn_failure.as_str(), cause.as_str()),
            ),
            _ => fail_out_of_turn(),
        },
        Stage::Running => match event {
            RunEvent::Exited(clean) => {
                if !*clean {
                    (
                        Stage::Finished(JobStatus::Failed),
                        RunAction::Finish { status: JobStatus::Failed, error: None },
                    )
                } else if plan.artifact_host.is_some() {
                    (Stage::Storing, RunAction::Store)
                } else {
                    succeed()
                }
            },
            RunEvent::WaitFailed(cause) => fail(
                report_failure(plan.wait_failure.as_str(), cause.as_str()),
            ),
            _ => fail_out_of_turn(),
        },
        Stage::Storing => match event {
            RunEvent::Stored => succeed(),
            RunEvent::NothingToStore => succeed(),
            RunEvent::StoreFailed(cause) => fail(
                report_failure("Failed to move image to storage", cause.as_str()),
            ),
            _ => fail_out_of_turn(),
        },
    }
}

/// The event reports that a step failed.
pub open spec fn is_failure(event: RunEventView) -> bool {
    event is WriteFailed || event is SpawnFailed || event is WaitFailed || event is StoreFailed
}

/// The stage of a run after a series of events, from the first to the last.
pub open spec fn stage_after(plan: JobPlanView, stage: Stage, events: Seq<RunEventView>) -> Stage
    decreases events.len(),
{
    if events.len() == 0 {
        stage
    } else {
        stage_after(plan, after_event(plan, stage, events.first()).0, events.drop_first())
    }
}

/// A run finishes with a terminal status, and it hands out the action that
/// records the status exactly on the one event that finishes it.
pub proof fn law_finish_is_announced_once(plan: JobPlanView, stage: Stage, event: RunEventView)
    ensures
        !(stage is Finished) ==> (after_event(plan, stage, event).0 matches Stage::Finished(
            status,
        ) ==> status.terminal()),
        after_event(plan, stage, event).1 is Finish <==> !(stage is Finished) && after_event(
            plan,
            stage,
            event,
        ).0 is Finished,
        after_event(plan, stage, event).1 matches RunActionView::Finish { status, error }
            ==> after_event(plan, stage, event).0 == Stage::Finished(status),
{
}

/// A failure at any stage before the finish ends the run as `Failed`, with
/// an error to log.
pub proof fn law_failure_fails_the_job(plan: JobPlanView, stage: Stage, event: RunEventView)
    requires
        !(stage is Finished),
        is_failure(event),
    ensures
        after_event(plan, stage, event).0 == Stage::Finished(JobStatus::Failed),
        after_event(plan, stage, event).1 matches RunActionView::Finish { status, error }
            && status == JobStatus::Failed && error is Some,
{
}

/// A run ends in `Success` only in two ways: by the clean exit of a command
/// whose plan stores no image, or, after the clean exit of one that does,
/// by the news that the image is stored or that there was none to store.
/// The image is stored only after a clean exit.
pub proof fn law_success_needs_a_clean_exit(plan: JobPlanView, stage: Stage, event: RunEventView)
    requires
        !(stage is Finished),
    ensures
        after_event(plan, stage, event).0 == Stage::Finished(JobStatus::Success) ==> {
            ||| stage == Stage::Running && event == RunEventView::Exited(true)
                && plan.artifact_host is None
            ||| stage == Stage::Storing && (event == RunEventView::Stored || event
                == RunEventView::NothingToStore)
        },
        after_event(plan, stage, event).0 == Stage::Storing ==> stage == Stage::Running && event
            == RunEventView::Exited(true) && plan.artifact_host is Some,
        after_event(plan, stage, event).1 is Store <==> after_event(plan, stage, event).0
            == Stage::Storing,
{
}

/// A clean exit does not make a build a success while its image is not
/// stored: a failure to store it ends the run as `Failed`, with the cause
/// in the error.
pub proof fn law_failed_store_fails_the_job(plan: JobPlanView, cause: Seq<char>)
    requires
        plan.artifact_host is Some,
    ensures
        after_event(plan, Stage::Running, RunEventView::Exited(true)) == (
            Stage::Storing,
            RunActionView::Store,
        ),
        after_event(plan, Stage::Storing, RunEventView::StoreFailed(cause)) == failed_with(
            failure_report(store_failure(), cause),
        ),
        stage_after(
            plan,
            Stage::Running,
            seq![RunEventView::Exited(true), RunEventView::StoreFailed(cause)],
        ) == Stage::Finished(JobStatus::Failed),
{
    reveal_with_fuel(stage_after, 3);
}

/// Once a run has finished, no series of events changes its status.
pub proof fn law_finished_run_stays_finished(
    plan: JobPlanView,
    status: JobStatus,
    events: Seq<RunEventView>,
)
    ensures
        stage_after(plan, Stage::Finished(status), events) == Stage::Finished(status),
    decreases events.len(),
{
    if events.len() > 0 {
        law_finished_run_stays_finished(plan, status, events.drop_first());
    }
}

/// A failure that is reported before a run has finished decides the run:
/// it ends as `Failed`, whatever is reported afterwards.
pub proof fn law_failed_step_fails_the_run(
    plan: JobPlanView,
    stage: Stage,
    event: RunEventView,
    later: Seq<RunEventView>,
)
    requires
        !(stage is Finished),
        is_failure(event),
    ensures
        stage_after(plan, stage, seq![event] + later) == Stage::Finished(JobStatus::Failed),
{
    let events = seq![event] + later;
    assert(events.first() == event);
    assert(events.drop_first() =~= later);
    law_finished_run_stays_finished(plan, JobStatus::Failed, later);
}

/// A run that ends in `Success` saw its command exit cleanly, and no step
/// of it failed: a failure among the events, if there is one, was reported
/// when the run was already over.
pub proof fn law_success_means_every_step_succeeded(
    plan: JobPlanView,
    stage: Stage,
    events: Seq<RunEventView>,
)
    requires
        stage is Writing || stage is Spawning || stage is Running,
        stage_after(plan, stage, events) == Stage::Finished(JobStatus::Success),
    ensures
        events.contains(RunEventView::Exited(true)),
        forall|k: int|
            0 <= k < events.len() && is_failure(#[trigger] events[k]) ==> stage_after(
                plan,
                stage,
                events.take(k),
            ) is Finished,
    decreases events.len(),
{
    let first = events.first();
    let rest = events.drop_first();
    let next = after_event(plan, stage, first).0;
    if let Stage::Finished(status) = next {
        law_finished_run_stays_finished(plan, status, rest);
    }
    lemma_unfinished_success(plan, next, rest);
    if next is Writing || next is Spawning || next is Running {
        law_success_means_every_step_succeeded(plan, next, rest);
        let at = choose|i: int| 0 <= i < rest.len() && rest[i] == RunEventView::Exited(true);
        assert(events[at + 1] == RunEventView::Exited(true));
    } else {
        assert(events[0] == RunEventView::Exited(true));
    }
    assert forall|k: int| 0 <= k < events.len() && is_failure(#[trigger] events[k]) implies stage_after(
        plan,
        stage,
        events.take(k),
    ) is Finished by {
        let seen = events.take(k);
        assert(seen.first() == first);
        assert(seen.drop_first() =~= rest.take(k - 1));
        assert(events[k] == rest[k - 1]);
    }
}

/// Of a run that ends in `Success`: a failure among the events was
/// reported when the run was already over. This holds from every stage.
proof fn lemma_unfinished_success(plan: JobPlanView, stage: Stage, events: Seq<RunEventView>)
    requires
        stage_after(plan, stage, events) == Stage::Finished(JobStatus::Success),
    ensures
        forall|k: int|
            0 <= k < events.len() && is_failure(#[trigger] events[k]) ==> stage_after(
                plan,
                stage,
                events.take(k),
            ) is Finished,
    decreases events.len(),
{
    if events.len() > 0 {
        let first = events.first();
        let rest = events.drop_first();
        let next = after_event(plan, stage, first).0;
        if !(stage is Finished) && is_failure(first) {
            law_finished_run_stays_finished(plan, JobStatus::Failed, rest);
        }
        lemma_unfinished_success(plan, next, rest);
        assert forall|k: int| 0 <= k < events.len() && is_failure(#[trigger] events[k]) implies stage_after(
            plan,
            stage,
            events.take(k),
        ) is Finished by {
            let seen = events.take(k);
            if k == 0 {
                assert(stage is Finished);
            } else {
                assert(seen.first() == first);
                assert(seen.drop_first() =~= rest.take(k - 1));
                assert(events[k] == rest[k - 1]);
            }
        }
    }
}

/// The events of a run in which nothing goes wrong: every file is written,
/// the command starts and exits cleanly, and the image, where the plan
/// stores one, is stored.
pub open spec fn clean_run(plan: JobPlanView) -> Seq<RunEventView> {
    Seq::new(plan.writes.len(), |i: int| RunEventView::WriteDone) + clean_end(plan)
}

/// The events of a clean run from the start of the command on.
pub open spec fn clean_end(plan: JobPlanView) -> Seq<RunEventView> {
    if plan.artifact_host is Some {
        seq![RunEventView::Spawned, RunEventView::Exited(true), RunEventView::Stored]
    } else {
        seq![RunEventView::Spawned, RunEventView::Exited(true)]
    }
}

/// Writing the files from position `next` on leads to the start of the
/// command.
proof fn lemma_writes_lead_to_spawn(plan: JobPlanView, next: usize, tail: Seq<RunEventView>)
    requires
        next <= plan.writes.len() <= usize::MAX,
    ensures
        stage_after(
            plan,
            write_or_spawn(plan, next).0,
            Seq::new((plan.writes.len() - next) as nat, |i: int| RunEventView::WriteDone) + tail,
        ) == stage_after(plan, Stage::Spawning, tail),
    decreases plan.writes.len() - next,
{
    let left = (plan.writes.len() - next) as nat;
    let events = Seq::new(left, |i: int| RunEventView::WriteDone) + tail;
    if next == plan.writes.len() {
        assert(events =~= tail);
    } else {
        let more = Seq::new((left - 1) as nat, |i: int| RunEventView::WriteDone) + tail;
        assert(events.first() == RunEventView::WriteDone);
        assert(events.drop_first() =~= more);
        lemma_writes_lead_to_spawn(plan, (next + 1) as usize, tail);
    }
}

/// A run in which nothing goes wrong ends in `Success`.
pub proof fn law_clean_run_succeeds(plan: JobPlanView)
    requires
        plan.writes.len() <= usize::MAX,
    ensures
        stage_after(plan, first_step(plan).0, clean_run(plan)) == Stage::Finished(
            JobStatus::Success,
        ),
{
    lemma_writes_lead_to_spawn(plan, 0, clean_end(plan));
    reveal_with_fuel(stage_after, 4);
}

/// The files of a plan are written in their order: while a file is being
/// written, a completed write leads to the next file, and after the last
/// file to the start of the command.
pub proof fn law_writes_go_in_order(plan: JobPlanView, i: usize)
    requires
        i < plan.writes.len() <= usize::MAX,
    ensures
        i + 1 < plan.writes.len() ==> after_event(
            plan,
            Stage::Writing(i),
            RunEventView::WriteDone,
        ) == (Stage::Writing((i + 1) as usize), RunActionView::Write((i + 1) as usize)),
        i + 1 == plan.writes.len() ==> after_event(
            plan,
            Stage::Writing(i),
            RunEventView::WriteDone,
        ) == (Stage::Spawning, RunActionView::Spawn),
{
}

} // verus!
