//! How jobs end, by their result or after a restart.

use crate::arena_driver;
use crate::arena_jobs;
use crate::error;
use crate::error::{projection, ControlError, ExecuteError, Fault};
use crate::ids;
use crate::job_submit;
use crate::jobs;
use crate::ordered;
use crate::protocol::{ArenaJobPhase, EvaluationRecord, JobRecord, JobState, JobTerminal};
use crate::records::{ArenaJobRecord, RunCompletionReason, RunResultReceipt, StoredEvent};
use crate::state;
use crate::state::{ControlState, Projected};
use crate::text;
use vstd::prelude::*;

verus! {

/// The end of a job whose run ended for `reason`.
pub open spec fn end_for(reason: RunCompletionReason) -> (JobState, JobTerminal) {
    match reason {
        RunCompletionReason::Success => (JobState::Succeeded, JobTerminal::Succeeded),
        RunCompletionReason::OperatorInterrupt => (JobState::Interrupted, JobTerminal::Interrupted),
        RunCompletionReason::ProviderFailure | RunCompletionReason::Other => (
            JobState::Failed,
            JobTerminal::Failed,
        ),
    }
}

/// Gives the end of a job whose run ended for `reason`.
fn end_of(reason: RunCompletionReason) -> (result: (JobState, JobTerminal))
    ensures
        result == end_for(reason),
{
    match reason {
        RunCompletionReason::Success => (JobState::Succeeded, JobTerminal::Succeeded),
        RunCompletionReason::OperatorInterrupt => (JobState::Interrupted, JobTerminal::Interrupted),
        RunCompletionReason::ProviderFailure | RunCompletionReason::Other => (
            JobState::Failed,
            JobTerminal::Failed,
        ),
    }
}

/// What a finished worker leads to.
#[derive(Clone, Copy, Debug, PartialEq, Eq, Structural)]
pub enum CompletionStep {
    /// The job was asked to stop; its output is dropped and it ends as cancelled.
    Discard,
    /// The output is persisted and its result signed.
    Persist,
    /// There is no output; the job fails.
    Fail,
}

/// Decides over the output of a finished worker. It has to be the running job's.
pub fn receive_output(running: Option<&JobRecord>, job_id: &str, has_output: bool) -> (result: Result<
    CompletionStep,
    ExecuteError,
>)
    ensures
        result == (match running {
            None => Err(ExecuteError::Internal),
            Some(record) => if record.job_id@ != job_id@ {
                Err(ExecuteError::Internal)
            } else if record.state == JobState::CancellationRequested {
                Ok(CompletionStep::Discard)
            } else if has_output {
                Ok(CompletionStep::Persist)
            } else {
                Ok(CompletionStep::Fail)
            },
        }),
{
    let record = match running {
        None => {
            return Err(ExecuteError::Internal);
        },
        Some(record) => record,
    };
    if !text::text_eq(record.job_id.as_str(), job_id) {
        return Err(ExecuteError::Internal);
    }
    if record.state == JobState::CancellationRequested {
        return Ok(CompletionStep::Discard);
    }
    if has_output {
        Ok(CompletionStep::Persist)
    } else {
        Ok(CompletionStep::Fail)
    }
}

/// The end of a job: cancelled where it was asked to stop, failed without a result, and as
/// its run ended otherwise.
pub open spec fn completion(state: JobState, reason: Option<RunCompletionReason>) -> (JobState, JobTerminal) {
    if state == JobState::CancellationRequested {
        (JobState::Interrupted, JobTerminal::Cancelled)
    } else {
        match reason {
            Some(reason) => end_for(reason),
            None => (JobState::Failed, JobTerminal::Failed),
        }
    }
}

/// Ends a job whose worker finished.
pub fn complete_async_job(record: &mut JobRecord, reason: Option<RunCompletionReason>)
    ensures
        ({
            let end = completion(old(record).state, reason);
            *final(record) == (JobRecord { state: end.0, terminal: Some(end.1), ..*old(record) })
        }),
{
    let (state, terminal): (JobState, JobTerminal) = if record.state
        == JobState::CancellationRequested {
        (JobState::Interrupted, JobTerminal::Cancelled)
    } else {
        match reason {
            Some(reason) => end_of(reason),
            None => (JobState::Failed, JobTerminal::Failed),
        }
    };
    record.state = state;
    record.terminal = Some(terminal);
}

/// A completed job ends over a valid transition: with the signed result that its end was
/// read from, or with none.
pub proof fn completions_replay(record: JobRecord, result: Option<RunResultReceipt>, completed: bool)
    requires
        jobs::active(record.state),
        result matches Some(receipt) ==> jobs::result_matches_job(receipt, record) && (
        receipt.completion_reason == RunCompletionReason::Success ==> completed && record.state
            != JobState::CancellationRequested),
    ensures
        ({
            let reason = match result {
                Some(receipt) => Some(receipt.completion_reason),
                None => None,
            };
            let end = completion(record.state, reason);
            jobs::job_transition(
                "job.terminal"@,
                Some(record),
                JobRecord { state: end.0, terminal: Some(end.1), ..record },
                result,
                completed,
            )
        }),
{
    job_submit::job_event_types_differ();
}

/// The end of a job that a restart found unfinished, or the fault in its evidence.
pub open spec fn recovered_end(
    record: JobRecord,
    result: Option<RunResultReceipt>,
    completed: bool,
) -> Result<(JobState, JobTerminal), Fault> {
    match result {
        Some(receipt) => if !jobs::result_matches_job(receipt, record) {
            Err(Fault::Projection("signed job result differs from its admitted spec"@))
        } else if receipt.completion_reason == RunCompletionReason::Success && !completed {
            Err(Fault::Projection("successful job result lacks a completed lifecycle trace"@))
        } else if record.state == JobState::CancellationRequested {
            Ok((JobState::Interrupted, JobTerminal::Cancelled))
        } else {
            Ok(end_for(receipt.completion_reason))
        },
        None => if record.state == JobState::CancellationRequested {
            Ok((JobState::Interrupted, JobTerminal::Cancelled))
        } else {
            Ok((JobState::Interrupted, JobTerminal::Interrupted))
        },
    }
}

/// Ends a job that a restart found unfinished: cancelled where it was asked to stop, else as
/// its signed result says, else interrupted.
pub fn recover_job(record: JobRecord, result: Option<&RunResultReceipt>, completed: bool) -> (recovered:
    Result<JobRecord, ControlError>)
    ensures
        match recovered_end(record, ordered::found(result), completed) {
            Ok(end) => recovered == Ok::<JobRecord, ControlError>(
                JobRecord { state: end.0, terminal: Some(end.1), ..record },
            ),
            Err(fault) => error::verdict(recovered) == Err::<JobRecord, Fault>(fault),
        },
{
    let cancelled: bool = record.state == JobState::CancellationRequested;
    let mut record = record;
    let (state, terminal): (JobState, JobTerminal) = match result {
        Some(receipt) => {
            if !jobs::receipt_matches_job(receipt, &record) {
                return Err(projection("signed job result differs from its admitted spec"));
            }
            if receipt.completion_reason == RunCompletionReason::Success && !completed {
                return Err(projection("successful job result lacks a completed lifecycle trace"));
            }
            if cancelled {
                (JobState::Interrupted, JobTerminal::Cancelled)
            } else {
                end_of(receipt.completion_reason)
            }
        },
        None => if cancelled {
            (JobState::Interrupted, JobTerminal::Cancelled)
        } else {
            (JobState::Interrupted, JobTerminal::Interrupted)
        },
    };
    record.state = state;
    record.terminal = Some(terminal);
    Ok(record)
}

/// A recovered job ends over a valid transition, unless it was asked to stop and yet has a
/// successful result.
pub proof fn recoveries_replay(record: JobRecord, result: Option<RunResultReceipt>, completed: bool)
    requires
        jobs::active(record.state),
        recovered_end(record, result, completed) is Ok,
        !(record.state == JobState::CancellationRequested && (result matches Some(receipt)
            && receipt.completion_reason == RunCompletionReason::Success)),
    ensures
        ({
            let end = recovered_end(record, result, completed)->Ok_0;
            jobs::job_transition(
                "job.terminal"@,
                Some(record),
                JobRecord { state: end.0, terminal: Some(end.1), ..record },
                result,
                completed,
            )
        }),
{
    job_submit::job_event_types_differ();
}

/// The jobs that have not ended.
pub open spec fn unfinished_job() -> spec_fn(JobRecord) -> bool {
    |job: JobRecord| jobs::active(job.state)
}

/// The identities of the jobs that have not ended, in ascending order.
pub fn unfinished_jobs(state: &ControlState) -> (result: Vec<String>)
    requires
        state.wf(),
    ensures
        ordered::ascending(text::texts(result@)),
        forall|id: Seq<char>| #[trigger]
            text::texts(result@).contains(id) <==> (state@.jobs.contains_key(id)
                && jobs::active(state@.jobs[id].state)),
{
    let mut found: Vec<String> = Vec::new();
    let count: usize = state.jobs.len();
    let ghost wanted = unfinished_job();
    for i in 0..count
        invariant
            state.wf(),
            count == state.jobs.keys().len(),
            wanted == unfinished_job(),
            text::texts(found@) == ordered::keys_where(
                state.jobs.keys(),
                state.jobs.values(),
                wanted,
                i as int,
            ),
    {
        let job = state.jobs.value_at(i);
        if jobs::is_active(job.state) {
            let ghost before = found@;
            found.push(state.jobs.key_at(i).clone());
            assert(text::texts(found@) =~= text::texts(before).push(
                state.jobs.keys()[i as int],
            ));
        }
    }
    proof {
        state.jobs.lemma_keys_where(wanted, Seq::empty());
        assert forall|id: Seq<char>| #[trigger]
            text::texts(found@).contains(id) <==> (state@.jobs.contains_key(id)
                && jobs::active(state@.jobs[id].state)) by {
            state.jobs.lemma_keys_where(wanted, id);
        }
    }
    found
}

/// What recovery does next: it ends the first unfinished job, or finds a fault in it.
pub open spec fn recovery_step(projected: Projected) -> Option<Result<JobRecord, Fault>> {
    match ordered::least_where(projected.jobs, unfinished_job()) {
        None => None,
        Some(id) => {
            let record = projected.jobs[id];
            Some(
                match recovered_end(
                    record,
                    ordered::bound(projected.run_results, record.run_id@),
                    projected.completed_runs.contains(record.run_id@),
                ) {
                    Ok(end) => Ok(JobRecord { state: end.0, terminal: Some(end.1), ..record }),
                    Err(fault) => Err(fault),
                },
            )
        },
    }
}

/// Ends the first job that a restart left unfinished, where there is one. Once its end is
/// recorded, asking again ends the next.
pub fn recover_unfinished_jobs(state: &ControlState) -> (result: Option<
    Result<JobRecord, ControlError>,
>)
    requires
        state.wf(),
    ensures
        (match result {
            None => None,
            Some(recovered) => Some(error::verdict(recovered)),
        }) == recovery_step(state@),
{
    let count: usize = state.jobs.len();
    let ghost wanted = unfinished_job();
    for i in 0..count
        invariant
            state.wf(),
            count == state.jobs.keys().len(),
            count == state.jobs.values().len(),
            wanted == unfinished_job(),
            forall|j: int| 0 <= j < i ==> !wanted(#[trigger] state.jobs.values()[j]),
    {
        let job: &JobRecord = state.jobs.value_at(i);
        if jobs::is_active(job.state) {
            proof {
                state.jobs.lemma_first_is_least(wanted, i as int);
                state.jobs.lemma_bound_at(i as int);
            }
            let completed: bool = state.completed_runs.contains_key(job.run_id.as_str());
            return Some(
                recover_job(job.clone(), state.run_results.get(job.run_id.as_str()), completed),
            );
        }
    }
    proof {
        state.jobs.lemma_none_is_least(wanted);
    }
    None
}

/// Recording the end that recovery gave a job leaves one unfinished job less and changes no
/// other, so recovery comes to an end.
pub proof fn recovery_ends_one_job(projected: Projected, id: Seq<char>, record: JobRecord)
    requires
        ordered::least_where(projected.jobs, unfinished_job()) == Some(id),
        projected.jobs[id].job_id@ == id,
        recovery_step(projected) == Some(Ok::<JobRecord, Fault>(record)),
    ensures
        ({
            let after = state::with_job(projected, record);
            &&& jobs::active(projected.jobs[id].state)
            &&& !jobs::active(after.jobs[id].state)
            &&& after.jobs.dom() == projected.jobs.dom()
            &&& forall|other: Seq<char>|
                other != id && #[trigger] projected.jobs.contains_key(other)
                    ==> after.jobs[other] == projected.jobs[other]
            &&& ordered::ids_where(after.jobs, unfinished_job()) == ordered::ids_where(
                projected.jobs,
                unfinished_job(),
            ).remove(id)
            &&& projected.jobs.dom().finite() ==> ordered::ids_where(
                after.jobs,
                unfinished_job(),
            ).len() + 1 == ordered::ids_where(projected.jobs, unfinished_job()).len()
        }),
{
    let wanted = unfinished_job();
    let key = choose|key: Seq<char>| ordered::is_least(projected.jobs, wanted, key);
    assert(ordered::is_least(projected.jobs, wanted, key));
    ordered::lemma_one_less_wanted(projected.jobs, wanted, id, record);
    assert(state::with_job(projected, record).jobs.dom() =~= projected.jobs.dom());
}

/// Whether `after` is `before` with the end recorded that recovery gave a job.
pub open spec fn ends_a_job(before: Projected, after: Projected) -> bool {
    recovery_step(before) matches Some(Ok(record)) && after == state::with_job(before, record)
}

/// Whether each projection after the first is the one before it with the end recorded that
/// recovery gave a job.
pub open spec fn job_recoveries(steps: Seq<Projected>) -> bool {
    &&& steps.len() > 0
    &&& forall|k: int|
        0 < k < steps.len() ==> ends_a_job(steps[k - 1], #[trigger] steps[k])
}

/// What recovery of jobs has done after so many of its steps.
proof fn jobs_recovered_so_far(steps: Seq<Projected>, k: int)
    requires
        job_recoveries(steps),
        0 <= k < steps.len(),
        steps[0].jobs.dom().finite(),
        forall|id: Seq<char>| #[trigger]
            steps[0].jobs.contains_key(id) ==> steps[0].jobs[id].job_id@ == id,
    ensures
        steps[k].jobs.dom() == steps[0].jobs.dom(),
        forall|id: Seq<char>| #[trigger]
            steps[k].jobs.contains_key(id) ==> steps[k].jobs[id].job_id@ == id,
        forall|id: Seq<char>| #[trigger]
            steps[0].jobs.contains_key(id) && !jobs::active(steps[0].jobs[id].state)
                ==> steps[k].jobs[id] == steps[0].jobs[id],
        ordered::ids_where(steps[k].jobs, unfinished_job()).len() + k == ordered::ids_where(
            steps[0].jobs,
            unfinished_job(),
        ).len(),
    decreases k,
{
    if k > 0 {
        jobs_recovered_so_far(steps, k - 1);
        let before = steps[k - 1];
        assert(ends_a_job(before, steps[k]));
        let record = recovery_step(before)->0->Ok_0;
        let wanted = unfinished_job();
        let id = ordered::least_where(before.jobs, wanted)->0;
        let key = choose|key: Seq<char>| ordered::is_least(before.jobs, wanted, key);
        assert(ordered::is_least(before.jobs, wanted, key));
        recovery_ends_one_job(before, id, record);
    }
}

/// Recovery of jobs ends every job: it takes one step for each job that was unfinished, and
/// where it has nothing left to do, every job has ended, those that had ended before as they
/// had.
pub proof fn recovery_ends_every_job(steps: Seq<Projected>, last: ControlState)
    requires
        job_recoveries(steps),
        steps[0].jobs.dom().finite(),
        forall|id: Seq<char>| #[trigger]
            steps[0].jobs.contains_key(id) ==> steps[0].jobs[id].job_id@ == id,
        last.wf(),
        last@ == steps.last(),
        recovery_step(last@) is None,
    ensures
        steps.len() == ordered::ids_where(steps[0].jobs, unfinished_job()).len() + 1,
        last@.jobs.dom() == steps[0].jobs.dom(),
        forall|id: Seq<char>| #[trigger]
            last@.jobs.contains_key(id) ==> !jobs::active(last@.jobs[id].state),
        forall|id: Seq<char>| #[trigger]
            steps[0].jobs.contains_key(id) && !jobs::active(steps[0].jobs[id].state)
                ==> last@.jobs[id] == steps[0].jobs[id],
{
    jobs_recovered_so_far(steps, steps.len() - 1);
    assert forall|id: Seq<char>| #[trigger] last@.jobs.contains_key(id) implies !jobs::active(
        last@.jobs[id].state,
    ) by {
        recovered_jobs_have_ended(last, id);
    }
    assert(ordered::ids_where(last@.jobs, unfinished_job()) =~= Set::empty());
}

/// What came from the executor of a job.
#[derive(Debug, PartialEq, Eq)]
pub enum JobMessage {
    /// Nothing yet.
    Empty,
    /// The executor is gone.
    Disconnected,
    /// A job ended.
    Completed {
        /// The job.
        job_id: String,
        /// Whether its run left an output.
        output: bool,
    },
}

/// What the daemon does about it.
#[derive(Debug, PartialEq, Eq)]
pub enum JobStep {
    /// Nothing.
    Rest,
    /// Record the end of the job.
    End {
        /// Its last state.
        state: JobState,
        /// Its end.
        terminal: JobTerminal,
        /// What a failure to record it is called.
        unrecorded: &'static str,
    },
    /// Persist the output of the job; how its run ended then decides how the job ends.
    Persist,
}

/// What a message from the executor of a job leads to.
pub open spec fn job_step(running: Option<JobRecord>, message: JobMessage) -> Result<JobStep, Fault> {
    match (message, running) {
        (JobMessage::Empty, _) => Ok(JobStep::Rest),
        (JobMessage::Disconnected, None) => Ok(JobStep::Rest),
        (JobMessage::Disconnected, Some(_)) => Ok(
            JobStep::End {
                state: JobState::Interrupted,
                terminal: JobTerminal::Interrupted,
                unrecorded: "interrupted job could not be recorded",
            },
        ),
        (JobMessage::Completed { .. }, None) => Err(
            Fault::Projection("asynchronous job completion failed"@),
        ),
        (JobMessage::Completed { job_id, output }, Some(record)) => if record.job_id@ != job_id@ {
            Err(Fault::Projection("asynchronous job completion failed"@))
        } else if record.state == JobState::CancellationRequested {
            Ok(
                JobStep::End {
                    state: JobState::Interrupted,
                    terminal: JobTerminal::Cancelled,
                    unrecorded: "asynchronous job completion failed",
                },
            )
        } else if output {
            Ok(JobStep::Persist)
        } else {
            Ok(
                JobStep::End {
                    state: JobState::Failed,
                    terminal: JobTerminal::Failed,
                    unrecorded: "asynchronous job completion failed",
                },
            )
        },
    }
}

/// Decides what a message from the executor of the running job leads to.
pub fn service_job_message(running: Option<&JobRecord>, message: JobMessage) -> (result: Result<
    JobStep,
    ControlError,
>)
    ensures
        error::verdict(result) == job_step(ordered::found(running), message),
{
    match message {
        JobMessage::Empty => Ok(JobStep::Rest),
        JobMessage::Disconnected => match running {
            None => Ok(JobStep::Rest),
            Some(_) => Ok(
                JobStep::End {
                    state: JobState::Interrupted,
                    terminal: JobTerminal::Interrupted,
                    unrecorded: "interrupted job could not be recorded",
                },
            ),
        },
        JobMessage::Completed { job_id, output } => match receive_output(
            running,
            job_id.as_str(),
            output,
        ) {
            Err(_) => Err(projection("asynchronous job completion failed")),
            Ok(CompletionStep::Discard) => Ok(
                JobStep::End {
                    state: JobState::Interrupted,
                    terminal: JobTerminal::Cancelled,
                    unrecorded: "asynchronous job completion failed",
                },
            ),
            Ok(CompletionStep::Persist) => Ok(JobStep::Persist),
            Ok(CompletionStep::Fail) => Ok(
                JobStep::End {
                    state: JobState::Failed,
                    terminal: JobTerminal::Failed,
                    unrecorded: "asynchronous job completion failed",
                },
            ),
        },
    }
}

/// Every end that a message gives the running job can be recorded, and replays.
pub proof fn message_ends_replay(record: JobRecord, message: JobMessage)
    requires
        jobs::active(record.state),
    ensures
        job_step(Some(record), message) matches Ok(JobStep::End { state, terminal, .. })
            ==> jobs::job_transition(
            "job.terminal"@,
            Some(record),
            JobRecord { state, terminal: Some(terminal), ..record },
            None,
            false,
        ),
{
    job_submit::job_event_types_differ();
}

/// The paired evaluations that have not ended.
pub open spec fn unfinished_arena_job() -> spec_fn(ArenaJobRecord) -> bool {
    |job: ArenaJobRecord| jobs::active(job.state)
}

/// The identities of the paired evaluations that have not ended, in ascending order.
pub fn unfinished_arena_jobs(state: &ControlState) -> (result: Vec<String>)
    requires
        state.wf(),
    ensures
        ordered::ascending(text::texts(result@)),
        forall|id: Seq<char>| #[trigger]
            text::texts(result@).contains(id) <==> (state@.arena_jobs.contains_key(id)
                && jobs::active(state@.arena_jobs[id].state)),
{
    let mut found: Vec<String> = Vec::new();
    let count: usize = state.arena_jobs.len();
    let ghost wanted = unfinished_arena_job();
    for i in 0..count
        invariant
            state.wf(),
            count == state.arena_jobs.keys().len(),
            wanted == unfinished_arena_job(),
            text::texts(found@) == ordered::keys_where(
                state.arena_jobs.keys(),
                state.arena_jobs.values(),
                wanted,
                i as int,
            ),
    {
        let job = state.arena_jobs.value_at(i);
        if jobs::is_active(job.state) {
            let ghost before = found@;
            found.push(state.arena_jobs.key_at(i).clone());
            assert(text::texts(found@) =~= text::texts(before).push(
                state.arena_jobs.keys()[i as int],
            ));
        }
    }
    proof {
        state.arena_jobs.lemma_keys_where(wanted, Seq::empty());
        assert forall|id: Seq<char>| #[trigger]
            text::texts(found@).contains(id) <==> (state@.arena_jobs.contains_key(id)
                && jobs::active(state@.arena_jobs[id].state)) by {
            state.arena_jobs.lemma_keys_where(wanted, id);
        }
    }
    found
}

/// Whether a history holds the evaluation receipt of a paired evaluation.
pub open spec fn receipt_recorded(history: Seq<StoredEvent>, evaluation_id: Seq<char>) -> bool {
    exists|i: int|
        0 <= i < history.len() && (#[trigger] history[i]).event_type@ == "evaluation.recorded"@
            && history[i].event_id@ == "arena:evaluation:"@ + evaluation_id + ":recorded"@
}

/// Looks for the evaluation receipt of a paired evaluation.
pub fn has_evaluation_receipt(history: &Vec<StoredEvent>, evaluation_id: &str) -> (result: bool)
    ensures
        result == receipt_recorded(history@, evaluation_id@),
{
    let event_id: String = ids::wrap("arena:evaluation:", evaluation_id, ":recorded");
    for i in 0..history.len()
        invariant
            event_id@ == "arena:evaluation:"@ + evaluation_id@ + ":recorded"@,
            forall|j: int|
                0 <= j < i ==> !((#[trigger] history@[j]).event_type@ == "evaluation.recorded"@
                    && history@[j].event_id@ == event_id@),
    {
        if text::text_eq(history[i].event_type.as_str(), "evaluation.recorded") && history[i].event_id
            == event_id {
            return true;
        }
    }
    false
}

/// Whether every trial of a plan has a completed lifecycle and a successful signed result.
pub open spec fn trials_are_proven(projected: Projected, record: ArenaJobRecord) -> bool {
    forall|i: int|
        0 <= i < record.ordered_trial_run_ids@.len() ==> trial_is_proven(
            projected,
            (#[trigger] record.ordered_trial_run_ids@[i])@,
        )
}

/// Whether a trial has a completed lifecycle and a successful signed result.
pub open spec fn trial_is_proven(projected: Projected, run_id: Seq<char>) -> bool {
    &&& projected.completed_runs.contains(run_id)
    &&& projected.run_results.contains_key(run_id)
    &&& projected.run_results[run_id].completion_reason == RunCompletionReason::Success
}

/// Tests whether every trial of a plan has a completed lifecycle and a successful result.
fn are_trials_proven(state: &ControlState, record: &ArenaJobRecord) -> (result: bool)
    requires
        state.wf(),
    ensures
        result == trials_are_proven(state@, *record),
{
    for i in 0..record.ordered_trial_run_ids.len()
        invariant
            state.wf(),
            forall|j: int|
                0 <= j < i ==> trial_is_proven(
                    state@,
                    (#[trigger] record.ordered_trial_run_ids@[j])@,
                ),
    {
        let run_id: &str = record.ordered_trial_run_ids[i].as_str();
        let succeeded: bool = match state.run_results.get(run_id) {
            Some(receipt) => receipt.completion_reason == RunCompletionReason::Success,
            None => false,
        };
        if !succeeded || !state.completed_runs.contains_key(run_id) {
            assert(!trial_is_proven(state@, record.ordered_trial_run_ids@[i as int]@));
            return false;
        }
    }
    true
}

/// The end that recovery gives a paired evaluation.
#[derive(Debug, PartialEq, Eq)]
pub struct RecoveredPair {
    /// Its last state.
    pub state: JobState,
    /// Its end.
    pub terminal: JobTerminal,
    /// The evaluation that it came to.
    pub evaluation: Option<EvaluationRecord>,
}

/// The end of a paired evaluation that a restart found unfinished, or the fault in its
/// evidence. `evaluation` is what its recorded receipt verifies to.
pub open spec fn recovered_pair(
    projected: Projected,
    record: ArenaJobRecord,
    receipt: bool,
    evaluation: Option<EvaluationRecord>,
) -> Result<RecoveredPair, Fault> {
    let cancelled = record.state == JobState::CancellationRequested;
    if !receipt {
        Ok(
            RecoveredPair {
                state: JobState::Interrupted,
                terminal: if cancelled {
                    JobTerminal::Cancelled
                } else {
                    JobTerminal::Interrupted
                },
                evaluation: None,
            },
        )
    } else if cancelled {
        Err(Fault::Projection("cancelled Arena job has a committed evaluation receipt"@))
    } else if record.completed_trials != record.total_trials || !trials_are_proven(
        projected,
        record,
    ) {
        Err(Fault::Projection("Arena receipt is missing complete signed trial evidence"@))
    } else {
        match evaluation {
            None => Err(Fault::Projection("Arena recovery receipt failed verification"@)),
            Some(evaluation) => if evaluation.world_id@ != record.world_id@
                || evaluation.parent_genome_id@ != record.parent_genome_id@
                || evaluation.candidate_genome_id@ != record.candidate_genome_id@ {
                Err(Fault::Projection("Arena recovery receipt differs from admitted pair"@))
            } else {
                Ok(
                    RecoveredPair {
                        state: JobState::Succeeded,
                        terminal: JobTerminal::Succeeded,
                        evaluation: Some(evaluation),
                    },
                )
            },
        }
    }
}

/// Decides how a paired evaluation ends that a restart found unfinished: succeeded where its
/// receipt is recorded and all its trials are proven, else interrupted or cancelled.
pub fn recover_pair(
    state: &ControlState,
    record: &ArenaJobRecord,
    receipt: bool,
    evaluation: Option<EvaluationRecord>,
) -> (result: Result<RecoveredPair, ControlError>)
    requires
        state.wf(),
    ensures
        error::verdict(result) == recovered_pair(state@, *record, receipt, evaluation),
{
    let cancelled: bool = record.state == JobState::CancellationRequested;
    if !receipt {
        return Ok(
            RecoveredPair {
                state: JobState::Interrupted,
                terminal: if cancelled {
                    JobTerminal::Cancelled
                } else {
                    JobTerminal::Interrupted
                },
                evaluation: None,
            },
        );
    }
    if cancelled {
        return Err(projection("cancelled Arena job has a committed evaluation receipt"));
    }
    if record.completed_trials != record.total_trials || !are_trials_proven(state, record) {
        return Err(projection("Arena receipt is missing complete signed trial evidence"));
    }
    let evaluation: EvaluationRecord = match evaluation {
        Some(evaluation) => evaluation,
        None => {
            return Err(projection("Arena recovery receipt failed verification"));
        },
    };
    if evaluation.world_id != record.world_id || evaluation.parent_genome_id
        != record.parent_genome_id || evaluation.candidate_genome_id != record.candidate_genome_id {
        return Err(projection("Arena recovery receipt differs from admitted pair"));
    }
    Ok(
        RecoveredPair {
            state: JobState::Succeeded,
            terminal: JobTerminal::Succeeded,
            evaluation: Some(evaluation),
        },
    )
}

/// A paired evaluation after its recovery.
pub open spec fn recovered_arena(record: ArenaJobRecord, end: RecoveredPair) -> ArenaJobRecord {
    ArenaJobRecord {
        state: end.state,
        terminal: Some(end.terminal),
        evaluation: end.evaluation,
        phase: ArenaJobPhase::Terminal,
        ..record
    }
}

/// Ends a paired evaluation as its recovery decided.
pub fn end_recovered_pair(record: &mut ArenaJobRecord, end: RecoveredPair)
    ensures
        *final(record) == recovered_arena(*old(record), end),
{
    record.state = end.state;
    record.terminal = Some(end.terminal);
    record.evaluation = end.evaluation;
    record.phase = ArenaJobPhase::Terminal;
}

/// What recovery does next about paired evaluations: it ends the first unfinished one, or
/// finds a fault in it. `evaluation` is what the receipt of that one verifies to, where its
/// receipt is recorded.
pub open spec fn arena_recovery_step(
    projected: Projected,
    history: Seq<StoredEvent>,
    evaluation: Option<EvaluationRecord>,
) -> Option<(Seq<char>, Result<RecoveredPair, Fault>)> {
    match ordered::least_where(projected.arena_jobs, unfinished_arena_job()) {
        None => None,
        Some(id) => {
            let record = projected.arena_jobs[id];
            Some(
                (
                    id,
                    recovered_pair(
                        projected,
                        record,
                        receipt_recorded(history, record.evaluation_id@),
                        evaluation,
                    ),
                ),
            )
        },
    }
}

/// Ends the first paired evaluation that a restart left unfinished, where there is one: gives
/// its identity and its end. Once that end is recorded, asking again ends the next.
pub fn recover_unfinished_arena_jobs(
    state: &ControlState,
    history: &Vec<StoredEvent>,
    evaluation: Option<EvaluationRecord>,
) -> (result: Option<(String, Result<RecoveredPair, ControlError>)>)
    requires
        state.wf(),
    ensures
        (match result {
            None => None,
            Some(recovered) => Some((recovered.0@, error::verdict(recovered.1))),
        }) == arena_recovery_step(state@, history@, evaluation),
{
    let count: usize = state.arena_jobs.len();
    let ghost wanted = unfinished_arena_job();
    for i in 0..count
        invariant
            state.wf(),
            count == state.arena_jobs.keys().len(),
            count == state.arena_jobs.values().len(),
            wanted == unfinished_arena_job(),
            forall|j: int| 0 <= j < i ==> !wanted(#[trigger] state.arena_jobs.values()[j]),
    {
        let job: &ArenaJobRecord = state.arena_jobs.value_at(i);
        if jobs::is_active(job.state) {
            proof {
                state.arena_jobs.lemma_first_is_least(wanted, i as int);
                state.arena_jobs.lemma_bound_at(i as int);
            }
            let receipt: bool = has_evaluation_receipt(history, job.evaluation_id.as_str());
            let end: Result<RecoveredPair, ControlError> = recover_pair(
                state,
                job,
                receipt,
                evaluation,
            );
            return Some((state.arena_jobs.key_at(i).clone(), end));
        }
    }
    proof {
        state.arena_jobs.lemma_none_is_least(wanted);
    }
    None
}

/// Recording the end that recovery gave a paired evaluation leaves one unfinished evaluation
/// less and changes no other, so recovery comes to an end.
pub proof fn recovery_ends_one_pair(
    projected: Projected,
    history: Seq<StoredEvent>,
    evaluation: Option<EvaluationRecord>,
    id: Seq<char>,
    end: RecoveredPair,
)
    requires
        arena_recovery_step(projected, history, evaluation) == Some(
            (id, Ok::<RecoveredPair, Fault>(end)),
        ),
    ensures
        ({
            let after = projected.arena_jobs.insert(
                id,
                recovered_arena(projected.arena_jobs[id], end),
            );
            &&& projected.arena_jobs.contains_key(id)
            &&& jobs::active(projected.arena_jobs[id].state)
            &&& !jobs::active(after[id].state)
            &&& after.dom() == projected.arena_jobs.dom()
            &&& forall|other: Seq<char>|
                other != id && #[trigger] projected.arena_jobs.contains_key(other) ==> after[other]
                    == projected.arena_jobs[other]
            &&& ordered::ids_where(after, unfinished_arena_job()) == ordered::ids_where(
                projected.arena_jobs,
                unfinished_arena_job(),
            ).remove(id)
            &&& projected.arena_jobs.dom().finite() ==> ordered::ids_where(
                after,
                unfinished_arena_job(),
            ).len() + 1 == ordered::ids_where(projected.arena_jobs, unfinished_arena_job()).len()
        }),
{
    let wanted = unfinished_arena_job();
    let key = choose|key: Seq<char>| ordered::is_least(projected.arena_jobs, wanted, key);
    assert(ordered::is_least(projected.arena_jobs, wanted, key));
    let recovered = recovered_arena(projected.arena_jobs[id], end);
    ordered::lemma_one_less_wanted(projected.arena_jobs, wanted, id, recovered);
    assert(projected.arena_jobs.insert(id, recovered).dom() =~= projected.arena_jobs.dom());
}

/// Whether `after` is `before` with the end recorded that recovery gave a paired evaluation.
pub open spec fn ends_a_pair(
    before: Projected,
    after: Projected,
    history: Seq<StoredEvent>,
    evaluation: Option<EvaluationRecord>,
) -> bool {
    arena_recovery_step(before, history, evaluation) matches Some((id, Ok(end))) && after == (
    Projected {
        arena_jobs: before.arena_jobs.insert(id, recovered_arena(before.arena_jobs[id], end)),
        ..before
    })
}

/// Whether `after` is that on the history and the verified receipt of some step.
pub open spec fn ends_some_pair(before: Projected, after: Projected) -> bool {
    exists|history: Seq<StoredEvent>, evaluation: Option<EvaluationRecord>|
        ends_a_pair(before, after, history, evaluation)
}

/// Whether each projection after the first is the one before it with the end recorded that
/// recovery gave a paired evaluation.
pub open spec fn pair_recoveries(steps: Seq<Projected>) -> bool {
    &&& steps.len() > 0
    &&& forall|k: int|
        0 < k < steps.len() ==> ends_some_pair(steps[k - 1], #[trigger] steps[k])
}

/// What recovery of paired evaluations has done after so many of its steps.
proof fn pairs_recovered_so_far(steps: Seq<Projected>, k: int)
    requires
        pair_recoveries(steps),
        0 <= k < steps.len(),
        steps[0].arena_jobs.dom().finite(),
    ensures
        steps[k].arena_jobs.dom() == steps[0].arena_jobs.dom(),
        forall|id: Seq<char>| #[trigger]
            steps[0].arena_jobs.contains_key(id) && !jobs::active(steps[0].arena_jobs[id].state)
                ==> steps[k].arena_jobs[id] == steps[0].arena_jobs[id],
        ordered::ids_where(steps[k].arena_jobs, unfinished_arena_job()).len() + k
            == ordered::ids_where(steps[0].arena_jobs, unfinished_arena_job()).len(),
    decreases k,
{
    if k > 0 {
        pairs_recovered_so_far(steps, k - 1);
        let before = steps[k - 1];
        let after = steps[k];
        assert(ends_some_pair(before, after));
        let (history, evaluation) = choose|
            history: Seq<StoredEvent>,
            evaluation: Option<EvaluationRecord>,
        | ends_a_pair(before, after, history, evaluation);
        let (id, end) = arena_recovery_step(before, history, evaluation)->0;
        recovery_ends_one_pair(before, history, evaluation, id, end->Ok_0);
    }
}

/// Recovery of paired evaluations ends every one: it takes one step for each that was
/// unfinished, and where it has nothing left to do, every paired evaluation has ended, those
/// that had ended before as they had.
pub proof fn recovery_ends_every_pair(
    steps: Seq<Projected>,
    last: ControlState,
    history: Seq<StoredEvent>,
    evaluation: Option<EvaluationRecord>,
)
    requires
        pair_recoveries(steps),
        steps[0].arena_jobs.dom().finite(),
        last.wf(),
        last@ == steps.last(),
        arena_recovery_step(last@, history, evaluation) is None,
    ensures
        steps.len() == ordered::ids_where(steps[0].arena_jobs, unfinished_arena_job()).len() + 1,
        last@.arena_jobs.dom() == steps[0].arena_jobs.dom(),
        forall|id: Seq<char>| #[trigger]
            last@.arena_jobs.contains_key(id) ==> !jobs::active(last@.arena_jobs[id].state),
        forall|id: Seq<char>| #[trigger]
            steps[0].arena_jobs.contains_key(id) && !jobs::active(steps[0].arena_jobs[id].state)
                ==> last@.arena_jobs[id] == steps[0].arena_jobs[id],
{
    pairs_recovered_so_far(steps, steps.len() - 1);
    assert forall|id: Seq<char>| #[trigger] last@.arena_jobs.contains_key(id) implies !jobs::active(
        last@.arena_jobs[id].state,
    ) by {
        recovered_pairs_have_ended(last, history, evaluation, id);
    }
    assert(ordered::ids_where(last@.arena_jobs, unfinished_arena_job()) =~= Set::empty());
}

/// A recovered evaluation without a receipt ends over a valid transition, and so does one
/// that was cut off while it committed its own receipt.
pub proof fn arena_recoveries_replay(
    projected: Projected,
    record: ArenaJobRecord,
    receipt: bool,
    evaluation: Option<EvaluationRecord>,
)
    requires
        jobs::active(record.state),
        recovered_pair(projected, record, receipt, evaluation) is Ok,
        receipt ==> record.state == JobState::Running && record.phase == ArenaJobPhase::Committing
            && (evaluation matches Some(evaluation) && evaluation.evaluation_id@
            == record.evaluation_id@),
    ensures
        arena_jobs::arena_transition(
            "arena.job.terminal"@,
            Some(record),
            recovered_arena(record, recovered_pair(projected, record, receipt, evaluation)->Ok_0),
            receipt,
        ),
{
    arena_driver::arena_event_types_differ();
}

/// Where recovery of jobs has nothing left to do, every job has ended.
pub proof fn recovered_jobs_have_ended(state: ControlState, id: Seq<char>)
    requires
        state.wf(),
        recovery_step(state@) is None,
        state@.jobs.contains_key(id),
    ensures
        !jobs::active(state@.jobs[id].state),
{
    if jobs::active(state@.jobs[id].state) {
        state.jobs.lemma_some_is_least(unfinished_job(), id);
    }
}

/// Where recovery of paired evaluations has nothing left to do, every paired evaluation has
/// ended.
pub proof fn recovered_pairs_have_ended(
    state: ControlState,
    history: Seq<StoredEvent>,
    evaluation: Option<EvaluationRecord>,
    id: Seq<char>,
)
    requires
        state.wf(),
        arena_recovery_step(state@, history, evaluation) is None,
        state@.arena_jobs.contains_key(id),
    ensures
        !jobs::active(state@.arena_jobs[id].state),
{
    if jobs::active(state@.arena_jobs[id].state) {
        state.arena_jobs.lemma_some_is_least(unfinished_arena_job(), id);
    }
}

} // verus!
