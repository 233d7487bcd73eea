//! How runs, jobs and paired evaluations come to their ends, said of their inputs and results
//! alone.

use crate::arena_driver;
use crate::arena_driver::{
    ActiveArena, ArenaEnd, ArenaMessage, ArenaStep, EvidenceClaim, EvidenceStep, RunIdentity,
    ScoringStep, TrialRunner, TrialStep, TrialsStep,
};
use crate::error::{ControlError, ExecuteError};
use crate::execution;
use crate::execution::{Executor, Preparation, RunSnapshot, TrialLoop, TrialLoopStep, Watch};
use crate::ordered;
use crate::protocol::{ArenaJobPhase, EvaluationRecord, JobRecord, JobState, JobTerminal};
use crate::records::{
    ArenaJobRecord, RunCompletionReason, RunResultReceipt, StoredEvent,
};
use crate::recovery;
use crate::recovery::{CompletionStep, JobMessage, JobStep, RecoveredPair};
use crate::runs::ReferenceExecution;
use crate::service;
use crate::service::{ServiceReply, ServiceTurn};
use crate::state::ControlState;
use vstd::prelude::*;

verus! {

/// A job that has not ended.
pub open spec fn unfinished(state: JobState) -> bool {
    state != JobState::Succeeded && state != JobState::Failed && state != JobState::Interrupted
}

/// A finished job succeeds if and only if its run reports success and nobody asked it to stop;
/// one that was asked to stop ends as cancelled whatever its run reports; an operator's
/// interrupt interrupts it; every other reason, and a result that could not be kept, fails it.
/// Nothing else of the job changes.
pub proof fn jobs_end_as_their_run_did(
    record: &mut JobRecord,
    reason: Option<RunCompletionReason>,
)
    requires
        call_ensures(recovery::complete_async_job, (record, reason), ()),
    ensures
        final(record).state == JobState::Succeeded <==> old(record).state
            != JobState::CancellationRequested && reason == Some(RunCompletionReason::Success),
        final(record).terminal == Some(JobTerminal::Succeeded) <==> final(record).state
            == JobState::Succeeded,
        final(record).terminal == Some(JobTerminal::Cancelled) <==> old(record).state
            == JobState::CancellationRequested,
        old(record).state == JobState::CancellationRequested ==> final(record).state
            == JobState::Interrupted,
        old(record).state != JobState::CancellationRequested ==> (final(record).terminal == Some(
            JobTerminal::Interrupted,
        ) <==> reason == Some(RunCompletionReason::OperatorInterrupt)),
        final(record).terminal == Some(JobTerminal::Failed) <==> final(record).state
            == JobState::Failed,
        final(record).terminal is Some && !unfinished(final(record).state),
        final(record).job_id == old(record).job_id && final(record).run_id == old(record).run_id,
        final(record).genome_id == old(record).genome_id && final(record).world_id
            == old(record).world_id,
        final(record).budget == old(record).budget,
{
}

/// The output of a job is kept only where it is of the running job and nobody asked that job to
/// stop.
pub proof fn outputs_are_kept_for_running_jobs(
    running: Option<&JobRecord>,
    job_id: &str,
    has_output: bool,
    result: Result<CompletionStep, ExecuteError>,
)
    requires
        call_ensures(recovery::receive_output, (running, job_id, has_output), result),
    ensures
        result is Ok <==> running is Some && running->0.job_id@ == job_id@,
        result is Ok ==> (result->Ok_0 is Persist <==> has_output && running->0.state
            != JobState::CancellationRequested),
        result is Ok ==> (result->Ok_0 is Discard <==> running->0.state
            == JobState::CancellationRequested),
{
}

/// A recovered job ends: as cancelled where it was asked to stop, else as its signed result
/// says, and as interrupted where it has none. A result counts only where it is the job's own,
/// and a success only where its run completed.
pub proof fn recovered_jobs_end_as_signed(
    record: JobRecord,
    result: Option<&RunResultReceipt>,
    completed: bool,
    recovered: Result<JobRecord, ControlError>,
)
    requires
        call_ensures(recovery::recover_job, (record, result, completed), recovered),
    ensures
        recovered matches Ok(ended) ==> {
            &&& !unfinished(ended.state) && ended.terminal is Some
            &&& ended.job_id == record.job_id && ended.run_id == record.run_id && ended.genome_id
                == record.genome_id && ended.world_id == record.world_id && ended.budget
                == record.budget
            &&& ended.terminal == Some(JobTerminal::Cancelled) <==> record.state
                == JobState::CancellationRequested
            &&& ended.state == JobState::Succeeded <==> record.state
                != JobState::CancellationRequested && (result matches Some(receipt)
                && receipt.completion_reason == RunCompletionReason::Success)
            &&& ended.state == JobState::Succeeded ==> completed && result->0.run_id@
                == record.run_id@ && result->0.genome_id@ == record.genome_id@
            &&& result is None ==> ended.state == JobState::Interrupted
            &&& ended.state == JobState::Failed ==> result is Some
        },
        result is None ==> recovered is Ok,
        result is Some && (result->0.run_id@ != record.run_id@ || result->0.genome_id@
            != record.genome_id@ || result->0.environment_id@ != record.environment_id@)
            ==> recovered is Err,
        result is Some && result->0.completion_reason == RunCompletionReason::Success && !completed
            ==> recovered is Err,
{
}

/// Recovery goes on for as long as a job is unfinished, and ends none that has ended. What it
/// ends is a recorded unfinished job, which keeps its Genome and its run.
pub proof fn recovery_finds_every_unfinished_job(
    state: ControlState,
    result: Option<Result<JobRecord, ControlError>>,
    id: Seq<char>,
)
    requires
        state.wf(),
        call_ensures(recovery::recover_unfinished_jobs, (&state,), result),
    ensures
        result is None && state@.jobs.contains_key(id) ==> !unfinished(state@.jobs[id].state),
        result matches Some(Ok(ended)) ==> exists|found: Seq<char>| #[trigger]
            state@.jobs.contains_key(found) && unfinished(state@.jobs[found].state)
                && !unfinished(ended.state) && ended.run_id == state@.jobs[found].run_id
                && ended.job_id == state@.jobs[found].job_id && (ended.terminal == Some(
                JobTerminal::Cancelled,
            ) <==> state@.jobs[found].state == JobState::CancellationRequested),
{
    if state@.jobs.contains_key(id) && unfinished(state@.jobs[id].state) {
        state.jobs.lemma_some_is_least(recovery::unfinished_job(), id);
    }
    if let Some(Ok(ended)) = result {
        let least = ordered::least_where(state@.jobs, recovery::unfinished_job())->0;
        assert(state@.jobs.contains_key(least));
    }
}

/// A message of a running job ends that job or has its output kept. A lost worker interrupts
/// it; a job that was asked to stop ends as cancelled; one without an output fails.
pub proof fn messages_end_their_own_job(
    running: Option<&JobRecord>,
    message: JobMessage,
    result: Result<JobStep, ControlError>,
)
    requires
        call_ensures(recovery::service_job_message, (running, message), result),
    ensures
        running is None && result is Ok ==> result->Ok_0 is Rest,
        message is Empty ==> result is Ok && result->Ok_0 is Rest,
        message is Disconnected && running is Some ==> result is Ok && result->Ok_0 is End
            && result->Ok_0->End_state == JobState::Interrupted && result->Ok_0->End_terminal
            == JobTerminal::Interrupted,
        message is Completed && result is Ok ==> running is Some && running->0.job_id@
            == message->job_id@,
        result is Ok && result->Ok_0 is Persist ==> message is Completed && message->output
            && running->0.state != JobState::CancellationRequested,
        result is Ok && result->Ok_0 is End && message is Completed ==> {
            &&& result->Ok_0->End_terminal == JobTerminal::Cancelled <==> running->0.state
                == JobState::CancellationRequested
            &&& result->Ok_0->End_terminal == JobTerminal::Failed <==> running->0.state
                != JobState::CancellationRequested
            &&& result->Ok_0->End_terminal == JobTerminal::Failed <==> result->Ok_0->End_state
                == JobState::Failed
        },
        result is Ok && result->Ok_0 is End ==> !unfinished(result->Ok_0->End_state)
            && result->Ok_0->End_state != JobState::Succeeded,
{
}

/// A recovered pair succeeds only by a recorded receipt of that very pair, over trials that all
/// completed with signed results that report success; without a receipt it is interrupted, or
/// cancelled where it was asked to stop. Only one that succeeds carries an evaluation.
pub proof fn recovered_pairs_succeed_by_their_receipt(
    state: ControlState,
    record: ArenaJobRecord,
    receipt: bool,
    evaluation: Option<EvaluationRecord>,
    result: Result<RecoveredPair, ControlError>,
    place: int,
)
    requires
        state.wf(),
        call_ensures(recovery::recover_pair, (&state, &record, receipt, evaluation), result),
    ensures
        !receipt ==> result is Ok,
        result matches Ok(end) ==> {
            &&& end.state == JobState::Succeeded <==> receipt
            &&& end.terminal == JobTerminal::Succeeded <==> receipt
            &&& !receipt ==> end.state == JobState::Interrupted && end.evaluation is None && (
            end.terminal == JobTerminal::Cancelled <==> record.state
                == JobState::CancellationRequested) && (end.terminal == JobTerminal::Interrupted
                <==> record.state != JobState::CancellationRequested)
            &&& receipt ==> {
                &&& record.state != JobState::CancellationRequested
                &&& record.completed_trials == record.total_trials
                &&& end.evaluation is Some && end.evaluation == evaluation
                &&& end.evaluation->0.world_id@ == record.world_id@
                &&& end.evaluation->0.parent_genome_id@ == record.parent_genome_id@
                &&& end.evaluation->0.candidate_genome_id@ == record.candidate_genome_id@
                &&& 0 <= place < record.ordered_trial_run_ids@.len() ==> {
                    let run_id = record.ordered_trial_run_ids@[place]@;
                    &&& state@.completed_runs.contains(run_id)
                    &&& state@.run_results.contains_key(run_id)
                    &&& state@.run_results[run_id].completion_reason
                        == RunCompletionReason::Success
                }
            }
        },
{
    if result is Ok && receipt && 0 <= place < record.ordered_trial_run_ids@.len() {
        assert(recovery::trial_is_proven(state@, record.ordered_trial_run_ids@[place]@));
    }
}

/// Recovery goes on for as long as a pair is unfinished, and ends none that has ended. Success
/// takes a receipt of the pair in the history.
pub proof fn recovery_finds_every_unfinished_pair(
    state: ControlState,
    history: Vec<StoredEvent>,
    evaluation: Option<EvaluationRecord>,
    result: Option<(String, Result<RecoveredPair, ControlError>)>,
    id: Seq<char>,
)
    requires
        state.wf(),
        call_ensures(
            recovery::recover_unfinished_arena_jobs,
            (&state, &history, evaluation),
            result,
        ),
    ensures
        result is None && state@.arena_jobs.contains_key(id) ==> !unfinished(
            state@.arena_jobs[id].state,
        ),
        result matches Some(found) ==> state@.arena_jobs.contains_key(found.0@) && unfinished(
            state@.arena_jobs[found.0@].state,
        ) && (found.1 matches Ok(end) ==> !unfinished(end.state) && (end.state
            == JobState::Succeeded <==> exists|i: int|
            0 <= i < history@.len() && (#[trigger] history@[i]).event_type@
                == "evaluation.recorded"@ && history@[i].event_id@ == "arena:evaluation:"@
                + state@.arena_jobs[found.0@].evaluation_id@ + ":recorded"@)),
{
    if state@.arena_jobs.contains_key(id) && unfinished(state@.arena_jobs[id].state) {
        state.arena_jobs.lemma_some_is_least(recovery::unfinished_arena_job(), id);
    }
}

/// A recovered pair is recorded with its end and keeps what it was admitted for.
pub proof fn recovered_pairs_keep_their_plan(record: &mut ArenaJobRecord, end: RecoveredPair)
    requires
        call_ensures(recovery::end_recovered_pair, (record, end), ()),
    ensures
        final(record).state == end.state && final(record).terminal == Some(end.terminal),
        final(record).evaluation == end.evaluation && final(record).phase
            == ArenaJobPhase::Terminal,
        final(record).evaluation_id == old(record).evaluation_id,
        final(record).parent_genome_id == old(record).parent_genome_id,
        final(record).candidate_genome_id == old(record).candidate_genome_id,
        final(record).completed_trials == old(record).completed_trials,
        final(record).plan_commitment == old(record).plan_commitment,
{
}

/// An evaluation is recorded with the end that it came to: it carries an evaluation that it
/// succeeded with, its state and its outcome say the same, and its plan stays.
pub proof fn evaluations_end_as_they_came_to(record: &mut ArenaJobRecord, end: ArenaEnd)
    requires
        call_ensures(arena_driver::end_evaluation, (record, end), ()),
    ensures
        final(record).phase == ArenaJobPhase::Terminal && !unfinished(final(record).state),
        final(record).state == JobState::Succeeded <==> end is Succeeded,
        final(record).terminal == Some(JobTerminal::Succeeded) <==> end is Succeeded,
        final(record).state == JobState::Failed <==> end is Failed,
        final(record).terminal == Some(JobTerminal::Failed) <==> end is Failed,
        final(record).terminal == Some(JobTerminal::Cancelled) <==> end is Cancelled,
        final(record).terminal == Some(JobTerminal::Interrupted) <==> end is Interrupted,
        end matches ArenaEnd::Succeeded(evaluation) ==> final(record).evaluation == Some(
            evaluation,
        ),
        !(end is Succeeded) ==> final(record).evaluation == old(record).evaluation,
        final(record).evaluation_id == old(record).evaluation_id && final(record).completed_trials
            == old(record).completed_trials && final(record).plan_commitment
            == old(record).plan_commitment,
{
}

/// A deadline stops an evaluation that runs, once, when its time has come and not before.
pub proof fn deadlines_come_due_once(
    active: ActiveArena,
    now_millis: u64,
    deadline_millis: u64,
    due: bool,
    turn: ServiceTurn,
)
    requires
        call_ensures(
            arena_driver::deadline_is_due,
            (&active, now_millis, deadline_millis),
            due,
        ),
        call_ensures(
            service::enforce_arena_deadline,
            (Some(&active), now_millis, deadline_millis),
            turn,
        ),
    ensures
        due ==> deadline_millis <= now_millis && active.record.state == JobState::Running
            && !active.overall_timed_out,
        deadline_millis <= now_millis && active.record.state == JobState::Running
            && !active.overall_timed_out ==> due,
        turn is Deadline <==> due,
{
}

/// Stopping at a deadline asks the evaluation to stop and signals its worker.
pub proof fn deadlines_stop_the_worker(active: &mut ActiveArena)
    requires
        call_ensures(arena_driver::stop_at_deadline, (active,), ()),
    ensures
        final(active).cancel && final(active).record.state == JobState::CancellationRequested,
        final(active).overall_timed_out == old(active).overall_timed_out,
        final(active).record.phase == old(active).record.phase,
        final(active).record.completed_trials == old(active).record.completed_trials,
        final(active).record.terminal == old(active).record.terminal,
{
}

/// Trials are taken in the order that they were admitted in, each for its own evaluation.
pub proof fn trials_are_taken_in_order(
    active: Option<&ActiveArena>,
    job_id: &str,
    index: usize,
    result: Result<TrialStep, ControlError>,
)
    requires
        call_ensures(arena_driver::receive_trial, (active, job_id, index), result),
    ensures
        active is None ==> result is Ok && result->Ok_0 is NotActive,
        active is Some ==> (result is Ok && result->Ok_0 is Persist <==> {
            &&& active->0.record.evaluation_id@ == job_id@
            &&& active->0.record.completed_trials == index
            &&& index < active->0.record.ordered_trial_run_ids@.len()
        }),
        active is Some && result is Ok ==> !(result->Ok_0 is NotActive),
{
}

/// The trials counted are those that were projected, and the candidate's turn comes once the
/// parent's trials are complete.
pub proof fn trials_are_counted(active: &mut ActiveArena, projected_trials: Option<u32>)
    requires
        call_ensures(arena_driver::count_trials, (active, projected_trials), ()),
    ensures
        projected_trials matches Some(count) ==> final(active).record.completed_trials == count,
        projected_trials is None ==> final(active).record.completed_trials
            == old(active).record.completed_trials,
        final(active).record.completed_trials >= final(active).record.parent_trial_count
            ==> final(active).record.phase == ArenaJobPhase::CandidateTrials,
        final(active).record.completed_trials < final(active).record.parent_trial_count
            ==> final(active).record.phase == old(active).record.phase,
        final(active).record.state == old(active).record.state && final(active).cancel
            == old(active).cancel && final(active).overall_timed_out
            == old(active).overall_timed_out,
        final(active).record.total_trials == old(active).record.total_trials
            && final(active).record.parent_trial_count == old(active).record.parent_trial_count,
{
}

/// An evaluation is scored only after trials that succeeded and that nobody asked to stop. One
/// that is not scored ends as cancelled where an operator stopped it, and fails where its time
/// ran out or its trials did not succeed.
pub proof fn unsuccessful_trials_are_not_scored(
    active: Option<&ActiveArena>,
    job_id: &str,
    succeeded: bool,
    result: Result<TrialsStep, ControlError>,
)
    requires
        call_ensures(arena_driver::finish_trials, (active, job_id, succeeded), result),
    ensures
        active is None <==> result is Ok && result->Ok_0 is Ignore,
        active is Some ==> (result is Ok <==> active->0.record.evaluation_id@ == job_id@),
        result is Ok && active is Some ==> (result->Ok_0 is Score <==> succeeded
            && !active->0.cancel && active->0.record.state != JobState::CancellationRequested),
        result matches Ok(TrialsStep::End(end)) ==> {
            &&& end is Cancelled <==> active->0.record.state == JobState::CancellationRequested
                && !active->0.overall_timed_out
            &&& end is Failed <==> !(end is Cancelled)
        },
{
}

/// Scoring starts only with every trial complete.
pub proof fn scoring_needs_every_trial(
    active: Option<&ActiveArena>,
    result: Result<(), ControlError>,
)
    requires
        call_ensures(arena_driver::start_arena_scoring, (active,), result),
    ensures
        result is Ok <==> active is Some && active->0.record.completed_trials
            == active->0.record.total_trials,
{
}

/// A score is committed only where it is one of the active evaluation, which nobody asked to
/// stop and whose time has not run out. A timeout fails it, an operator cancels it.
pub proof fn scores_are_committed_or_ended(
    active: Option<&ActiveArena>,
    job_id: &str,
    scored: bool,
    result: Result<ScoringStep, ControlError>,
)
    requires
        call_ensures(arena_driver::finish_arena_scoring, (active, job_id, scored), result),
    ensures
        result is Ok <==> active is Some && active->0.record.evaluation_id@ == job_id@,
        result is Ok ==> (result->Ok_0 is Commit <==> scored && !active->0.overall_timed_out
            && !active->0.cancel && active->0.record.state != JobState::CancellationRequested),
        result matches Ok(ScoringStep::End(end)) ==> {
            &&& end is Failed || end is Cancelled
            &&& active->0.overall_timed_out ==> end is Failed
            &&& end is Cancelled ==> active->0.cancel || active->0.record.state
                == JobState::CancellationRequested
            &&& end is Failed ==> active->0.overall_timed_out || !scored
        },
{
}

/// Messages of a paired evaluation act on that evaluation alone: a trial is kept only in its
/// place, scores come only after all trials succeeded, and an end is never a success.
pub proof fn messages_act_on_their_own_pair(
    active: Option<&ActiveArena>,
    message: ArenaMessage,
    result: Result<ArenaStep, ControlError>,
)
    requires
        call_ensures(arena_driver::service_arena_message, (active, message), result),
    ensures
        result is Ok && result->Ok_0 is Persist ==> message is Trial && active is Some
            && active->0.record.evaluation_id@ == message->Trial_job_id@
            && active->0.record.completed_trials == message->index,
        result is Ok && result->Ok_0 is Score ==> message is Trials && message->succeeded
            && active is Some && active->0.record.evaluation_id@ == message->Trials_job_id@
            && !active->0.cancel && active->0.record.state != JobState::CancellationRequested
            && active->0.record.completed_trials == active->0.record.total_trials,
        result is Ok && result->Ok_0 is Commit ==> message is Scoring && message->scored
            && active is Some && active->0.record.evaluation_id@ == message->Scoring_job_id@
            && !active->0.cancel && active->0.record.state != JobState::CancellationRequested
            && !active->0.overall_timed_out,
        result is Ok && result->Ok_0 is End ==> active is Some && !(result->Ok_0->end is Succeeded),
        result is Ok && result->Ok_0 is End ==> (result->Ok_0->end is Interrupted
            <==> message is Disconnected),
        result is Ok && result->Ok_0 is End && active->0.overall_timed_out && !(
        message is Disconnected) ==> result->Ok_0->end is Failed,
        result is Ok && result->Ok_0 is End && result->Ok_0->end is Cancelled
            ==> active->0.record.state == JobState::CancellationRequested || active->0.cancel,
        message is Disconnected ==> result is Ok && (result->Ok_0 is End <==> active is Some),
        result is Ok && result->Ok_0 is RefuseTrial ==> (result->Ok_0->stop <==> active is Some),
{
}

/// A commit succeeds with the evaluation that was committed.
pub proof fn commits_succeed_with_their_evaluation(
    evaluation: Option<EvaluationRecord>,
    end: ArenaEnd,
)
    requires
        call_ensures(arena_driver::finish_commit, (evaluation,), end),
    ensures
        end is Succeeded <==> evaluation is Some,
        end matches ArenaEnd::Succeeded(committed) ==> evaluation == Some(committed),
        end is Failed <==> evaluation is None,
{
}

/// The first trials of a pair are its parent's, the others its candidate's, each under the run
/// identity that was admitted in its place.
pub proof fn trials_run_for_their_side(
    record: ArenaJobRecord,
    runs: Vec<RunIdentity>,
    place: int,
)
    requires
        call_ensures(arena_driver::trial_runs, (&record,), runs),
        0 <= place < record.ordered_trial_run_ids@.len(),
    ensures
        runs@.len() == record.ordered_trial_run_ids@.len(),
        runs@[place].run_id@ == record.ordered_trial_run_ids@[place]@,
        runs@[place].world_id@ == record.world_id@,
        place < record.parent_trial_count ==> runs@[place].genome_id@ == record.parent_genome_id@,
        place >= record.parent_trial_count ==> runs@[place].genome_id@
            == record.candidate_genome_id@,
{
    assert(arena_driver::is_trial_run(runs@[place], record, place));
}

/// Evidence is kept only of an admitted run, and only where it names that run's own Genome and
/// World.
pub proof fn evidence_is_of_an_admitted_run(
    claim: EvidenceClaim,
    job: Option<&RunIdentity>,
    trials: Vec<RunIdentity>,
    writer: bool,
    step: EvidenceStep,
)
    requires
        call_ensures(arena_driver::service_evidence, (&claim, job, &trials, writer), step),
    ensures
        step is Persist ==> writer && exists|run: RunIdentity|
            (job == Some(&run) || trials@.contains(run)) && #[trigger] run.run_id@ == claim.run_id@
                && (claim.provenance matches Some(origin) ==> origin.genome_id@ == run.genome_id@
                && origin.world_id@ == run.world_id@ && origin.run_id@ == run.run_id@),
        job is Some && claim.provenance is None && job->0.run_id@ == claim.run_id@ && writer
            ==> step is Persist,
{
    if step is Persist {
        if job is Some && arena_driver::belongs(claim, *job->0) {
            assert(job->0.run_id@ == claim.run_id@);
        } else {
            let i = choose|i: int|
                0 <= i < trials@.len() && #[trigger] arena_driver::belongs(claim, trials@[i]);
            assert(trials@.contains(trials@[i]));
            assert(trials@[i].run_id@ == claim.run_id@);
        }
    }
}

/// A trial runs with the provider that its side names, else on a leased worker where workers
/// are remote, else on the worker here; a cancelled one does not run.
pub proof fn trials_run_where_they_belong(
    cancelled: bool,
    provider: Option<usize>,
    providers: usize,
    remote: bool,
    result: Result<TrialRunner, &'static str>,
)
    requires
        call_ensures(arena_driver::execute_trial, (cancelled, provider, providers, remote), result),
    ensures
        cancelled ==> result is Err,
        !cancelled && provider is None ==> result is Ok,
        result matches Ok(TrialRunner::Provider(place)) ==> provider == Some(place) && place
            < providers,
        result is Ok && result->Ok_0 is Lease ==> provider is None && remote,
        result is Ok && result->Ok_0 is Worker ==> provider is None && !remote,
        !cancelled && provider is Some && provider->0 < providers ==> result is Ok,
{
}

/// Trials run one after the other, from the first that is not acknowledged, until none is left.
pub proof fn trials_run_one_after_another(
    trials: TrialLoop,
    cancelled: bool,
    provider: Option<usize>,
    providers: usize,
    remote: bool,
    result: TrialLoopStep,
)
    requires
        trials.wf(),
        call_ensures(
            execution::execute_async_arena_trials,
            (&trials, cancelled, provider, providers, remote),
            result,
        ),
    ensures
        result matches TrialLoopStep::Run { index, .. } ==> index == trials.next && index
            < trials.total && !cancelled,
        result is Run ==> (provider matches Some(place) ==> result->runner
            == TrialRunner::Provider(place)),
        result is Run && provider is None ==> result->runner == (if remote {
            TrialRunner::Lease
        } else {
            TrialRunner::Worker
        }),
        result == TrialLoopStep::Finish(Ok(())) <==> trials.next == trials.total,
{
}

/// A trial counts only once the writer has acknowledged it, and then as one.
pub proof fn trials_count_once_acknowledged(
    trials: &mut TrialLoop,
    sent: bool,
    reply: Option<Result<u64, String>>,
    result: Result<(), String>,
)
    requires
        old(trials).wf(),
        old(trials).next < old(trials).total,
        call_ensures(execution::take_acknowledgement, (trials, sent, reply), result),
    ensures
        final(trials).total == old(trials).total,
        result is Ok <==> sent && reply is Some && reply->0 is Ok,
        result is Ok ==> final(trials).next == old(trials).next + 1 && final(trials).sequence
            == reply->0->Ok_0,
        result is Err ==> *final(trials) == *old(trials),
{
}

/// A run is executed only in a sandbox that exists, by a worker that is still the pinned one.
pub proof fn runs_are_prepared_in_full(
    executor: Executor,
    preparation: Preparation,
    result: Result<(), &'static str>,
)
    requires
        call_ensures(execution::prepare_run, (executor, &preparation), result),
    ensures
        result is Ok <==> preparation.sandbox_opened && preparation.sandbox_created
            && preparation.configured && (executor == Executor::Worker
            ==> preparation.worker_intact),
{
}

/// A run is watched until it does not run any more; then its reason, its output and its
/// diagnostics are those that were seen. A cancelled run has to be interrupted.
pub proof fn ended_runs_report_what_was_seen(
    executor: Executor,
    cancelled: bool,
    interrupted: bool,
    snapshot: Option<RunSnapshot>,
    result: Watch,
)
    requires
        call_ensures(execution::watch_run, (executor, cancelled, interrupted, snapshot), result),
    ensures
        result is Again <==> snapshot is Some && snapshot->0.running && (cancelled ==> interrupted),
        result matches Watch::Ended(execution) ==> {
            &&& snapshot is Some && !snapshot->0.running && (cancelled ==> interrupted)
            &&& snapshot->0.completion_reason == Some(execution.completion_reason)
            &&& snapshot->0.stdout == Some(execution.stdout)
            &&& snapshot->0.stderr == Some(execution.stderr)
            &&& execution.latency_millis == snapshot->0.elapsed_millis
            &&& execution.actual_cost_microusd == snapshot->0.actual_cost_microusd
            &&& execution.trace_artifact_ids == snapshot->0.trace_artifact_ids
        },
        snapshot is Some && !snapshot->0.running && (cancelled ==> interrupted)
            && snapshot->0.completion_reason is Some && snapshot->0.stdout is Some
            && snapshot->0.stderr is Some && snapshot->0.elapsed_millis <= u64::MAX
            ==> result is Ended,
{
}

/// A watched run counts only where its sandbox was removed and its worker stayed the pinned one.
pub proof fn watched_runs_count_after_cleanup(
    executor: Executor,
    cleaned: bool,
    worker_intact: bool,
    execution: Result<ReferenceExecution, &'static str>,
    result: Result<ReferenceExecution, &'static str>,
)
    requires
        call_ensures(
            execution::settle_watched_run,
            (executor, cleaned, worker_intact, execution),
            result,
        ),
    ensures
        result is Ok <==> execution is Ok && cleaned && (executor == Executor::Worker
            ==> worker_intact),
        result is Ok ==> result == execution,
{
}

/// A direct run answers with what its ended worker left and with the traces that were recorded.
pub proof fn direct_runs_report_what_was_seen(
    waits: bool,
    snapshot: Option<RunSnapshot>,
    traces: Result<Vec<String>, ExecuteError>,
    result: Result<Option<ReferenceExecution>, ExecuteError>,
)
    requires
        call_ensures(execution::watch_direct_run, (waits, snapshot, traces), result),
    ensures
        result == Ok::<Option<ReferenceExecution>, ExecuteError>(None) <==> snapshot is Some
            && snapshot->0.running && waits,
        result matches Ok(Some(execution)) ==> {
            &&& snapshot is Some && !snapshot->0.running
            &&& snapshot->0.completion_reason == Some(execution.completion_reason)
            &&& snapshot->0.stdout == Some(execution.stdout)
            &&& snapshot->0.stderr == Some(execution.stderr)
            &&& execution.latency_millis == snapshot->0.elapsed_millis
            &&& execution.actual_cost_microusd == snapshot->0.actual_cost_microusd
            &&& traces == Ok::<Vec<String>, ExecuteError>(execution.trace_artifact_ids)
        },
{
}

/// A round of the service keeps at most as much evidence as it has turns for, keeps none that
/// belongs to no admitted run, and goes on from evidence to jobs, to pairs, to evolution and to
/// adaptations, in that order.
pub proof fn rounds_go_on_in_order(
    turn: ServiceTurn,
    reply: ServiceReply,
    result: Result<ServiceTurn, ControlError>,
)
    requires
        call_ensures(service::service_async_messages, (turn, reply), result),
    ensures
        result is Ok && result->Ok_0 is Persist ==> turn is Evidence && reply is Offered
            && reply->Offered_0.writer && turn->Evidence_left > 0 && result->Ok_0->Persist_left
            == turn->Evidence_left - 1,
        result is Ok && result->Ok_0 is Halt ==> turn is Persist && reply is Failed,
        result is Ok && result->Ok_0 is Refresh ==> turn is Persist && !(reply is Failed),
        turn is Deadline ==> (result is Ok <==> !(reply is Failed)),
        turn is Refresh ==> (result is Ok <==> !(reply is Failed)),
        turn is Job ==> (result is Ok <==> !(reply is Failed)),
        turn is Arena ==> (result is Ok <==> !(reply is Failed)),
        turn is Job && result is Ok ==> result->Ok_0 is Arena,
        turn is Arena && result is Ok ==> result->Ok_0 is Evolution,
        turn is Evolution ==> result is Ok && result->Ok_0 is Adaptations,
        turn is Adaptations ==> result is Ok && result->Ok_0 is Rest,
        turn is Evidence && !(reply is Offered) ==> result is Ok && result->Ok_0 is Job,
{
}

} // verus!
