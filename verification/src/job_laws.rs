//! How jobs and paired evaluations are recorded, shown and stopped, said of their inputs and
//! results alone.

use crate::arena_driver;
use crate::arena_jobs;
use crate::error::ExecuteError;
use crate::job_submit;
use crate::job_submit::{JobOpening, KillStep};
use crate::jobs;
use crate::protocol::{ArenaJobPhase, JobRecord, JobState, JobTerminal, ResponseData};
use crate::records::{
    ArenaJobRecord, EventEnvelope, RunCompletionReason, RunResultReceipt, TraceKind,
};
use crate::registry::GenomeEntry;
use crate::state::ControlState;
use vstd::prelude::*;

verus! {

/// A job that has not ended.
pub open spec fn unfinished(state: JobState) -> bool {
    state != JobState::Succeeded && state != JobState::Failed && state != JobState::Interrupted
}

/// Killing a job stops that job and no other: it signals the work that runs under the same
/// identity, and records the request where none is recorded yet. A job that has ended is shown
/// as it is. Work that is recorded as unfinished but does not run is not signalled.
pub proof fn kills_stop_the_named_job(
    state: ControlState,
    running_job: Option<&str>,
    running_arena_job: Option<&str>,
    job_id: &str,
    result: Result<KillStep, ExecuteError>,
)
    requires
        state.wf(),
        call_ensures(
            job_submit::kill_job,
            (&state, running_job, running_arena_job, job_id),
            result,
        ),
    ensures
        result == Err::<KillStep, ExecuteError>(ExecuteError::NotFound)
            <==> !state@.jobs.contains_key(job_id@) && !state@.arena_jobs.contains_key(job_id@),
        result matches Ok(KillStep::CancelJob { record }) ==> {
            &&& running_job matches Some(running) && running@ == job_id@
            &&& state@.jobs.contains_key(job_id@) && unfinished(state@.jobs[job_id@].state)
            &&& record <==> state@.jobs[job_id@].state != JobState::CancellationRequested
        },
        result matches Ok(KillStep::CancelArenaJob { record }) ==> {
            &&& running_arena_job matches Some(running) && running@ == job_id@
            &&& state@.arena_jobs.contains_key(job_id@) && unfinished(
                state@.arena_jobs[job_id@].state,
            )
            &&& record <==> state@.arena_jobs[job_id@].state != JobState::CancellationRequested
        },
        result matches Ok(KillStep::Ended(response)) ==> match response {
            ResponseData::ArenaJob { job } => state@.arena_jobs.contains_key(job_id@)
                && !unfinished(state@.arena_jobs[job_id@].state) && job.state
                == state@.arena_jobs[job_id@].state && job.evaluation_id
                == state@.arena_jobs[job_id@].evaluation_id,
            ResponseData::Job { job, .. } => state@.jobs.contains_key(job_id@) && !unfinished(
                state@.jobs[job_id@].state,
            ) && job == state@.jobs[job_id@],
            _ => false,
        },
        state@.arena_jobs.contains_key(job_id@) && unfinished(state@.arena_jobs[job_id@].state)
            && running_arena_job is Some && running_arena_job->0@ == job_id@
            ==> result matches Ok(KillStep::CancelArenaJob { .. }),
        !state@.arena_jobs.contains_key(job_id@) && state@.jobs.contains_key(job_id@)
            && unfinished(state@.jobs[job_id@].state) && running_job is Some && running_job->0@
            == job_id@ ==> result matches Ok(KillStep::CancelJob { .. }),
{
}

/// Cancelling one job signals it where it runs.
pub proof fn cancellations_reach_the_running_job(
    state: ControlState,
    running_job: Option<&str>,
    job_id: &str,
    result: Result<KillStep, ExecuteError>,
)
    requires
        state.wf(),
        call_ensures(
            job_submit::request_job_cancellation,
            (&state, running_job, job_id),
            result,
        ),
    ensures
        result is Ok <==> state@.jobs.contains_key(job_id@) && (running_job matches Some(running)
            && running@ == job_id@),
        result matches Ok(step) ==> step matches KillStep::CancelJob { record } && (record
            <==> state@.jobs[job_id@].state != JobState::CancellationRequested),
{
}

/// Cancelling all work stops what runs: a job before a paired evaluation, and nothing where
/// nothing runs. The request is recorded where none is recorded of that work yet.
pub proof fn cancelling_all_stops_what_runs(
    state: ControlState,
    running_job: Option<&str>,
    running_arena_job: Option<&str>,
    result: Result<Option<KillStep>, ExecuteError>,
)
    requires
        state.wf(),
        call_ensures(
            job_submit::request_active_job_cancellation,
            (&state, running_job, running_arena_job),
            result,
        ),
    ensures
        result == Ok::<Option<KillStep>, ExecuteError>(None) <==> running_job is None
            && running_arena_job is None,
        result matches Ok(Some(step)) ==> match step {
            KillStep::CancelJob { record } => running_job matches Some(job_id)
                && state@.jobs.contains_key(job_id@) && (record <==> state@.jobs[job_id@].state
                != JobState::CancellationRequested),
            KillStep::CancelArenaJob { record } => running_job is None && (
            running_arena_job matches Some(job_id) && state@.arena_jobs.contains_key(job_id@) && (
            record <==> state@.arena_jobs[job_id@].state != JobState::CancellationRequested)),
            KillStep::Ended(_) => false,
        },
        running_job matches Some(job_id) && state@.jobs.contains_key(job_id@) ==> result is Ok,
        running_job is None && running_arena_job is Some && state@.arena_jobs.contains_key(
            running_arena_job->0@,
        ) ==> result is Ok,
{
}

/// A job is shown as it is recorded, a paired evaluation before a job of the same identity, and
/// with the label of the phase that was traced last.
pub proof fn statuses_show_what_is_recorded(
    state: ControlState,
    job_id: &str,
    label: &'static str,
    result: Result<ResponseData, ExecuteError>,
)
    requires
        state.wf(),
        call_ensures(job_submit::job_status, (&state, job_id), result),
        state@.jobs.contains_key(job_id@) && state@.job_progress.contains_key(
            state@.jobs[job_id@].job_id@,
        ) && state@.job_progress[state@.jobs[job_id@].job_id@].last_kind is Some ==> call_ensures(
            job_submit::trace_phase,
            (state@.job_progress[state@.jobs[job_id@].job_id@].last_kind->0,),
            label,
        ),
    ensures
        result is Ok <==> state@.jobs.contains_key(job_id@) || state@.arena_jobs.contains_key(
            job_id@,
        ),
        result matches Err(error) ==> error == ExecuteError::NotFound,
        result matches Ok(response) ==> match response {
            ResponseData::ArenaJob { job } => {
                let record = state@.arena_jobs[job_id@];
                &&& state@.arena_jobs.contains_key(job_id@)
                &&& job.evaluation_id == record.evaluation_id
                &&& job.parent_genome_id == record.parent_genome_id
                &&& job.candidate_genome_id == record.candidate_genome_id
                &&& job.state == record.state && job.phase == record.phase
                &&& job.completed_trials == record.completed_trials
                &&& job.total_trials == record.total_trials
                &&& job.evaluation == record.evaluation
            },
            ResponseData::Job { job, progress } => {
                &&& !state@.arena_jobs.contains_key(job_id@)
                &&& job == state@.jobs[job_id@]
                &&& state@.job_progress.contains_key(job.job_id@) ==> progress.trace_events
                    == state@.job_progress[job.job_id@].trace_events
                    && progress.last_event_sequence
                    == state@.job_progress[job.job_id@].last_event_sequence && (
                progress.last_phase is Some <==> state@.job_progress[job.job_id@].last_kind
                    is Some) && (progress.last_phase matches Some(phase) ==> phase@ == label@)
                &&& !state@.job_progress.contains_key(job.job_id@) ==> progress.trace_events == 0
                    && progress.last_event_sequence is None && progress.last_phase is None
            },
            _ => false,
        },
{
}

/// No job begins beside unfinished work, and none under an identity that is recorded: a
/// repeated submission is answered with the recorded job of the same Genome.
pub proof fn jobs_begin_one_at_a_time(
    state: ControlState,
    arena_active: bool,
    job_id: &str,
    genome_id: &str,
    result: Result<JobOpening, ExecuteError>,
    other: Seq<char>,
)
    requires
        state.wf(),
        call_ensures(
            job_submit::open_job,
            (&state, arena_active, job_id, genome_id),
            result,
        ),
    ensures
        result matches Ok(JobOpening::Fresh) ==> {
            &&& !arena_active && !state@.jobs.contains_key(job_id@)
            &&& state@.jobs.contains_key(other) ==> !unfinished(state@.jobs[other].state)
            &&& state.registered.genomes@.contains_key(genome_id@)
        },
        result matches Ok(JobOpening::Existing(response)) ==> state@.jobs.contains_key(job_id@)
            && state@.jobs[job_id@].genome_id@ == genome_id@ && (response matches ResponseData::Job {
            job,
            ..
        } && job == state@.jobs[job_id@]),
{
}

/// A job is admitted for the Genome that was submitted, in that Genome's World, over the given
/// revision and in the given environment, and it may spend what the ceiling allows.
pub proof fn jobs_are_admitted_as_submitted(
    job_id: &str,
    genome: GenomeEntry,
    source_revision: &str,
    environment_id: &str,
    cost_ceiling: u64,
    record: JobRecord,
)
    requires
        call_ensures(
            job_submit::admitted_job,
            (job_id, &genome, source_revision, environment_id, cost_ceiling),
            Ok::<JobRecord, ExecuteError>(record),
        ),
    ensures
        record.job_id@ == job_id@,
        record.genome_id == genome.record.genome_id,
        record.world_id == genome.record.world_id,
        record.source_revision@ == source_revision@,
        record.environment_id@ == environment_id@,
        record.budget.maximum_cost_microusd == cost_ceiling,
        record.budget.wall_millis == 10_000,
        record.budget.maximum_output_bytes == 1_048_576,
        record.seed == 0,
        record.state == JobState::Admitted && record.terminal is None,
{
}

/// Starting a job changes nothing of it but that it runs.
pub proof fn started_jobs_run(record: &mut JobRecord)
    requires
        call_ensures(job_submit::start_job, (record,), ()),
    ensures
        final(record).state == JobState::Running,
        final(record).job_id == old(record).job_id && final(record).run_id == old(record).run_id,
        final(record).genome_id == old(record).genome_id && final(record).terminal
            == old(record).terminal,
        final(record).environment_id == old(record).environment_id && final(record).budget
            == old(record).budget,
{
}

/// A job whose worker could not be launched ends as interrupted, and is otherwise unchanged.
pub proof fn abandoned_jobs_end_interrupted(record: &mut JobRecord)
    requires
        call_ensures(job_submit::abandon_job, (record,), ()),
    ensures
        final(record).state == JobState::Interrupted,
        final(record).terminal == Some(JobTerminal::Interrupted),
        final(record).job_id == old(record).job_id && final(record).run_id == old(record).run_id,
        final(record).genome_id == old(record).genome_id && final(record).budget
            == old(record).budget,
{
}

/// A job that is asked to stop has not ended by that.
pub proof fn cancelled_jobs_are_asked_to_stop(record: &mut JobRecord)
    requires
        call_ensures(job_submit::mark_job_cancelled, (record,), ()),
    ensures
        final(record).state == JobState::CancellationRequested,
        final(record).terminal == old(record).terminal,
        final(record).job_id == old(record).job_id && final(record).run_id == old(record).run_id,
        final(record).genome_id == old(record).genome_id && final(record).budget
            == old(record).budget,
{
}

/// A paired evaluation that is asked to stop has not ended by that, and keeps its phase and the
/// trials that it completed.
pub proof fn cancelled_pairs_are_asked_to_stop(record: &mut ArenaJobRecord)
    requires
        call_ensures(job_submit::mark_arena_job_cancelled, (record,), ()),
    ensures
        final(record).state == JobState::CancellationRequested,
        final(record).phase == old(record).phase,
        final(record).completed_trials == old(record).completed_trials,
        final(record).terminal == old(record).terminal,
        final(record).evaluation == old(record).evaluation,
        final(record).evaluation_id == old(record).evaluation_id,
{
}

/// Different phases of a trace are shown under different labels.
pub proof fn phases_are_told_apart(kind: TraceKind, other: TraceKind, label: &'static str)
    requires
        call_ensures(job_submit::trace_phase, (kind,), label),
        call_ensures(job_submit::trace_phase, (other,), label),
    ensures
        kind == other,
        kind == TraceKind::LifecycleCompleted <==> label@ == "completed"@,
        kind == TraceKind::LifecycleStarted <==> label@ == "started"@,
        kind == TraceKind::Error <==> label@ == "error"@,
        kind == TraceKind::CapabilityDenied <==> label@ == "capability_denied"@,
{
    reveal_strlit("started");
    reveal_strlit("resumed");
    reveal_strlit("completed");
    reveal_strlit("tool_called");
    reveal_strlit("tool_result");
    reveal_strlit("context_composed");
    reveal_strlit("memory_retrieved");
    reveal_strlit("subagent_spawned");
    reveal_strlit("file_read");
    reveal_strlit("file_changed");
    reveal_strlit("test_executed");
    reveal_strlit("capability_denied");
    reveal_strlit("cost_observed");
    reveal_strlit("checkpoint_created");
    reveal_strlit("error");
    reveal_strlit("retry");
    reveal_strlit("model_response");
    let mark = |text: Seq<char>| (text.len(), text[0], text[text.len() - 1]);
    assert(mark("started"@) == (7nat, 's', 'd'));
    assert(mark("resumed"@) == (7nat, 'r', 'd'));
    assert(mark("completed"@) == (9nat, 'c', 'd'));
    assert(mark("tool_called"@) == (11nat, 't', 'd'));
    assert(mark("tool_result"@) == (11nat, 't', 't'));
    assert(mark("context_composed"@) == (16nat, 'c', 'd'));
    assert(mark("memory_retrieved"@) == (16nat, 'm', 'd'));
    assert(mark("subagent_spawned"@) == (16nat, 's', 'd'));
    assert(mark("file_read"@) == (9nat, 'f', 'd'));
    assert(mark("file_changed"@) == (12nat, 'f', 'd'));
    assert(mark("test_executed"@) == (13nat, 't', 'd'));
    assert(mark("capability_denied"@) == (17nat, 'c', 'd'));
    assert(mark("cost_observed"@) == (13nat, 'c', 'd'));
    assert(mark("checkpoint_created"@) == (18nat, 'c', 'd'));
    assert(mark("error"@) == (5nat, 'e', 'r'));
    assert(mark("retry"@) == (5nat, 'r', 'y'));
    assert(mark("model_response"@) == (14nat, 'm', 'e'));
}

/// The events of one job stand under that job, one for each of its states but that every end
/// is recorded by the same event, so that a job ends once.
pub proof fn job_events_belong_to_their_job(record: JobRecord, envelope: EventEnvelope)
    requires
        call_ensures(job_submit::job_envelope, (&record,), envelope),
    ensures
        envelope.aggregate_id@ == "job:"@ + record.job_id@,
        envelope.actor@ == "daemon-runtime"@,
        record.state == JobState::Admitted ==> envelope.event_id@ == "job:"@ + record.job_id@
            + ":"@ + "admitted"@ && envelope.event_type@ == "job."@ + "admitted"@,
        record.state == JobState::Running ==> envelope.event_id@ == "job:"@ + record.job_id@
            + ":"@ + "running"@ && envelope.event_type@ == "job."@ + "running"@,
        record.state == JobState::CancellationRequested ==> envelope.event_id@ == "job:"@
            + record.job_id@ + ":"@ + "cancellation_requested"@ && envelope.event_type@ == "job."@
            + "cancellation_requested"@,
        !unfinished(record.state) ==> envelope.event_id@ == "job:"@ + record.job_id@ + ":"@
            + "terminal"@ && envelope.event_type@ == "job."@ + "terminal"@,
{
}

/// The events of one paired evaluation stand under that evaluation, and each phase of its
/// running, each request to stop it and its one end have an event of their own.
pub proof fn pair_events_belong_to_their_pair(record: ArenaJobRecord, envelope: EventEnvelope)
    requires
        call_ensures(job_submit::arena_job_envelope, (&record,), envelope),
    ensures
        envelope.aggregate_id@ == "arena-job:"@ + record.evaluation_id@,
        envelope.actor@ == "daemon-runtime"@,
        exists|suffix: Seq<char>|
            envelope.event_type@ == #[trigger] ("arena.job."@ + suffix) && envelope.event_id@
                == "arena-job:"@ + record.evaluation_id@ + ":"@ + suffix && (record.state
                == JobState::Admitted ==> suffix == "admitted"@) && (record.state
                == JobState::CancellationRequested ==> suffix == "cancellation_requested"@) && (
            !unfinished(record.state) ==> suffix == "terminal"@) && (record.state
                == JobState::Running && record.phase == ArenaJobPhase::Scoring ==> suffix
                == "scoring"@) && (record.state == JobState::Running && record.phase
                == ArenaJobPhase::Committing ==> suffix == "committing"@) && (record.state
                == JobState::Running && record.phase != ArenaJobPhase::Scoring && record.phase
                != ArenaJobPhase::Committing ==> suffix == "running"@),
{
    let suffix = arena_jobs::arena_event(record.state, record.phase)@;
    assert(envelope.event_type@ == "arena.job."@ + suffix);
}

/// A job goes one way: it is admitted once, runs only after it was admitted, and ends once.
/// It succeeds only by a completed run with a signed result that reports success for the very
/// job, and it is cancelled only where that was asked. Its binding never changes.
pub proof fn jobs_go_one_way(
    event_type: &str,
    previous: Option<&JobRecord>,
    record: JobRecord,
    result: Option<&RunResultReceipt>,
    completed: bool,
)
    requires
        call_ensures(
            jobs::job_transition_is_valid,
            (event_type, previous, &record, result, completed),
            true,
        ),
    ensures
        record.state == JobState::Admitted ==> previous is None,
        previous is None ==> record.state == JobState::Admitted,
        previous matches Some(old) ==> unfinished(old.state),
        record.state == JobState::Running ==> previous->0.state == JobState::Admitted,
        unfinished(record.state) <==> record.terminal is None,
        record.terminal == Some(JobTerminal::Succeeded) <==> record.state == JobState::Succeeded,
        record.terminal == Some(JobTerminal::Failed) <==> record.state == JobState::Failed,
        record.state == JobState::Succeeded ==> {
            &&& completed
            &&& result matches Some(receipt) && receipt.run_id@ == record.run_id@
                && receipt.genome_id@ == record.genome_id@ && receipt.input_commitment@
                == record.input_commitment@ && receipt.environment_id@ == record.environment_id@
                && receipt.source_revision@ == record.source_revision@ && receipt.budget
                == record.budget && receipt.completion_reason == RunCompletionReason::Success
        },
        !unfinished(record.state) && record.state != JobState::Succeeded && result is Some
            ==> result->0.completion_reason != RunCompletionReason::Success && result->0.run_id@
            == record.run_id@,
        record.terminal == Some(JobTerminal::Cancelled) ==> previous->0.state
            == JobState::CancellationRequested,
        previous matches Some(old) ==> old.run_id@ == record.run_id@ && old.genome_id@
            == record.genome_id@ && old.world_id@ == record.world_id@ && old.environment_id@
            == record.environment_id@ && old.source_revision@ == record.source_revision@
            && old.task_id@ == record.task_id@ && old.input_commitment@
            == record.input_commitment@ && old.seed == record.seed && old.budget
            == record.budget,
        event_type@ == "job.terminal"@ <==> !unfinished(record.state),
{
    job_submit::job_event_types_differ();
}

/// A paired evaluation goes one way: it is admitted once, its phases follow each other, it
/// ends once, and what it was admitted for never changes. It is scored only once all its trials
/// are complete, and it succeeds only out of committing, with a recorded receipt and the
/// evaluation of its own pair. One that does not succeed carries no evaluation.
pub proof fn pairs_go_one_way(
    event_type: &str,
    previous: Option<&ArenaJobRecord>,
    record: ArenaJobRecord,
    evaluated: bool,
)
    requires
        call_ensures(
            arena_jobs::arena_job_transition_is_valid,
            (event_type, previous, &record, evaluated),
            true,
        ),
    ensures
        previous is None <==> record.state == JobState::Admitted,
        previous is None ==> record.completed_trials == 0 && record.phase
            == ArenaJobPhase::Preparing,
        previous matches Some(old) ==> {
            &&& unfinished(old.state)
            &&& old.completed_trials == record.completed_trials
            &&& old.parent_genome_id@ == record.parent_genome_id@
            &&& old.candidate_genome_id@ == record.candidate_genome_id@
            &&& old.world_id@ == record.world_id@ && old.evaluation_id@ == record.evaluation_id@
            &&& old.environment_id@ == record.environment_id@
            &&& old.visible_manifest_id@ == record.visible_manifest_id@
            &&& old.sealed_manifest_id@ == record.sealed_manifest_id@
            &&& old.total_trials == record.total_trials && old.parent_trial_count
                == record.parent_trial_count
            &&& old.trial_budget == record.trial_budget && old.overall_budget
                == record.overall_budget
            &&& old.plan_commitment@ == record.plan_commitment@
        },
        unfinished(record.state) <==> record.terminal is None,
        record.state == JobState::Running && record.phase == ArenaJobPhase::Scoring
            ==> record.completed_trials == record.total_trials && previous->0.state
            == JobState::Running,
        record.state == JobState::Running && record.phase == ArenaJobPhase::Committing
            ==> previous->0.phase == ArenaJobPhase::Scoring && previous->0.state
            == JobState::Running,
        record.state == JobState::Succeeded ==> {
            &&& evaluated && record.completed_trials == record.total_trials
            &&& previous->0.phase == ArenaJobPhase::Committing && previous->0.state
                == JobState::Running
            &&& record.evaluation matches Some(evaluation) && evaluation.evaluation_id@
                == record.evaluation_id@ && evaluation.parent_genome_id@
                == record.parent_genome_id@ && evaluation.candidate_genome_id@
                == record.candidate_genome_id@ && evaluation.world_id@ == record.world_id@
        },
        !unfinished(record.state) && record.state != JobState::Succeeded ==> record.evaluation
            is None,
        event_type@ == "arena.job.terminal"@ <==> !unfinished(record.state),
{
    arena_driver::arena_event_types_differ();
}

} // verus!
