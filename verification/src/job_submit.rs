//! Admission, inspection and cancellation of jobs.

use crate::arena_jobs;
use crate::arena_submit;
use crate::commands;
use crate::digest;
use crate::error::{rejected, ExecuteError, Refusal};
use crate::hex;
use crate::ids;
use crate::jobs;
use crate::protocol::{JobProgress, JobRecord, JobState, JobTerminal, ResponseData};
use crate::records::{ArenaJobRecord, EventEnvelope, RunBudgetReceipt, StoredEvent, TraceKind};
use crate::registry::{GenomeEntry, Registry};
use crate::state;
use crate::state::{ControlState, Projected, TraceProgress};
use crate::text;
use vstd::prelude::*;
use vstd::string::*;
use vstd::utf8::*;

verus! {

/// The label of a trace phase.
pub open spec fn phase_label(kind: TraceKind) -> &'static str {
    match kind {
        TraceKind::LifecycleStarted => "started",
        TraceKind::LifecycleResumed => "resumed",
        TraceKind::LifecycleCompleted => "completed",
        TraceKind::ToolCalled => "tool_called",
        TraceKind::ToolResult => "tool_result",
        TraceKind::ContextComposed => "context_composed",
        TraceKind::MemoryRetrieved => "memory_retrieved",
        TraceKind::SubagentSpawned => "subagent_spawned",
        TraceKind::FileRead => "file_read",
        TraceKind::FileChanged => "file_changed",
        TraceKind::TestExecuted => "test_executed",
        TraceKind::CapabilityDenied => "capability_denied",
        TraceKind::CostObserved => "cost_observed",
        TraceKind::CheckpointCreated => "checkpoint_created",
        TraceKind::Error => "error",
        TraceKind::Retry => "retry",
        TraceKind::ModelResponse => "model_response",
    }
}

/// Labels a trace phase.
pub fn trace_phase(kind: TraceKind) -> (result: &'static str)
    ensures
        result == phase_label(kind),
{
    match kind {
        TraceKind::LifecycleStarted => "started",
        TraceKind::LifecycleResumed => "resumed",
        TraceKind::LifecycleCompleted => "completed",
        TraceKind::ToolCalled => "tool_called",
        TraceKind::ToolResult => "tool_result",
        TraceKind::ContextComposed => "context_composed",
        TraceKind::MemoryRetrieved => "memory_retrieved",
        TraceKind::SubagentSpawned => "subagent_spawned",
        TraceKind::FileRead => "file_read",
        TraceKind::FileChanged => "file_changed",
        TraceKind::TestExecuted => "test_executed",
        TraceKind::CapabilityDenied => "capability_denied",
        TraceKind::CostObserved => "cost_observed",
        TraceKind::CheckpointCreated => "checkpoint_created",
        TraceKind::Error => "error",
        TraceKind::Retry => "retry",
        TraceKind::ModelResponse => "model_response",
    }
}

/// Whether `shown` is what callers see of a job's trace progress.
pub open spec fn shows_progress(shown: JobProgress, progress: TraceProgress) -> bool {
    &&& shown.trace_events == progress.trace_events
    &&& shown.last_event_sequence == progress.last_event_sequence
    &&& match (shown.last_phase, progress.last_kind) {
        (Some(label), Some(kind)) => label@ == phase_label(kind)@,
        (None, None) => true,
        _ => false,
    }
}

/// Whether `response` shows a job with the progress that is recorded for it.
pub open spec fn shows_job(response: ResponseData, job: JobRecord, projected: Projected) -> bool {
    &&& response matches ResponseData::Job { job: shown, progress }
    &&& shown == job
    &&& shows_progress(progress, state::progress_of(projected.job_progress, job.job_id@))
}

/// Shows callers the trace progress of a job.
pub fn show_progress(progress: &TraceProgress) -> (result: JobProgress)
    ensures
        shows_progress(result, *progress),
{
    JobProgress {
        trace_events: progress.trace_events,
        last_event_sequence: progress.last_event_sequence,
        last_phase: match progress.last_kind {
            Some(kind) => Some(trace_phase(kind).to_owned()),
            None => None,
        },
    }
}

/// Answers with a job and the progress that is recorded for it.
pub fn job_response(state: &ControlState, job: JobRecord) -> (result: ResponseData)
    requires
        state.wf(),
    ensures
        shows_job(result, job, state@),
{
    let progress: JobProgress = match state.job_progress.get(job.job_id.as_str()) {
        Some(progress) => show_progress(progress),
        None => JobProgress { trace_events: 0, last_event_sequence: None, last_phase: None },
    };
    ResponseData::Job { job, progress }
}

/// How a submitted job begins.
pub enum JobOpening {
    /// The job is already recorded for this Genome; its progress is the answer.
    Existing(ResponseData),
    /// The job is new and its Genome may run.
    Fresh,
}

/// How a submitted job begins, or why it is refused: `Ok(false)` for a recorded job,
/// `Ok(true)` for a new one.
pub open spec fn job_opening(
    projected: Projected,
    registry: Registry,
    arena_active: bool,
    job_id: Seq<char>,
    genome_id: Seq<char>,
) -> Result<bool, Refusal> {
    let busy = exists|id: Seq<char>| #[trigger]
        projected.jobs.contains_key(id) && jobs::active(projected.jobs[id].state);
    if !commands::job_identity(job_id) {
        Err(Refusal::Invalid("job_id is invalid"@))
    } else if projected.jobs.contains_key(job_id) {
        if projected.jobs[job_id].genome_id@ == genome_id {
            Ok(false)
        } else {
            Err(Refusal::Rejected("job id is already bound to another Genome"@))
        }
    } else if arena_active || busy {
        Err(Refusal::Busy)
    } else {
        match arena_submit::runnable(projected, registry, genome_id) {
            Ok(_) => Ok(true),
            Err(refusal) => Err(refusal),
        }
    }
}

/// Whether some recorded job has not ended.
fn has_unfinished_job(state: &ControlState) -> (result: bool)
    requires
        state.wf(),
    ensures
        result == exists|id: Seq<char>| #[trigger]
            state@.jobs.contains_key(id) && jobs::active(state@.jobs[id].state),
{
    let count: usize = state.jobs.len();
    for i in 0..count
        invariant
            state.wf(),
            count == state.jobs.keys().len(),
            forall|j: int| 0 <= j < i ==> !jobs::active(#[trigger] state.jobs.values()[j].state),
    {
        let job = state.jobs.value_at(i);
        if jobs::is_active(job.state) {
            return true;
        }
    }
    proof {
        assert forall|id: Seq<char>| #[trigger] state@.jobs.contains_key(id) implies !jobs::active(
            state@.jobs[id].state,
        ) by {
            state.jobs.lemma_place(id);
        }
    }
    false
}

/// Opens a submitted job. A repeated submission of a recorded job is answered with its
/// progress; a new one needs that no job is unfinished, that no paired evaluation runs, and a
/// runnable Genome.
pub fn open_job(state: &ControlState, arena_active: bool, job_id: &str, genome_id: &str) -> (result:
    Result<JobOpening, ExecuteError>)
    requires
        state.wf(),
    ensures
        match job_opening(state@, state.registered, arena_active, job_id@, genome_id@) {
            Ok(false) => result matches Ok(JobOpening::Existing(response)) && shows_job(
                response,
                state@.jobs[job_id@],
                state@,
            ),
            Ok(true) => result == Ok::<JobOpening, ExecuteError>(JobOpening::Fresh),
            Err(refusal) => result matches Err(error) && error@ == refusal,
        },
{
    if let Err(error) = commands::validate_job_id(job_id) {
        return Err(error);
    }
    if let Some(existing) = state.jobs.get(job_id) {
        if !text::text_eq(existing.genome_id.as_str(), genome_id) {
            return Err(rejected("job id is already bound to another Genome"));
        }
        return Ok(JobOpening::Existing(job_response(state, existing.clone())));
    }
    if arena_active || has_unfinished_job(state) {
        return Err(ExecuteError::Busy);
    }
    match arena_submit::runnable_genome(state, genome_id) {
        Ok(_) => Ok(JobOpening::Fresh),
        Err(error) => Err(error),
    }
}

/// Whether `record` is the first record of a job that `genome` runs in `environment_id` over
/// `source_revision`.
pub open spec fn admits_job(
    record: JobRecord,
    job_id: Seq<char>,
    genome: GenomeEntry,
    source_revision: Seq<char>,
    environment_id: Seq<char>,
    cost: u64,
) -> bool {
    &&& record.job_id@ == job_id
    &&& record.genome_id == genome.record.genome_id
    &&& record.run_id@ == ids::job_run(job_id)
    &&& record.source_revision@ == source_revision
    &&& record.world_id == genome.record.world_id
    &&& record.task_id@ == jobs::REFERENCE_TASK@
    &&& record.input_commitment@ == hex::hex(
        digest::blake3_hash(encode_utf8(jobs::REFERENCE_PROMPT@)),
    )
    &&& record.seed == 0
    &&& record.environment_id@ == environment_id
    &&& record.budget == (RunBudgetReceipt {
        wall_millis: jobs::REFERENCE_WALL_MILLIS,
        maximum_output_bytes: jobs::REFERENCE_OUTPUT_BYTES,
        maximum_cost_microusd: cost,
    })
    &&& record.state == JobState::Admitted
    &&& record.terminal is None
}

/// Builds the first record of a new job: the one reference task, under the cost ceiling of
/// the Genome's World where an external provider runs it.
pub fn admitted_job(
    job_id: &str,
    genome: &GenomeEntry,
    source_revision: &str,
    environment_id: &str,
    cost_ceiling: u64,
) -> (result: Result<JobRecord, ExecuteError>)
    ensures
        match result {
            Ok(record) => cost_ceiling <= arena_submit::MAX_EVALUATION_COST_MICROUSD && admits_job(
                record,
                job_id@,
                *genome,
                source_revision@,
                environment_id@,
                cost_ceiling,
            ),
            Err(error) => cost_ceiling > arena_submit::MAX_EVALUATION_COST_MICROUSD && error
                == ExecuteError::Invalid("evaluation budget is invalid"),
        },
{
    let budget: RunBudgetReceipt = match arena_submit::validated_evaluation_budget(
        jobs::REFERENCE_WALL_MILLIS,
        jobs::REFERENCE_OUTPUT_BYTES,
        cost_ceiling,
    ) {
        Ok(budget) => budget,
        Err(error) => {
            return Err(error);
        },
    };
    Ok(
        JobRecord {
            job_id: job_id.to_owned(),
            genome_id: genome.record.genome_id.clone(),
            run_id: ids::job_run_id(job_id),
            source_revision: source_revision.to_owned(),
            world_id: genome.record.world_id.clone(),
            task_id: jobs::REFERENCE_TASK.to_owned(),
            input_commitment: jobs::reference_input_commitment(),
            seed: 0,
            environment_id: environment_id.to_owned(),
            budget,
            state: JobState::Admitted,
            terminal: None,
        },
    )
}

/// Starts an admitted job.
pub fn start_job(record: &mut JobRecord)
    ensures
        *final(record) == (JobRecord { state: JobState::Running, ..*old(record) }),
{
    record.state = JobState::Running;
}

/// Ends a job whose worker could not be launched.
pub fn abandon_job(record: &mut JobRecord)
    ensures
        *final(record) == (JobRecord {
            state: JobState::Interrupted,
            terminal: Some(JobTerminal::Interrupted),
            ..*old(record)
        }),
{
    record.state = JobState::Interrupted;
    record.terminal = Some(JobTerminal::Interrupted);
}

/// What admission hands to the ledger, replay accepts: the record is bound as its Genome and
/// the reference task determine, and the steps from admission through launch or its failure
/// are valid transitions.
pub proof fn admitted_jobs_replay(
    registry: Registry,
    record: JobRecord,
    job_id: Seq<char>,
    genome: GenomeEntry,
    source_revision: Seq<char>,
    environment_id: Seq<char>,
    cost: u64,
)
    requires
        admits_job(record, job_id, genome, source_revision, environment_id, cost),
        registry.genomes@.contains_key(genome.record.genome_id@),
        registry.genomes@[genome.record.genome_id@] == genome,
    ensures
        jobs::job_binding(registry, record, cost),
        jobs::job_transition("job.admitted"@, None, record, None, false),
        ({
            let running = JobRecord { state: JobState::Running, ..record };
            let abandoned = JobRecord {
                state: JobState::Interrupted,
                terminal: Some(JobTerminal::Interrupted),
                ..running
            };
            &&& jobs::job_transition("job.running"@, Some(record), running, None, false)
            &&& jobs::job_transition("job.terminal"@, Some(running), abandoned, None, false)
        }),
{
    job_event_types_differ();
}

/// The event types of a job are all different.
pub proof fn job_event_types_differ()
    ensures
        "job.admitted"@ != "job.running"@,
        "job.admitted"@ != "job.cancellation_requested"@,
        "job.admitted"@ != "job.terminal"@,
        "job.running"@ != "job.cancellation_requested"@,
        "job.running"@ != "job.terminal"@,
        "job.cancellation_requested"@ != "job.terminal"@,
{
    reveal_strlit("job.admitted");
    reveal_strlit("job.running");
    reveal_strlit("job.cancellation_requested");
    reveal_strlit("job.terminal");
    assert("job.admitted"@[4] == 'a');
    assert("job.running"@[4] == 'r');
    assert("job.cancellation_requested"@[4] == 'c');
    assert("job.terminal"@[4] == 't');
}

/// Shows one paired evaluation or job.
pub fn job_status(state: &ControlState, job_id: &str) -> (result: Result<ResponseData, ExecuteError>)
    requires
        state.wf(),
    ensures
        if state@.arena_jobs.contains_key(job_id@) {
            result == Ok::<ResponseData, ExecuteError>(
                ResponseData::ArenaJob {
                    job: arena_submit::progress(state@.arena_jobs[job_id@]),
                },
            )
        } else if state@.jobs.contains_key(job_id@) {
            result matches Ok(response) && shows_job(response, state@.jobs[job_id@], state@)
        } else {
            result == Err::<ResponseData, ExecuteError>(ExecuteError::NotFound)
        },
{
    if let Some(job) = state.arena_jobs.get(job_id) {
        return Ok(arena_submit::arena_job_response(job));
    }
    match state.jobs.get(job_id) {
        Some(job) => Ok(job_response(state, job.clone())),
        None => Err(ExecuteError::NotFound),
    }
}

/// What killing a job takes.
pub enum KillStep {
    /// The job has ended; this is the answer.
    Ended(ResponseData),
    /// Signal the running job; record the request unless it is recorded already.
    CancelJob {
        /// Whether the request is still to be recorded.
        record: bool,
    },
    /// Signal the running paired evaluation; record the request unless it is recorded already.
    CancelArenaJob {
        /// Whether the request is still to be recorded.
        record: bool,
    },
}

/// Whether the running work is the one that is named.
pub open spec fn runs_as(running: Option<&str>, id: Seq<char>) -> bool {
    running matches Some(held) && held@ == id
}

/// Tests whether the running work is the one that is named.
fn is_running_as(running: Option<&str>, id: &str) -> (result: bool)
    ensures
        result == runs_as(running, id@),
{
    match running {
        Some(held) => text::text_eq(held, id),
        None => false,
    }
}

/// Decides what killing a job takes. An ended job is answered as it is. A job that is
/// recorded as active but is not the one that runs is an internal failure.
pub fn kill_job(
    state: &ControlState,
    running_job: Option<&str>,
    running_arena_job: Option<&str>,
    job_id: &str,
) -> (result: Result<KillStep, ExecuteError>)
    requires
        state.wf(),
    ensures
        if state@.arena_jobs.contains_key(job_id@) {
            let job = state@.arena_jobs[job_id@];
            if !jobs::active(job.state) {
                result == Ok::<KillStep, ExecuteError>(
                    KillStep::Ended(ResponseData::ArenaJob { job: arena_submit::progress(job) }),
                )
            } else if runs_as(running_arena_job, job_id@) {
                result == Ok::<KillStep, ExecuteError>(
                    KillStep::CancelArenaJob {
                        record: job.state != JobState::CancellationRequested,
                    },
                )
            } else {
                result == Err::<KillStep, ExecuteError>(ExecuteError::Internal)
            }
        } else if state@.jobs.contains_key(job_id@) {
            let job = state@.jobs[job_id@];
            if !jobs::active(job.state) {
                result matches Ok(KillStep::Ended(response)) && shows_job(response, job, state@)
            } else if runs_as(running_job, job_id@) {
                result == Ok::<KillStep, ExecuteError>(
                    KillStep::CancelJob { record: job.state != JobState::CancellationRequested },
                )
            } else {
                result == Err::<KillStep, ExecuteError>(ExecuteError::Internal)
            }
        } else {
            result == Err::<KillStep, ExecuteError>(ExecuteError::NotFound)
        },
{
    if let Some(job) = state.arena_jobs.get(job_id) {
        if !jobs::is_active(job.state) {
            return Ok(KillStep::Ended(arena_submit::arena_job_response(job)));
        }
        if !is_running_as(running_arena_job, job_id) {
            return Err(ExecuteError::Internal);
        }
        return Ok(
            KillStep::CancelArenaJob { record: job.state != JobState::CancellationRequested },
        );
    }
    let job = match state.jobs.get(job_id) {
        Some(job) => job,
        None => {
            return Err(ExecuteError::NotFound);
        },
    };
    if !jobs::is_active(job.state) {
        return Ok(KillStep::Ended(job_response(state, job.clone())));
    }
    request_job_cancellation(state, running_job, job_id)
}

/// Decides what cancelling one job takes.
pub fn request_job_cancellation(state: &ControlState, running_job: Option<&str>, job_id: &str) -> (result:
    Result<KillStep, ExecuteError>)
    requires
        state.wf(),
    ensures
        result == (if !state@.jobs.contains_key(job_id@) {
            Err(ExecuteError::NotFound)
        } else if runs_as(running_job, job_id@) {
            Ok(
                KillStep::CancelJob {
                    record: state@.jobs[job_id@].state != JobState::CancellationRequested,
                },
            )
        } else {
            Err(ExecuteError::Internal)
        }),
{
    match state.jobs.get(job_id) {
        None => Err(ExecuteError::NotFound),
        Some(job) => if is_running_as(running_job, job_id) {
            Ok(KillStep::CancelJob { record: job.state != JobState::CancellationRequested })
        } else {
            Err(ExecuteError::Internal)
        },
    }
}

/// Decides what cancelling all running work takes: the running job where there is one, else
/// the running paired evaluation, else nothing.
pub fn request_active_job_cancellation(
    state: &ControlState,
    running_job: Option<&str>,
    running_arena_job: Option<&str>,
) -> (result: Result<Option<KillStep>, ExecuteError>)
    requires
        state.wf(),
    ensures
        match (running_job, running_arena_job) {
            (Some(job_id), _) => result == (if state@.jobs.contains_key(job_id@) {
                Ok::<Option<KillStep>, ExecuteError>(
                    Some(
                        KillStep::CancelJob {
                            record: state@.jobs[job_id@].state != JobState::CancellationRequested,
                        },
                    ),
                )
            } else {
                Err(ExecuteError::NotFound)
            }),
            (None, Some(job_id)) => result == (if state@.arena_jobs.contains_key(job_id@) {
                Ok::<Option<KillStep>, ExecuteError>(
                    Some(
                        KillStep::CancelArenaJob {
                            record: state@.arena_jobs[job_id@].state
                                != JobState::CancellationRequested,
                        },
                    ),
                )
            } else {
                Err(ExecuteError::Internal)
            }),
            (None, None) => result == Ok::<Option<KillStep>, ExecuteError>(None),
        },
{
    if let Some(job_id) = running_job {
        return match request_job_cancellation(state, running_job, job_id) {
            Ok(step) => Ok(Some(step)),
            Err(error) => Err(error),
        };
    }
    if let Some(job_id) = running_arena_job {
        return match state.arena_jobs.get(job_id) {
            None => Err(ExecuteError::Internal),
            Some(job) => Ok(
                Some(
                    KillStep::CancelArenaJob {
                        record: job.state != JobState::CancellationRequested,
                    },
                ),
            ),
        };
    }
    Ok(None)
}

/// Marks a job as asked to stop.
pub fn mark_job_cancelled(record: &mut JobRecord)
    ensures
        *final(record) == (JobRecord { state: JobState::CancellationRequested, ..*old(record) }),
{
    record.state = JobState::CancellationRequested;
}

/// Marks a paired evaluation as asked to stop.
pub fn mark_arena_job_cancelled(record: &mut ArenaJobRecord)
    ensures
        *final(record) == (ArenaJobRecord {
            state: JobState::CancellationRequested,
            ..*old(record)
        }),
{
    record.state = JobState::CancellationRequested;
}

/// A recorded request to stop an active job is a valid transition, and after it the job can
/// still end as cancelled.
pub proof fn cancellation_replays(record: JobRecord)
    requires
        record.state == JobState::Admitted || record.state == JobState::Running,
        record.terminal is None,
    ensures
        ({
            let asked = JobRecord { state: JobState::CancellationRequested, ..record };
            let ended = JobRecord {
                state: JobState::Interrupted,
                terminal: Some(JobTerminal::Cancelled),
                ..asked
            };
            &&& jobs::job_transition("job.cancellation_requested"@, Some(record), asked, None, false)
            &&& jobs::job_transition("job.terminal"@, Some(asked), ended, None, false)
        }),
{
    job_event_types_differ();
}

/// Addresses the event that records a job.
pub fn job_envelope(record: &JobRecord) -> (result: EventEnvelope)
    ensures
        result.event_id@ == "job:"@ + record.job_id@ + ":"@ + jobs::job_event(record.state)@,
        result.aggregate_id@ == "job:"@ + record.job_id@,
        result.event_type@ == "job."@ + jobs::job_event(record.state)@,
        result.actor@ == jobs::RUNTIME_ACTOR@,
{
    let suffix: &'static str = jobs::job_event_suffix(record.state);
    let mut event_id: String = ids::wrap("job:", record.job_id.as_str(), ":");
    event_id.append(suffix);
    let mut aggregate_id: String = "job:".to_owned();
    aggregate_id.append(record.job_id.as_str());
    let mut event_type: String = "job.".to_owned();
    event_type.append(suffix);
    EventEnvelope { event_id, aggregate_id, event_type, actor: jobs::RUNTIME_ACTOR.to_owned() }
}

/// Addresses the event that records a paired evaluation.
pub fn arena_job_envelope(record: &ArenaJobRecord) -> (result: EventEnvelope)
    ensures
        ({
            let suffix = arena_jobs::arena_event(record.state, record.phase);
            &&& result.event_id@ == "arena-job:"@ + record.evaluation_id@ + ":"@ + suffix@
            &&& result.aggregate_id@ == "arena-job:"@ + record.evaluation_id@
            &&& result.event_type@ == "arena.job."@ + suffix@
            &&& result.actor@ == jobs::RUNTIME_ACTOR@
        }),
{
    let suffix: &'static str = arena_jobs::arena_event_suffix(record.state, record.phase);
    let mut event_id: String = ids::wrap("arena-job:", record.evaluation_id.as_str(), ":");
    event_id.append(suffix);
    let mut aggregate_id: String = "arena-job:".to_owned();
    aggregate_id.append(record.evaluation_id.as_str());
    let mut event_type: String = "arena.job.".to_owned();
    event_type.append(suffix);
    EventEnvelope { event_id, aggregate_id, event_type, actor: jobs::RUNTIME_ACTOR.to_owned() }
}

/// An event under its job's envelope crosses no boundary on replay.
pub proof fn enveloped_jobs_replay(event: StoredEvent, record: JobRecord)
    requires
        event.event_id@ == "job:"@ + record.job_id@ + ":"@ + jobs::job_event(record.state)@,
        event.aggregate_id@ == "job:"@ + record.job_id@,
        event.event_type@ == "job."@ + jobs::job_event(record.state)@,
        event.actor@ == jobs::RUNTIME_ACTOR@,
    ensures
        jobs::job_boundary(event, record),
{
    reveal_strlit("job.");
    let suffix = jobs::job_event(record.state)@;
    assert(event.event_type@.take("job."@.len() as int) =~= "job."@);
    assert(event.event_type@.skip("job."@.len() as int) =~= suffix);
}

} // verus!
