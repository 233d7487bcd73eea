//! Projection of the canonical ledger.

use crate::arena_jobs;
use crate::arena_jobs::ArenaAddresses;
use crate::commands;
use crate::error;
use crate::error::{projection, ControlError, Fault};
use crate::jobs;
use crate::jobs::JobAddresses;
use crate::json;
use crate::ordered;
use crate::ordered::OrderedMap;
use crate::protocol::{
    ChampionTransitionPayload, DriftRecordPayload, ForgeAssessmentPayload, ForgeProposalPayload,
    GeneExtractedPayload, GeneTransferRecordedPayload, JobRecord, JobState,
};
use crate::records::{
    ArenaJobRecord, RecordedCommand, RemoteJobRecord, RunResultReceipt, StoredEvent, TraceKind,
    TraceReceipt, WorkerCredentialRecord,
};
use crate::registry::Registry;
use crate::text;
use vstd::prelude::*;
use vstd::string::*;

verus! {

/// Aggregate of every operator command.
pub const CONTROL_AGGREGATE: &'static str = "hephaestus-control";

/// Who records operator commands.
pub const OPERATOR_ACTOR: &'static str = "local-operator";

/// Who records traces.
pub const EXPERIENCE_ACTOR: &'static str = "experience-plane";

/// Which content addresses of a trace receipt are well formed.
pub struct TraceAddresses {
    /// The address in the Genome identity.
    pub genome: bool,
    /// The address in the World identity.
    pub world: bool,
    /// The trace itself.
    pub artifact: bool,
}

/// The evaluation that a receipt measures and the World that governs it.
#[derive(Debug, PartialEq, Eq)]
pub struct EvaluationReference {
    /// Evaluation identity.
    pub evaluation_id: String,
    /// World identity.
    pub world_id: String,
}

/// An event payload after decoding.
pub enum EventPayload {
    /// A recorded operator command.
    Command(RecordedCommand),
    /// The run that an event names.
    Run(String),
    /// A trace receipt.
    Trace(TraceReceipt, TraceAddresses),
    /// A run result whose signature was verified.
    RunResult(RunResultReceipt),
    /// A job record.
    Job(JobRecord, JobAddresses),
    /// A paired evaluation with its canonical bytes.
    ArenaJob(ArenaJobRecord, ArenaAddresses, Vec<u8>),
    /// A minted worker credential.
    Credential(WorkerCredentialRecord),
    /// An admitted remote-worker job.
    RemoteJob(RemoteJobRecord),
    /// What a selection or an invariant check refers to.
    Reference(EvaluationReference),
    /// A Forge proposal with its canonical bytes.
    ForgeProposal(ForgeProposalPayload, Vec<u8>),
    /// A Forge assessment with its canonical bytes.
    ForgeAssessment(ForgeAssessmentPayload, Vec<u8>),
    /// A Champion transition.
    ChampionTransition(ChampionTransitionPayload),
    /// An extracted Gene.
    GeneExtracted(GeneExtractedPayload),
    /// A measured Gene transfer.
    GeneTransferRecorded(GeneTransferRecordedPayload),
    /// A recorded drift.
    Drift(DriftRecordPayload),
    /// The drift whose adaptation finished.
    AdaptationFinished(String),
    /// A payload that was not decoded, or did not decode.
    Opaque,
}

/// Trace progress of one job.
#[derive(Clone, Copy, Debug, PartialEq, Eq, Structural)]
pub struct TraceProgress {
    /// How many traces are recorded.
    pub trace_events: u64,
    /// Sequence of the latest trace.
    pub last_event_sequence: Option<u64>,
    /// What the latest trace reports.
    pub last_kind: Option<TraceKind>,
}

/// Progress before any trace.
pub open spec fn no_progress() -> TraceProgress {
    TraceProgress { trace_events: 0, last_event_sequence: None, last_kind: None }
}

/// The projection as mathematical values.
#[verifier::ext_equal]
pub struct Projected {
    /// Whether evolution is frozen.
    pub frozen: bool,
    /// Runs that are active.
    pub active_runs: Set<Seq<char>>,
    /// Jobs by identity.
    pub jobs: Map<Seq<char>, JobRecord>,
    /// Paired evaluations by identity.
    pub arena_jobs: Map<Seq<char>, ArenaJobRecord>,
    /// Trace progress by job identity.
    pub job_progress: Map<Seq<char>, TraceProgress>,
    /// Sequence of each evaluation receipt by evaluation identity.
    pub evaluation_events: Map<Seq<char>, u64>,
    /// Signed results by run identity.
    pub run_results: Map<Seq<char>, RunResultReceipt>,
    /// Runs with a completed lifecycle.
    pub completed_runs: Set<Seq<char>>,
    /// Worker credentials by identity.
    pub worker_credentials: Map<Seq<char>, WorkerCredentialRecord>,
    /// Remote-worker jobs by identity.
    pub remote_jobs: Map<Seq<char>, RemoteJobRecord>,
    /// Sequence of the latest applied event.
    pub event_count: u64,
}

/// The projection before any event: frozen and empty.
pub open spec fn genesis() -> Projected {
    Projected {
        frozen: true,
        active_runs: Set::empty(),
        jobs: Map::empty(),
        arena_jobs: Map::empty(),
        job_progress: Map::empty(),
        evaluation_events: Map::empty(),
        run_results: Map::empty(),
        completed_runs: Set::empty(),
        worker_credentials: Map::empty(),
        remote_jobs: Map::empty(),
        event_count: 0,
    }
}

/// The first rule that an operator event breaks.
pub open spec fn control_fault(event: StoredEvent, payload: EventPayload) -> Option<Fault> {
    if !text::begins_with(event.event_type@, "control."@) {
        None
    } else if event.aggregate_id@ != CONTROL_AGGREGATE@ || event.actor@ != OPERATOR_ACTOR@ {
        Some(Fault::Projection("control event crossed the operator boundary"@))
    } else {
        match payload {
            EventPayload::Command(recorded) => if event.event_type@ == "control.request_rejected"@ {
                None
            } else {
                error::first(
                    jobs::text_fault(recorded.request_id@, "request_id"@),
                    error::need(
                        commands::audit_type(recorded.command)@ == event.event_type@,
                        Fault::Projection("control event type does not match its command"@),
                    ),
                )
            },
            _ => Some(Fault::Serialization),
        }
    }
}

/// The first rule that a trace event breaks.
pub open spec fn trace_fault(event: StoredEvent, receipt: TraceReceipt, addresses: TraceAddresses) -> Option<
    Fault,
> {
    error::first(
        jobs::text_fault(receipt.run_id@, "run_id"@),
        error::first(
            jobs::content_fault(receipt.genome_id@, "genome"@, addresses.genome),
            error::first(
                jobs::content_fault(receipt.world_id@, "world"@, addresses.world),
                error::first(
                    error::need(addresses.artifact, Fault::Artifact),
                    error::need(
                        {
                            &&& event.actor@ == EXPERIENCE_ACTOR@
                            &&& event.event_id@ == receipt.event_id@
                            &&& event.aggregate_id@ == "run:"@ + receipt.run_id@
                        },
                        Fault::Projection("trace receipt crossed its provenance boundary"@),
                    ),
                ),
            ),
        ),
    )
}

/// The jobs that run as `run_id`.
pub open spec fn has_run(run_id: Seq<char>) -> spec_fn(JobRecord) -> bool {
    |job: JobRecord| job.run_id@ == run_id
}

/// The paired evaluations that `run_id` is a trial of.
pub open spec fn has_trial(run_id: Seq<char>) -> spec_fn(ArenaJobRecord) -> bool {
    |job: ArenaJobRecord| arena_jobs::trial_place(job, run_id) is Some
}

/// The job whose run a trace belongs to.
pub open spec fn owner_of(jobs: Map<Seq<char>, JobRecord>, run_id: Seq<char>) -> Option<Seq<char>> {
    ordered::least_where(jobs, has_run(run_id))
}

/// The progress of a job, none where it has none yet.
pub open spec fn progress_of(progress: Map<Seq<char>, TraceProgress>, job_id: Seq<char>) -> TraceProgress {
    if progress.contains_key(job_id) {
        progress[job_id]
    } else {
        no_progress()
    }
}

/// The projection after a recorded trace.
pub open spec fn after_trace(
    before: Projected,
    event: StoredEvent,
    receipt: TraceReceipt,
    addresses: TraceAddresses,
) -> Result<Projected, Fault> {
    let run_id = receipt.run_id@;
    let owner = owner_of(before.jobs, run_id);
    let fault = error::first(
        trace_fault(event, receipt, addresses),
        error::need(
            owner is Some ==> progress_of(before.job_progress, owner->0).trace_events < u64::MAX,
            Fault::Projection("job trace count overflow"@),
        ),
    );
    match fault {
        Some(fault) => Err(fault),
        None => Ok(
            Projected {
                job_progress: match owner {
                    None => before.job_progress,
                    Some(job_id) => before.job_progress.insert(
                        job_id,
                        TraceProgress {
                            trace_events: (progress_of(before.job_progress, job_id).trace_events
                                + 1) as u64,
                            last_event_sequence: Some(event.sequence),
                            last_kind: Some(receipt.kind),
                        },
                    ),
                },
                active_runs: match receipt.kind {
                    TraceKind::LifecycleStarted | TraceKind::LifecycleResumed => before.active_runs.insert(
                        run_id,
                    ),
                    TraceKind::LifecycleCompleted => before.active_runs.remove(run_id),
                    _ => before.active_runs,
                },
                completed_runs: if receipt.kind == TraceKind::LifecycleCompleted {
                    before.completed_runs.insert(run_id)
                } else {
                    before.completed_runs
                },
                ..before
            },
        ),
    }
}

/// The paired evaluation that a run is a trial of.
pub open spec fn trial_owner(
    arena_jobs: Map<Seq<char>, ArenaJobRecord>,
    run_id: Seq<char>,
) -> Option<Seq<char>> {
    ordered::least_where(arena_jobs, has_trial(run_id))
}

/// The projection after a signed run result.
pub open spec fn after_result(before: Projected, receipt: RunResultReceipt) -> Result<Projected, Fault> {
    let owner = trial_owner(before.arena_jobs, receipt.run_id@);
    let job = before.arena_jobs[owner->0];
    let fault = if owner is Some {
        arena_jobs::trial_fault(job, arena_jobs::trial_place(job, receipt.run_id@)->0, receipt)
    } else {
        None
    };
    match fault {
        Some(fault) => Err(fault),
        None => Ok(
            Projected {
                arena_jobs: if owner is Some {
                    before.arena_jobs.insert(owner->0, arena_jobs::with_trial(job))
                } else {
                    before.arena_jobs
                },
                run_results: before.run_results.insert(receipt.run_id@, receipt),
                ..before
            },
        ),
    }
}

/// The projection after a recorded job.
pub open spec fn after_job(
    before: Projected,
    registry: Registry,
    event: StoredEvent,
    record: JobRecord,
    addresses: JobAddresses,
) -> Result<Projected, Fault> {
    let result = ordered::bound(before.run_results, record.run_id@);
    let completed = before.completed_runs.contains(record.run_id@);
    let fault = error::first(
        jobs::job_fault(event, record, addresses, registry, result, completed),
        error::need(
            jobs::job_transition(
                event.event_type@,
                ordered::bound(before.jobs, record.job_id@),
                record,
                result,
                completed,
            ),
            Fault::Projection("job lifecycle transition is invalid"@),
        ),
    );
    match fault {
        Some(fault) => Err(fault),
        None => Ok(with_job(before, record)),
    }
}

/// The projection with a job record in it.
pub open spec fn with_job(before: Projected, record: JobRecord) -> Projected {
    Projected {
        active_runs: match record.state {
            JobState::Running => before.active_runs.insert(record.run_id@),
            JobState::Succeeded | JobState::Failed | JobState::Interrupted => before.active_runs.remove(
                record.run_id@,
            ),
            _ => before.active_runs,
        },
        job_progress: if record.state == JobState::Admitted {
            before.job_progress.insert(record.job_id@, no_progress())
        } else {
            before.job_progress
        },
        jobs: before.jobs.insert(record.job_id@, record),
        ..before
    }
}

/// The projection after a recorded paired evaluation.
pub open spec fn after_arena_job(
    before: Projected,
    registry: Registry,
    event: StoredEvent,
    record: ArenaJobRecord,
    addresses: ArenaAddresses,
    canonical: Seq<u8>,
) -> Result<Projected, Fault> {
    let fault = error::first(
        arena_jobs::arena_fault(event, record, addresses, canonical),
        error::first(
            arena_jobs::arena_registration_fault(registry, record),
            error::need(
                arena_jobs::arena_transition(
                    event.event_type@,
                    ordered::bound(before.arena_jobs, record.evaluation_id@),
                    record,
                    before.evaluation_events.contains_key(record.evaluation_id@),
                ),
                Fault::Projection("Arena job lifecycle transition is invalid"@),
            ),
        ),
    );
    match fault {
        Some(fault) => Err(fault),
        None => Ok(
            Projected {
                arena_jobs: before.arena_jobs.insert(record.evaluation_id@, record),
                ..before
            },
        ),
    }
}

/// The projection after a recorded evaluation receipt.
pub open spec fn after_evaluation(before: Projected, event: StoredEvent) -> Result<Projected, Fault> {
    after_named_evaluation(
        before,
        json::json_text(event.payload@, "evaluation_id"@),
        event.sequence,
    )
}

/// The projection after the receipt of an evaluation that goes by a name: nothing where the
/// payload does not parse; within that, nothing where it names none.
pub open spec fn after_named_evaluation(
    before: Projected,
    named: Option<Option<Seq<char>>>,
    sequence: u64,
) -> Result<Projected, Fault> {
    match named {
        None => Err(Fault::Serialization),
        Some(None) => Err(Fault::Projection("Arena receipt identity is invalid"@)),
        Some(Some(evaluation_id)) => if before.evaluation_events.contains_key(evaluation_id) {
            Err(Fault::Projection("duplicate Arena receipt identity"@))
        } else {
            Ok(with_evaluation(before, evaluation_id, sequence))
        },
    }
}

/// The projection with an evaluation receipt in it.
pub open spec fn with_evaluation(before: Projected, evaluation_id: Seq<char>, sequence: u64) -> Projected {
    Projected {
        evaluation_events: before.evaluation_events.insert(evaluation_id, sequence),
        ..before
    }
}

/// The projection after a minted credential.
pub open spec fn after_mint(before: Projected, record: WorkerCredentialRecord) -> Result<Projected, Fault> {
    let fault = error::first(
        jobs::text_fault(record.credential_id@, "credential_id"@),
        error::first(
            jobs::text_fault(record.worker_id@, "worker_id"@),
            error::need(
                !record.revoked && !before.worker_credentials.contains_key(record.credential_id@),
                Fault::Projection("worker credential mint is invalid"@),
            ),
        ),
    );
    match fault {
        Some(fault) => Err(fault),
        None => Ok(
            Projected {
                worker_credentials: before.worker_credentials.insert(record.credential_id@, record),
                ..before
            },
        ),
    }
}

/// The projection after a revoked credential.
pub open spec fn after_revocation(before: Projected, event: StoredEvent) -> Result<Projected, Fault> {
    after_named_revocation(before, json::json_text(event.payload@, "credential_id"@))
}

/// The projection after a revocation of the credential that goes by a name: nothing where the
/// payload does not parse; within that, nothing where it names none.
pub open spec fn after_named_revocation(before: Projected, named: Option<Option<Seq<char>>>) -> Result<
    Projected,
    Fault,
> {
    match named {
        None => Err(Fault::Serialization),
        Some(None) => Err(Fault::Projection("worker credential revocation is invalid"@)),
        Some(Some(credential_id)) => if before.worker_credentials.contains_key(credential_id) {
            Ok(
                Projected {
                    worker_credentials: before.worker_credentials.insert(
                        credential_id,
                        WorkerCredentialRecord {
                            revoked: true,
                            ..before.worker_credentials[credential_id]
                        },
                    ),
                    ..before
                },
            )
        } else {
            Err(Fault::Projection("worker credential revocation names an unknown credential"@))
        },
    }
}

/// The projection after an admitted remote-worker job.
pub open spec fn after_remote_job(before: Projected, record: RemoteJobRecord) -> Result<Projected, Fault> {
    let fault = error::first(
        jobs::text_fault(record.job_id@, "job_id"@),
        error::first(
            jobs::text_fault(record.run_id@, "run_id"@),
            error::need(
                !before.remote_jobs.contains_key(record.job_id@),
                Fault::Projection("remote job admission is a duplicate"@),
            ),
        ),
    );
    match fault {
        Some(fault) => Err(fault),
        None => Ok(
            Projected { remote_jobs: before.remote_jobs.insert(record.job_id@, record), ..before },
        ),
    }
}

/// Whether an event records a job.
pub open spec fn job_event_type(event_type: Seq<char>) -> bool {
    event_type == "job.admitted"@ || event_type == "job.running"@ || event_type
        == "job.cancellation_requested"@ || event_type == "job.terminal"@
}

/// Tells whether an event records a job.
pub fn is_job_event(event_type: &str) -> (result: bool)
    ensures
        result == job_event_type(event_type@),
{
    text::text_eq(event_type, "job.admitted") || text::text_eq(event_type, "job.running")
        || text::text_eq(event_type, "job.cancellation_requested") || text::text_eq(
        event_type,
        "job.terminal",
    )
}

/// Whether an event records a paired evaluation.
pub open spec fn arena_event_type(event_type: Seq<char>) -> bool {
    event_type == "arena.job.admitted"@ || event_type == "arena.job.running"@ || event_type
        == "arena.job.cancellation_requested"@ || event_type == "arena.job.scoring"@ || event_type
        == "arena.job.committing"@ || event_type == "arena.job.terminal"@
}

/// What an event does to the projection, its sequence number aside.
pub open spec fn effect(
    before: Projected,
    registry: Registry,
    event: StoredEvent,
    payload: EventPayload,
    operator_proof: bool,
) -> Result<Projected, Fault> {
    let kind = event.event_type@;
    if kind == "control.freeze"@ {
        Ok(Projected { frozen: true, ..before })
    } else if kind == "control.unfreeze"@ {
        if operator_proof {
            Ok(Projected { frozen: false, ..before })
        } else {
            Err(Fault::Projection("operator proof rejected"@))
        }
    } else if kind == "run.started"@ || kind == "run.completed"@ {
        match payload {
            EventPayload::Run(run_id) => match jobs::text_fault(run_id@, "run_id"@) {
                Some(fault) => Err(fault),
                None => Ok(
                    Projected {
                        active_runs: if kind == "run.started"@ {
                            before.active_runs.insert(run_id@)
                        } else {
                            before.active_runs.remove(run_id@)
                        },
                        ..before
                    },
                ),
            },
            _ => Err(Fault::Serialization),
        }
    } else if kind == "trace.recorded"@ {
        match payload {
            EventPayload::Trace(receipt, addresses) => after_trace(before, event, receipt, addresses),
            _ => Err(Fault::Serialization),
        }
    } else if kind == "run.result_recorded"@ {
        match payload {
            EventPayload::RunResult(receipt) => after_result(before, receipt),
            _ => Err(Fault::Projection("canonical run result is invalid"@)),
        }
    } else if job_event_type(kind) {
        match payload {
            EventPayload::Job(record, addresses) => after_job(
                before,
                registry,
                event,
                record,
                addresses,
            ),
            _ => Err(Fault::Serialization),
        }
    } else if arena_event_type(kind) {
        match payload {
            EventPayload::ArenaJob(record, addresses, canonical) => after_arena_job(
                before,
                registry,
                event,
                record,
                addresses,
                canonical@,
            ),
            _ => Err(Fault::Serialization),
        }
    } else if kind == "evaluation.recorded"@ {
        after_evaluation(before, event)
    } else if kind == "worker.credential_minted"@ {
        match payload {
            EventPayload::Credential(record) => after_mint(before, record),
            _ => Err(Fault::Serialization),
        }
    } else if kind == "worker.credential_revoked"@ {
        after_revocation(before, event)
    } else if kind == "remote_worker.job_admitted"@ {
        match payload {
            EventPayload::RemoteJob(record) => after_remote_job(before, record),
            _ => Err(Fault::Serialization),
        }
    } else {
        Ok(before)
    }
}

/// The projection after an event, or the fault for which the event is refused.
pub open spec fn step(
    before: Projected,
    registry: Registry,
    event: StoredEvent,
    payload: EventPayload,
    operator_proof: bool,
) -> Result<Projected, Fault> {
    match control_fault(event, payload) {
        Some(fault) => Err(fault),
        None => match effect(before, registry, event, payload, operator_proof) {
            Err(fault) => Err(fault),
            Ok(after) => Ok(Projected { event_count: event.sequence, ..after }),
        },
    }
}

/// What a refused event leaves behind. Only a second receipt for one evaluation leaves a
/// mark: the later sequence.
pub open spec fn refused_step(before: Projected, event: StoredEvent) -> Projected {
    if event.event_type@ == "evaluation.recorded"@ {
        match json::json_text(event.payload@, "evaluation_id"@) {
            Some(Some(evaluation_id)) => with_evaluation(before, evaluation_id, event.sequence),
            _ => before,
        }
    } else {
        before
    }
}

/// One event of the ledger with its decoded payload.
pub struct RecordedEvent {
    /// The event.
    pub event: StoredEvent,
    /// Its payload.
    pub payload: EventPayload,
}

/// The projection of a whole history, or the fault of its first refused event.
pub open spec fn replayed(registry: Registry, history: Seq<RecordedEvent>, operator_proof: bool) -> Result<
    Projected,
    Fault,
>
    decreases history.len(),
{
    if history.len() == 0 {
        Ok(genesis())
    } else {
        match replayed(registry, history.drop_last(), operator_proof) {
            Err(fault) => Err(fault),
            Ok(before) => step(
                before,
                registry,
                history.last().event,
                history.last().payload,
                operator_proof,
            ),
        }
    }
}

/// A refused event refuses every history that goes on from it.
pub proof fn refusal_is_final(registry: Registry, history: Seq<RecordedEvent>, length: int, operator_proof: bool)
    requires
        0 <= length <= history.len(),
        replayed(registry, history.take(length), operator_proof) is Err,
    ensures
        replayed(registry, history, operator_proof) == replayed(
            registry,
            history.take(length),
            operator_proof,
        ),
    decreases history.len() - length,
{
    if length == history.len() {
        assert(history.take(length) == history);
    } else {
        assert(history.take(length + 1).drop_last() == history.take(length));
        refusal_is_final(registry, history, length + 1, operator_proof);
    }
}

/// Projection of the canonical ledger over the registered Worlds and Genomes.
pub struct ControlState {
    /// Whether evolution is frozen.
    pub frozen: bool,
    /// Runs that are active.
    pub active_runs: OrderedMap<()>,
    /// Jobs by identity.
    pub jobs: OrderedMap<JobRecord>,
    /// Paired evaluations by identity.
    pub arena_jobs: OrderedMap<ArenaJobRecord>,
    /// Trace progress by job identity.
    pub job_progress: OrderedMap<TraceProgress>,
    /// Sequence of each evaluation receipt by evaluation identity.
    pub evaluation_events: OrderedMap<u64>,
    /// Signed results by run identity.
    pub run_results: OrderedMap<RunResultReceipt>,
    /// Runs with a completed lifecycle.
    pub completed_runs: OrderedMap<()>,
    /// Registered Worlds and Genomes.
    pub registered: Registry,
    /// Sequence of the latest applied event.
    pub event_count: u64,
    /// Worker credentials by identity.
    pub worker_credentials: OrderedMap<WorkerCredentialRecord>,
    /// Remote-worker jobs by identity.
    pub remote_jobs: OrderedMap<RemoteJobRecord>,
}

impl View for ControlState {
    type V = Projected;

    open spec fn view(&self) -> Projected {
        Projected {
            frozen: self.frozen,
            active_runs: self.active_runs@.dom(),
            jobs: self.jobs@,
            arena_jobs: self.arena_jobs@,
            job_progress: self.job_progress@,
            evaluation_events: self.evaluation_events@,
            run_results: self.run_results@,
            completed_runs: self.completed_runs@.dom(),
            worker_credentials: self.worker_credentials@,
            remote_jobs: self.remote_jobs@,
            event_count: self.event_count,
        }
    }
}

impl ControlState {
    /// Every map is well formed.
    pub open spec fn wf(self) -> bool {
        &&& self.active_runs.wf()
        &&& self.jobs.wf()
        &&& self.arena_jobs.wf()
        &&& self.job_progress.wf()
        &&& self.evaluation_events.wf()
        &&& self.run_results.wf()
        &&& self.completed_runs.wf()
        &&& self.registered.wf()
        &&& self.worker_credentials.wf()
        &&& self.remote_jobs.wf()
    }

    /// The state before any event.
    pub fn new(registered: Registry) -> (result: Self)
        requires
            registered.wf(),
        ensures
            result.wf(),
            result@ == genesis(),
            result.registered == registered,
    {
        let result = ControlState {
            frozen: true,
            active_runs: OrderedMap::new(),
            jobs: OrderedMap::new(),
            arena_jobs: OrderedMap::new(),
            job_progress: OrderedMap::new(),
            evaluation_events: OrderedMap::new(),
            run_results: OrderedMap::new(),
            completed_runs: OrderedMap::new(),
            registered,
            event_count: 0,
            worker_credentials: OrderedMap::new(),
            remote_jobs: OrderedMap::new(),
        };
        assert(result@ =~= genesis());
        result
    }

    /// Replays a verified history.
    pub fn from_events(history: Vec<RecordedEvent>, registered: Registry, operator_proof: bool) -> (result:
        Result<Self, ControlError>)
        requires
            registered.wf(),
        ensures
            match replayed(registered, history@, operator_proof) {
                Ok(after) => result matches Ok(state) && state.wf() && state@ == after
                    && state.registered == registered,
                Err(fault) => result matches Err(error) && error@ == fault,
            },
    {
        let mut state = ControlState::new(registered);
        let ghost whole = history@;
        assert(whole.take(0) == Seq::<RecordedEvent>::empty());
        for recorded in iter: history
            invariant
                iter.seq() == whole,
                state.wf(),
                state.registered == registered,
                replayed(registered, whole.take(iter.index()), operator_proof) == Ok::<Projected, Fault>(
                    state@,
                ),
        {
            let ghost at = iter.index();
            proof {
                assert(whole.take(at + 1).drop_last() == whole.take(at));
                assert(whole.take(at + 1).last() == recorded);
            }
            if let Err(fault) = state.apply(&recorded.event, recorded.payload, operator_proof) {
                proof {
                    refusal_is_final(registered, whole, at + 1, operator_proof);
                }
                return Err(fault);
            }
        }
        assert(whole.take(whole.len() as int) == whole);
        Ok(state)
    }

    /// The job whose run is `run_id`.
    fn job_of_run(&self, run_id: &str) -> (result: Option<String>)
        requires
            self.wf(),
        ensures
            json::held(result) == owner_of(self.jobs@, run_id@),
    {
        let ghost wanted = has_run(run_id@);
        let count: usize = self.jobs.len();
        for i in 0..count
            invariant
                self.wf(),
                count == self.jobs.keys().len(),
                wanted == has_run(run_id@),
                forall|j: int| 0 <= j < i ==> !wanted(#[trigger] self.jobs.values()[j]),
        {
            if text::text_eq(self.jobs.value_at(i).run_id.as_str(), run_id) {
                proof {
                    self.jobs.lemma_first_is_least(wanted, i as int);
                }
                return Some(self.jobs.key_at(i).clone());
            }
        }
        proof {
            self.jobs.lemma_none_is_least(wanted);
        }
        None
    }

    /// The paired evaluation that the run `run_id` is a trial of, and the trial's place.
    fn trial_of_run(&self, run_id: &str) -> (result: Option<(String, usize)>)
        requires
            self.wf(),
        ensures
            match result {
                Some((job_id, index)) => {
                    &&& trial_owner(self.arena_jobs@, run_id@) == Some(job_id@)
                    &&& self.arena_jobs@.contains_key(job_id@)
                    &&& arena_jobs::trial_place(self.arena_jobs@[job_id@], run_id@) == Some(index as int)
                },
                None => trial_owner(self.arena_jobs@, run_id@) is None,
            },
    {
        let ghost wanted = has_trial(run_id@);
        let count: usize = self.arena_jobs.len();
        for i in 0..count
            invariant
                self.wf(),
                count == self.arena_jobs.keys().len(),
                wanted == has_trial(run_id@),
                forall|j: int| 0 <= j < i ==> !wanted(#[trigger] self.arena_jobs.values()[j]),
        {
            if let Some(index) = arena_jobs::trial_index(self.arena_jobs.value_at(i), run_id) {
                proof {
                    self.arena_jobs.lemma_first_is_least(wanted, i as int);
                }
                return Some((self.arena_jobs.key_at(i).clone(), index));
            }
        }
        proof {
            self.arena_jobs.lemma_none_is_least(wanted);
        }
        None
    }

    /// Records one more trial of the paired evaluation that a signed result belongs to.
    pub fn advance_arena_trial(&mut self, receipt: &RunResultReceipt) -> (result: Result<(), ControlError>)
        requires
            old(self).wf(),
        ensures
            final(self).wf(),
            final(self).registered == old(self).registered,
            ({
                let owner = trial_owner(old(self)@.arena_jobs, receipt.run_id@);
                let job = old(self)@.arena_jobs[owner->0];
                let fault = if owner is Some {
                    arena_jobs::trial_fault(
                        job,
                        arena_jobs::trial_place(job, receipt.run_id@)->0,
                        *receipt,
                    )
                } else {
                    None
                };
                &&& error::verdict(result) == error::faulted(fault)
                &&& final(self)@ == (if owner is Some && fault is None {
                    Projected {
                        arena_jobs: old(self)@.arena_jobs.insert(
                            owner->0,
                            arena_jobs::with_trial(job),
                        ),
                        ..old(self)@
                    }
                } else {
                    old(self)@
                })
            }),
    {
        let (job_id, index): (String, usize) = match self.trial_of_run(receipt.run_id.as_str()) {
            Some(found) => found,
            None => {
                return Ok(());
            },
        };
        let ghost before = self@;
        match self.arena_jobs.get(job_id.as_str()) {
            Some(job) => {
                if let Err(fault) = arena_jobs::require_next_trial(job, index, receipt) {
                    return Err(fault);
                }
            },
            None => {},
        }
        if let Some(mut job) = self.arena_jobs.remove(job_id.as_str()) {
            job.completed_trials = job.completed_trials + 1;
            if job.completed_trials == job.parent_trial_count {
                job.phase = crate::protocol::ArenaJobPhase::CandidateTrials;
            }
            let ghost k = job_id@;
            self.arena_jobs.insert(job_id, job);
            assert(self.arena_jobs@ =~= before.arena_jobs.insert(
                k,
                arena_jobs::with_trial(before.arena_jobs[k]),
            ));
        }
        Ok(())
    }

    /// Applies a recorded trace.
    fn apply_trace(&mut self, event: &StoredEvent, receipt: &TraceReceipt, addresses: &TraceAddresses) -> (result:
        Result<(), ControlError>)
        requires
            old(self).wf(),
        ensures
            final(self).wf(),
            final(self).registered == old(self).registered,
            match after_trace(old(self)@, *event, *receipt, *addresses) {
                Ok(after) => result is Ok && final(self)@ == after,
                Err(fault) => error::verdict(result) == Err::<(), Fault>(fault) && final(self)@
                    == old(self)@,
            },
    {
        if let Err(fault) = validate_trace_receipt(event, receipt, addresses) {
            return Err(fault);
        }
        let ghost before = self@;
        if let Some(job_id) = self.job_of_run(receipt.run_id.as_str()) {
            let traces: u64 = match self.job_progress.get(job_id.as_str()) {
                Some(progress) => progress.trace_events,
                None => 0,
            };
            if traces == u64::MAX {
                return Err(projection("job trace count overflow"));
            }
            self.job_progress.insert(
                job_id,
                TraceProgress {
                    trace_events: traces + 1,
                    last_event_sequence: Some(event.sequence),
                    last_kind: Some(receipt.kind),
                },
            );
        }
        match receipt.kind {
            TraceKind::LifecycleStarted | TraceKind::LifecycleResumed => {
                self.active_runs.insert(receipt.run_id.clone(), ());
            },
            TraceKind::LifecycleCompleted => {
                let _ = self.active_runs.remove(receipt.run_id.as_str());
                self.completed_runs.insert(receipt.run_id.clone(), ());
            },
            _ => {},
        }
        assert(self@ =~= after_trace(before, *event, *receipt, *addresses)->Ok_0);
        Ok(())
    }

    /// Applies a recorded evaluation receipt.
    fn apply_evaluation(&mut self, event: &StoredEvent) -> (result: Result<(), ControlError>)
        requires
            old(self).wf(),
        ensures
            final(self).wf(),
            final(self).registered == old(self).registered,
            match after_evaluation(old(self)@, *event) {
                Ok(after) => result is Ok && final(self)@ == after,
                Err(fault) => error::verdict(result) == Err::<(), Fault>(fault) && final(self)@
                    == (match json::json_text(event.payload@, "evaluation_id"@) {
                    Some(Some(evaluation_id)) => with_evaluation(
                        old(self)@,
                        evaluation_id,
                        event.sequence,
                    ),
                    _ => old(self)@,
                }),
            },
    {
        let named: Option<Option<String>> = json::text_field(
            event.payload.as_slice(),
            "evaluation_id",
        );
        self.apply_named_evaluation(named, event.sequence)
    }

    /// Applies the receipt of the evaluation that its payload names, if it does.
    pub fn apply_named_evaluation(&mut self, named: Option<Option<String>>, sequence: u64) -> (result: Result<
        (),
        ControlError,
    >)
        requires
            old(self).wf(),
        ensures
            final(self).wf(),
            final(self).registered == old(self).registered,
            match after_named_evaluation(old(self)@, json::read(named), sequence) {
                Ok(after) => result is Ok && final(self)@ == after,
                Err(fault) => error::verdict(result) == Err::<(), Fault>(fault) && final(self)@
                    == (match json::read(named) {
                    Some(Some(evaluation_id)) => with_evaluation(
                        old(self)@,
                        evaluation_id,
                        sequence,
                    ),
                    _ => old(self)@,
                }),
            },
    {
        let ghost before = self@;
        let evaluation_id: String = match named {
            None => {
                return Err(ControlError::Serialization);
            },
            Some(None) => {
                return Err(projection("Arena receipt identity is invalid"));
            },
            Some(Some(evaluation_id)) => evaluation_id,
        };
        let duplicate: bool = self.evaluation_events.contains_key(evaluation_id.as_str());
        let ghost key = evaluation_id@;
        self.evaluation_events.insert(evaluation_id, sequence);
        assert(self@ =~= with_evaluation(before, key, sequence));
        if duplicate {
            return Err(projection("duplicate Arena receipt identity"));
        }
        Ok(())
    }

    /// Applies a minted credential.
    fn apply_mint(&mut self, record: WorkerCredentialRecord) -> (result: Result<(), ControlError>)
        requires
            old(self).wf(),
        ensures
            final(self).wf(),
            final(self).registered == old(self).registered,
            match after_mint(old(self)@, record) {
                Ok(after) => result is Ok && final(self)@ == after,
                Err(fault) => error::verdict(result) == Err::<(), Fault>(fault) && final(self)@
                    == old(self)@,
            },
    {
        if let Err(fault) = jobs::require_projection_text(
            record.credential_id.as_str(),
            "credential_id",
        ) {
            return Err(fault);
        }
        if let Err(fault) = jobs::require_projection_text(record.worker_id.as_str(), "worker_id") {
            return Err(fault);
        }
        if record.revoked || self.worker_credentials.contains_key(record.credential_id.as_str()) {
            return Err(projection("worker credential mint is invalid"));
        }
        let key: String = record.credential_id.clone();
        self.worker_credentials.insert(key, record);
        Ok(())
    }

    /// Applies a revoked credential.
    fn apply_revocation(&mut self, event: &StoredEvent) -> (result: Result<(), ControlError>)
        requires
            old(self).wf(),
        ensures
            final(self).wf(),
            final(self).registered == old(self).registered,
            match after_revocation(old(self)@, *event) {
                Ok(after) => result is Ok && final(self)@ == after,
                Err(fault) => error::verdict(result) == Err::<(), Fault>(fault) && final(self)@
                    == old(self)@,
            },
    {
        let named: Option<Option<String>> = json::text_field(
            event.payload.as_slice(),
            "credential_id",
        );
        self.apply_named_revocation(named)
    }

    /// Applies a revocation of the credential that its payload names, if it does.
    pub fn apply_named_revocation(&mut self, named: Option<Option<String>>) -> (result: Result<
        (),
        ControlError,
    >)
        requires
            old(self).wf(),
        ensures
            final(self).wf(),
            final(self).registered == old(self).registered,
            match after_named_revocation(old(self)@, json::read(named)) {
                Ok(after) => result is Ok && final(self)@ == after,
                Err(fault) => error::verdict(result) == Err::<(), Fault>(fault) && final(self)@
                    == old(self)@,
            },
    {
        let ghost before = self@;
        let credential_id: String = match named {
            None => {
                return Err(ControlError::Serialization);
            },
            Some(None) => {
                return Err(projection("worker credential revocation is invalid"));
            },
            Some(Some(credential_id)) => credential_id,
        };
        match self.worker_credentials.remove(credential_id.as_str()) {
            None => {
                assert(self@ =~= before);
                Err(projection("worker credential revocation names an unknown credential"))
            },
            Some(mut record) => {
                record.revoked = true;
                let ghost key = credential_id@;
                self.worker_credentials.insert(credential_id, record);
                assert(self.worker_credentials@ =~= before.worker_credentials.insert(key, record));
                Ok(())
            },
        }
    }

    /// Applies an admitted remote-worker job.
    fn apply_remote_job(&mut self, record: RemoteJobRecord) -> (result: Result<(), ControlError>)
        requires
            old(self).wf(),
        ensures
            final(self).wf(),
            final(self).registered == old(self).registered,
            match after_remote_job(old(self)@, record) {
                Ok(after) => result is Ok && final(self)@ == after,
                Err(fault) => error::verdict(result) == Err::<(), Fault>(fault) && final(self)@
                    == old(self)@,
            },
    {
        if let Err(fault) = jobs::require_projection_text(record.job_id.as_str(), "job_id") {
            return Err(fault);
        }
        if let Err(fault) = jobs::require_projection_text(record.run_id.as_str(), "run_id") {
            return Err(fault);
        }
        if self.remote_jobs.contains_key(record.job_id.as_str()) {
            return Err(projection("remote job admission is a duplicate"));
        }
        let key: String = record.job_id.clone();
        self.remote_jobs.insert(key, record);
        Ok(())
    }

    /// Does to the projection what one event says, its sequence number aside.
    fn perform(&mut self, event: &StoredEvent, payload: EventPayload, operator_proof: bool) -> (result:
        Result<(), ControlError>)
        requires
            old(self).wf(),
        ensures
            final(self).wf(),
            final(self).registered == old(self).registered,
            match effect(old(self)@, old(self).registered, *event, payload, operator_proof) {
                Ok(after) => result is Ok && final(self)@ == after,
                Err(fault) => error::verdict(result) == Err::<(), Fault>(fault) && final(self)@
                    == refused_step(old(self)@, *event),
            },
    {
        let kind: &str = event.event_type.as_str();
        let ghost before = self@;
        proof {
            literals_differ();
        }
        if text::text_eq(kind, "control.freeze") {
            self.frozen = true;
            return Ok(());
        }
        if text::text_eq(kind, "control.unfreeze") {
            if !operator_proof {
                return Err(projection("operator proof rejected"));
            }
            self.frozen = false;
            return Ok(());
        }
        if text::text_eq(kind, "run.started") {
            return match payload {
                EventPayload::Run(run_id) => {
                    if let Err(fault) = jobs::require_projection_text(run_id.as_str(), "run_id") {
                        return Err(fault);
                    }
                    let ghost key = run_id@;
                    self.active_runs.insert(run_id, ());
                    assert(self@.active_runs =~= before.active_runs.insert(key));
                    Ok(())
                },
                _ => Err(ControlError::Serialization),
            };
        }
        if text::text_eq(kind, "run.completed") {
            return match payload {
                EventPayload::Run(run_id) => {
                    if let Err(fault) = jobs::require_projection_text(run_id.as_str(), "run_id") {
                        return Err(fault);
                    }
                    let _ = self.active_runs.remove(run_id.as_str());
                    assert(self@.active_runs =~= before.active_runs.remove(run_id@));
                    Ok(())
                },
                _ => Err(ControlError::Serialization),
            };
        }
        if text::text_eq(kind, "trace.recorded") {
            return match payload {
                EventPayload::Trace(receipt, addresses) => self.apply_trace(
                    event,
                    &receipt,
                    &addresses,
                ),
                _ => Err(ControlError::Serialization),
            };
        }
        if text::text_eq(kind, "run.result_recorded") {
            return match payload {
                EventPayload::RunResult(receipt) => {
                    if let Err(fault) = self.advance_arena_trial(&receipt) {
                        return Err(fault);
                    }
                    let key: String = receipt.run_id.clone();
                    self.run_results.insert(key, receipt);
                    Ok(())
                },
                _ => Err(projection("canonical run result is invalid")),
            };
        }
        if text::text_eq(kind, "job.admitted") || text::text_eq(kind, "job.running") || text::text_eq(
            kind,
            "job.cancellation_requested",
        ) || text::text_eq(kind, "job.terminal") {
            return match payload {
                EventPayload::Job(record, addresses) => self.apply_job_record(
                    event,
                    record,
                    &addresses,
                ),
                _ => Err(ControlError::Serialization),
            };
        }
        if text::text_eq(kind, "arena.job.admitted") || text::text_eq(kind, "arena.job.running")
            || text::text_eq(kind, "arena.job.cancellation_requested") || text::text_eq(
            kind,
            "arena.job.scoring",
        ) || text::text_eq(kind, "arena.job.committing") || text::text_eq(kind, "arena.job.terminal") {
            return match payload {
                EventPayload::ArenaJob(record, addresses, canonical) => self.apply_arena_job_record(
                    event,
                    record,
                    &addresses,
                    &canonical,
                ),
                _ => Err(ControlError::Serialization),
            };
        }
        if text::text_eq(kind, "evaluation.recorded") {
            return self.apply_evaluation(event);
        }
        if text::text_eq(kind, "worker.credential_minted") {
            return match payload {
                EventPayload::Credential(record) => self.apply_mint(record),
                _ => Err(ControlError::Serialization),
            };
        }
        if text::text_eq(kind, "worker.credential_revoked") {
            return self.apply_revocation(event);
        }
        if text::text_eq(kind, "remote_worker.job_admitted") {
            return match payload {
                EventPayload::RemoteJob(record) => self.apply_remote_job(record),
                _ => Err(ControlError::Serialization),
            };
        }
        Ok(())
    }

    /// Applies one event of the ledger. `operator_proof` says whether the freeze accepts
    /// the operator's proof.
    pub fn apply(&mut self, event: &StoredEvent, payload: EventPayload, operator_proof: bool) -> (result:
        Result<(), ControlError>)
        requires
            old(self).wf(),
        ensures
            final(self).wf(),
            final(self).registered == old(self).registered,
            match step(old(self)@, old(self).registered, *event, payload, operator_proof) {
                Ok(after) => result is Ok && final(self)@ == after,
                Err(fault) => error::verdict(result) == Err::<(), Fault>(fault) && final(self)@ == (
                if control_fault(*event, payload) is Some {
                    old(self)@
                } else {
                    refused_step(old(self)@, *event)
                }),
            },
    {
        if let Err(fault) = require_control_event(event, &payload) {
            return Err(fault);
        }
        if let Err(fault) = self.perform(event, payload, operator_proof) {
            return Err(fault);
        }
        self.event_count = event.sequence;
        Ok(())
    }

    /// Puts a validated job record into the projection.
    pub fn commit_job_record(&mut self, record: JobRecord)
        requires
            old(self).wf(),
        ensures
            final(self).wf(),
            final(self).registered == old(self).registered,
            final(self)@ == with_job(old(self)@, record),
    {
        let ghost before = self@;
        match record.state {
            JobState::Running => {
                self.active_runs.insert(record.run_id.clone(), ());
            },
            JobState::Admitted => {
                self.job_progress.insert(
                    record.job_id.clone(),
                    TraceProgress { trace_events: 0, last_event_sequence: None, last_kind: None },
                );
            },
            JobState::Succeeded | JobState::Failed | JobState::Interrupted => {
                let _ = self.active_runs.remove(record.run_id.as_str());
            },
            JobState::CancellationRequested => {},
        }
        let key: String = record.job_id.clone();
        self.jobs.insert(key, record);
        assert(self@ =~= with_job(before, record));
    }

    /// Applies a recorded job.
    pub fn apply_job_record(
        &mut self,
        event: &StoredEvent,
        record: JobRecord,
        addresses: &JobAddresses,
    ) -> (result: Result<(), ControlError>)
        requires
            old(self).wf(),
        ensures
            final(self).wf(),
            final(self).registered == old(self).registered,
            match after_job(old(self)@, old(self).registered, *event, record, *addresses) {
                Ok(after) => result is Ok && final(self)@ == after,
                Err(fault) => error::verdict(result) == Err::<(), Fault>(fault) && final(self)@
                    == old(self)@,
            },
    {
        let result: Option<&RunResultReceipt> = self.run_results.get(record.run_id.as_str());
        let completed: bool = self.completed_runs.contains_key(record.run_id.as_str());
        if let Err(fault) = jobs::validate_job_record(
            event,
            &record,
            addresses,
            &self.registered,
            result,
            completed,
        ) {
            return Err(fault);
        }
        let valid: bool = jobs::job_transition_is_valid(
            event.event_type.as_str(),
            self.jobs.get(record.job_id.as_str()),
            &record,
            result,
            completed,
        );
        if !valid {
            return Err(projection("job lifecycle transition is invalid"));
        }
        self.commit_job_record(record);
        Ok(())
    }

    /// Applies a recorded paired evaluation.
    pub fn apply_arena_job_record(
        &mut self,
        event: &StoredEvent,
        record: ArenaJobRecord,
        addresses: &ArenaAddresses,
        canonical: &Vec<u8>,
    ) -> (result: Result<(), ControlError>)
        requires
            old(self).wf(),
        ensures
            final(self).wf(),
            final(self).registered == old(self).registered,
            match after_arena_job(
                old(self)@,
                old(self).registered,
                *event,
                record,
                *addresses,
                canonical@,
            ) {
                Ok(after) => result is Ok && final(self)@ == after,
                Err(fault) => error::verdict(result) == Err::<(), Fault>(fault) && final(self)@
                    == old(self)@,
            },
    {
        if let Err(fault) = arena_jobs::validate_arena_job_record(event, &record, addresses, canonical) {
            return Err(fault);
        }
        if let Err(fault) = arena_jobs::require_arena_registration(&self.registered, &record) {
            return Err(fault);
        }
        let valid: bool = arena_jobs::arena_job_transition_is_valid(
            event.event_type.as_str(),
            self.arena_jobs.get(record.evaluation_id.as_str()),
            &record,
            self.evaluation_events.contains_key(record.evaluation_id.as_str()),
        );
        if !valid {
            return Err(projection("Arena job lifecycle transition is invalid"));
        }
        let key: String = record.evaluation_id.clone();
        self.arena_jobs.insert(key, record);
        Ok(())
    }
}

/// Accepts an operator event that was recorded by the operator under its own type.
fn require_control_event(event: &StoredEvent, payload: &EventPayload) -> (result: Result<
    (),
    ControlError,
>)
    ensures
        error::verdict(result) == error::faulted(control_fault(*event, *payload)),
{
    if !text::starts_with(event.event_type.as_str(), "control.") {
        return Ok(());
    }
    if !text::text_eq(event.aggregate_id.as_str(), CONTROL_AGGREGATE) || !text::text_eq(
        event.actor.as_str(),
        OPERATOR_ACTOR,
    ) {
        return Err(projection("control event crossed the operator boundary"));
    }
    match payload {
        EventPayload::Command(recorded) => {
            if text::text_eq(event.event_type.as_str(), "control.request_rejected") {
                return Ok(());
            }
            if let Err(fault) = jobs::require_projection_text(
                recorded.request_id.as_str(),
                "request_id",
            ) {
                return Err(fault);
            }
            if !text::text_eq(commands::event_type(&recorded.command), event.event_type.as_str()) {
                return Err(projection("control event type does not match its command"));
            }
            Ok(())
        },
        _ => Err(ControlError::Serialization),
    }
}

/// The event types that name what an event does are all different.
pub proof fn literals_differ()
    ensures
        "evaluation.recorded"@ != "control.freeze"@,
        "evaluation.recorded"@ != "control.unfreeze"@,
        "evaluation.recorded"@ != "run.started"@,
        "evaluation.recorded"@ != "run.completed"@,
        "evaluation.recorded"@ != "trace.recorded"@,
        "evaluation.recorded"@ != "run.result_recorded"@,
        "evaluation.recorded"@ != "worker.credential_minted"@,
        "evaluation.recorded"@ != "worker.credential_revoked"@,
        "evaluation.recorded"@ != "remote_worker.job_admitted"@,
        !job_event_type("evaluation.recorded"@),
        !arena_event_type("evaluation.recorded"@),
        "run.started"@ != "run.completed"@,
{
    reveal_strlit("evaluation.recorded");
    reveal_strlit("control.freeze");
    reveal_strlit("control.unfreeze");
    reveal_strlit("run.started");
    reveal_strlit("run.completed");
    reveal_strlit("trace.recorded");
    reveal_strlit("run.result_recorded");
    reveal_strlit("job.admitted");
    reveal_strlit("job.running");
    reveal_strlit("job.cancellation_requested");
    reveal_strlit("job.terminal");
    reveal_strlit("arena.job.admitted");
    reveal_strlit("arena.job.running");
    reveal_strlit("arena.job.cancellation_requested");
    reveal_strlit("arena.job.scoring");
    reveal_strlit("arena.job.committing");
    reveal_strlit("arena.job.terminal");
    reveal_strlit("worker.credential_minted");
    reveal_strlit("worker.credential_revoked");
    reveal_strlit("remote_worker.job_admitted");
    assert("evaluation.recorded"@[0] == 'e');
    assert("run.started"@[4] == 's');
    assert("run.completed"@[4] == 'c');
    assert("control.freeze"@[0] == 'c');
    assert("control.unfreeze"@[0] == 'c');
    assert("trace.recorded"@[0] == 't');
    assert("run.result_recorded"@[0] == 'r');
    assert("job.admitted"@[0] == 'j');
    assert("job.running"@[0] == 'j');
    assert("job.cancellation_requested"@[0] == 'j');
    assert("job.terminal"@[0] == 'j');
    assert("arena.job.admitted"@[0] == 'a');
    assert("arena.job.running"@[0] == 'a');
    assert("arena.job.cancellation_requested"@[0] == 'a');
    assert("arena.job.scoring"@[0] == 'a');
    assert("arena.job.committing"@[0] == 'a');
    assert("arena.job.terminal"@[0] == 'a');
    assert("worker.credential_minted"@[0] == 'w');
    assert("worker.credential_revoked"@[0] == 'w');
    assert("remote_worker.job_admitted"@[0] == 'r');
    assert("run.started"@[0] == 'r');
    assert("run.completed"@[0] == 'r');
}

/// Accepts a trace receipt whose event is the experience plane's own.
pub fn validate_trace_receipt(event: &StoredEvent, receipt: &TraceReceipt, addresses: &TraceAddresses) -> (result:
    Result<(), ControlError>)
    ensures
        error::verdict(result) == error::faulted(trace_fault(*event, *receipt, *addresses)),
{
    if let Err(fault) = jobs::require_projection_text(receipt.run_id.as_str(), "run_id") {
        return Err(fault);
    }
    if let Err(fault) = jobs::validate_content_id(
        receipt.genome_id.as_str(),
        "genome",
        addresses.genome,
    ) {
        return Err(fault);
    }
    if let Err(fault) = jobs::validate_content_id(receipt.world_id.as_str(), "world", addresses.world) {
        return Err(fault);
    }
    if !addresses.artifact {
        return Err(ControlError::Artifact);
    }
    let mut aggregate: String = "run:".to_owned();
    aggregate.append(receipt.run_id.as_str());
    if !text::text_eq(event.actor.as_str(), EXPERIENCE_ACTOR) || event.event_id != receipt.event_id
        || event.aggregate_id != aggregate {
        return Err(projection("trace receipt crossed its provenance boundary"));
    }
    Ok(())
}

} // verus!
