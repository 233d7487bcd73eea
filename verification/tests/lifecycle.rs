use hephaestus_control::admission::{
    admit_job, order_job, run_with_context, submit_arena_job, submit_job, Authority, JobAdmission,
    JobFacts, JobGround, PairAdmission, PairFacts, PairGround, PairRequest, PairTask, PromptReading,
    RunFacts, RunGround, RunStart, SpecReply,
};
use hephaestus_control::arena_driver::{end_evaluation, start_commit, start_scoring, ArenaEnd};
use hephaestus_control::arena_jobs::{check_plan_commitment, ArenaAddresses};
use hephaestus_control::arena_submit::{abandon_launch, start_trials};
use hephaestus_control::environment::Platform;
use hephaestus_control::error::{ControlError, ExecuteError};
use hephaestus_control::job_submit::{
    abandon_job, arena_job_envelope, job_envelope, job_status, kill_job, mark_job_cancelled,
    start_job, KillStep,
};
use hephaestus_control::jobs::JobAddresses;
use hephaestus_control::protocol::{
    ArenaJobPhase, Command, EvaluationEventRecord, EvaluationRecord, JobRecord, JobState,
    JobTerminal, ResponseData,
};
use hephaestus_control::records::{
    ArenaJobRecord, EventEnvelope, GenomeRecord, RecordedCommand, RunCompletionReason,
    RunResultReceipt, StoredEvent, TraceKind, TraceReceipt, WorldRecord,
};
use hephaestus_control::recovery::{
    complete_async_job, has_evaluation_receipt, receive_output, recover_job,
    end_recovered_pair, recover_pair, recover_unfinished_arena_jobs, recover_unfinished_jobs,
    service_job_message,
    unfinished_arena_jobs, unfinished_jobs, CompletionStep, JobMessage, JobStep,
};
use hephaestus_control::runs::RunContext;
use hephaestus_control::registry::{GenomeEntry, Registry, WorldEntry};
use hephaestus_control::state::{
    ControlState, EventPayload, RecordedEvent, TraceAddresses, CONTROL_AGGREGATE,
    EXPERIENCE_ACTOR, OPERATOR_ACTOR,
};

const REVISION: &str = "0123456789abcdef0123456789abcdef01234567";

fn text(value: &str) -> String {
    value.to_owned()
}

fn genome(id: &str, provider: &str, prompt: Option<&str>) -> GenomeEntry {
    GenomeEntry {
        record: GenomeRecord {
            genome_id: text(id),
            name: text("reference"),
            world_id: text("hephaestus:world:w"),
            artifact_id: text("artifact"),
            parent_ids: Vec::new(),
        },
        model_provider: text(provider),
        prompt_artifact_id: prompt.map(text),
        registration_sequence: 1,
        compiled_parents: Vec::new(),
        canonical_json: b"{}".to_vec(),
    }
}

fn registry() -> Registry {
    let mut registry = Registry::new("second".to_owned());
    registry.worlds.insert(
        text("hephaestus:world:w"),
        WorldEntry {
            record: WorldRecord {
                world_id: text("hephaestus:world:w"),
                name: text("w"),
                artifact_id: text("artifact"),
            },
            compiled_id: text("hephaestus:world:w"),
            visible_manifest: Some(text("visible")),
            sealed_manifest: Some(text("sealed")),
            evaluator: Some(text("evaluator")),
            allow_mixed_environments: false,
            maximum_cost_microusd: 500,
            harness_mutations: true,
            auto_canary_on_drift: false,
        },
    );
    registry.genomes.insert(text("hephaestus:genome:a"), genome("hephaestus:genome:a", "reference", Some("prompt-a")));
    registry.genomes.insert(text("hephaestus:genome:b"), genome("hephaestus:genome:b", "reference", Some("prompt-b")));
    registry.genomes.insert(text("hephaestus:genome:c"), genome("hephaestus:genome:c", "codex", None));
    registry.genomes.insert(text("hephaestus:genome:d"), genome("hephaestus:genome:d", "reference", None));
    registry
}

fn platform() -> Platform {
    Platform { version: text("0.1.0"), receipt_schema: 2, os: text("linux"), arch: text("x86_64") }
}

fn digest() -> String {
    "ab".repeat(32)
}

fn prompt() -> PromptReading {
    PromptReading { bytes: Some(b"do".to_vec()), operation: Some(text("ascii_uppercase")) }
}

fn job_facts() -> JobFacts {
    JobFacts {
        ground: JobGround {
            worker: Ok(digest()),
            prompt: prompt(),
            worker_intact: Ok(()),
            executable: Some("cd".repeat(32)),
            platform: platform(),
        },
        specification: SpecReply::Accepted { source_revision: text(REVISION) },
    }
}

fn pair_facts() -> PairFacts {
    PairFacts {
        ground: PairGround {
            parent_prompt: prompt(),
            candidate_prompt: prompt(),
            visible_tasks: Some(vec![PairTask { task_id: text("t1"), input: text("one") }]),
            sealed_tasks: Some(vec![PairTask { task_id: text("t2"), input: text("two") }]),
            requested_wall: None,
            evaluator_opens: true,
            worker: Ok(digest()),
            platform: platform(),
            parent_executable: None,
            candidate_executable: None,
            revision: Ok(text(REVISION)),
            timestamp_millis: Some(7),
        },
        specified: true,
    }
}

fn pair(evaluation_id: &str, parent: &str, candidate: &str) -> PairRequest {
    PairRequest {
        evaluation_id: text(evaluation_id),
        parent_genome_id: text(parent),
        candidate_genome_id: text(candidate),
        remote: false,
    }
}

fn stored(sequence: u64, envelope: EventEnvelope, payload: &[u8]) -> StoredEvent {
    StoredEvent {
        sequence,
        event_id: envelope.event_id,
        aggregate_id: envelope.aggregate_id,
        event_type: envelope.event_type,
        actor: envelope.actor,
        timestamp_millis: 7,
        payload: payload.to_vec(),
        hash: [sequence as u8; 32],
    }
}

fn event(sequence: u64, event_id: &str, aggregate_id: &str, event_type: &str, actor: &str) -> StoredEvent {
    let envelope = EventEnvelope {
        event_id: text(event_id),
        aggregate_id: text(aggregate_id),
        event_type: text(event_type),
        actor: text(actor),
    };
    stored(sequence, envelope, b"{}")
}

fn control(sequence: u64, command: Command, event_type: &str) -> RecordedEvent {
    RecordedEvent {
        event: event(
            sequence,
            &format!("control:{sequence}:r"),
            CONTROL_AGGREGATE,
            event_type,
            OPERATOR_ACTOR,
        ),
        payload: EventPayload::Command(RecordedCommand { request_id: text("r"), command }),
    }
}

fn unfrozen() -> ControlState {
    let events = vec![control(1, Command::Unfreeze, "control.unfreeze")];
    ControlState::from_events(events, registry(), true).expect("the history replays")
}

fn job_addresses() -> JobAddresses {
    JobAddresses { genome: true, world: true, environment: true }
}

fn arena_addresses() -> ArenaAddresses {
    ArenaAddresses {
        parent: true,
        candidate: true,
        world: true,
        visible_manifest: true,
        sealed_manifest: true,
        evaluator: true,
        environment: true,
        candidate_environment: true,
    }
}

fn record_job(state: &mut ControlState, record: &JobRecord) -> Result<(), ControlError> {
    let sequence = state.event_count + 1;
    let recorded = stored(sequence, job_envelope(record), b"{}");
    state.apply(&recorded, EventPayload::Job(record.clone(), job_addresses()), true)
}

fn record_arena(state: &mut ControlState, record: &ArenaJobRecord) -> Result<(), ControlError> {
    let sequence = state.event_count + 1;
    let recorded = stored(sequence, arena_job_envelope(record), b"{}");
    let payload = EventPayload::ArenaJob(record.clone(), arena_addresses(), b"{}".to_vec());
    state.apply(&recorded, payload, true)
}

fn trace(state: &mut ControlState, run_id: &str, genome_id: &str, kind: TraceKind) -> Result<(), ControlError> {
    let sequence = state.event_count + 1;
    let event_id = format!("trace:{run_id}:{sequence}");
    let recorded =
        event(sequence, &event_id, &format!("run:{run_id}"), "trace.recorded", EXPERIENCE_ACTOR);
    let receipt = TraceReceipt {
        event_id,
        kind,
        run_id: text(run_id),
        genome_id: text(genome_id),
        world_id: text("hephaestus:world:w"),
        artifact_id: text("artifact"),
    };
    let addresses = TraceAddresses { genome: true, world: true, artifact: true };
    state.apply(&recorded, EventPayload::Trace(receipt, addresses), true)
}

fn job_result(record: &JobRecord, completion_reason: RunCompletionReason) -> RunResultReceipt {
    RunResultReceipt {
        run_id: record.run_id.clone(),
        genome_id: record.genome_id.clone(),
        world_id: record.world_id.clone(),
        source_revision: record.source_revision.clone(),
        task_id: record.task_id.clone(),
        input_commitment: record.input_commitment.clone(),
        seed: record.seed,
        environment_id: record.environment_id.clone(),
        budget: record.budget,
        completion_reason,
        latency_millis: 3,
        actual_cost_microusd: 0,
        stdout_artifact_id: text("stdout"),
        stderr_artifact_id: text("stderr"),
        trace_artifact_ids: Vec::new(),
    }
}

fn trial_result(record: &ArenaJobRecord, index: usize, reason: RunCompletionReason) -> RunResultReceipt {
    let parent = (index as u32) < record.parent_trial_count;
    RunResultReceipt {
        run_id: record.ordered_trial_run_ids[index].clone(),
        genome_id: if parent {
            record.parent_genome_id.clone()
        } else {
            record.candidate_genome_id.clone()
        },
        world_id: record.world_id.clone(),
        source_revision: record.source_revision.clone(),
        task_id: text("t"),
        input_commitment: text("input"),
        seed: record.seed,
        environment_id: record.environment_id.clone(),
        budget: record.trial_budget,
        completion_reason: reason,
        latency_millis: 3,
        actual_cost_microusd: 0,
        stdout_artifact_id: text("stdout"),
        stderr_artifact_id: text("stderr"),
        trace_artifact_ids: Vec::new(),
    }
}

fn record_result(state: &mut ControlState, receipt: RunResultReceipt) -> Result<(), ControlError> {
    let sequence = state.event_count + 1;
    let recorded = event(
        sequence,
        &format!("result:{}", receipt.run_id),
        &format!("run:{}", receipt.run_id),
        "run.result_recorded",
        "daemon-runtime",
    );
    state.apply(&recorded, EventPayload::RunResult(receipt), true)
}

fn evaluation(record: &ArenaJobRecord, sequence: u64) -> EvaluationRecord {
    EvaluationRecord {
        evaluation_id: record.evaluation_id.clone(),
        world_id: record.world_id.clone(),
        parent_genome_id: record.parent_genome_id.clone(),
        candidate_genome_id: record.candidate_genome_id.clone(),
        parent_visible_correct: 0,
        candidate_visible_correct: 1,
        visible_total: 1,
        event: EvaluationEventRecord {
            sequence,
            event_id: format!("arena:evaluation:{}:recorded", record.evaluation_id),
            aggregate_id: format!("arena:evaluation:{}", record.evaluation_id),
            event_type: text("evaluation.recorded"),
            actor: text("arena-plane"),
            timestamp_millis: 7,
        },
    }
}

fn admitted_job(state: &ControlState, job_id: &str, genome_id: &str) -> JobRecord {
    match submit_job(state, false, job_id, genome_id, job_facts()) {
        Ok(JobAdmission::Fresh { record, .. }) => record,
        _ => panic!("the job is admitted"),
    }
}

fn admitted_pair(state: &ControlState, evaluation_id: &str) -> ArenaJobRecord {
    match submit_arena_job(state, false, pair(evaluation_id, "hephaestus:genome:a", "hephaestus:genome:b"), pair_facts()) {
        Ok(PairAdmission::Fresh { record, .. }) => record,
        _ => panic!("the pair is admitted"),
    }
}

fn refusal<T>(result: Result<T, ExecuteError>) -> ExecuteError {
    match result {
        Err(error) => error,
        Ok(_) => panic!("a refusal"),
    }
}

#[test]
fn a_job_runs_to_its_success() {
    let mut state = unfrozen();
    let mut record = admitted_job(&state, "job-1", "hephaestus:genome:a");
    let environment = record.environment_id.clone();
    assert!(environment.starts_with("reference-v1."));
    assert_eq!(record.source_revision, REVISION);
    assert_eq!(record.budget.wall_millis, 10_000);
    assert_eq!(record.budget.maximum_cost_microusd, 0);
    assert_eq!(
        record.input_commitment,
        blake3::hash(b"Inventory the isolated repository without modifying it or using the network.")
            .to_hex()
            .to_string()
    );
    record_job(&mut state, &record).expect("admission is recorded");
    start_job(&mut record);
    record_job(&mut state, &record).expect("the start is recorded");
    trace(&mut state, &record.run_id, "hephaestus:genome:a", TraceKind::ToolCalled).expect("a trace");
    trace(&mut state, &record.run_id, "hephaestus:genome:a", TraceKind::LifecycleCompleted).expect("the end");
    assert_eq!(receive_output(Some(&record), "job-1", true), Ok(CompletionStep::Persist));
    record_result(&mut state, job_result(&record, RunCompletionReason::Success)).expect("a result");
    complete_async_job(&mut record, Some(RunCompletionReason::Success));
    record_job(&mut state, &record).expect("success is recorded");
    match job_status(&state, "job-1") {
        Ok(ResponseData::Job { job, progress }) => {
            assert_eq!(job.state, JobState::Succeeded);
            assert_eq!(job.terminal, Some(JobTerminal::Succeeded));
            assert_eq!(progress.trace_events, 2);
            assert_eq!(progress.last_phase.as_deref(), Some("completed"));
        }
        _ => panic!("the job is shown"),
    }
    assert!(unfinished_jobs(&state).is_empty());
    match kill_job(&state, None, None, "job-1") {
        Ok(KillStep::Ended(_)) => {}
        _ => panic!("an ended job is answered as it is"),
    }
    record.state = JobState::Running;
    record.terminal = None;
    assert!(record_job(&mut state, &record).is_err());
}

#[test]
fn success_needs_a_result_and_a_completed_lifecycle() {
    let mut state = unfrozen();
    let mut record = admitted_job(&state, "job-1", "hephaestus:genome:a");
    record_job(&mut state, &record).expect("admission is recorded");
    start_job(&mut record);
    record_job(&mut state, &record).expect("the start is recorded");
    complete_async_job(&mut record, Some(RunCompletionReason::Success));
    assert!(record_job(&mut state, &record).is_err());
}

#[test]
fn a_cancelled_job_drops_its_output() {
    let mut state = unfrozen();
    let mut record = admitted_job(&state, "job-1", "hephaestus:genome:a");
    record_job(&mut state, &record).expect("admission is recorded");
    start_job(&mut record);
    record_job(&mut state, &record).expect("the start is recorded");
    assert!(matches!(
        kill_job(&state, Some("job-1"), None, "job-1"),
        Ok(KillStep::CancelJob { record: true })
    ));
    assert_eq!(refusal(kill_job(&state, None, None, "job-1")), ExecuteError::Internal);
    assert_eq!(refusal(kill_job(&state, None, None, "job-2")), ExecuteError::NotFound);
    mark_job_cancelled(&mut record);
    record_job(&mut state, &record).expect("the request is recorded");
    assert!(matches!(
        kill_job(&state, Some("job-1"), None, "job-1"),
        Ok(KillStep::CancelJob { record: false })
    ));
    assert_eq!(receive_output(Some(&record), "job-1", true), Ok(CompletionStep::Discard));
    complete_async_job(&mut record, None);
    assert_eq!(record.terminal, Some(JobTerminal::Cancelled));
    record_job(&mut state, &record).expect("the end is recorded");
}

#[test]
fn a_job_is_admitted_once() {
    let mut state = unfrozen();
    let mut record = admitted_job(&state, "job-1", "hephaestus:genome:a");
    record_job(&mut state, &record).expect("admission is recorded");
    assert!(matches!(
        submit_job(&state, false, "job-1", "hephaestus:genome:a", job_facts()),
        Ok(JobAdmission::Existing(_))
    ));
    assert_eq!(
        refusal(submit_job(&state, false, "job-1", "hephaestus:genome:b", job_facts())),
        ExecuteError::Rejected(text("job id is already bound to another Genome"))
    );
    assert_eq!(
        refusal(submit_job(&state, false, "job-2", "hephaestus:genome:a", job_facts())),
        ExecuteError::Busy
    );
    start_job(&mut record);
    record_job(&mut state, &record).expect("the start is recorded");
    abandon_job(&mut record);
    record_job(&mut state, &record).expect("the end is recorded");
    assert!(matches!(
        submit_job(&state, false, "job-2", "hephaestus:genome:a", job_facts()),
        Ok(JobAdmission::Fresh { .. })
    ));
    assert_eq!(
        refusal(submit_job(&state, true, "job-3", "hephaestus:genome:a", job_facts())),
        ExecuteError::Busy
    );
}

#[test]
fn the_first_failing_step_refuses_a_job() {
    let state = unfrozen();
    let submit = |genome_id: &str, facts| refusal(submit_job(&state, false, "job-1", genome_id, facts));
    assert_eq!(submit("hephaestus:genome:x", job_facts()), ExecuteError::NotFound);
    let mut facts = job_facts();
    facts.ground.worker = Err(ExecuteError::Rejected(text("changed")));
    facts.ground.prompt.bytes = None;
    assert_eq!(submit("hephaestus:genome:a", facts), ExecuteError::Rejected(text("changed")));
    let mut facts = job_facts();
    facts.ground.prompt.bytes = None;
    facts.ground.worker_intact = Err(ExecuteError::Internal);
    assert_eq!(submit("hephaestus:genome:a", facts), ExecuteError::Internal);
    let mut facts = job_facts();
    facts.ground.prompt.operation = None;
    assert_eq!(
        submit("hephaestus:genome:a", facts),
        ExecuteError::Rejected(text("registered reference instruction is invalid"))
    );
    assert_eq!(
        submit("hephaestus:genome:d", job_facts()),
        ExecuteError::Rejected(text(
            "async reference jobs require a supported reference instruction"
        ))
    );
    let mut facts = job_facts();
    facts.specification = SpecReply::InputOversized;
    assert_eq!(
        submit("hephaestus:genome:a", facts),
        ExecuteError::Invalid("reference task input is oversized")
    );
    let mut facts = job_facts();
    facts.ground.executable = None;
    assert_eq!(submit("hephaestus:genome:c", facts), ExecuteError::Internal);
    let mut facts = job_facts();
    facts.specification = SpecReply::ContextInvalid;
    assert_eq!(submit("hephaestus:genome:c", facts), ExecuteError::Invalid("evaluation context is invalid"));
    let mut facts = job_facts();
    facts.specification = SpecReply::SpecificationInvalid;
    assert_eq!(submit("hephaestus:genome:c", facts), ExecuteError::Invalid("run specification is invalid"));
}

#[test]
fn a_provider_job_spends_within_its_world() {
    let state = unfrozen();
    match submit_job(&state, false, "job-1", "hephaestus:genome:c", job_facts()) {
        Ok(JobAdmission::Fresh { record, provider, instruction }) => {
            assert_eq!(provider, Some(0));
            assert_eq!(instruction, None);
            assert_eq!(record.budget.maximum_cost_microusd, 500);
            let identity = format!(
                "codex-cli-v1.runtime-0.1.0.receipt-schema-2.linux.x86_64.isolation-private-worktree-v1.backend-git|provider-instruction-language-v1|exe-{}",
                "cd".repeat(32)
            );
            assert_eq!(
                record.environment_id,
                format!("provider-v1.{}", blake3::hash(identity.as_bytes()).to_hex())
            );
        }
        _ => panic!("the job is admitted"),
    }
}

#[test]
fn a_frozen_daemon_admits_nothing() {
    let state = ControlState::new(registry());
    assert_eq!(
        refusal(submit_job(&state, false, "job-1", "hephaestus:genome:a", job_facts())),
        ExecuteError::Invalid("evolution is frozen")
    );
    assert_eq!(
        refusal(submit_arena_job(&state, false, pair("e", "hephaestus:genome:a", "hephaestus:genome:b"), pair_facts())),
        ExecuteError::Invalid("evolution is frozen")
    );
}

#[test]
fn a_pair_runs_to_its_success() {
    let mut state = unfrozen();
    let mut record = admitted_pair(&state, "evaluation-1");
    assert_eq!(record.total_trials, 4);
    assert_eq!(record.parent_trial_count, 2);
    assert_eq!(record.overall_budget.wall_millis, 50_000);
    assert_eq!(record.overall_budget.maximum_output_bytes, 4 * 1_048_576);
    assert_eq!(record.candidate_environment_id, None);
    let runs: Vec<&String> = record.ordered_trial_run_ids.iter().collect();
    let plan = serde_json::to_vec(&(
        "evaluation-1", "hephaestus:genome:a", "hephaestus:genome:b", "hephaestus:world:w", "visible", "sealed", REVISION,
        &record.environment_id, &record.environment_id, &runs,
    ))
    .expect("the plan serializes");
    assert_eq!(record.plan_commitment, blake3::hash(&plan).to_hex().to_string());
    record_arena(&mut state, &record).expect("admission is recorded");
    start_trials(&mut record);
    record_arena(&mut state, &record).expect("the start is recorded");
    for index in 0..4 {
        let result = trial_result(&record, index, RunCompletionReason::Success);
        let run_id = result.run_id.clone();
        let genome_id = result.genome_id.clone();
        trace(&mut state, &run_id, &genome_id, TraceKind::LifecycleCompleted).expect("a trace");
        record_result(&mut state, result).expect("a result");
        assert_eq!(
            state.arena_jobs.get("evaluation-1").map(|job| job.completed_trials),
            Some(index as u32 + 1)
        );
    }
    record.completed_trials = 4;
    record.phase = ArenaJobPhase::CandidateTrials;
    start_scoring(&mut record);
    record_arena(&mut state, &record).expect("scoring is recorded");
    start_commit(&mut record);
    record_arena(&mut state, &record).expect("the commit is recorded");
    let sequence = state.event_count + 1;
    let mut receipt = event(
        sequence,
        "arena:evaluation:evaluation-1:recorded",
        "arena:evaluation:evaluation-1",
        "evaluation.recorded",
        "arena-plane",
    );
    receipt.payload = br#"{"schema_version": 1, "evaluation_id": "evaluation-1"}"#.to_vec();
    state.apply(&receipt, EventPayload::Opaque, true).expect("the receipt");
    let evaluated = evaluation(&record, sequence);
    end_evaluation(&mut record, ArenaEnd::Succeeded(evaluated));
    record_arena(&mut state, &record).expect("success is recorded");
    assert!(unfinished_arena_jobs(&state).is_empty());
    match job_status(&state, "evaluation-1") {
        Ok(ResponseData::ArenaJob { job }) => {
            assert_eq!(job.state, JobState::Succeeded);
            assert_eq!(job.completed_trials, 4);
            assert_eq!(job.evaluation.map(|held| held.candidate_visible_correct), Some(1));
        }
        _ => panic!("the evaluation is shown"),
    }
}

#[test]
fn trials_arrive_in_order() {
    let mut state = unfrozen();
    let mut record = admitted_pair(&state, "evaluation-1");
    record_arena(&mut state, &record).expect("admission is recorded");
    start_trials(&mut record);
    record_arena(&mut state, &record).expect("the start is recorded");
    let late = trial_result(&record, 1, RunCompletionReason::Success);
    assert!(record_result(&mut state, late).is_err());
}

#[test]
fn a_pair_that_cannot_be_launched_is_interrupted() {
    let mut state = unfrozen();
    let mut record = admitted_pair(&state, "evaluation-1");
    record_arena(&mut state, &record).expect("admission is recorded");
    start_trials(&mut record);
    record_arena(&mut state, &record).expect("the start is recorded");
    assert_eq!(unfinished_arena_jobs(&state), vec![text("evaluation-1")]);
    abandon_launch(&mut record);
    record_arena(&mut state, &record).expect("the end is recorded");
    assert!(unfinished_arena_jobs(&state).is_empty());
}

#[test]
fn the_first_failing_step_refuses_a_pair() {
    let state = unfrozen();
    let submit = |request, facts| refusal(submit_arena_job(&state, false, request, facts));
    let usual = || pair("e", "hephaestus:genome:a", "hephaestus:genome:b");
    assert_eq!(submit(pair("a b", "hephaestus:genome:a", "hephaestus:genome:b"), pair_facts()), ExecuteError::Invalid("job_id is invalid"));
    assert_eq!(
        submit(pair("e", "hephaestus:genome:a", "hephaestus:genome:a"), pair_facts()),
        ExecuteError::Invalid("parent and candidate Genomes must differ")
    );
    assert_eq!(submit(pair("e", "hephaestus:genome:a", "hephaestus:genome:x"), pair_facts()), ExecuteError::NotFound);
    let mut facts = pair_facts();
    facts.ground.candidate_prompt.operation = None;
    facts.ground.visible_tasks = None;
    assert_eq!(
        submit(usual(), facts),
        ExecuteError::Rejected(text("registered reference instruction is invalid"))
    );
    let mut facts = pair_facts();
    facts.ground.sealed_tasks = None;
    assert_eq!(submit(usual(), facts), ExecuteError::Internal);
    let mut facts = pair_facts();
    facts.ground.visible_tasks = Some(Vec::new());
    facts.ground.sealed_tasks = Some(Vec::new());
    facts.ground.evaluator_opens = false;
    assert_eq!(
        submit(usual(), facts),
        ExecuteError::Invalid("paired task count is outside the bounded range")
    );
    let mut facts = pair_facts();
    facts.ground.requested_wall = Some(text("50001"));
    assert_eq!(
        submit(usual(), facts),
        ExecuteError::Invalid("test Arena wall budget must only lower the bound")
    );
    let mut facts = pair_facts();
    facts.ground.worker = Err(ExecuteError::Rejected(text("changed")));
    facts.ground.revision = Err(ExecuteError::Internal);
    assert_eq!(submit(usual(), facts), ExecuteError::Rejected(text("changed")));
    let mut facts = pair_facts();
    facts.ground.candidate_executable = Some(digest());
    assert_eq!(
        submit(pair("e", "hephaestus:genome:a", "hephaestus:genome:c"), facts),
        ExecuteError::Rejected(text(
            "World does not permit a parent and candidate to run in distinct execution environments"
        ))
    );
    let mut facts = pair_facts();
    facts.specified = false;
    assert_eq!(submit(usual(), facts), ExecuteError::Internal);
    assert_eq!(
        refusal(submit_arena_job(&state, true, usual(), pair_facts())),
        ExecuteError::Busy
    );
}

#[test]
fn a_pair_plans_the_parent_before_the_candidate() {
    let state = unfrozen();
    match submit_arena_job(&state, false, pair("e", "hephaestus:genome:a", "hephaestus:genome:b"), pair_facts()) {
        Ok(PairAdmission::Fresh { record, parent, candidate, tasks, trials, orders }) => {
            assert_eq!(orders.len(), 4);
            for (place, order) in orders.iter().enumerate() {
                assert_eq!(order.run_id, record.ordered_trial_run_ids[place]);
                assert_eq!(order.task_id, tasks[place % 2].task_id);
                assert_eq!(order.input, tasks[place % 2].input);
                assert_eq!(order.genome_id == "hephaestus:genome:a", place < 2);
                assert_eq!(order.environment_id, record.environment_id);
                assert_eq!((order.seed, order.budget), (record.seed, record.trial_budget));
                assert_eq!(order.authority, Authority::Nothing);
                assert_eq!(order.instruction.as_deref(), Some("ascii_uppercase"));
            }
            assert_eq!(tasks.iter().map(|task| task.task_id.as_str()).collect::<Vec<_>>(), ["t1", "t2"]);
            assert_eq!(parent.instruction.as_deref(), Some("ascii_uppercase"));
            assert_eq!(candidate.provider, None);
            assert_eq!(
                trials.iter().map(|trial| (trial.candidate, trial.task)).collect::<Vec<_>>(),
                [(false, 0), (false, 1), (true, 0), (true, 1)]
            );
            for (trial, run_id) in trials.iter().zip(&record.ordered_trial_run_ids) {
                assert_eq!(&trial.run_id, run_id);
                assert_eq!(trial.event_id, format!("result:{run_id}"));
            }
        }
        _ => panic!("the pair is admitted"),
    }
}

#[test]
fn a_restart_ends_unfinished_jobs() {
    let mut state = unfrozen();
    let mut record = admitted_job(&state, "job-1", "hephaestus:genome:a");
    record_job(&mut state, &record).expect("admission is recorded");
    start_job(&mut record);
    record_job(&mut state, &record).expect("the start is recorded");
    assert_eq!(unfinished_jobs(&state), vec![text("job-1")]);
    let interrupted = recover_job(record.clone(), None, false).expect("a recovery");
    assert_eq!(interrupted.terminal, Some(JobTerminal::Interrupted));
    let success = job_result(&record, RunCompletionReason::Success);
    assert!(recover_job(record.clone(), Some(&success), false).is_err());
    let succeeded = recover_job(record.clone(), Some(&success), true).expect("a recovery");
    assert_eq!(succeeded.state, JobState::Succeeded);
    let failure = job_result(&record, RunCompletionReason::ProviderFailure);
    let failed = recover_job(record.clone(), Some(&failure), false).expect("a recovery");
    assert_eq!(failed.state, JobState::Failed);
    let mut foreign = job_result(&record, RunCompletionReason::Success);
    foreign.seed = 9;
    assert_eq!(
        recover_job(record.clone(), Some(&foreign), true),
        Err(ControlError::Projection(text("signed job result differs from its admitted spec")))
    );
    record_job(&mut state, &interrupted).expect("the recovery is recorded");
}

#[test]
fn a_restart_ends_unfinished_pairs() {
    let mut state = unfrozen();
    let mut record = admitted_pair(&state, "evaluation-1");
    record_arena(&mut state, &record).expect("admission is recorded");
    start_trials(&mut record);
    record_arena(&mut state, &record).expect("the start is recorded");
    let mut interrupted = record.clone();
    let end = recover_pair(&state, &record, false, None).expect("a recovery");
    end_recovered_pair(&mut interrupted, end);
    assert_eq!(interrupted.state, JobState::Interrupted);
    assert_eq!(interrupted.terminal, Some(JobTerminal::Interrupted));
    assert_eq!(interrupted.phase, ArenaJobPhase::Terminal);
    assert_eq!(
        recover_pair(&state, &record, true, Some(evaluation(&record, 9))),
        Err(ControlError::Projection(text(
            "Arena receipt is missing complete signed trial evidence"
        )))
    );
    let mut asked = record.clone();
    asked.state = JobState::CancellationRequested;
    assert!(recover_pair(&state, &asked, true, None).is_err());
    match recover_unfinished_arena_jobs(&state, &Vec::new(), None) {
        Some((id, Ok(end))) => {
            assert_eq!(id, "evaluation-1");
            assert_eq!(end.terminal, JobTerminal::Interrupted);
            assert_eq!(end.evaluation, None);
        }
        _ => panic!("the evaluation is unfinished"),
    }
    let history = vec![event(
        3,
        "arena:evaluation:evaluation-1:recorded",
        "arena:evaluation:evaluation-1",
        "evaluation.recorded",
        "arena-plane",
    )];
    assert!(has_evaluation_receipt(&history, "evaluation-1"));
    assert!(!has_evaluation_receipt(&history, "evaluation-2"));
    record_arena(&mut state, &interrupted).expect("the recovery is recorded");
}

#[test]
fn replay_reaches_the_same_state() {
    let state = unfrozen();
    let mut record = admitted_job(&state, "job-1", "hephaestus:genome:a");
    let admitted = RecordedEvent {
        event: stored(2, job_envelope(&record), b"{}"),
        payload: EventPayload::Job(record.clone(), job_addresses()),
    };
    start_job(&mut record);
    let running = RecordedEvent {
        event: stored(3, job_envelope(&record), b"{}"),
        payload: EventPayload::Job(record.clone(), job_addresses()),
    };
    let events = vec![control(1, Command::Unfreeze, "control.unfreeze"), admitted, running];
    let replayed = ControlState::from_events(events, registry(), true).expect("a replay");
    assert!(!replayed.frozen);
    assert_eq!(replayed.event_count, 3);
    assert_eq!(replayed.jobs.get("job-1").map(|job| job.state), Some(JobState::Running));
    assert!(replayed.active_runs.contains_key(&record.run_id));
}

#[test]
fn only_an_operator_proof_unfreezes() {
    let events = vec![control(1, Command::Unfreeze, "control.unfreeze")];
    if let Ok(state) = ControlState::from_events(events, registry(), false) {
        assert!(state.frozen);
    }
}

#[test]
fn foreign_control_events_are_refused() {
    let mut foreign = control(1, Command::Unfreeze, "control.unfreeze");
    foreign.event.actor = text("someone");
    assert_eq!(
        ControlState::from_events(vec![foreign], registry(), true).err(),
        Some(ControlError::Projection(text("control event crossed the operator boundary")))
    );
    let wrong = control(1, Command::Unfreeze, "control.freeze");
    assert_eq!(
        ControlState::from_events(vec![wrong], registry(), true).err(),
        Some(ControlError::Projection(text("control event type does not match its command")))
    );
}

#[test]
fn evaluation_receipts_name_their_evaluation_once() {
    let mut receipt = event(
        2,
        "arena:evaluation:e:recorded",
        "arena:evaluation:e",
        "evaluation.recorded",
        "arena-plane",
    );
    let mut state = unfrozen();
    receipt.payload = b"not json".to_vec();
    assert_eq!(
        state.apply(&receipt, EventPayload::Opaque, true),
        Err(ControlError::Serialization)
    );
    for payload in ["{}", "[]", r#"{"evaluation_id": 7}"#] {
        receipt.payload = payload.as_bytes().to_vec();
        assert_eq!(
            unfrozen().apply(&receipt, EventPayload::Opaque, true),
            Err(ControlError::Projection(text("Arena receipt identity is invalid")))
        );
    }
    let mut state = unfrozen();
    receipt.payload = br#"{"evaluation_id": "e"}"#.to_vec();
    assert_eq!(state.apply(&receipt, EventPayload::Opaque, true), Ok(()));
    assert_eq!(state.evaluation_events.get("e").copied(), Some(2));
    receipt.sequence = 3;
    assert!(state.apply(&receipt, EventPayload::Opaque, true).is_err());
}

#[test]
fn recovery_ends_every_job_in_as_many_steps() {
    let mut state = unfrozen();
    let records = ["job-1", "job-2", "job-3"]
        .map(|job_id| admitted_job(&state, job_id, "hephaestus:genome:a"));
    for record in &records {
        record_job(&mut state, record).expect("admission is recorded");
    }
    let first = recover_unfinished_jobs(&state).expect("three are unfinished").expect("it recovers");
    record_job(&mut state, &first).expect("the end replays");
    for left in [vec![text("job-2"), text("job-3")], vec![text("job-3")]] {
        assert_eq!(unfinished_jobs(&state), left);
        let ended = recover_unfinished_jobs(&state).expect("one is left").expect("it recovers");
        record_job(&mut state, &ended).expect("the end replays");
    }
    assert!(recover_unfinished_jobs(&state).is_none());
    assert_eq!(state.jobs.len(), 3);
    assert_eq!(state.jobs.get("job-1").cloned(), Some(first));
}

#[test]
fn recovery_ends_every_pair_in_as_many_steps() {
    let mut state = unfrozen();
    let records = ["evaluation-1", "evaluation-2"].map(|id| admitted_pair(&state, id));
    for record in &records {
        record_arena(&mut state, record).expect("admission is recorded");
    }
    for expected in ["evaluation-1", "evaluation-2"] {
        let before = state.arena_jobs.get("evaluation-1").cloned();
        let (id, end) =
            recover_unfinished_arena_jobs(&state, &Vec::new(), None).expect("one is unfinished");
        assert_eq!(id, expected);
        let mut record = state.arena_jobs.get(&id).cloned().expect("it is recorded");
        end_recovered_pair(&mut record, end.expect("it recovers"));
        record_arena(&mut state, &record).expect("the end replays");
        if id != "evaluation-1" {
            assert_eq!(state.arena_jobs.get("evaluation-1").cloned(), before);
        }
    }
    assert!(recover_unfinished_arena_jobs(&state, &Vec::new(), None).is_none());
    assert_eq!(state.arena_jobs.len(), 2);
}

#[test]
fn recovery_ends_one_job_after_the_other() {
    let mut state = unfrozen();
    assert!(recover_unfinished_jobs(&state).is_none());
    let mut record = admitted_job(&state, "job-1", "hephaestus:genome:a");
    record_job(&mut state, &record).expect("admission is recorded");
    start_job(&mut record);
    record_job(&mut state, &record).expect("the start is recorded");
    let ended = recover_unfinished_jobs(&state).expect("one is unfinished").expect("it recovers");
    assert_eq!(ended.job_id, "job-1");
    assert_eq!(ended.terminal, Some(JobTerminal::Interrupted));
    record_job(&mut state, &ended).expect("the end replays");
    assert!(recover_unfinished_jobs(&state).is_none());
}

#[test]
fn messages_end_the_running_job() {
    let state = unfrozen();
    let record = admitted_job(&state, "job-1", "hephaestus:genome:a");
    let completed = |job_id: &str, output: bool| JobMessage::Completed { job_id: text(job_id), output };
    let failed = Err(ControlError::Projection(text("asynchronous job completion failed")));
    assert_eq!(service_job_message(Some(&record), JobMessage::Empty), Ok(JobStep::Rest));
    assert_eq!(service_job_message(None, JobMessage::Disconnected), Ok(JobStep::Rest));
    assert_eq!(
        service_job_message(Some(&record), JobMessage::Disconnected),
        Ok(JobStep::End {
            state: JobState::Interrupted,
            terminal: JobTerminal::Interrupted,
            unrecorded: "interrupted job could not be recorded",
        })
    );
    assert_eq!(service_job_message(None, completed("job-1", true)), failed);
    assert_eq!(service_job_message(Some(&record), completed("job-2", true)), failed);
    assert_eq!(service_job_message(Some(&record), completed("job-1", true)), Ok(JobStep::Persist));
    assert!(matches!(
        service_job_message(Some(&record), completed("job-1", false)),
        Ok(JobStep::End { state: JobState::Failed, terminal: JobTerminal::Failed, .. })
    ));
    let mut stopped = record.clone();
    mark_job_cancelled(&mut stopped);
    assert!(matches!(
        service_job_message(Some(&stopped), completed("job-1", true)),
        Ok(JobStep::End { state: JobState::Interrupted, terminal: JobTerminal::Cancelled, .. })
    ));
}

#[test]
fn a_direct_run_is_refused_at_its_first_failing_step() {
    let registry = registry();
    let context = |genome_id: &str, wall_millis: u64| RunContext {
        genome_id: text(genome_id),
        world_id: text("hephaestus:world:w"),
        task_id: text("task"),
        prompt: text("prompt"),
        seed: 0,
        wall_millis,
        maximum_output_bytes: 1024,
        maximum_cost_microusd: 0,
    };
    let ground = || RunGround { prompt: prompt(), worker: Ok(digest()), platform: platform() };
    let start = || RunStart {
        specification: SpecReply::Accepted { source_revision: text(REVISION) },
        worker_intact: Ok(()),
        runtime_opens: true,
        sandbox_opens: true,
    };
    let facts = || RunFacts { ground: ground(), start: start() };
    let run = run_with_context(&registry, "run", &context("hephaestus:genome:a", 1000), facts())
        .ok()
        .expect("the run is carried out");
    assert_eq!(run.order.run_id, "run");
    assert_eq!(run.order.input, "prompt");
    assert_eq!(run.order.authority, Authority::Nothing);
    assert_eq!(run.order.instruction, Some(text("ascii_uppercase")));
    assert_eq!(run.order.provider, None);
    assert_eq!(run.source_revision, REVISION);
    assert!(run.order.environment_id.starts_with("reference-v1."));
    let provided = run_with_context(&registry, "run", &context("hephaestus:genome:c", 1000), facts())
        .ok()
        .expect("the run is carried out");
    assert_eq!(provided.order.provider, Some(0));
    assert_eq!(provided.order.instruction, None);
    assert_eq!(provided.order.authority, Authority::Own);
    assert!(run_with_context(&registry, "run", &context("hephaestus:genome:a", 0), facts()).is_err());
    assert_eq!(
        refusal(run_with_context(&registry, "run", &context("absent", 1000), facts())),
        ExecuteError::NotFound
    );
    assert_eq!(
        refusal(run_with_context(
            &registry,
            "run",
            &context("hephaestus:genome:a", 1000),
            RunFacts { ground: ground(), start: RunStart { sandbox_opens: false, ..start() } }
        )),
        ExecuteError::Internal
    );
}

#[test]
fn a_recorded_commitment_is_that_of_its_plan() {
    assert_eq!(check_plan_commitment(&Some(text("c")), "c"), Ok(()));
    assert!(matches!(
        check_plan_commitment(&Some(text("c")), "d"),
        Err(ControlError::Projection(_))
    ));
    assert_eq!(check_plan_commitment(&None, "c"), Err(ControlError::Serialization));
}

#[test]
fn a_job_is_ordered_before_it_is_specified() {
    let registry = registry();
    let genome = |id: &str| registry.genomes.get(id).expect("a Genome");
    let reference = genome("hephaestus:genome:a");
    let order = order_job(&registry, "job-1", reference, job_facts().ground).ok().expect("an order");
    let digest = blake3::hash(b"job-1").to_hex().to_string();
    assert_eq!(order.run_id, format!("async-{}", &digest[..32]));
    assert_eq!(order.task_id, "repository-inventory-v1");
    assert_eq!(order.seed, 0);
    assert_eq!((order.budget.wall_millis, order.budget.maximum_cost_microusd), (10_000, 0));
    assert_eq!(order.authority, Authority::Nothing);
    assert!(matches!(
        admit_job("job-1", reference, order, SpecReply::InputOversized),
        Err(ExecuteError::Invalid("reference task input is oversized"))
    ));
    let provided = genome("hephaestus:genome:c");
    let order = order_job(&registry, "job-1", provided, job_facts().ground).ok().expect("an order");
    assert_eq!(order.authority, Authority::Own);
    assert_eq!(order.provider, Some(0));
    let environment_id = order.environment_id.clone();
    let reply = SpecReply::Accepted { source_revision: text(REVISION) };
    match admit_job("job-1", provided, order, reply) {
        Ok(JobAdmission::Fresh { record, provider, instruction }) => {
            assert_eq!(record.environment_id, environment_id);
            assert_eq!(record.source_revision, REVISION);
            assert_eq!((provider, instruction), (Some(0), None));
        }
        _ => panic!("the job is admitted"),
    }
}

#[test]
fn two_providers_run_as_external_executables() {
    let registry = Registry::new("second".to_owned());
    assert_eq!(registry.provider_index("second"), Some(1));
    assert_eq!(registry.provider_index("codex"), Some(0));
    assert!(!registry.is_external_provider("deterministic"));
}
