use hephaestus_control::arena_driver::{
    acknowledge_trial, count_trials, deadline_is_due, end_evaluation, execute_trial,
    finish_commit, note_timeout, service_arena_message, service_evidence, start_commit,
    start_scoring, stop_at_deadline, ActiveArena, ArenaEnd, ArenaMessage, ArenaStep,
    EvidenceClaim, EvidenceStep, RunIdentity, TrialRunner, trial_runs,
};
use hephaestus_control::error::{ControlError, ExecuteError};
use hephaestus_control::execution::{
    execute_arena_trial_remotely, execute_async_arena_trials, prepare_run, settle_watched_run,
    take_acknowledgement, watch_direct_run, watch_run, Executor, Preparation, RunSnapshot,
    TrialLoop, TrialLoopStep, Watch,
};
use hephaestus_control::protocol::{
    ArenaJobPhase, CanaryEvidence, CanaryStage, CanaryTransitionKind, CanaryTransitionPayload,
    ChampionTransitionKind, ChampionTransitionPayload, Command, DriftEventRecord, DriftKind,
    DriftRecord, DriftRecordPayload, GeneTransferAppliedPayload, InvariantRecord, JobState,
    JobTerminal, RemoteCompletion, ResponseData, SelectionEventRecord,
};
use hephaestus_control::records::{
    ArenaJobRecord, GenomeRecord, RunBudgetReceipt, RunCompletionReason, SelectionReceipt,
    StoredEvent, TraceKind, TraceReceipt, WorldRecord,
};
use hephaestus_control::registry::{GenomeEntry, Registry, WorldEntry};
use hephaestus_control::runs::{
    self, append_run_result, genome_envelope, genome_prompt, genome_prompt_artifact,
    map_cluster_error, map_invariant_error, map_selection_error, open_analysis,
    open_evaluation_read, persist_reference_output, recall_analysis, recall_invariants,
    reference_instruction, register_genome, register_world, reject_genome, reject_manifest,
    reject_world, remote_execution, run_evaluation, run_reference, selected_run_provider,
    check_arena_invariants, select_arena_evaluation, selection_record, settle_run, trace_artifacts_for_run, trial_lease_id, verifier_show,
    world_envelope, ArenaFault, EvaluationRequest, Registration,
};
use hephaestus_control::service::{enforce_arena_deadline, ServiceTurn};
use hephaestus_control::state::{ControlState, EventPayload, RecordedEvent, TraceAddresses};
use hephaestus_control::transitions::{
    admit_transfer, bind_rollback, canary_companion, canary_transition_command,
    champion_transition_command, open_canary, open_champion_transition, open_drift,
    open_extraction, open_speciation, open_transfer, open_transfer_record, gene_extract,
    gene_speciate, gene_transfer_apply, gene_transfer_record, record_drift,
    records_contradiction, transition_canary, transition_champion, AppliedTransfer,
    CanaryRequest, CanaryStep, ChampionRequest, Transition, TransitionFacts,
};

fn text(value: &str) -> String {
    value.to_owned()
}

fn rejected(message: &str) -> ExecuteError {
    ExecuteError::Rejected(text(message))
}

fn projection(message: &str) -> ControlError {
    ControlError::Projection(text(message))
}

fn pair(completed_trials: u32, state: JobState) -> ArenaJobRecord {
    let budget =
        RunBudgetReceipt { wall_millis: 1, maximum_output_bytes: 1, maximum_cost_microusd: 0 };
    ArenaJobRecord {
        job_id: text("e"),
        evaluation_id: text("e"),
        parent_genome_id: text("p"),
        candidate_genome_id: text("c"),
        world_id: text("w"),
        visible_manifest_id: text("v"),
        sealed_manifest_id: text("s"),
        evaluator_id: text("ev"),
        source_revision: text("r"),
        worker_digest: text("d"),
        environment_id: text("en"),
        candidate_environment_id: None,
        seed: 1,
        trial_budget: budget,
        overall_budget: budget,
        ordered_trial_run_ids: vec![text("t0"), text("t1")],
        parent_trial_count: 1,
        total_trials: 2,
        plan_commitment: text("plan"),
        caller_id: text("control-daemon"),
        receipt_timestamp_millis: 7,
        completed_trials,
        phase: ArenaJobPhase::ParentTrials,
        state,
        terminal: None,
        evaluation: None,
        remote: false,
    }
}

fn active(completed_trials: u32) -> ActiveArena {
    ActiveArena {
        record: pair(completed_trials, JobState::Running),
        cancel: false,
        overall_timed_out: false,
    }
}

fn trial(job_id: &str, index: usize) -> ArenaMessage {
    ArenaMessage::Trial { job_id: text(job_id), index }
}

fn trials(job_id: &str, succeeded: bool) -> ArenaMessage {
    ArenaMessage::Trials { job_id: text(job_id), succeeded }
}

fn scoring(job_id: &str, scored: bool) -> ArenaMessage {
    ArenaMessage::Scoring { job_id: text(job_id), scored }
}

fn fault(active: Option<&ActiveArena>, message: ArenaMessage) -> ControlError {
    match service_arena_message(active, message) {
        Err(error) => error,
        Ok(_) => panic!("the message is refused"),
    }
}

#[test]
fn trials_are_persisted_in_their_admitted_order() {
    let running = active(1);
    assert!(matches!(service_arena_message(Some(&running), trial("e", 1)), Ok(ArenaStep::Persist)));
    assert!(matches!(
        service_arena_message(Some(&running), trial("e", 0)),
        Ok(ArenaStep::RefuseTrial { reason: "paired trial arrived outside admitted order", stop: true })
    ));
    assert!(matches!(
        service_arena_message(Some(&running), trial("other", 1)),
        Ok(ArenaStep::RefuseTrial { stop: true, .. })
    ));
    assert!(matches!(
        service_arena_message(None, trial("e", 1)),
        Ok(ArenaStep::RefuseTrial { reason: "paired job is no longer active", stop: false })
    ));
    assert_eq!(fault(Some(&active(2)), trial("e", 2)), projection("paired trial index is invalid"));
}

#[test]
fn the_end_of_the_trials_is_scored_or_ends_the_evaluation() {
    assert!(matches!(service_arena_message(None, trials("e", true)), Ok(ArenaStep::Ignore)));
    assert!(matches!(
        service_arena_message(Some(&active(2)), trials("e", true)),
        Ok(ArenaStep::Score)
    ));
    assert!(matches!(
        service_arena_message(Some(&active(2)), trials("e", false)),
        Ok(ArenaStep::End {
            end: ArenaEnd::Failed,
            unrecorded: "Arena terminal state could not be recorded",
        })
    ));
    let cancelled = ActiveArena { record: pair(2, JobState::CancellationRequested), ..active(2) };
    assert!(matches!(
        service_arena_message(Some(&cancelled), trials("e", true)),
        Ok(ArenaStep::End { end: ArenaEnd::Cancelled, .. })
    ));
    assert_eq!(
        fault(Some(&active(2)), trials("other", true)),
        projection("paired completion crossed evaluation identity")
    );
    assert_eq!(
        fault(Some(&active(1)), trials("e", true)),
        projection("Arena scorer observed incomplete trials")
    );
}

#[test]
fn scores_are_committed_only_while_nothing_stopped_the_evaluation() {
    assert!(matches!(
        service_arena_message(Some(&active(2)), scoring("e", true)),
        Ok(ArenaStep::Commit)
    ));
    assert!(matches!(
        service_arena_message(Some(&active(2)), scoring("e", false)),
        Ok(ArenaStep::End {
            end: ArenaEnd::Failed,
            unrecorded: "failed Arena terminal state could not be recorded",
        })
    ));
    let cancelled = ActiveArena { cancel: true, ..active(2) };
    assert!(matches!(
        service_arena_message(Some(&cancelled), scoring("e", true)),
        Ok(ArenaStep::End {
            end: ArenaEnd::Cancelled,
            unrecorded: "cancelled Arena terminal state could not be recorded",
        })
    ));
    let late = ActiveArena { cancel: true, overall_timed_out: true, ..active(2) };
    assert!(matches!(
        service_arena_message(Some(&late), scoring("e", true)),
        Ok(ArenaStep::End {
            end: ArenaEnd::Failed,
            unrecorded: "timed out Arena terminal could not be recorded",
        })
    ));
    assert_eq!(
        fault(None, scoring("e", true)),
        projection("Arena scorer completion has no active job")
    );
    assert_eq!(
        fault(Some(&active(2)), scoring("other", true)),
        projection("Arena scorer completion crossed evaluation identity")
    );
    assert!(matches!(
        service_arena_message(Some(&active(0)), ArenaMessage::Disconnected),
        Ok(ArenaStep::End { end: ArenaEnd::Interrupted, .. })
    ));
    assert!(matches!(service_arena_message(None, ArenaMessage::Disconnected), Ok(ArenaStep::Ignore)));
}

#[test]
fn a_deadline_fails_the_evaluation() {
    let mut running = active(2);
    assert!(!deadline_is_due(&running, 9, 10));
    assert!(deadline_is_due(&running, 10, 10));
    stop_at_deadline(&mut running);
    assert!(running.cancel);
    assert_eq!(running.record.state, JobState::CancellationRequested);
    assert!(!deadline_is_due(&running, 10, 10));
    note_timeout(&mut running);
    match service_arena_message(Some(&running), trials("e", true)) {
        Ok(ArenaStep::End { end, .. }) => end_evaluation(&mut running.record, end),
        _ => panic!("the evaluation ends"),
    }
    assert_eq!(running.record.state, JobState::Failed);
    assert_eq!(running.record.terminal, Some(JobTerminal::Failed));
    assert_eq!(running.record.phase, ArenaJobPhase::Terminal);
}

#[test]
fn phases_follow_the_trials() {
    let mut running = active(0);
    count_trials(&mut running, None);
    assert_eq!(running.record.phase, ArenaJobPhase::ParentTrials);
    count_trials(&mut running, Some(1));
    assert_eq!(running.record.completed_trials, 1);
    assert_eq!(running.record.phase, ArenaJobPhase::CandidateTrials);
    start_scoring(&mut running.record);
    assert_eq!(running.record.phase, ArenaJobPhase::Scoring);
    start_commit(&mut running.record);
    assert_eq!(running.record.phase, ArenaJobPhase::Committing);
    assert!(matches!(finish_commit(None), ArenaEnd::Failed));
}

fn identity(run_id: &str, genome_id: &str) -> RunIdentity {
    RunIdentity { run_id: text(run_id), genome_id: text(genome_id), world_id: text("w") }
}

#[test]
fn evidence_must_belong_to_an_admitted_run() {
    let job = identity("job", "g");
    let admitted = vec![identity("t0", "p"), identity("t1", "c")];
    let bare = EvidenceClaim { run_id: text("t1"), provenance: None };
    assert_eq!(service_evidence(&bare, Some(&job), &admitted, true), EvidenceStep::Persist);
    assert_eq!(
        service_evidence(&bare, Some(&job), &admitted, false),
        EvidenceStep::Reject("canonical writer is unavailable")
    );
    let sourced =
        EvidenceClaim { run_id: text("job"), provenance: Some(identity("job", "g")) };
    assert_eq!(service_evidence(&sourced, Some(&job), &Vec::new(), true), EvidenceStep::Persist);
    let crossed = EvidenceClaim { run_id: text("t1"), provenance: Some(identity("t1", "p")) };
    assert_eq!(
        service_evidence(&crossed, Some(&job), &admitted, true),
        EvidenceStep::Reject("writer rejected evidence outside the admitted run")
    );
}

#[test]
fn trials_run_where_their_genome_asks() {
    assert_eq!(execute_trial(true, None, 0, false), Err("paired evaluation was cancelled"));
    assert_eq!(execute_trial(false, Some(0), 1, true), Ok(TrialRunner::Provider(0)));
    assert_eq!(
        execute_trial(false, Some(1), 1, false),
        Err("paired trial has an invalid provider binding")
    );
    assert_eq!(execute_trial(false, None, 1, true), Ok(TrialRunner::Lease));
    assert_eq!(execute_trial(false, None, 1, false), Ok(TrialRunner::Worker));
    assert_eq!(acknowledge_trial(false, Some(Ok(3))), Err(text("canonical writer is unavailable")));
    assert_eq!(
        acknowledge_trial(true, None),
        Err(text("canonical writer did not acknowledge the trial"))
    );
    assert_eq!(acknowledge_trial(true, Some(Ok(3))), Ok(3));
    assert_eq!(acknowledge_trial(true, Some(Err(text("no")))), Err(text("no")));
}

fn registry() -> Registry {
    let mut registry = Registry::new("second".to_owned());
    registry.worlds.insert(
        text("w"),
        WorldEntry {
            record: WorldRecord { world_id: text("w"), name: text("w"), artifact_id: text("a") },
            compiled_id: text("w"),
            visible_manifest: None,
            sealed_manifest: None,
            evaluator: None,
            allow_mixed_environments: false,
            maximum_cost_microusd: 500,
            harness_mutations: true,
            auto_canary_on_drift: false,
        },
    );
    for (genome_id, provider, prompt) in
        [("g", "reference", Some("prompt")), ("h", "codex", None)]
    {
        registry.genomes.insert(
            text(genome_id),
            GenomeEntry {
                record: GenomeRecord {
                    genome_id: text(genome_id),
                    name: text("n"),
                    world_id: text("w"),
                    artifact_id: text("a"),
                    parent_ids: Vec::new(),
                },
                model_provider: text(provider),
                prompt_artifact_id: prompt.map(text),
                registration_sequence: 1,
                compiled_parents: Vec::new(),
                canonical_json: b"{}".to_vec(),
            },
        );
    }
    registry
}

fn running() -> ControlState {
    let mut state = ControlState::new(registry());
    state.frozen = false;
    state
}

#[test]
fn transitions_open_only_an_idle_daemon_to_valid_identities() {
    assert_eq!(open_champion_transition(true, "t"), Err(ExecuteError::Busy));
    assert_eq!(open_champion_transition(false, "t"), Ok(()));
    assert_eq!(
        open_champion_transition(false, "t t"),
        Err(ExecuteError::Invalid("transition_id is invalid"))
    );
    assert_eq!(open_drift(false, ""), Err(ExecuteError::Invalid("drift_id is invalid")));
    assert_eq!(open_canary(false, ""), Err(ExecuteError::Invalid("canary_id is invalid")));
    assert_eq!(
        open_extraction(false, "g", "a/b"),
        Err(ExecuteError::Invalid("promotion_transition_id is invalid"))
    );
    assert_eq!(open_extraction(false, "", "t"), Err(ExecuteError::Invalid("gene_id is invalid")));
    assert_eq!(open_extraction(false, "g", "t"), Ok(()));
    assert_eq!(open_transfer(true, "t"), Err(ExecuteError::Invalid("evolution is frozen")));
    assert_eq!(open_transfer(false, ""), Err(ExecuteError::Invalid("trial_id is invalid")));
    assert_eq!(
        open_transfer_record(false, "t", " "),
        Err(ExecuteError::Invalid("evaluation_id is required"))
    );
    assert_eq!(open_transfer_record(false, "t", "e"), Ok(()));
    assert_eq!(
        admit_transfer(&registry(), "g"),
        Err(rejected("derived transfer child identity is already registered"))
    );
    assert_eq!(admit_transfer(&registry(), "new"), Ok(()));
    assert_eq!(open_speciation(&registry(), false, "s", "w"), Ok(()));
    assert_eq!(open_speciation(&registry(), false, "s", "x"), Err(ExecuteError::NotFound));
}

#[test]
fn transition_commands_become_requests() {
    let seed = Command::ChampionSeed {
        transition_id: text("t"),
        world_id: text("w"),
        genome_id: text("g"),
        reason: text("r"),
    };
    assert!(matches!(champion_transition_command(seed),
        Ok((id, ChampionRequest::Seed { genome_id, .. })) if id == "t" && genome_id == "g"));
    let promote =
        Command::ChampionPromote { transition_id: text("t"), assessment_id: text("a") };
    assert!(matches!(champion_transition_command(promote),
        Ok((_, ChampionRequest::Promote { assessment_id })) if assessment_id == "a"));
    assert!(matches!(champion_transition_command(Command::Status), Err(ExecuteError::Internal)));
    let advance =
        Command::CanaryAdvance { canary_id: text("c"), evidence_evaluation_id: text("e") };
    assert!(matches!(canary_transition_command(advance),
        Ok((id, CanaryRequest::Advance { .. })) if id == "c"));
    assert!(matches!(canary_transition_command(Command::Status), Err(ExecuteError::Internal)));
    assert!(records_contradiction(false, true));
    assert!(!records_contradiction(true, true));
    assert!(!records_contradiction(false, false));
}

fn canary(kind: CanaryTransitionKind, stage: CanaryStage) -> CanaryTransitionPayload {
    CanaryTransitionPayload {
        schema_version: 1,
        canary_id: text("c"),
        world_id: text("w"),
        kind,
        stage,
        candidate_genome_id: text("g"),
        previous_champion_genome_id: text("h"),
        assessment_id: text("a"),
        evidence: Some(CanaryEvidence {
            evidence_evaluation_id: text("e"),
            selection_event_id: text("s"),
            selection_event_hash: text("h"),
            latency_delta_bps: 0,
            cost_delta_bps: 0,
            correctness_delta_bps: 0,
            reliability_delta_bps: 0,
            regressed: true,
        }),
        champion_promotion: None,
        champion_rollback_event_id: None,
        champion_rollback_event_hash: None,
        reason: None,
    }
}

#[test]
fn a_canary_moves_the_champion_at_its_end_alone() {
    let completed = canary(CanaryTransitionKind::Advanced, CanaryStage::Completed);
    assert!(matches!(canary_companion("c", &completed),
        Some(ChampionRequest::Promote { assessment_id }) if assessment_id == "a"));
    let advanced = canary(CanaryTransitionKind::Advanced, CanaryStage::Stage25);
    assert!(canary_companion("c", &advanced).is_none());
    let aborted = canary(CanaryTransitionKind::Aborted, CanaryStage::Aborted);
    assert!(canary_companion("c", &aborted).is_none());
    let mut regressed = canary(CanaryTransitionKind::LiveRegressionDetected, CanaryStage::Completed);
    match canary_companion("c", &regressed) {
        Some(ChampionRequest::Rollback { world_id, reason }) => {
            assert_eq!(world_id, "w");
            assert_eq!(
                reason,
                "canary c automatic rollback: live evaluation e regressed beyond the documented threshold"
            );
        }
        _ => panic!("the Champion is rolled back"),
    }
    bind_rollback(&mut regressed, &[0xab; 32]);
    assert_eq!(regressed.champion_rollback_event_hash, Some("ab".repeat(32)));
}

#[test]
fn reference_runs_are_planned_from_the_registry() {
    let state = running();
    assert_eq!(selected_run_provider(&state.registered, "g"), Ok(None));
    assert_eq!(selected_run_provider(&state.registered, "h"), Ok(Some(0)));
    assert_eq!(selected_run_provider(&state.registered, "x"), Err(ExecuteError::NotFound));
    let context = run_reference(&state, "g").expect("the Genome can run");
    assert_eq!(context.task_id, "repository-inventory-v1");
    assert_eq!(context.seed, 0);
    assert_eq!(context.maximum_cost_microusd, 0);
    assert_eq!(run_reference(&state, "h").expect("it runs").maximum_cost_microusd, 500);
    assert_eq!(run_reference(&state, "x").err(), Some(ExecuteError::NotFound));
    let request = |cost: u64| EvaluationRequest {
        task_id: text("task"),
        input: text("input"),
        seed: 3,
        wall_millis: 5,
        maximum_output_bytes: 6,
        maximum_cost_microusd: cost,
    };
    let context = run_evaluation(&state, "g", request(500)).expect("the Genome can run");
    assert_eq!(context.prompt, "input");
    assert_eq!((context.seed, context.wall_millis), (3, 5));
    assert_eq!(
        run_evaluation(&state, "g", request(501)).err(),
        Some(ExecuteError::Invalid("evaluation cost exceeds registered World Law"))
    );
}

#[test]
fn instructions_are_read_or_refused() {
    let operation = text("identity");
    let bytes = b"{}".to_vec();
    assert_eq!(reference_instruction(Some(&bytes), Some(&operation)), Ok(text("identity")));
    assert_eq!(reference_instruction(None, Some(&operation)), Err(ExecuteError::Internal));
    let invalid = Err(rejected("registered reference instruction is invalid"));
    assert_eq!(reference_instruction(Some(&bytes), None), invalid);
    assert_eq!(reference_instruction(Some(&vec![0xff]), Some(&operation)), invalid);
}

#[test]
fn run_results_keep_their_identity() {
    let execution = remote_execution(RemoteCompletion::ProviderFailure, 9, b"out".to_vec());
    assert_eq!(execution.completion_reason, RunCompletionReason::ProviderFailure);
    assert_eq!(execution.stdout, b"out");
    let genome = &registry().genomes.get("g").unwrap().record.clone();
    let response =
        persist_reference_output("run", genome, "rev", execution, text("so"), text("se"));
    assert!(matches!(&response, ResponseData::Run { latency_millis: 9, stdout_artifact_id, .. }
        if stdout_artifact_id == "so"));
    let identity = runs::RunIdentity {
        run_id: "run",
        genome_id: "g",
        world_id: "w",
        source_revision: "rev",
    };
    assert_eq!(append_run_result(&identity, &response), Ok(()));
    let other = runs::RunIdentity { source_revision: "other", ..identity };
    assert_eq!(append_run_result(&other, &response), Err(ExecuteError::Internal));
    assert_eq!(
        settle_run(Err(ExecuteError::Busy), Err(ExecuteError::Internal), Ok(())),
        Err(ExecuteError::Busy)
    );
    assert_eq!(
        settle_run(Ok(()), Err(ExecuteError::NotFound), Err(ExecuteError::Internal)),
        Err(ExecuteError::NotFound)
    );
    assert!(settle_run(Ok(()), Ok(response), Err(ExecuteError::Internal)).is_err());
    assert_eq!(trial_lease_id("e", 12), "arena:e:trial:12");
}

fn trace(sequence: u64, run_id: &str, artifact_id: &str) -> RecordedEvent {
    RecordedEvent {
        event: StoredEvent {
            sequence,
            event_id: format!("trace:{sequence}"),
            aggregate_id: text("run"),
            event_type: text("trace.recorded"),
            actor: text("experience-plane"),
            timestamp_millis: 7,
            payload: b"{}".to_vec(),
            hash: [0; 32],
        },
        payload: EventPayload::Trace(
            TraceReceipt {
                event_id: format!("trace:{sequence}"),
                kind: TraceKind::ToolCalled,
                run_id: text(run_id),
                genome_id: text("g"),
                world_id: text("w"),
                artifact_id: text(artifact_id),
            },
            TraceAddresses { genome: true, world: true, artifact: true },
        ),
    }
}

#[test]
fn traces_of_a_run_are_collected_in_order() {
    let mut history = vec![trace(1, "r", "a"), trace(2, "other", "b"), trace(3, "r", "c")];
    assert_eq!(trace_artifacts_for_run(&history, "r"), Ok(vec![text("a"), text("c")]));
    history[1].payload = EventPayload::Opaque;
    assert_eq!(trace_artifacts_for_run(&history, "r"), Err(ExecuteError::Internal));
}

#[test]
fn arena_faults_are_answered_by_what_was_asked() {
    assert_eq!(open_evaluation_read(""), Err(ExecuteError::Invalid("evaluation_id is required")));
    assert_eq!(
        open_analysis("a", " "),
        Err(ExecuteError::Invalid("analysis_id and evaluation_id are required"))
    );
    assert_eq!(open_analysis("a", "e"), Ok(()));
    assert_eq!(map_selection_error(&ArenaFault::UnknownEvaluation), ExecuteError::NotFound);
    assert_eq!(
        map_selection_error(&ArenaFault::UnsupportedSelectionConfidence(9000)),
        rejected("registered World confidence 9000 bps is unsupported for Arena selection")
    );
    assert_eq!(
        map_selection_error(&ArenaFault::BootstrapWorkExceeded),
        rejected("Arena selection exceeds its deterministic bootstrap work limit")
    );
    assert_eq!(map_selection_error(&ArenaFault::Other), ExecuteError::Internal);
    assert_eq!(
        map_invariant_error(ArenaFault::MissingInvariantManifest),
        rejected("registered World has no reference-output invariant profile")
    );
    assert_eq!(map_invariant_error(ArenaFault::InvariantConflict(text("c"))), rejected("c"));
    assert_eq!(map_invariant_error(ArenaFault::UnknownInvariantCheck), ExecuteError::NotFound);
    assert_eq!(map_cluster_error(ArenaFault::ClusterConflict(text("c"))), rejected("c"));
    assert_eq!(
        map_cluster_error(ArenaFault::InvalidId),
        ExecuteError::Invalid("analysis_id is invalid")
    );
    assert_eq!(recall_invariants::<u8>(Err(ArenaFault::UnknownInvariantCheck)), Ok(None));
    assert_eq!(recall_invariants(Ok(1u8)), Ok(Some(1)));
    assert_eq!(recall_analysis::<u8>(Err(ArenaFault::UnknownClusterAnalysis)), Ok(None));
    assert_eq!(
        recall_analysis::<u8>(Err(ArenaFault::UnknownEvaluation)),
        Err(ExecuteError::NotFound)
    );
}

#[test]
fn sources_are_registered_once() {
    let registry = registry();
    let key = [7u8; 32];
    assert!(matches!(
        register_world(&registry, "w", None, &key),
        Ok(Registration::Existing(record)) if record.name == "w"
    ));
    assert!(matches!(register_world(&registry, "x", None, &key), Ok(Registration::Register)));
    assert!(matches!(
        register_world(&registry, "x", Some(Some(&key[..])), &key),
        Ok(Registration::Register)
    ));
    assert!(matches!(
        register_world(&registry, "x", Some(None), &key),
        Err(ExecuteError::Internal)
    ));
    assert_eq!(
        register_world(&registry, "x", Some(Some(&[8u8; 32][..])), &key).err(),
        Some(rejected(
            "World arena.runtime_verifier is not this daemon's runtime producer key; run `hephaestus verifier` and reference its artifact"
        ))
    );
    assert!(matches!(register_genome(&registry, "x", "w"), Ok(Registration::Register)));
    assert!(matches!(register_genome(&registry, "g", "w"), Ok(Registration::Existing(_))));
    assert_eq!(
        register_genome(&registry, "g", "v").err(),
        Some(rejected("Genome content is already registered under World w"))
    );
    assert_eq!(world_envelope("w").event_id, "world:w:registered");
    assert_eq!(genome_envelope("g").event_type, "genome.registered");
    assert_eq!(reject_manifest("m"), rejected("manifest rejected: m"));
    assert_eq!(reject_world("m"), rejected("World source rejected: m"));
    assert_eq!(reject_genome("m"), rejected("Genome source rejected: m"));
}

#[test]
fn prompts_are_shown_as_text() {
    assert_eq!(genome_prompt_artifact(&registry(), "g"), Ok(text("prompt")));
    assert_eq!(genome_prompt_artifact(&registry(), "h"), Err(ExecuteError::NotFound));
    assert_eq!(genome_prompt_artifact(&registry(), "x"), Err(ExecuteError::NotFound));
    assert!(matches!(genome_prompt("g", Some("h\u{e9}".as_bytes().to_vec())),
        Ok(ResponseData::GenomePrompt { prompt, .. }) if prompt == "h\u{e9}"));
    for bytes in [None, Some(vec![0xff]), Some(b"  ".to_vec()), Some(vec![b'a'; 2_000_000])] {
        assert_eq!(genome_prompt("g", bytes), Err(ExecuteError::Internal));
    }
    assert!(matches!(verifier_show(text("a"), &[1; 32]),
        ResponseData::Verifier { public_key_hex, .. } if public_key_hex == "01".repeat(32)));
}

#[test]
fn a_selection_is_shown_with_its_event() {
    let receipt = SelectionReceipt {
        evaluation_id: text("e"),
        evaluation_event_id: text("ee"),
        evaluation_event_hash: text("eh"),
        world_id: text("w"),
        parent_genome_id: text("p"),
        candidate_genome_id: text("c"),
        metrics_eligible: true,
        estimate_bps: 1,
        lower_bps: 0,
        upper_bps: 2,
        parent_cost_microusd: 0,
        candidate_cost_microusd: 0,
        parent_latency_millis: 0,
        candidate_latency_millis: 0,
        invariant_gate_verified: false,
        promotion_eligible: false,
    };
    let event = SelectionEventRecord {
        sequence: 4,
        event_id: text("se"),
        aggregate_id: text("ag"),
        event_type: text("selection.recorded"),
        actor: text("arena"),
        event_hash: text("h"),
        receipt_artifact_id: text("ra"),
    };
    let record = selection_record("w", receipt, event);
    assert_eq!(record.evaluation_id, "e");
    assert_eq!(record.world_id, "w");
    assert_eq!(record.event.sequence, 4);
}

fn settled<R, P>(existing: Result<Option<R>, ExecuteError>, payload: Result<P, ExecuteError>) -> TransitionFacts<R, P> {
    TransitionFacts { verified: true, existing, payload }
}

fn champion() -> ChampionTransitionPayload {
    ChampionTransitionPayload {
        schema_version: 1,
        transition_id: text("t"),
        world_id: text("w"),
        kind: ChampionTransitionKind::Seeded,
        champion_genome_id: text("g"),
        previous_champion_genome_id: None,
        previous_transition_event_id: None,
        previous_transition_event_hash: None,
        promotion: None,
        reason: Some(text("r")),
    }
}

fn drifted() -> DriftRecordPayload {
    DriftRecordPayload {
        schema_version: 1,
        drift_id: text("d"),
        world_id: text("w"),
        kind: DriftKind::Cost,
        evidence_evaluation_id: text("e"),
        selection_event_id: text("s"),
        selection_event_hash: text("h"),
        baseline_genome_id: text("b"),
        shifted_genome_id: text("g"),
        threshold_bps: 1,
        observed_delta_bps: 2,
    }
}

#[test]
fn transitions_are_recorded_once() {
    assert!(matches!(
        transition_champion(false, "t", settled(Ok(None), Ok(champion()))),
        Ok(Transition::Record(payload)) if payload == champion()
    ));
    assert_eq!(
        transition_champion(true, "t", settled(Ok(None), Ok(champion()))),
        Err(ExecuteError::Busy)
    );
    let unverified = TransitionFacts { verified: false, ..settled(Ok(None), Ok(champion())) };
    assert_eq!(transition_champion(false, "t", unverified), Err(ExecuteError::Internal));
    assert_eq!(
        transition_champion(false, "t", settled(Ok(None), Err(rejected("no")))),
        Err(rejected("no"))
    );
    assert_eq!(
        transition_champion(false, "t", settled(Err(rejected("bound")), Ok(champion()))),
        Err(rejected("bound"))
    );
    let record = DriftRecord {
        payload: drifted(),
        event: DriftEventRecord {
            sequence: 1,
            event_id: text("de"),
            aggregate_id: text("da"),
            event_hash: text("dh"),
        },
    };
    assert!(matches!(
        record_drift(false, "d", settled(Ok(Some(record)), Err(ExecuteError::Internal))),
        Ok(Transition::Existing(_))
    ));
    assert_eq!(
        gene_extract(false, "g", "", settled(Ok(None), Err(ExecuteError::Internal))),
        Err(ExecuteError::Invalid("promotion_transition_id is invalid"))
    );
    assert_eq!(
        gene_speciate(&registry(), false, "s", "x", settled(Ok(None), Err(ExecuteError::Internal))),
        Err(ExecuteError::NotFound)
    );
}

#[test]
fn a_transfer_derives_a_new_child_and_is_applied_before_its_outcome() {
    let applied = |child: &str| GeneTransferAppliedPayload {
        schema_version: 1,
        trial_id: text("t"),
        gene_id: text("gene"),
        gene_event_id: text("ge"),
        gene_event_hash: text("gh"),
        to_genome_id: text("g"),
        world_id: text("w"),
        child: GenomeRecord {
            genome_id: text(child),
            name: text("n"),
            world_id: text("w"),
            artifact_id: text("a"),
            parent_ids: vec![text("g")],
        },
        prompt_artifact_before: text("b"),
        prompt_artifact_after: text("a"),
    };
    assert!(matches!(
        gene_transfer_apply(&registry(), false, "t", settled(Ok(None), Ok(applied("new")))),
        Ok(Transition::Record(_))
    ));
    assert_eq!(
        gene_transfer_apply(&registry(), false, "t", settled(Ok(None), Ok(applied("h")))),
        Err(rejected("derived transfer child identity is already registered"))
    );
    let outcome = |recorded: bool, decodes: bool| {
        gene_transfer_record(
            false,
            "t",
            "e",
            AppliedTransfer { recorded, decodes },
            settled(Ok(None), Err(rejected("policy"))),
        )
    };
    assert_eq!(outcome(false, false), Err(ExecuteError::NotFound));
    assert_eq!(outcome(true, false), Err(ExecuteError::Internal));
    assert_eq!(outcome(true, true), Err(rejected("policy")));
}

#[test]
fn a_canary_transition_names_its_companion() {
    let completed = canary(CanaryTransitionKind::Advanced, CanaryStage::Completed);
    assert!(matches!(
        transition_canary(false, "c", settled(Ok(None), Ok(completed))),
        Ok(CanaryStep::Record { companion: Some(ChampionRequest::Promote { .. }), .. })
    ));
    let started = canary(CanaryTransitionKind::Started, CanaryStage::Pending);
    assert!(matches!(
        transition_canary(false, "c", settled(Ok(None), Ok(started))),
        Ok(CanaryStep::Record { companion: None, .. })
    ));
    assert_eq!(
        transition_canary(false, "c c", settled(Ok(None), Err(ExecuteError::Internal))),
        Err(ExecuteError::Invalid("canary_id is invalid"))
    );
}

#[test]
fn invariants_are_checked_once() {
    let check = |evaluation_id: &str, world_id: &str, loaded: ArenaFault, checked: Option<ArenaFault>| {
        check_arena_invariants(
            &registry(),
            evaluation_id,
            Ok(runs::OperatorEvaluation { world_id: text(world_id) }),
            Err::<InvariantRecord, ArenaFault>(loaded),
            checked.map(Err),
        )
    };
    let unknown = || ArenaFault::UnknownInvariantCheck;
    assert_eq!(
        check("", "w", unknown(), None),
        Err(ExecuteError::Invalid("evaluation_id is required"))
    );
    assert_eq!(check("e", "x", unknown(), None), Err(ExecuteError::NotFound));
    assert_eq!(check("e", "w", unknown(), None), Err(ExecuteError::Internal));
    assert_eq!(
        check("e", "w", unknown(), Some(ArenaFault::InvariantConflict(text("c")))),
        Err(rejected("c"))
    );
    assert_eq!(
        check("e", "w", ArenaFault::MissingInvariantManifest, None),
        Err(rejected("registered World has no reference-output invariant profile"))
    );
    assert_eq!(
        select_arena_evaluation(&registry(), "e", Err(ArenaFault::UnknownEvaluation), None),
        Err(ExecuteError::NotFound)
    );
    assert_eq!(
        select_arena_evaluation(
            &registry(),
            "e",
            Ok(runs::OperatorEvaluation { world_id: text("w") }),
            Some(Err(ArenaFault::BootstrapWorkExceeded))
        ),
        Err(rejected("Arena selection exceeds its deterministic bootstrap work limit"))
    );
}

fn snapshot(running: bool) -> RunSnapshot {
    RunSnapshot {
        running,
        completion_reason: Some(RunCompletionReason::Success),
        elapsed_millis: 12,
        stdout: Some(b"out".to_vec()),
        stderr: Some(b"err".to_vec()),
        trace_artifact_ids: vec![text("trace")],
        actual_cost_microusd: 3,
    }
}

#[test]
fn a_run_is_watched_to_its_end() {
    let ready = || Preparation {
        worker_intact: true,
        sandbox_opened: true,
        sandbox_created: true,
        configured: true,
    };
    assert_eq!(prepare_run(Executor::Worker, &ready()), Ok(()));
    let changed = Preparation { worker_intact: false, ..ready() };
    assert_eq!(
        prepare_run(Executor::Worker, &changed),
        Err("reference worker identity check failed")
    );
    assert_eq!(prepare_run(Executor::Provider, &changed), Ok(()));
    let unconfigured = Preparation { configured: false, ..ready() };
    assert_eq!(
        prepare_run(Executor::Provider, &unconfigured),
        Err("guarded provider could not be configured")
    );
    assert_eq!(watch_run(Executor::Worker, false, false, Some(snapshot(true))), Watch::Again);
    assert_eq!(
        watch_run(Executor::Provider, true, false, Some(snapshot(true))),
        Watch::Failed("guarded provider did not confirm cancellation")
    );
    assert_eq!(
        watch_run(Executor::Worker, false, false, None),
        Watch::Failed("guarded worker status failed")
    );
    let silent = RunSnapshot { completion_reason: None, ..snapshot(false) };
    assert_eq!(
        watch_run(Executor::Worker, false, false, Some(silent)),
        Watch::Failed("terminal worker omitted completion reason")
    );
    let endless = RunSnapshot { elapsed_millis: u128::from(u64::MAX) + 1, ..snapshot(false) };
    assert_eq!(
        watch_run(Executor::Provider, false, false, Some(endless)),
        Watch::Failed("provider latency is invalid")
    );
    let execution = match watch_run(Executor::Worker, true, true, Some(snapshot(false))) {
        Watch::Ended(execution) => execution,
        other => panic!("{other:?}"),
    };
    assert_eq!(execution.latency_millis, 12);
    assert_eq!(execution.trace_artifact_ids, vec![text("trace")]);
    assert_eq!(
        settle_watched_run(Executor::Worker, true, false, Err("earlier")),
        Err("reference worker identity changed")
    );
    assert_eq!(
        settle_watched_run(Executor::Provider, false, false, Err("earlier")),
        Err("sandbox cleanup failed")
    );
    assert_eq!(settle_watched_run(Executor::Provider, true, false, Err("earlier")), Err("earlier"));
    assert!(settle_watched_run(Executor::Worker, true, true, Ok(execution)).is_ok());
}

#[test]
fn a_direct_run_keeps_the_recorded_traces() {
    assert_eq!(watch_direct_run(true, Some(snapshot(true)), Ok(Vec::new())), Ok(None));
    assert_eq!(
        watch_direct_run(false, Some(snapshot(true)), Ok(Vec::new())),
        Err(ExecuteError::Internal)
    );
    assert_eq!(watch_direct_run(true, None, Ok(Vec::new())), Err(ExecuteError::Internal));
    let ended = watch_direct_run(true, Some(snapshot(false)), Ok(vec![text("a"), text("b")]))
        .expect("the run ended")
        .expect("the run ended");
    assert_eq!(ended.trace_artifact_ids, vec![text("a"), text("b")]);
}

#[test]
fn trials_go_on_only_once_acknowledged() {
    let mut trials = TrialLoop { next: 0, total: 2, sequence: 5 };
    assert_eq!(
        execute_async_arena_trials(&trials, false, None, 0, true),
        TrialLoopStep::Run { index: 0, runner: TrialRunner::Lease }
    );
    assert_eq!(
        execute_async_arena_trials(&trials, true, None, 0, true),
        TrialLoopStep::Finish(Err("paired evaluation was cancelled"))
    );
    assert!(take_acknowledgement(&mut trials, true, None).is_err());
    assert_eq!(trials.next, 0);
    assert_eq!(take_acknowledgement(&mut trials, true, Some(Ok(9))), Ok(()));
    assert_eq!(trials, TrialLoop { next: 1, total: 2, sequence: 9 });
    assert_eq!(take_acknowledgement(&mut trials, true, Some(Ok(11))), Ok(()));
    assert_eq!(
        execute_async_arena_trials(&trials, true, None, 0, true),
        TrialLoopStep::Finish(Ok(()))
    );
    assert_eq!(
        execute_arena_trial_remotely(false, Some(b"f".to_vec())),
        Err("remote Arena trial has no reference instruction")
    );
    assert_eq!(
        execute_arena_trial_remotely(true, None),
        Err("remote Arena trial frame could not be built")
    );
}

#[test]
fn trials_belong_to_the_parent_then_to_the_candidate() {
    let record = pair(0, JobState::Running);
    let runs = trial_runs(&record);
    assert_eq!(runs.len(), record.ordered_trial_run_ids.len());
    for (place, run) in runs.iter().enumerate() {
        assert_eq!(run.run_id, record.ordered_trial_run_ids[place]);
        assert_eq!(run.world_id, record.world_id);
        let parent = place < record.parent_trial_count as usize;
        assert_eq!(run.genome_id == record.parent_genome_id, parent);
    }
}

#[test]
fn a_passed_deadline_comes_first() {
    let mut running = active(0);
    assert_eq!(enforce_arena_deadline(Some(&running), 10, 10), ServiceTurn::Deadline);
    assert_ne!(enforce_arena_deadline(Some(&running), 9, 10), ServiceTurn::Deadline);
    note_timeout(&mut running);
    assert_ne!(enforce_arena_deadline(Some(&running), 10, 10), ServiceTurn::Deadline);
}
