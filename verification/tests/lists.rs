use hephaestus_control::api::{execute, Step};
use hephaestus_control::error::{ControlError, ExecuteError};
use hephaestus_control::evidence::{ArenaEvidence, EvidenceCache};
use hephaestus_control::lists::{
    champion_transition_ids_for, denial_list, evaluation_entry, evaluation_list, find_summarized,
    newest_first, recent_evaluations, run_list, Dated, ListedEvaluation,
};
use hephaestus_control::projection::{
    refresh_projection, replay_response, verify_history, verify_projection, HistoryEvidence,
};
use hephaestus_control::protocol::{
    ChampionPromotionEvidence, ChampionTransitionKind, ChampionTransitionPayload, Command,
    DenialKind, EvaluationEventRecord, EvaluationRecord, ForgeAssessmentOutcome,
    ForgeAssessmentPayload, JobRecord, JobState, McpDecision, ResponseData,
};
use hephaestus_control::jobs::JobAddresses;
use hephaestus_control::records::{
    InvariantReceipt, RecordedCommand, RunBudgetReceipt, RunCompletionReason, RunResultReceipt,
    StoredEvent, TraceKind, TraceReceipt, WorldRecord,
};
use hephaestus_control::registry::{Registry, WorldEntry};
use hephaestus_control::state::{
    ControlState, EvaluationReference, EventPayload, RecordedEvent, TraceAddresses,
};

fn text(value: &str) -> String {
    value.to_owned()
}

fn recorded(sequence: u64, event_type: &str, payload: EventPayload) -> RecordedEvent {
    RecordedEvent {
        event: StoredEvent {
            sequence,
            event_id: format!("event-{sequence}"),
            aggregate_id: text("aggregate"),
            event_type: text(event_type),
            actor: text("local-operator"),
            timestamp_millis: sequence as i64,
            payload: b"{}".to_vec(),
            hash: [0; 32],
        },
        payload,
    }
}

fn budget() -> RunBudgetReceipt {
    RunBudgetReceipt { wall_millis: 1, maximum_output_bytes: 1, maximum_cost_microusd: 0 }
}

fn job(sequence: u64, event_type: &str, job_id: &str, run_id: &str, state: JobState) -> RecordedEvent {
    let record = JobRecord {
        job_id: text(job_id),
        genome_id: text("g"),
        run_id: text(run_id),
        source_revision: text("r"),
        world_id: text("w"),
        task_id: text("t"),
        input_commitment: text("i"),
        seed: 0,
        environment_id: text("en"),
        budget: budget(),
        state,
        terminal: None,
    };
    let addresses = JobAddresses { genome: true, world: true, environment: true };
    recorded(sequence, event_type, EventPayload::Job(record, addresses))
}

fn result(sequence: u64, run_id: &str, completion_reason: RunCompletionReason) -> RecordedEvent {
    let receipt = RunResultReceipt {
        run_id: text(run_id),
        genome_id: text("g"),
        world_id: text("w"),
        source_revision: text("r"),
        task_id: text("t"),
        input_commitment: text("i"),
        seed: 0,
        environment_id: text("en"),
        budget: budget(),
        completion_reason,
        latency_millis: sequence,
        actual_cost_microusd: 3,
        stdout_artifact_id: text("so"),
        stderr_artifact_id: text("se"),
        trace_artifact_ids: Vec::new(),
    };
    recorded(sequence, "run.result_recorded", EventPayload::RunResult(receipt))
}

#[test]
fn the_newest_entries_come_first() {
    let dated = |sequence: u64, entry: &str| Dated { sequence, entry: text(entry) };
    let entries = || vec![dated(2, "b"), dated(5, "e"), dated(2, "c"), dated(4, "d")];
    assert_eq!(newest_first(entries(), 10), vec![text("e"), text("d"), text("b"), text("c")]);
    assert_eq!(newest_first(entries(), 2), vec![text("e"), text("d")]);
    assert_eq!(newest_first(entries(), 0), Vec::<String>::new());
}

#[test]
fn runs_are_listed_by_their_latest_event() {
    let history = vec![
        job(1, "job.admitted", "j1", "r1", JobState::Admitted),
        job(2, "job.admitted", "j2", "r2", JobState::Admitted),
        job(3, "job.running", "j1", "r1", JobState::Running),
        result(4, "direct", RunCompletionReason::OperatorInterrupt),
        result(5, "r2", RunCompletionReason::Success),
    ];
    let runs = run_list(&history, 10);
    let names: Vec<&str> = runs.iter().map(|entry| entry.run_id.as_str()).collect();
    assert_eq!(names, vec!["r2", "direct", "r1"]);
    assert_eq!(runs[0].job_id, Some(text("j2")));
    assert_eq!(runs[0].latency_millis, Some(5));
    assert_eq!(runs[1].job_id, None);
    assert_eq!(runs[1].state, JobState::Interrupted);
    assert_eq!(runs[2].state, JobState::Running);
    assert_eq!(runs[2].completion_reason, None);
    assert_eq!(run_list(&history, 1).len(), 1);
}

fn audited(sequence: u64, event_type: &str, command: Command) -> RecordedEvent {
    recorded(
        sequence,
        event_type,
        EventPayload::Command(RecordedCommand { request_id: text("r"), command }),
    )
}

fn call(decision: McpDecision) -> Command {
    Command::McpCall {
        client_id: text("client"),
        tool: text("tool"),
        tool_version: 1,
        decision,
    }
}

fn trace(sequence: u64, kind: TraceKind) -> RecordedEvent {
    let receipt = TraceReceipt {
        event_id: text("t"),
        kind,
        run_id: text("run"),
        genome_id: text("g"),
        world_id: text("w"),
        artifact_id: text("a"),
    };
    let addresses = TraceAddresses { genome: true, world: true, artifact: true };
    recorded(sequence, "trace.recorded", EventPayload::Trace(receipt, addresses))
}

#[test]
fn denials_are_listed_from_what_records_one() {
    let history = vec![
        audited(1, "control.freeze", Command::Freeze),
        audited(2, "control.request_rejected", Command::Freeze),
        audited(3, "mcp.call", call(McpDecision::Denied { reason: text("no") })),
        audited(
            4,
            "mcp.call",
            call(McpDecision::Allowed { command: Box::new(Command::Status) }),
        ),
        trace(5, TraceKind::CapabilityDenied),
        trace(6, TraceKind::ToolCalled),
    ];
    let denials = denial_list(&history, 10);
    assert_eq!(denials.len(), 3);
    assert_eq!(denials[0].kind, DenialKind::RuntimeCapabilityDenied);
    assert_eq!(denials[0].run_id, Some(text("run")));
    assert_eq!(denials[1].kind, DenialKind::McpCallDenied);
    assert_eq!(denials[1].client_id, Some(text("client")));
    assert_eq!(denials[1].command, None);
    assert_eq!(denials[1].request_id, None);
    assert_eq!(denials[2].kind, DenialKind::RequestRejected);
    assert_eq!(denials[2].command, Some(text("freeze")));
    assert_eq!(denials[2].timestamp_millis, 2);
}

fn registry() -> Registry {
    let mut registry = Registry::new("second".to_owned());
    registry.worlds.insert(
        text("w"),
        WorldEntry {
            record: WorldRecord { world_id: text("w"), name: text("w"), artifact_id: text("a") },
            compiled_id: text("w"),
            visible_manifest: None,
            sealed_manifest: None,
            evaluator: None,
            allow_mixed_environments: false,
            maximum_cost_microusd: 0,
            harness_mutations: true,
            auto_canary_on_drift: false,
        },
    );
    registry
}

fn reference(sequence: u64, evaluation_id: &str, world_id: &str) -> RecordedEvent {
    recorded(
        sequence,
        "selection.recorded",
        EventPayload::Reference(EvaluationReference {
            evaluation_id: text(evaluation_id),
            world_id: text(world_id),
        }),
    )
}

#[test]
fn a_summary_is_found_by_its_evaluation() {
    let registry = registry();
    let mut history =
        vec![reference(1, "other", "w"), reference(2, "e", "w"), reference(3, "lost", "x")];
    assert_eq!(find_summarized(&registry, &history, "selection.recorded", "e"), Ok(Some(1)));
    assert_eq!(find_summarized(&registry, &history, "selection.recorded", "none"), Ok(None));
    assert_eq!(
        find_summarized(&registry, &history, "selection.recorded", "lost"),
        Err(ExecuteError::Internal)
    );
    history[0].payload = EventPayload::Opaque;
    assert_eq!(
        find_summarized(&registry, &history, "selection.recorded", "e"),
        Err(ExecuteError::Internal)
    );
}

fn assessment(sequence: u64, assessment_id: &str) -> RecordedEvent {
    let payload = ForgeAssessmentPayload {
        schema_version: 1,
        assessment_id: text(assessment_id),
        proposal_id: text("p"),
        proposal_event_id: text("pe"),
        proposal_event_hash: text("ph"),
        selection_event_id: text("se"),
        selection_event_hash: text("sh"),
        selection_receipt_artifact_id: text("sa"),
        evaluation_id: text("e"),
        evaluation_event_id: text("ee"),
        evaluation_event_hash: text("eh"),
        world_id: text("w"),
        parent_genome_id: text("p"),
        child_genome_id: text("c"),
        outcome: ForgeAssessmentOutcome::MetricsPassed,
        invariant_gate_verified: false,
        promotion_eligible: false,
    };
    recorded(sequence, "forge.assessed", EventPayload::ForgeAssessment(payload, b"{}".to_vec()))
}

fn promotion(sequence: u64, transition_id: &str, evaluation_id: &str) -> RecordedEvent {
    let payload = ChampionTransitionPayload {
        schema_version: 1,
        transition_id: text(transition_id),
        world_id: text("w"),
        kind: ChampionTransitionKind::Promoted,
        champion_genome_id: text("c"),
        previous_champion_genome_id: None,
        previous_transition_event_id: None,
        previous_transition_event_hash: None,
        promotion: Some(ChampionPromotionEvidence {
            assessment_id: text("a1"),
            assessment_event_id: text("ae"),
            assessment_event_hash: text("ah"),
            evaluation_id: text(evaluation_id),
            selection_receipt_artifact_id: text("sa"),
            invariant_event_id: text("ie"),
            invariant_event_hash: text("ih"),
            invariant_receipt_artifact_id: text("ia"),
        }),
        reason: None,
    };
    recorded(sequence, "champion.promoted", EventPayload::ChampionTransition(payload))
}

#[test]
fn an_evaluation_is_listed_with_what_came_of_it() {
    let history = vec![
        assessment(1, "a1"),
        assessment(2, "a2"),
        promotion(3, "t1", "e"),
        promotion(4, "t2", "other"),
        promotion(5, "t3", "e"),
    ];
    assert_eq!(champion_transition_ids_for(&history, "e"), vec![text("t1"), text("t3")]);
    let evaluation = EvaluationRecord {
        evaluation_id: text("e"),
        world_id: text("w"),
        parent_genome_id: text("p"),
        candidate_genome_id: text("c"),
        parent_visible_correct: 1,
        candidate_visible_correct: 2,
        visible_total: 3,
        event: EvaluationEventRecord {
            sequence: 1,
            event_id: text("ev"),
            aggregate_id: text("ag"),
            event_type: text("evaluation.recorded"),
            actor: text("arena"),
            timestamp_millis: 7,
        },
    };
    let invariants = InvariantReceipt {
        evaluation_id: text("e"),
        world_id: text("w"),
        total_checks: 4,
        total_candidate_violations: 1,
        total_paired_regressions: 0,
        maximum_regressions: 2,
        regressions_within_budget: true,
        candidate_contract_satisfied: false,
    };
    let entry = evaluation_entry(&history, evaluation, None, Some(&invariants));
    assert_eq!(entry.selection, None);
    let summary = entry.invariants.expect("the invariants are summarized");
    assert_eq!(summary.total_checks, 4);
    assert!(!summary.candidate_contract_satisfied);
    assert_eq!(entry.forge_assessment.expect("assessed").assessment_id, "a1");
    assert_eq!(entry.champion_transition_ids, vec![text("t1"), text("t3")]);
}

#[test]
fn recent_evaluations_come_newest_first() {
    let mut state = ControlState::new(registry());
    state.evaluation_events.insert(text("a"), 3);
    state.evaluation_events.insert(text("b"), 9);
    state.evaluation_events.insert(text("c"), 5);
    assert_eq!(recent_evaluations(&state, 2), vec![text("b"), text("c")]);
}

fn evidence() -> HistoryEvidence {
    HistoryEvidence {
        selections: Vec::new(),
        proposals: Vec::new(),
        assessments: Vec::new(),
        invariants: Vec::new(),
        clusters: Vec::new(),
        champions: Ok(()),
        genes: Ok(()),
        evolution: Ok(()),
        meta_evolution: Ok(()),
        drifts: Ok(()),
        canaries: Ok(()),
        adaptations: Ok(()),
    }
}

#[test]
fn a_history_stops_at_its_first_unverified_family() {
    let fault = |message: &str| Err(ControlError::Projection(text(message)));
    let mut cache = EvidenceCache::new();
    let registry = registry();
    assert_eq!(verify_history(&Vec::new(), &registry, "cluster:", evidence(), &mut cache), Ok(()));
    let broken =
        HistoryEvidence { genes: fault("genes"), canaries: fault("canaries"), ..evidence() };
    assert_eq!(
        verify_history(&Vec::new(), &registry, "cluster:", broken, &mut cache),
        fault("genes")
    );
    let broken = HistoryEvidence { adaptations: fault("adaptations"), ..evidence() };
    assert_eq!(
        verify_history(&Vec::new(), &registry, "cluster:", broken, &mut cache),
        fault("adaptations")
    );
    let state = ControlState::new(registry);
    let none: Vec<ArenaEvidence> = Vec::new();
    assert_eq!(verify_projection(&Vec::new(), &state, &Vec::new(), &none, &mut cache), Ok(()));
}

#[test]
fn a_projection_is_taken_only_when_all_of_it_verified() {
    let state = || Ok(ControlState::new(registry()));
    let broken = || Err(ControlError::Projection(text("broken")));
    assert!(refresh_projection(Ok(()), state(), Ok(())).is_ok());
    assert!(matches!(refresh_projection(broken(), state(), Ok(())), Err(ExecuteError::Internal)));
    assert!(matches!(
        refresh_projection(Ok(()), Err(ControlError::Artifact), Ok(())),
        Err(ExecuteError::Internal)
    ));
    assert!(matches!(refresh_projection(Ok(()), state(), broken()), Err(ExecuteError::Internal)));
}

#[test]
fn a_replay_answers_with_the_digest_of_an_equal_snapshot() {
    let canonical = b"snapshot".to_vec();
    let live = ControlState::new(registry());
    let replayed = || Ok(ControlState::new(registry()));
    match replay_response(replayed(), &live, Some(&canonical)) {
        Ok(ResponseData::Replay { event_count, frozen, active_runs, projection_hash }) => {
            assert_eq!((event_count, frozen, active_runs), (0, true, 0));
            assert_eq!(projection_hash, blake3::hash(b"snapshot").to_hex().to_string());
        }
        _ => panic!("the replay is answered"),
    }
    let refused = |live: &ControlState| replay_response(replayed(), live, Some(&canonical));
    let mut other = ControlState::new(registry());
    other.frozen = false;
    assert_eq!(refused(&other), Err(ExecuteError::Internal));
    let mut other = ControlState::new(registry());
    other.evaluation_events.insert(text("e"), 3);
    assert_eq!(refused(&other), Err(ExecuteError::Internal));
    let mut other = ControlState::new(registry());
    other.active_runs.insert(text("r"), ());
    assert_eq!(refused(&other), Err(ExecuteError::Internal));
    assert_eq!(refused(&ControlState::new(Registry::new("second".to_owned()))), Err(ExecuteError::Internal));
    assert_eq!(replay_response(replayed(), &live, None), Err(ExecuteError::Internal));
    assert_eq!(
        replay_response(Err(ControlError::Artifact), &live, Some(&canonical)),
        Err(ExecuteError::Internal)
    );
}

#[test]
fn commands_are_answered_run_or_carried_out() {
    let mut state = ControlState::new(registry());
    state.event_count = 41;
    assert!(matches!(execute(&state, false, Command::Status), Step::Answer(Ok(_))));
    assert!(matches!(
        execute(&state, true, Command::DaemonStop),
        Step::CancelRunning(Err(ExecuteError::Busy))
    ));
    assert!(matches!(execute(&state, false, Command::DaemonStop), Step::Stop(_)));
    assert!(matches!(execute(&state, false, Command::KillAll), Step::CancelRunning(Ok(_))));
    assert!(matches!(
        execute(&state, false, Command::RunReference { genome_id: text("g") }),
        Step::Run { run_id, .. } if run_id == "reference-41"
    ));
    assert!(matches!(
        execute(&state, false, Command::WorldShow { world_id: text("x") }),
        Step::Answer(Err(ExecuteError::NotFound))
    ));
    assert!(matches!(
        execute(&state, false, call(McpDecision::Denied { reason: text("no") })),
        Step::Answer(Ok(ResponseData::McpDenied { reason })) if reason == "no"
    ));
    assert!(matches!(
        execute(
            &state,
            false,
            call(McpDecision::Allowed { command: Box::new(Command::Freeze) })
        ),
        Step::Nested(Command::Freeze)
    ));
    assert!(matches!(
        execute(&state, false, Command::ChampionPromote {
            transition_id: text("t"),
            assessment_id: text("a"),
        }),
        Step::Perform(Command::ChampionPromote { .. })
    ));
}

#[test]
fn a_list_of_evaluations_fails_as_its_first_fault() {
    let evaluation = |id: &str| EvaluationRecord {
        evaluation_id: text(id),
        world_id: text("w"),
        parent_genome_id: text("p"),
        candidate_genome_id: text("c"),
        parent_visible_correct: 1,
        candidate_visible_correct: 2,
        visible_total: 3,
        event: EvaluationEventRecord {
            sequence: 1,
            event_id: text("ev"),
            aggregate_id: text("ag"),
            event_type: text("evaluation.recorded"),
            actor: text("arena"),
            timestamp_millis: 7,
        },
    };
    let listed = |id: &str| ListedEvaluation {
        evaluation: Some(evaluation(id)),
        selection: Ok(None),
        invariants: Ok(None),
    };
    let entries = evaluation_list(&Vec::new(), vec![listed("b"), listed("a")]).expect("a list");
    let names: Vec<&str> =
        entries.iter().map(|entry| entry.evaluation.evaluation_id.as_str()).collect();
    assert_eq!(names, vec!["b", "a"]);
    let lost = ListedEvaluation { evaluation: None, ..listed("x") };
    let refused = ListedEvaluation { selection: Err(ExecuteError::NotFound), ..listed("y") };
    assert_eq!(
        evaluation_list(&Vec::new(), vec![listed("b"), refused, lost]),
        Err(ExecuteError::NotFound)
    );
}
