use hephaestus_control::adaptation::{
    self, advance_drift_adaptations, advance_one_drift_adaptation, find_child,
    finish_drift_adaptation, label_drift, next_drift_needing_adaptation, settle_adaptation,
    stage_index, write_adaptation_hypothesis, AdaptationAction, AdaptationFacts, AdaptationIds,
    is_last_of_step, AdaptationStage, DecidedCanary, DriftAdaptationFinishReason,
    DriftAdaptationStartedPayload,
};
use hephaestus_control::error::ExecuteError;
use hephaestus_control::evolution::{
    advance_evolution, baseline_genome, champion_after, evolve_cancel, evolve_start,
    finish_evolution_run, settle_generation, EvolutionCancellation, EvolutionFacts,
    EvolutionOpening, EvolutionTick,
};
use hephaestus_control::forge::HypothesisSource;
use hephaestus_control::generation::{
    self, advance_evolution_generation, choose_evolution_hypothesis_source, evaluation_end,
    first_cluster, write_default_hypothesis, GenerationAction, GenerationReply, GenerationStage,
};
use hephaestus_control::genes::best_gene_target_operation;
use hephaestus_control::meta::{
    cost_deltas, descendant_verdict, drive_evolve_run, leave_lineage, meta_evaluate, meta_payload, meta_receipt,
    meta_strategy_register, open_meta_evaluation, promotions_of, quality_deltas,
    reject_strategy_source, rollback_champion_to, take_lineage_run, validate_strategy, MetaAction,
    MetaBootstrap, MetaComparison, MetaOpening, MetaRequest, Return, StrategyOpening, Wait,
};
use hephaestus_control::protocol::{
    ArenaJobPhase, CanaryEventRecord, CanaryRecord, CanaryStage, CanaryTransitionKind,
    CanaryTransitionPayload, CanaryTransitionRecord, Command, DriftEventRecord, DriftKind,
    DriftRecord, DriftRecordPayload, EvolutionEventRecord, EvolutionFinishReason,
    EvolutionGenerationPayload, EvolutionGenerationRecord, EvolutionRunRecord, EvolutionRunState,
    EvolverStrategyConfig, ForgeAssessmentOutcome, GeneExtractedPayload, GeneSelectionPolicy,
    GeneTransferOutcome, GeneTransferRecordedPayload, JobState, JobTerminal,
    MetaBootstrapInterval, MetaLineageOutcome, MetaLineageSpec, MetaStrategyRecord,
    MutationPrioritization,
};
use hephaestus_control::records::{
    ArenaJobRecord, FailureCluster, GenomeRecord, RunBudgetReceipt, StoredEvent,
    SuggestedMutation, WorldRecord,
};
use hephaestus_control::registry::{GenomeEntry, Registry, WorldEntry};
use hephaestus_control::state::{ControlState, EventPayload, RecordedEvent};
use hephaestus_control::transitions::{CanaryRequest, ChampionRequest};

fn text(value: &str) -> String {
    value.to_owned()
}

fn rejected(message: &str) -> ExecuteError {
    ExecuteError::Rejected(text(message))
}

fn genome(genome_id: &str, world_id: &str) -> GenomeEntry {
    GenomeEntry {
        record: GenomeRecord {
            genome_id: text(genome_id),
            name: text("name"),
            world_id: text(world_id),
            artifact_id: text("artifact"),
            parent_ids: Vec::new(),
        },
        model_provider: text("reference"),
        prompt_artifact_id: None,
        registration_sequence: 1,
        compiled_parents: Vec::new(),
        canonical_json: b"{}".to_vec(),
    }
}

fn world(world_id: &str, auto_canary_on_drift: bool) -> WorldEntry {
    WorldEntry {
        record: WorldRecord {
            world_id: text(world_id),
            name: text("w"),
            artifact_id: text("a"),
        },
        compiled_id: text(world_id),
        visible_manifest: None,
        sealed_manifest: None,
        evaluator: None,
        allow_mixed_environments: false,
        maximum_cost_microusd: 0,
        harness_mutations: true,
        auto_canary_on_drift,
    }
}

fn registry() -> Registry {
    let mut registry = Registry::new("second".to_owned());
    registry.worlds.insert(text("world"), world("world", true));
    registry.worlds.insert(text("lonely"), world("lonely", false));
    registry.genomes.insert(text("m"), genome("m", "world"));
    registry.genomes.insert(text("b"), genome("b", "world"));
    registry.genomes.insert(text("a"), genome("a", "world"));
    registry.genomes.insert(text("z"), genome("z", "lonely"));
    registry
}

fn happening() -> EvolutionEventRecord {
    EvolutionEventRecord {
        sequence: 1,
        event_id: text("e"),
        aggregate_id: text("g"),
        event_type: text("t"),
        actor: text("local-operator"),
        event_hash: text("h"),
    }
}

fn run(run_id: &str) -> EvolutionRunRecord {
    EvolutionRunRecord {
        run_id: text(run_id),
        world_id: text("world"),
        from_genome_id: text("m"),
        baseline_genome_id: text("a"),
        max_generations: 2,
        max_paired_trials: 4,
        strategy_id: None,
        trials_consumed: 0,
        state: EvolutionRunState::Running,
        cancel_requested: false,
        finish_reason: None,
        generations: Vec::new(),
        started_event: happening(),
        finished_event: None,
    }
}

fn generation(index: u32, promoted: bool, champion_after: &str) -> EvolutionGenerationRecord {
    EvolutionGenerationRecord {
        payload: EvolutionGenerationPayload {
            schema_version: 1,
            run_id: text("run"),
            generation_index: index,
            champion_before: text("m"),
            diagnostic_evaluation_id: text("d"),
            proposal_id: text("p"),
            child_genome_id: text("c"),
            child_evaluation_id: text("ce"),
            assessment_id: text("as"),
            promoted,
            champion_after: text(champion_after),
        },
        event: happening(),
    }
}

fn start(run_id: &str, world_id: &str, from_genome_id: &str, strategy_id: Option<&str>) -> Command {
    Command::EvolveStart {
        run_id: text(run_id),
        world_id: text(world_id),
        from_genome_id: text(from_genome_id),
        generations: 2,
        budget: 4,
        strategy_id: strategy_id.map(text),
    }
}

fn facts() -> EvolutionFacts {
    EvolutionFacts {
        working: false,
        active_run: None,
        existing: None,
        strategy_registered: false,
        champion: None,
    }
}

#[test]
fn the_baseline_is_the_least_other_genome_of_the_world() {
    let registry = registry();
    assert_eq!(baseline_genome(&registry, "world", "m"), Some(text("a")));
    assert_eq!(baseline_genome(&registry, "world", "a"), Some(text("b")));
    assert_eq!(baseline_genome(&registry, "lonely", "z"), None);
}

#[test]
fn a_run_without_a_champion_seeds_one() {
    let opened = evolve_start(facts(), &registry(), start("run", "world", "m", None));
    match opened {
        Ok(EvolutionOpening::Start { seed: Some((transition_id, request)), payload }) => {
            assert_eq!(transition_id, "evolve-run-seed");
            match request {
                ChampionRequest::Seed { world_id, genome_id, reason } => {
                    assert_eq!(world_id, "world");
                    assert_eq!(genome_id, "m");
                    assert_eq!(reason, "evolve run run generation-zero genesis seed");
                }
                _ => panic!("the request seeds"),
            }
            assert_eq!(payload.run_id, "run");
            assert_eq!(payload.baseline_genome_id, "a");
            assert_eq!(payload.max_generations, 2);
            assert_eq!(payload.max_paired_trials, 4);
            assert_eq!(payload.strategy_id, None);
        }
        _ => panic!("the run starts with a seed"),
    }
    let opened = evolve_start(
        EvolutionFacts { champion: Some(text("m")), ..facts() },
        &registry(),
        start("run", "world", "m", None),
    );
    assert!(matches!(opened, Ok(EvolutionOpening::Start { seed: None, .. })));
}

#[test]
fn runs_are_refused_in_order() {
    let registry = registry();
    let refusal = |facts: EvolutionFacts, command: Command| match evolve_start(facts, &registry, command) {
        Err(error) => error,
        Ok(_) => panic!("the run is refused"),
    };
    assert_eq!(
        refusal(EvolutionFacts { working: true, ..facts() }, start("run", "world", "m", None)),
        ExecuteError::Busy
    );
    assert_eq!(
        refusal(
            EvolutionFacts { active_run: Some(text("other")), ..facts() },
            start("run", "world", "m", None)
        ),
        ExecuteError::Busy
    );
    assert_eq!(
        refusal(
            EvolutionFacts { existing: Some(run("run")), ..facts() },
            start("run", "world", "b", None)
        ),
        rejected("run_id is already bound to a different evolution configuration")
    );
    assert_eq!(refusal(facts(), start("run", "world", "m", Some("s"))), ExecuteError::NotFound);
    assert_eq!(refusal(facts(), start("run", "absent", "m", None)), ExecuteError::NotFound);
    assert_eq!(refusal(facts(), start("run", "world", "absent", None)), ExecuteError::NotFound);
    assert_eq!(
        refusal(facts(), start("run", "world", "z", None)),
        rejected("from_genome_id is not compiled under the requested World")
    );
    assert_eq!(
        refusal(facts(), start("run", "lonely", "z", None)),
        rejected(
            "World needs at least one other registered Genome to serve as the evolve engine's comparison baseline"
        )
    );
    assert_eq!(
        refusal(
            EvolutionFacts { champion: Some(text("b")), ..facts() },
            start("run", "world", "m", None)
        ),
        rejected("World Champion does not match from_genome_id")
    );
    assert_eq!(refusal(facts(), Command::Freeze), ExecuteError::Internal);
}

#[test]
fn starting_a_run_again_returns_it() {
    let again = EvolutionFacts {
        active_run: Some(text("run")),
        existing: Some(run("run")),
        ..facts()
    };
    match evolve_start(again, &registry(), start("run", "world", "m", None)) {
        Ok(EvolutionOpening::Existing(found)) => assert_eq!(found, run("run")),
        _ => panic!("the run is found"),
    }
}

#[test]
fn cancelling_is_recorded_once() {
    assert!(matches!(evolve_cancel(None), Err(ExecuteError::NotFound)));
    match evolve_cancel(Some(run("run"))) {
        Ok(EvolutionCancellation::Cancel(payload)) => {
            assert_eq!(payload.schema_version, 1);
            assert_eq!(payload.run_id, "run");
        }
        _ => panic!("the run is cancelled"),
    }
    let asked = EvolutionRunRecord { cancel_requested: true, ..run("run") };
    assert!(matches!(evolve_cancel(Some(asked)), Ok(EvolutionCancellation::Settled(_))));
    let finished = EvolutionRunRecord { state: EvolutionRunState::Finished, ..run("run") };
    assert!(matches!(evolve_cancel(Some(finished)), Ok(EvolutionCancellation::Settled(_))));
}

#[test]
fn a_tick_stays_within_the_limits_of_a_run() {
    assert_eq!(advance_evolution(true, false, Some(&run("run"))), EvolutionTick::Idle);
    assert_eq!(advance_evolution(false, true, Some(&run("run"))), EvolutionTick::Idle);
    assert_eq!(advance_evolution(false, false, None), EvolutionTick::Idle);
    assert_eq!(advance_evolution(false, false, Some(&run("run"))), EvolutionTick::Generation(0));
    let cancelled = EvolutionRunRecord { cancel_requested: true, ..run("run") };
    assert_eq!(
        advance_evolution(false, false, Some(&cancelled)),
        EvolutionTick::Finish(EvolutionFinishReason::Cancelled)
    );
    let exhausted = EvolutionRunRecord {
        generations: vec![generation(0, true, "c"), generation(1, false, "c")],
        ..run("run")
    };
    assert_eq!(
        advance_evolution(false, false, Some(&exhausted)),
        EvolutionTick::Finish(EvolutionFinishReason::GenerationsExhausted)
    );
    let spent = EvolutionRunRecord { trials_consumed: 3, ..run("run") };
    assert_eq!(
        advance_evolution(false, false, Some(&spent)),
        EvolutionTick::Finish(EvolutionFinishReason::BudgetExhausted)
    );
    let finished = EvolutionRunRecord { state: EvolutionRunState::Finished, ..run("run") };
    assert_eq!(advance_evolution(false, false, Some(&finished)), EvolutionTick::Idle);
}

#[test]
fn only_a_busy_generation_is_tried_again() {
    assert_eq!(settle_generation(&Ok(())), None);
    assert_eq!(settle_generation(&Err(ExecuteError::Busy)), None);
    assert_eq!(
        settle_generation(&Err(ExecuteError::Internal)),
        Some(EvolutionFinishReason::Interrupted)
    );
    assert_eq!(settle_adaptation(&Ok(())), None);
    assert_eq!(settle_adaptation(&Err(ExecuteError::Busy)), None);
    assert_eq!(
        settle_adaptation(&Err(ExecuteError::NotFound)),
        Some(DriftAdaptationFinishReason::Interrupted)
    );
}

#[test]
fn finishing_counts_the_generations() {
    let mut record = run("run");
    record.generations.push(generation(0, true, "c"));
    record.trials_consumed = 2;
    let payload = finish_evolution_run(&record, EvolutionFinishReason::Cancelled)
        .expect("the count fits")
        .expect("the run was running");
    assert_eq!(payload.generations_completed, 1);
    assert_eq!(payload.trials_consumed, 2);
    assert_eq!(payload.reason, EvolutionFinishReason::Cancelled);
    assert_eq!(champion_after(&record), "c");
    assert_eq!(champion_after(&run("run")), "m");
    record.state = EvolutionRunState::Finished;
    assert_eq!(finish_evolution_run(&record, EvolutionFinishReason::Cancelled), Ok(None));
}

fn evaluation(evaluation_id: &str, terminal: Option<JobTerminal>) -> ArenaJobRecord {
    let budget =
        RunBudgetReceipt { wall_millis: 1, maximum_output_bytes: 1, maximum_cost_microusd: 0 };
    ArenaJobRecord {
        job_id: text(evaluation_id),
        evaluation_id: text(evaluation_id),
        parent_genome_id: text("a"),
        candidate_genome_id: text("m"),
        world_id: text("world"),
        visible_manifest_id: text("v"),
        sealed_manifest_id: text("s"),
        evaluator_id: text("ev"),
        source_revision: text("r"),
        worker_digest: text("w"),
        environment_id: text("en"),
        candidate_environment_id: None,
        seed: 1,
        trial_budget: budget,
        overall_budget: budget,
        ordered_trial_run_ids: Vec::new(),
        parent_trial_count: 1,
        total_trials: 2,
        plan_commitment: text("plan"),
        caller_id: text("local-operator"),
        receipt_timestamp_millis: 7,
        completed_trials: 0,
        phase: ArenaJobPhase::Terminal,
        state: JobState::Succeeded,
        terminal,
        evaluation: None,
        remote: false,
    }
}

fn state(ended: &[(&str, JobTerminal)]) -> ControlState {
    let mut state = ControlState::new(registry());
    for (evaluation_id, terminal) in ended {
        state.arena_jobs.insert(text(evaluation_id), evaluation(evaluation_id, Some(*terminal)));
    }
    state
}

fn next(state: &ControlState, stage: GenerationStage) -> GenerationAction {
    match advance_evolution_generation(state, &run("run"), 0, stage) {
        Ok(action) => action,
        Err(error) => panic!("{error:?}"),
    }
}

#[test]
fn a_generation_goes_through_its_stages() {
    let fresh = state(&[]);
    assert_eq!(evaluation_end(&fresh, "evolve-run-g0-d"), None);
    match next(&fresh, GenerationStage::Begun) {
        GenerationAction::Evaluate { evaluation_id, parent_genome_id, candidate_genome_id } => {
            assert_eq!(evaluation_id, "evolve-run-g0-d");
            assert_eq!(parent_genome_id, "a");
            assert_eq!(candidate_genome_id, "m");
        }
        _ => panic!("the Champion is diagnosed"),
    }
    let done = state(&[
        ("evolve-run-g0-d", JobTerminal::Succeeded),
        ("evolve-run-g0-c", JobTerminal::Succeeded),
    ]);
    assert_eq!(evaluation_end(&done, "evolve-run-g0-d"), Some(JobTerminal::Succeeded));
    assert!(matches!(next(&done, GenerationStage::Begun), GenerationAction::Select { evaluation_id }
        if evaluation_id == "evolve-run-g0-d"));
    let stage = generation::take_reply(
        GenerationStage::Begun,
        GenerationReply::Selection(text("selection-1")),
    )
    .unwrap();
    let stage_source = generation::take_reply(
        stage,
        GenerationReply::Source(Some(HypothesisSource::Operator(text("try this")))),
    )
    .unwrap();
    match next(&done, stage_source) {
        GenerationAction::Propose { proposal_id, selection_event_id, parent_genome_id, .. } => {
            assert_eq!(proposal_id, "evolve-run-g0-p");
            assert_eq!(selection_event_id, "selection-1");
            assert_eq!(parent_genome_id, "m");
        }
        _ => panic!("a child is proposed"),
    }
    let stage = GenerationStage::Proposed { child_genome_id: text("child") };
    match next(&fresh, GenerationStage::Proposed { child_genome_id: text("child") }) {
        GenerationAction::Evaluate { evaluation_id, parent_genome_id, candidate_genome_id } => {
            assert_eq!(evaluation_id, "evolve-run-g0-c");
            assert_eq!(parent_genome_id, "m");
            assert_eq!(candidate_genome_id, "child");
        }
        _ => panic!("the child is evaluated"),
    }
    let stage =
        generation::take_reply(stage, GenerationReply::Selection(text("selection-2"))).unwrap();
    let stage = generation::take_reply(stage, GenerationReply::Invariants).unwrap();
    assert_eq!(
        stage,
        GenerationStage::Checked {
            child_genome_id: text("child"),
            selection_event_id: text("selection-2"),
        }
    );
    let stage = generation::take_reply(
        stage,
        GenerationReply::Assessment(ForgeAssessmentOutcome::MetricsPassed),
    )
    .unwrap();
    match next(
        &done,
        GenerationStage::Assessed {
            child_genome_id: text("child"),
            outcome: ForgeAssessmentOutcome::MetricsPassed,
        },
    ) {
        GenerationAction::Promote { transition_id, request: ChampionRequest::Promote { assessment_id } } => {
            assert_eq!(transition_id, "evolve-run-g0-x");
            assert_eq!(assessment_id, "evolve-run-g0-a");
        }
        _ => panic!("the child is promoted"),
    }
    let stage = generation::take_reply(stage, GenerationReply::Promotion(true)).unwrap();
    match next(&done, stage) {
        GenerationAction::Record(payload) => {
            assert!(payload.promoted);
            assert_eq!(payload.champion_before, "m");
            assert_eq!(payload.champion_after, "child");
        }
        _ => panic!("the generation is recorded"),
    }
}

#[test]
fn a_rejected_child_leaves_the_champion() {
    let stage = GenerationStage::Assessed {
        child_genome_id: text("child"),
        outcome: ForgeAssessmentOutcome::MetricsRejected,
    };
    match next(&state(&[]), stage) {
        GenerationAction::Record(payload) => {
            assert!(!payload.promoted);
            assert_eq!(payload.child_genome_id, "child");
            assert_eq!(payload.champion_after, "m");
        }
        _ => panic!("the generation is recorded"),
    }
}

#[test]
fn a_generation_ends_where_it_cannot_go_on() {
    let failed = state(&[
        ("evolve-run-g0-d", JobTerminal::Failed),
        ("evolve-run-g0-c", JobTerminal::Cancelled),
    ]);
    assert_eq!(
        advance_evolution_generation(&failed, &run("run"), 0, GenerationStage::Begun).err(),
        Some(rejected("diagnostic evaluation did not succeed"))
    );
    assert_eq!(
        advance_evolution_generation(
            &failed,
            &run("run"),
            0,
            GenerationStage::Proposed { child_genome_id: text("child") }
        )
        .err(),
        Some(rejected("child evaluation did not succeed"))
    );
    let none = GenerationStage::Sourced { selection_event_id: text("s"), source: None };
    assert!(matches!(
        next(&failed, none),
        GenerationAction::Finish(EvolutionFinishReason::NoCandidateMutation)
    ));
    assert_eq!(
        generation::take_reply(GenerationStage::Begun, GenerationReply::Invariants),
        Err(ExecuteError::Internal)
    );
}

fn cluster(signature: &str, total_count: u32, suggests: Option<&str>) -> FailureCluster {
    FailureCluster {
        signature: text(signature),
        total_count,
        hypothesis: text("h"),
        suggested_mutation: suggests.map(|operation| SuggestedMutation::ReferenceOperation {
            operation_after: text(operation),
        }),
    }
}

fn strategy(weighted: bool, genes: bool) -> EvolverStrategyConfig {
    EvolverStrategyConfig {
        schema_version: 1,
        name: text("s"),
        mutation_prioritization: if weighted {
            MutationPrioritization::CostWeighted
        } else {
            MutationPrioritization::Fifo
        },
        generation_count: 2,
        experiment_allocation: 4,
        candidate_count: 1,
        gene_selection: if genes {
            GeneSelectionPolicy::HighestTransferEffect
        } else {
            GeneSelectionPolicy::Disabled
        },
        parent_strategy_id: None,
    }
}

fn recorded(sequence: u64, payload: EventPayload) -> RecordedEvent {
    RecordedEvent {
        event: StoredEvent {
            sequence,
            event_id: format!("event-{sequence}"),
            aggregate_id: text("g"),
            event_type: text("t"),
            actor: text("local-operator"),
            timestamp_millis: 7,
            payload: b"{}".to_vec(),
            hash: [0; 32],
        },
        payload,
    }
}

fn gene(sequence: u64, gene_id: &str, before: &str, after: &str) -> RecordedEvent {
    let gene = GeneExtractedPayload {
        schema_version: 1,
        gene_id: text(gene_id),
        promotion_transition_id: text("t"),
        promotion_event_id: text("t"),
        promotion_event_hash: text("t"),
        assessment_id: text("t"),
        assessment_event_id: text("t"),
        assessment_event_hash: text("t"),
        proposal_id: text("t"),
        proposal_event_id: text("t"),
        proposal_event_hash: text("t"),
        selection_event_id: text("t"),
        selection_event_hash: text("t"),
        invariant_event_id: text("t"),
        invariant_event_hash: text("t"),
        world_id: text("world"),
        origin_parent_genome_id: text("m"),
        origin_child_genome_id: text("c"),
        operation_before: text(before),
        operation_after: text(after),
        evidence_trials: 1,
        evidence_threshold: 1,
    };
    recorded(sequence, EventPayload::GeneExtracted(gene))
}

fn transfer(sequence: u64, gene_id: &str, outcome: GeneTransferOutcome, estimate_bps: i64) -> RecordedEvent {
    let transfer = GeneTransferRecordedPayload {
        schema_version: 1,
        trial_id: text("t"),
        gene_id: text(gene_id),
        applied_event_id: text("t"),
        applied_event_hash: text("t"),
        evaluation_id: text("t"),
        selection_event_id: text("t"),
        selection_event_hash: text("t"),
        selection_receipt_artifact_id: text("t"),
        outcome,
        estimate_bps,
        lower_bps: 0,
        upper_bps: 0,
    };
    recorded(sequence, EventPayload::GeneTransferRecorded(transfer))
}

#[test]
fn the_best_gene_has_the_largest_mean_effect() {
    let mut history = vec![
        gene(1, "g1", "identity", "ascii_uppercase"),
        gene(2, "g2", "identity", "trim"),
        gene(3, "g3", "trim", "identity"),
        transfer(4, "g1", GeneTransferOutcome::Positive, 100),
        transfer(5, "g1", GeneTransferOutcome::Positive, 201),
        transfer(6, "g2", GeneTransferOutcome::Positive, 151),
    ];
    let close = vec![
        gene(1, "a", "identity", "trim"),
        gene(2, "b", "identity", "ascii_uppercase"),
        transfer(3, "a", GeneTransferOutcome::Positive, 10),
        transfer(4, "b", GeneTransferOutcome::Positive, 10),
        transfer(5, "b", GeneTransferOutcome::Positive, 11),
    ];
    assert_eq!(best_gene_target_operation(&close, "identity"), Some(text("ascii_uppercase")));
    let below = vec![
        gene(1, "a", "identity", "trim"),
        gene(2, "b", "identity", "ascii_uppercase"),
        transfer(3, "a", GeneTransferOutcome::Positive, -10),
        transfer(4, "a", GeneTransferOutcome::Positive, -11),
        transfer(5, "b", GeneTransferOutcome::Positive, -10),
    ];
    assert_eq!(best_gene_target_operation(&below, "identity"), Some(text("ascii_uppercase")));
    let tied = vec![
        gene(1, "b", "identity", "ascii_uppercase"),
        gene(2, "a", "identity", "trim"),
        transfer(3, "a", GeneTransferOutcome::Positive, 10),
        transfer(4, "b", GeneTransferOutcome::Positive, 10),
    ];
    assert_eq!(best_gene_target_operation(&tied, "identity"), Some(text("trim")));
    assert_eq!(best_gene_target_operation(&history, "identity"), Some(text("trim")));
    history.push(transfer(7, "g2", GeneTransferOutcome::Negative, 9000));
    assert_eq!(best_gene_target_operation(&history, "identity"), Some(text("trim")));
    history.push(transfer(8, "g2", GeneTransferOutcome::Positive, 149));
    assert_eq!(best_gene_target_operation(&history, "identity"), Some(text("ascii_uppercase")));
    assert_eq!(best_gene_target_operation(&history, "trim"), None);
}

#[test]
fn clusters_are_chosen_in_their_own_order_or_by_weight() {
    let clusters = vec![
        cluster("c", 1, None),
        cluster("b", 2, Some("trim")),
        cluster("d", 5, Some("trim")),
        cluster("a", 5, Some("identity")),
    ];
    assert_eq!(first_cluster(&clusters, false, None), Some(1));
    assert_eq!(first_cluster(&clusters, true, None), Some(3));
    assert_eq!(first_cluster(&clusters, true, Some("trim")), Some(2));
    assert_eq!(first_cluster(&clusters, true, Some("reverse")), None);
}

#[test]
fn strategies_choose_the_source_of_a_hypothesis() {
    let history = vec![
        gene(1, "g1", "identity", "trim"),
        transfer(2, "g1", GeneTransferOutcome::Positive, 100),
    ];
    let clusters = vec![cluster("a", 9, Some("ascii_uppercase")), cluster("b", 1, Some("trim"))];
    let choose = |strategy: Option<&EvolverStrategyConfig>, clusters: &Vec<FailureCluster>, operation: Option<&str>| {
        choose_evolution_hypothesis_source(
            &history,
            &run("run"),
            3,
            "m",
            strategy,
            clusters,
            operation,
        )
    };
    let default = text(
        "Evolve run run generation 3: flip the reference operation of Champion m to explore the paired instruction space.",
    );
    assert_eq!(write_default_hypothesis("run", 3, "m"), default);
    assert!(matches!(choose(None, &clusters, Some("identity")),
        Some(HypothesisSource::Operator(hypothesis)) if hypothesis == default));
    assert!(matches!(choose(Some(&strategy(false, false)), &clusters, Some("identity")),
        Some(HypothesisSource::Analysis { analysis_id, cluster_index: 0 })
            if analysis_id == "evolve-run-g3-analysis"));
    assert!(matches!(
        choose(Some(&strategy(false, true)), &clusters, Some("identity")),
        Some(HypothesisSource::Analysis { cluster_index: 1, .. })
    ));
    assert!(matches!(choose(Some(&strategy(true, true)), &Vec::new(), Some("ascii_uppercase")),
        Some(HypothesisSource::Operator(hypothesis)) if hypothesis == default));
    assert!(choose(Some(&strategy(true, true)), &Vec::new(), Some("trim")).is_none());
    assert!(choose(Some(&strategy(true, true)), &Vec::new(), None).is_none());
}

fn registered(strategy_id: &str) -> MetaStrategyRecord {
    MetaStrategyRecord {
        strategy_id: text(strategy_id),
        config: strategy(false, false),
        event: happening(),
    }
}

#[test]
fn strategies_are_validated_in_order() {
    assert_eq!(validate_strategy(&strategy(false, false)), Ok(()));
    assert_eq!(
        validate_strategy(&EvolverStrategyConfig { schema_version: 2, ..strategy(false, false) }),
        Err(rejected("strategy schema_version must be 1"))
    );
    assert_eq!(
        validate_strategy(&EvolverStrategyConfig { generation_count: 0, ..strategy(false, false) }),
        Err(rejected("strategy generation_count must be positive"))
    );
    assert_eq!(
        validate_strategy(&EvolverStrategyConfig {
            experiment_allocation: 1,
            ..strategy(false, false)
        }),
        Err(rejected("strategy experiment_allocation must allow at least one generation"))
    );
    assert_eq!(
        validate_strategy(&EvolverStrategyConfig { candidate_count: 0, ..strategy(false, false) }),
        Err(rejected("strategy candidate_count must be positive"))
    );
    assert_eq!(reject_strategy_source("bad"), rejected("strategy source rejected: bad"));
}

#[test]
fn strategies_are_registered_once_under_a_registered_parent() {
    let child = EvolverStrategyConfig { parent_strategy_id: Some(text("p")), ..strategy(false, false) };
    match meta_strategy_register(child, text("s"), None, true) {
        Ok(StrategyOpening::Register(payload)) => {
            assert_eq!(payload.schema_version, 1);
            assert_eq!(payload.strategy_id, "s");
            assert_eq!(payload.config.parent_strategy_id, Some(text("p")));
        }
        _ => panic!("the strategy is registered"),
    }
    let child = EvolverStrategyConfig { parent_strategy_id: Some(text("p")), ..strategy(false, false) };
    assert_eq!(meta_strategy_register(child, text("s"), None, false).err(), Some(ExecuteError::NotFound));
    let child = EvolverStrategyConfig { parent_strategy_id: Some(text("s")), ..strategy(false, false) };
    assert_eq!(
        meta_strategy_register(child, text("s"), None, true).err(),
        Some(rejected("strategy cannot declare itself as its own parent"))
    );
    assert!(matches!(
        meta_strategy_register(strategy(false, false), text("s"), Some(registered("s")), false),
        Ok(StrategyOpening::Existing(record)) if record.strategy_id == "s"
    ));
    assert!(matches!(
        open_meta_evaluation(None, Some(registered("a")), None),
        Err(ExecuteError::NotFound)
    ));
    assert!(matches!(
        open_meta_evaluation(None, Some(registered("a")), Some(registered("b"))),
        Ok(MetaOpening::Compare { .. })
    ));
}

#[test]
fn a_lineage_run_is_awaited_until_its_deadline() {
    assert!(matches!(drive_evolve_run(None, "r", false), Err(ExecuteError::Internal)));
    assert!(matches!(drive_evolve_run(Some(run("r")), "r", false), Ok(Wait::Again)));
    assert_eq!(
        drive_evolve_run(Some(run("r")), "r", true).err(),
        Some(rejected("meta-evaluation lineage run r did not finish before its deadline"))
    );
    let finished = EvolutionRunRecord { state: EvolutionRunState::Finished, ..run("r") };
    assert!(matches!(drive_evolve_run(Some(finished), "r", true), Ok(Wait::Finished(_))));
}

#[test]
fn the_champion_is_rolled_back_until_it_returned() {
    assert!(matches!(
        rollback_champion_to("meta-m-a-0", "world", "m", Some("m"), 0, 2),
        Ok(Return::Returned)
    ));
    match rollback_champion_to("meta-m-a-0", "world", "m", Some("c"), 2, 2) {
        Ok(Return::RollBack {
            transition_id,
            request: ChampionRequest::Rollback { world_id, reason },
        }) => {
            assert_eq!(transition_id, "meta-m-a-0-rollback-2");
            assert_eq!(world_id, "world");
            assert_eq!(
                reason,
                "meta-evaluation restoring the held-out lineage's starting Champion"
            );
        }
        _ => panic!("the Champion is rolled back"),
    }
    assert!(matches!(
        rollback_champion_to("meta-m-a-0", "world", "m", Some("c"), 3, 2),
        Err(ExecuteError::Internal)
    ));
}

#[test]
fn a_comparison_runs_every_lineage_under_both_strategies() {
    let lineages = vec![
        MetaLineageSpec { world_id: text("world"), from_genome_id: text("m") },
        MetaLineageSpec { world_id: text("other"), from_genome_id: text("n") },
    ];
    let mut comparison = MetaComparison::new(text("meta"), registered("a"), registered("b"), lineages);
    for index in 0..2usize {
        match meta_evaluate(&comparison) {
            MetaAction::Run(Command::EvolveStart { run_id, strategy_id, generations, budget, .. }) => {
                assert_eq!(run_id, format!("meta-meta-a-{index}"));
                assert_eq!(strategy_id, Some(text("a")));
                assert_eq!((generations, budget), (2, 4));
            }
            _ => panic!("strategy A runs"),
        }
        let mut by_a = run("ra");
        by_a.generations.push(generation(0, true, "ca"));
        by_a.trials_consumed = 2;
        comparison = take_lineage_run(comparison, by_a);
        assert!(matches!(meta_evaluate(&comparison), MetaAction::Return { max_attempts: 2, .. }));
        comparison = leave_lineage(comparison);
        match meta_evaluate(&comparison) {
            MetaAction::Run(Command::EvolveStart { run_id, strategy_id, .. }) => {
                assert_eq!(run_id, format!("meta-meta-b-{index}"));
                assert_eq!(strategy_id, Some(text("b")));
            }
            _ => panic!("strategy B runs"),
        }
        let mut by_b = run("rb");
        by_b.trials_consumed = 7;
        comparison = take_lineage_run(comparison, by_b);
        assert!(matches!(meta_evaluate(&comparison), MetaAction::Return { run_id, .. }
            if run_id == format!("meta-meta-b-{index}")));
        comparison = leave_lineage(comparison);
    }
    assert!(matches!(meta_evaluate(&comparison), MetaAction::Measure { quality_deltas, cost_deltas }
        if quality_deltas == vec![-1, -1] && cost_deltas == vec![5, 5]));
    assert_eq!(comparison.outcomes.len(), 2);
    assert_eq!(comparison.outcomes[1].world_id, "other");
    assert_eq!(comparison.outcomes[1].strategy_a_champion_genome_id, "ca");
    assert_eq!(comparison.outcomes[1].strategy_b_champion_genome_id, "m");
    assert_eq!(quality_deltas(&comparison.outcomes), vec![-1, -1]);
    assert_eq!(cost_deltas(&comparison.outcomes), vec![5, 5]);
    let payload = meta_receipt(
        comparison,
        9500,
        7,
        Some(MetaBootstrap {
            resamples: 1000,
            algorithm: text("algorithm"),
            quality_delta: interval(0, 5),
            cost_delta: interval(-9, -1),
        }),
    )
    .expect("a receipt");
    assert_eq!(payload.meta_run_id, "meta");
    assert_eq!((payload.strategy_a_id.as_str(), payload.strategy_b_id.as_str()), ("a", "b"));
    assert_eq!(payload.lineages.len(), 2);
    assert_eq!(payload.lineages[1].strategy_a_champion_genome_id, "ca");
    assert_eq!((payload.confidence_bps, payload.bootstrap_seed), (9500, 7));
}

#[test]
fn trials_beyond_the_signed_range_count_as_its_end() {
    let outcome = MetaLineageOutcome {
        world_id: text("w"),
        from_genome_id: text("m"),
        strategy_a_run_id: text("a"),
        strategy_b_run_id: text("b"),
        strategy_a_champion_genome_id: text("m"),
        strategy_b_champion_genome_id: text("m"),
        strategy_a_promotions: 3,
        strategy_b_promotions: 1,
        strategy_a_trials_consumed: 1,
        strategy_b_trials_consumed: u64::MAX,
    };
    let outcomes = vec![outcome];
    assert_eq!(quality_deltas(&outcomes), vec![-2]);
    assert_eq!(cost_deltas(&outcomes), vec![i64::MAX - 1]);
    let mut record = run("run");
    record.generations.push(generation(0, true, "c"));
    record.generations.push(generation(1, false, "c"));
    assert_eq!(promotions_of(&record), 1);
}

fn interval(lower: i64, upper: i64) -> MetaBootstrapInterval {
    MetaBootstrapInterval { estimate_x10000: 0, lower_x10000: lower, upper_x10000: upper }
}

#[test]
fn a_descendant_is_judged_whichever_side_it_stands_on() {
    let parent = strategy(false, false);
    let child = EvolverStrategyConfig { parent_strategy_id: Some(text("p")), ..strategy(false, false) };
    assert_eq!(
        descendant_verdict("p", &parent, "c", &child, &interval(0, 5), &interval(-9, -1)),
        Some(true)
    );
    assert_eq!(
        descendant_verdict("c", &child, "p", &parent, &interval(-5, 0), &interval(1, 9)),
        Some(true)
    );
    assert_eq!(
        descendant_verdict("p", &parent, "c", &child, &interval(-1, 5), &interval(-9, -1)),
        Some(false)
    );
    assert_eq!(
        descendant_verdict("p", &parent, "c", &child, &interval(0, 5), &interval(-9, 0)),
        Some(false)
    );
    assert_eq!(
        descendant_verdict("p", &parent, "q", &parent, &interval(0, 5), &interval(-9, -1)),
        None
    );
    let payload = meta_payload(
        MetaRequest {
            meta_run_id: text("meta"),
            strategy_a_id: text("p"),
            strategy_b_id: text("c"),
            confidence_bps: 9500,
            bootstrap_seed: 7,
        },
        &parent,
        &child,
        Vec::new(),
        MetaBootstrap {
            resamples: 1000,
            algorithm: text("algorithm"),
            quality_delta: interval(0, 5),
            cost_delta: interval(-9, -1),
        },
    );
    assert_eq!(payload.schema_version, 1);
    assert_eq!(payload.bootstrap_resamples, 1000);
    assert_eq!(payload.descendant_cheaper_at_equal_quality, Some(true));
}

fn drift(drift_id: &str, world_id: &str) -> DriftRecordPayload {
    DriftRecordPayload {
        schema_version: 1,
        drift_id: text(drift_id),
        world_id: text(world_id),
        kind: DriftKind::Latency,
        evidence_evaluation_id: text("e"),
        selection_event_id: text("s"),
        selection_event_hash: text("h"),
        baseline_genome_id: text("b"),
        shifted_genome_id: text("shifted"),
        threshold_bps: 1,
        observed_delta_bps: 2,
    }
}

#[test]
fn the_first_open_drift_of_a_willing_world_is_adapted_to() {
    let registry = registry();
    let mut history = vec![
        recorded(1, EventPayload::Drift(drift("d0", "lonely"))),
        recorded(2, EventPayload::Drift(drift("d1", "world"))),
        recorded(3, EventPayload::Drift(drift("d2", "world"))),
    ];
    assert_eq!(next_drift_needing_adaptation(&history, &registry), Some(text("d1")));
    history.push(recorded(4, EventPayload::AdaptationFinished(text("d1"))));
    assert_eq!(next_drift_needing_adaptation(&history, &registry), Some(text("d2")));
    history.push(recorded(5, EventPayload::AdaptationFinished(text("d2"))));
    assert_eq!(next_drift_needing_adaptation(&history, &registry), None);
    assert_eq!(advance_drift_adaptations(false, false, Some(text("d"))), Some(text("d")));
    assert_eq!(advance_drift_adaptations(true, false, Some(text("d"))), None);
    assert_eq!(advance_drift_adaptations(false, true, Some(text("d"))), None);
}

fn own() -> AdaptationIds {
    AdaptationIds {
        proposal_id: text("own-p"),
        diagnostic_evaluation_id: text("own-d"),
        shadow_evaluation_id: text("own-s"),
        assessment_id: text("own-a"),
        canary_id: text("own-c"),
        stage_evaluation_id: text("own-e"),
    }
}

fn started() -> DriftAdaptationStartedPayload {
    DriftAdaptationStartedPayload {
        schema_version: 1,
        drift_id: text("d1"),
        world_id: text("world"),
        drift_event_id: text("de"),
        drift_event_hash: text("dh"),
        champion_genome_id: text("m"),
        proposal_id: text("own-p"),
    }
}

fn adapting() -> AdaptationFacts {
    AdaptationFacts {
        drift: Some(DriftRecord {
            payload: drift("d1", "world"),
            event: DriftEventRecord {
                sequence: 1,
                event_id: text("de"),
                aggregate_id: text("da"),
                event_hash: text("dh"),
            },
        }),
        started: Some(started()),
        finished: false,
        champion: Some(text("m")),
        diagnostic_selection: None,
        proposed_child: None,
        shadow_selection: None,
        shadow_checked: false,
        assessed: false,
        canary: None,
        stage_selected: false,
    }
}

fn adapt(state: &ControlState, facts: &AdaptationFacts, stage: AdaptationStage) -> AdaptationAction {
    match advance_one_drift_adaptation(state, "d1", facts, &own(), stage) {
        Ok(action) => action,
        Err(error) => panic!("{error:?}"),
    }
}

#[test]
fn an_adaptation_starts_rests_and_asks() {
    let fresh = state(&[]);
    let missing = AdaptationFacts { drift: None, ..adapting() };
    assert!(matches!(
        advance_one_drift_adaptation(&fresh, "d1", &missing, &own(), AdaptationStage::Begun),
        Err(ExecuteError::Internal)
    ));
    let leaderless = AdaptationFacts { started: None, champion: None, ..adapting() };
    assert!(matches!(
        advance_one_drift_adaptation(&fresh, "d1", &leaderless, &own(), AdaptationStage::Begun),
        Err(ExecuteError::Internal)
    ));
    let new = AdaptationFacts { started: None, ..adapting() };
    match adapt(&fresh, &new, AdaptationStage::Begun) {
        AdaptationAction::Start(payload) => assert_eq!(payload, started()),
        _ => panic!("the adaptation starts"),
    }
    let over = AdaptationFacts { finished: true, ..adapting() };
    assert!(matches!(adapt(&fresh, &over, AdaptationStage::Begun), AdaptationAction::Rest));
    assert!(matches!(adapt(&fresh, &adapting(), AdaptationStage::Begun),
        AdaptationAction::Ask { champion_genome_id, world_id }
            if champion_genome_id == "m" && world_id == "world"));
    assert!(matches!(
        adapt(&fresh, &adapting(), AdaptationStage::Asked { mutation: false }),
        AdaptationAction::Finish {
            reason: DriftAdaptationFinishReason::NoCandidateMutation,
            canary: None,
        }
    ));
}

#[test]
fn an_adaptation_evaluates_proposes_and_stages() {
    let fresh = state(&[]);
    assert!(matches!(adapt(&fresh, &adapting(), AdaptationStage::Asked { mutation: true }),
        AdaptationAction::Evaluate { evaluation_id, parent_genome_id, candidate_genome_id }
            if evaluation_id == "own-d" && parent_genome_id == "shifted" && candidate_genome_id == "m"));
    let failed = state(&[("own-d", JobTerminal::Failed)]);
    assert_eq!(
        advance_one_drift_adaptation(
            &failed,
            "d1",
            &adapting(),
            &own(),
            AdaptationStage::Asked { mutation: true }
        )
        .err(),
        Some(rejected("diagnostic evaluation did not succeed"))
    );
    let asked = || adaptation::take_reply(AdaptationStage::Begun, true).expect("an answer");
    assert_eq!(adaptation::take_reply(asked(), true), Err(ExecuteError::Internal));
    let ended = state(&[
        ("own-d", JobTerminal::Succeeded),
        ("own-s", JobTerminal::Succeeded),
    ]);
    let next = |facts: &AdaptationFacts| {
        let action = adapt(&ended, facts, asked());
        assert!(is_last_of_step(&action));
        action
    };
    assert!(matches!(next(&adapting()),
        AdaptationAction::Select { evaluation_id } if evaluation_id == "own-d"));
    let diagnosed = || AdaptationFacts { diagnostic_selection: Some(text("s1")), ..adapting() };
    match next(&diagnosed()) {
        AdaptationAction::Propose { proposal_id, selection_event_id, parent_genome_id, hypothesis } => {
            assert_eq!(proposal_id, "own-p");
            assert_eq!(selection_event_id, "s1");
            assert_eq!(parent_genome_id, "m");
            assert_eq!(
                hypothesis,
                "Drift adaptation for drift d1 (Latency): flip the reference operation of Champion m to address the recorded drift."
            );
        }
        _ => panic!("a child is proposed"),
    }
    let unread = AdaptationFacts { proposed_child: Some(None), ..diagnosed() };
    assert!(matches!(
        advance_one_drift_adaptation(&ended, "d1", &unread, &own(), asked()),
        Err(ExecuteError::Internal)
    ));
    let proposed = || AdaptationFacts { proposed_child: Some(Some(text("child"))), ..diagnosed() };
    let half = state(&[("own-d", JobTerminal::Succeeded)]);
    assert!(matches!(adapt(&half, &proposed(), asked()),
        AdaptationAction::Evaluate { evaluation_id, parent_genome_id, candidate_genome_id }
            if evaluation_id == "own-s" && parent_genome_id == "m" && candidate_genome_id == "child"));
    assert!(matches!(next(&proposed()),
        AdaptationAction::Select { evaluation_id } if evaluation_id == "own-s"));
    let selected = || AdaptationFacts { shadow_selection: Some(text("s2")), ..proposed() };
    assert!(matches!(next(&selected()),
        AdaptationAction::CheckInvariants { evaluation_id } if evaluation_id == "own-s"));
    let checked = || AdaptationFacts { shadow_checked: true, ..selected() };
    assert!(matches!(next(&checked()),
        AdaptationAction::Assess { assessment_id, selection_event_id, .. }
            if assessment_id == "own-a" && selection_event_id == "s2"));
    let assessed = || AdaptationFacts { assessed: true, ..checked() };
    assert!(matches!(
        next(&assessed()),
        AdaptationAction::Canary { request: CanaryRequest::Start { .. }, .. }
    ));
    let at = |stage: CanaryStage| AdaptationFacts { canary: Some(stage), ..assessed() };
    assert!(matches!(
        next(&at(CanaryStage::Aborted)),
        AdaptationAction::Finish { reason: DriftAdaptationFinishReason::CanaryAborted, .. }
    ));
    assert!(matches!(
        next(&at(CanaryStage::Completed)),
        AdaptationAction::Finish { reason: DriftAdaptationFinishReason::Promoted, .. }
    ));
    assert!(matches!(next(&at(CanaryStage::Stage5)),
        AdaptationAction::Evaluate { evaluation_id, .. } if evaluation_id == "own-e"));
    let staged = state(&[
        ("own-d", JobTerminal::Succeeded),
        ("own-s", JobTerminal::Succeeded),
        ("own-e", JobTerminal::Succeeded),
    ]);
    assert!(matches!(adapt(&staged, &at(CanaryStage::Stage5), asked()),
        AdaptationAction::Select { evaluation_id } if evaluation_id == "own-e"));
    let advancing = AdaptationFacts { stage_selected: true, ..at(CanaryStage::Stage5) };
    assert!(matches!(adapt(&staged, &advancing, asked()),
        AdaptationAction::Canary { request: CanaryRequest::Advance { evidence_evaluation_id }, .. }
            if evidence_evaluation_id == "own-e"));
    assert!(!is_last_of_step(&adapt(&staged, &advancing, AdaptationStage::Begun)));
}

fn canary_transition(kind: CanaryTransitionKind) -> CanaryTransitionRecord {
    CanaryTransitionRecord {
        payload: CanaryTransitionPayload {
            schema_version: 1,
            canary_id: text("c"),
            world_id: text("world"),
            kind,
            stage: CanaryStage::Stage5,
            candidate_genome_id: text("child"),
            previous_champion_genome_id: text("m"),
            assessment_id: text("a"),
            evidence: None,
            champion_promotion: None,
            champion_rollback_event_id: None,
            champion_rollback_event_hash: None,
            reason: None,
        },
        event: CanaryEventRecord {
            sequence: 1,
            event_id: text("e"),
            aggregate_id: text("g"),
            event_hash: text("h"),
        },
    }
}

#[test]
fn stages_are_counted_by_their_decisions() {
    let canary = CanaryRecord {
        canary_id: text("c"),
        world_id: text("world"),
        candidate_genome_id: text("child"),
        previous_champion_genome_id: text("m"),
        stage: CanaryStage::Stage25,
        transitions: vec![
            canary_transition(CanaryTransitionKind::Started),
            canary_transition(CanaryTransitionKind::Advanced),
            canary_transition(CanaryTransitionKind::LiveRegressionDetected),
            canary_transition(CanaryTransitionKind::Aborted),
        ],
    };
    assert_eq!(stage_index(&canary), Ok(2));
    assert_eq!(label_drift(DriftKind::Workload), "Workload");
    assert_eq!(
        write_adaptation_hypothesis("d", DriftKind::Cost, "m"),
        "Drift adaptation for drift d (Cost): flip the reference operation of Champion m to address the recorded drift."
    );
}

#[test]
fn the_end_of_an_adaptation_names_what_it_reached() {
    let history = Vec::new();
    assert_eq!(find_child(&history, "own-p"), None);
    let nothing = finish_drift_adaptation(
        &history,
        "d1",
        Some(&started()),
        DriftAdaptationFinishReason::NoCandidateMutation,
        None,
        &own(),
    )
    .unwrap();
    assert_eq!(nothing.world_id, "world");
    assert_eq!(nothing.proposal_id, None);
    assert_eq!(nothing.canary_id, None);
    let decided = DecidedCanary {
        canary_id: text("own-c"),
        stage: Some(CanaryStage::Completed),
        promotion_transition_id: text("x"),
    };
    let promoted = finish_drift_adaptation(
        &history,
        "d1",
        Some(&started()),
        DriftAdaptationFinishReason::Promoted,
        Some(&decided),
        &own(),
    )
    .unwrap();
    assert_eq!(promoted.proposal_id, None);
    assert_eq!(promoted.shadow_evaluation_id, None);
    assert_eq!(promoted.assessment_id, None);
    let produced: Vec<RecordedEvent> = [
        "forge:own-p:proposed",
        "arena-job:own-s:admitted",
        "forge-assessment:own-a:recorded",
    ]
    .iter()
    .map(|event_id| {
        let mut event = recorded(1, EventPayload::Opaque);
        event.event.event_id = text(event_id);
        event
    })
    .collect();
    for length in 0..=produced.len() {
        let mut history = Vec::new();
        for event_id in produced.iter().take(length).map(|event| event.event.event_id.clone()) {
            let mut event = recorded(1, EventPayload::Opaque);
            event.event.event_id = event_id;
            history.push(event);
        }
        let interrupted = finish_drift_adaptation(
            &history,
            "d1",
            Some(&started()),
            DriftAdaptationFinishReason::Interrupted,
            None,
            &own(),
        )
        .unwrap();
        assert_eq!(interrupted.proposal_id.is_some(), length > 0);
        assert_eq!(interrupted.shadow_evaluation_id.is_some(), length > 1);
        assert_eq!(interrupted.assessment_id.is_some(), length > 2);
        assert_eq!(interrupted.child_genome_id, None);
    }
    assert_eq!(promoted.canary_id, Some(text("own-c")));
    assert_eq!(promoted.final_canary_stage, Some(CanaryStage::Completed));
    assert_eq!(promoted.promotion_transition_id, Some(text("x")));
    let unread = DecidedCanary { stage: None, ..decided };
    assert_eq!(
        finish_drift_adaptation(
            &history,
            "d1",
            Some(&started()),
            DriftAdaptationFinishReason::CanaryAborted,
            Some(&unread),
            &own()
        ),
        Err(ExecuteError::Internal)
    );
    assert_eq!(
        finish_drift_adaptation(
            &history,
            "d1",
            None,
            DriftAdaptationFinishReason::Interrupted,
            None,
            &own()
        ),
        Err(ExecuteError::Internal)
    );
}
