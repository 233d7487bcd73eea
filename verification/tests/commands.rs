use hephaestus_control::commands::{
    admit_command, event_type, is_job_identity, require_champion_fields, require_command_fields,
    require_drift_and_canary_fields, require_gene_fields,
    require_no_active_evolution_for_external_command, require_no_active_job_for_sync_work,
    validate_hypothesis, validate_job_id, Occupancy, MAX_WORKER_TTL_SECONDS,
};
use hephaestus_control::error::ExecuteError;
use hephaestus_control::protocol::{Command, DriftKind, McpDecision, MetaLineageSpec};

fn text(value: &str) -> String {
    value.to_owned()
}

fn fault(command: Command) -> Option<&'static str> {
    match require_command_fields(&command, None) {
        Ok(()) => None,
        Err(ExecuteError::Invalid(message)) => Some(message),
        Err(other) => panic!("{other:?}"),
    }
}

fn evolve(run_id: &str, generations: u32, budget: u64) -> Command {
    Command::EvolveStart {
        run_id: text(run_id),
        world_id: text("world:w"),
        from_genome_id: text("genome:g"),
        generations,
        budget,
        strategy_id: None,
    }
}

fn meta(worlds: &[&str], a: &str, b: &str, confidence_bps: u16) -> Command {
    Command::MetaEvaluate {
        meta_run_id: text("meta-1"),
        strategy_a_id: text(a),
        strategy_b_id: text(b),
        lineages: worlds
            .iter()
            .map(|world| MetaLineageSpec { world_id: text(world), from_genome_id: text("genome:g") })
            .collect(),
        confidence_bps,
        bootstrap_seed: 1,
    }
}

fn propose(hypothesis: Option<&str>, analysis_id: Option<&str>, cluster_index: Option<u32>) -> Command {
    Command::GenomePropose {
        proposal_id: text("proposal-1"),
        selection_event_id: text("selection-1"),
        parent_genome_id: text("genome:g"),
        hypothesis: hypothesis.map(text),
        analysis_id: analysis_id.map(text),
        cluster_index,
    }
}

#[test]
fn job_identities_are_short_and_plain() {
    assert!(is_job_identity("job-1_a"));
    assert!(is_job_identity(&"a".repeat(128)));
    assert!(!is_job_identity(&"a".repeat(129)));
    assert!(!is_job_identity(""));
    assert!(!is_job_identity("job 1"));
    assert!(!is_job_identity("job/1"));
    assert!(!is_job_identity("jöb"));
    assert_eq!(validate_job_id("a b"), Err(ExecuteError::Invalid("job_id is invalid")));
}

#[test]
fn hypotheses_are_short_and_printable() {
    assert!(validate_hypothesis("uppercase the output").is_ok());
    assert!(validate_hypothesis(&"é".repeat(256)).is_ok());
    assert!(validate_hypothesis(&"é".repeat(257)).is_err());
    assert!(validate_hypothesis("  ").is_err());
    assert!(validate_hypothesis("line\nbreak").is_err());
}

#[test]
fn identifiers_are_required() {
    assert_eq!(fault(Command::GenomeShow { genome_id: text(" ") }), Some("genome_id is required"));
    assert_eq!(fault(Command::WorldShow { world_id: text("") }), Some("world_id is required"));
    assert_eq!(
        fault(Command::GenomeRegister { path: text(""), world_id: text("") }),
        Some("world_id is required")
    );
    assert_eq!(
        fault(Command::GenomeRegister { path: text(""), world_id: text("world:w") }),
        Some("path is required")
    );
    assert_eq!(fault(Command::WorldRegister { path: text("") }), Some("path is required"));
    assert_eq!(
        fault(Command::RunSubmit { job_id: text("j"), genome_id: text("") }),
        Some("job_id and genome_id are required")
    );
    assert_eq!(fault(Command::JobKill { job_id: text("") }), Some("job_id is required"));
    assert_eq!(
        fault(Command::EvaluatePair {
            evaluation_id: text("e"),
            parent_genome_id: text("p"),
            candidate_genome_id: text(""),
            remote: false,
        }),
        Some("evaluation and Genome identifiers are required")
    );
    assert_eq!(
        fault(Command::RemoteRunSubmit { job_id: text("a b"), genome_id: text("g") }),
        Some("job_id is invalid")
    );
    assert_eq!(fault(Command::Status), None);
}

#[test]
fn lists_are_bounded() {
    for limit in [0, 201, u32::MAX] {
        assert_eq!(fault(Command::RunList { limit }), Some("limit must be between 1 and 200"));
        assert_eq!(fault(Command::DriftList { limit }), Some("limit must be between 1 and 200"));
    }
    for limit in [1, 200] {
        assert_eq!(fault(Command::EvaluationList { limit }), None);
        assert_eq!(fault(Command::DenialList { limit }), None);
    }
}

#[test]
fn a_proposal_has_exactly_one_source() {
    let needed = Some("exactly one of hypothesis or (analysis_id and cluster_index) is required");
    assert_eq!(fault(propose(Some("h"), None, None)), None);
    assert_eq!(fault(propose(None, Some("analysis-1"), Some(0))), None);
    assert_eq!(fault(propose(None, Some("a b"), Some(0))), Some("analysis_id is invalid"));
    assert_eq!(fault(propose(Some("h"), Some("analysis-1"), Some(0))), needed);
    assert_eq!(fault(propose(None, Some("analysis-1"), None)), needed);
    assert_eq!(fault(propose(None, None, None)), needed);
    assert_eq!(
        fault(propose(Some("\u{7}"), None, None)),
        Some("hypothesis must be 1 to 512 printable UTF-8 bytes")
    );
}

#[test]
fn evolution_runs_leave_room_for_their_identifiers() {
    assert_eq!(fault(evolve("run", 1, 2)), None);
    assert_eq!(fault(evolve("a b", 1, 2)), Some("run_id is invalid"));
    assert_eq!(
        fault(evolve(&"r".repeat(101), 1, 2)),
        Some("run_id must leave room for the run's derived identifiers")
    );
    assert_eq!(fault(evolve(&"r".repeat(100), 1, 2)), None);
    assert_eq!(fault(evolve("run", 0, 2)), Some("generations must be positive"));
    assert_eq!(fault(evolve("run", 1, 1)), Some("budget must allow at least one generation"));
}

#[test]
fn meta_evaluations_compare_two_strategies_over_distinct_worlds() {
    assert_eq!(fault(meta(&["w1", "w2"], "a", "b", 9500)), None);
    assert_eq!(
        fault(meta(&["w1", "w2"], "a", "a", 9500)),
        Some("strategy_a_id and strategy_b_id must differ")
    );
    assert_eq!(
        fault(meta(&["w1", "w1"], "a", "b", 9500)),
        Some("held-out lineages must use distinct Worlds")
    );
    assert_eq!(
        fault(meta(&["w1", ""], "a", "b", 9500)),
        Some("lineage world_id and from_genome_id are required")
    );
    assert_eq!(
        fault(meta(&["w1"], "a", "b", 9500)),
        Some("at least two held-out lineages are required for a bootstrap comparison")
    );
    for confidence_bps in [0, 10_000] {
        assert_eq!(
            fault(meta(&["w1", "w2"], "a", "b", confidence_bps)),
            Some("confidence_bps must be between 1 and 9999")
        );
    }
}

#[test]
fn tool_calls_do_not_nest() {
    let inner = Command::McpCall {
        client_id: text("c"),
        tool: text("t"),
        tool_version: 1,
        decision: McpDecision::Denied { reason: text("no") },
    };
    let outer = Command::McpCall {
        client_id: text("c"),
        tool: text("t"),
        tool_version: 1,
        decision: McpDecision::Allowed { command: Box::new(inner) },
    };
    assert_eq!(fault(outer), Some("mcp_call must not nest mcp_call"));
}

#[test]
fn worker_credentials_have_a_bounded_life() {
    let mint = |ttl_seconds| Command::WorkerCredentialMint { worker_id: text("w"), ttl_seconds };
    let message =
        Some("worker_id is required and ttl_seconds must be between 1 and the maximum");
    assert_eq!(fault(mint(0)), message);
    assert_eq!(fault(mint(MAX_WORKER_TTL_SECONDS)), None);
    assert_eq!(fault(mint(MAX_WORKER_TTL_SECONDS + 1)), message);
}

#[test]
fn champion_drift_canary_and_gene_fields_keep_their_rules() {
    let seed = Command::ChampionSeed {
        transition_id: text("t"),
        world_id: text("w"),
        genome_id: text("g"),
        reason: text("r"),
    };
    assert_eq!(require_champion_fields(&seed, None), Ok(()));
    assert_eq!(
        require_champion_fields(&seed, Some("reason is unusable")),
        Err(ExecuteError::Invalid("reason is unusable"))
    );
    let drift = Command::DriftRecord {
        drift_id: text("a b"),
        world_id: text("w"),
        kind: DriftKind::Latency,
        evidence_evaluation_id: text("e"),
    };
    assert_eq!(
        require_drift_and_canary_fields(&drift),
        Err(ExecuteError::Invalid("drift_id is invalid"))
    );
    let gene = Command::GeneExtract { gene_id: text("a b"), promotion_transition_id: text("t") };
    assert_eq!(require_gene_fields(&gene), Err(ExecuteError::Invalid("gene_id is invalid")));
}

#[test]
fn commands_are_audited_under_their_own_type() {
    assert_eq!(event_type(&Command::Freeze), "control.freeze");
    assert_eq!(event_type(&evolve("run", 1, 2)), "control.evolve_start");
    let call = Command::McpCall {
        client_id: text("c"),
        tool: text("t"),
        tool_version: 1,
        decision: McpDecision::Denied { reason: text("no") },
    };
    assert_eq!(event_type(&call), "mcp.call");
}

#[test]
fn running_work_blocks_what_takes_the_storage() {
    let reference = Command::RunReference { genome_id: text("g") };
    assert_eq!(require_no_active_job_for_sync_work(&reference, true, false), Err(ExecuteError::Busy));
    assert_eq!(require_no_active_job_for_sync_work(&reference, false, true), Err(ExecuteError::Busy));
    assert_eq!(require_no_active_job_for_sync_work(&reference, false, false), Ok(()));
    assert_eq!(require_no_active_job_for_sync_work(&Command::Status, true, true), Ok(()));
    let select = Command::ArenaSelect { evaluation_id: text("e") };
    assert_eq!(
        require_no_active_evolution_for_external_command(&select, true),
        Err(ExecuteError::Busy)
    );
    assert_eq!(require_no_active_evolution_for_external_command(&reference, true), Ok(()));
}

#[test]
fn fields_are_checked_before_the_gates() {
    let idle = Occupancy { job: false, arena_job: false, evolution: false };
    let busy = Occupancy { job: true, arena_job: false, evolution: true };
    let bad = Command::ArenaSelect { evaluation_id: text("") };
    let good = Command::ArenaSelect { evaluation_id: text("e") };
    assert_eq!(
        admit_command(&bad, None, &busy),
        Err(ExecuteError::Invalid("evaluation_id is required"))
    );
    assert_eq!(admit_command(&good, None, &busy), Err(ExecuteError::Busy));
    assert_eq!(admit_command(&good, None, &idle), Ok("control.arena_select"));
}
