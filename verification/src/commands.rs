//! Field rules of the operator commands, and what keeps them out while other work runs.

use crate::error;
use crate::error::ExecuteError;
use crate::protocol::{Command, McpDecision, MetaLineageSpec, MAX_LIST_LIMIT};
use crate::text;
use vstd::prelude::*;
use vstd::string::*;
use vstd::utf8::*;

verus! {

/// Ceiling on the lifetime of a minted worker credential: thirty days.
pub const MAX_WORKER_TTL_SECONDS: u64 = 2_592_000;

/// Ceiling on the bytes of a run identity, so that every identity derived from it
/// still is a job identity.
pub const MAX_EVOLUTION_RUN_ID_BYTES: usize = 100;

/// Ceiling on the bytes of a meta-evaluation identity, so that every run identity
/// derived from it stays under [`MAX_EVOLUTION_RUN_ID_BYTES`].
pub const MAX_META_RUN_ID_BYTES: usize = 40;

/// Paired evaluations that one generation submits: its diagnostic and its child.
pub const TRIALS_PER_GENERATION: u64 = 2;

/// The characters that a job identity is made of.
pub open spec fn identity_char(c: char) -> bool {
    text::ascii_alphanumeric(c) || c == '-' || c == '_' || c == '.'
}

/// A caller-selected identity: 1 to 128 letters, digits, hyphens, underscores and
/// full stops.
pub open spec fn job_identity(id: Seq<char>) -> bool {
    &&& 0 < id.len() <= 128
    &&& forall|i: int| 0 <= i < id.len() ==> identity_char(#[trigger] id[i])
}

/// An identity takes one byte for each character.
pub proof fn identity_bytes(id: Seq<char>)
    requires
        forall|i: int| 0 <= i < id.len() ==> identity_char(#[trigger] id[i]),
    ensures
        text::byte_len(id) == id.len(),
{
    assert forall|i: int| 0 <= i < id.len() implies (#[trigger] id[i] as nat) < 128 by {
        assert(identity_char(id[i]));
    }
    is_ascii_chars_encode_utf8(id);
}

/// A job identity is never blank.
pub proof fn identity_is_not_blank(id: Seq<char>)
    requires
        job_identity(id),
    ensures
        !text::blank(id),
{
    assert(identity_char(id[0]));
    assert(!text::white_space(id[0]));
}

/// Whether `id` is a job identity.
pub fn is_job_identity(id: &str) -> (result: bool)
    ensures
        result == job_identity(id@),
{
    if id.is_empty() {
        return false;
    }
    for c in iter: id.chars()
        invariant
            iter.seq() == id@,
            forall|i: int| 0 <= i < iter.index() ==> identity_char(#[trigger] id@[i]),
    {
        if !(('0' <= c && c <= '9') || ('a' <= c && c <= 'z') || ('A' <= c && c <= 'Z') || c == '-'
            || c == '_' || c == '.') {
            assert(!identity_char(id@[iter.index()]));
            return false;
        }
    }
    proof {
        identity_bytes(id@);
    }
    text::byte_length(id) <= 128
}

/// Accepts a job identity.
pub fn validate_job_id(job_id: &str) -> (result: Result<(), ExecuteError>)
    ensures
        result == (if job_identity(job_id@) {
            Ok(())
        } else {
            Err(ExecuteError::Invalid("job_id is invalid"))
        }),
{
    if !is_job_identity(job_id) {
        return Err(ExecuteError::Invalid("job_id is invalid"));
    }
    Ok(())
}

/// A hypothesis: not blank, at most 512 bytes, and free of control characters.
pub open spec fn usable_hypothesis(hypothesis: Seq<char>) -> bool {
    &&& !text::blank(hypothesis)
    &&& text::byte_len(hypothesis) <= 512
    &&& forall|i: int| 0 <= i < hypothesis.len() ==> !text::control(#[trigger] hypothesis[i])
}

/// Whether `hypothesis` is usable.
pub fn is_usable_hypothesis(hypothesis: &str) -> (result: bool)
    ensures
        result == usable_hypothesis(hypothesis@),
{
    !text::is_blank(hypothesis) && text::byte_length(hypothesis) <= 512 && !text::has_control(
        hypothesis,
    )
}

/// Accepts a usable hypothesis.
pub fn validate_hypothesis(hypothesis: &str) -> (result: Result<(), ExecuteError>)
    ensures
        result == (if usable_hypothesis(hypothesis@) {
            Ok(())
        } else {
            Err(ExecuteError::Invalid("hypothesis must be 1 to 512 printable UTF-8 bytes"))
        }),
{
    if !is_usable_hypothesis(hypothesis) {
        return Err(ExecuteError::Invalid("hypothesis must be 1 to 512 printable UTF-8 bytes"));
    }
    Ok(())
}

/// The refusal that a fault leads to.
pub open spec fn refused(fault: Option<&'static str>) -> Result<(), ExecuteError> {
    match fault {
        None => Ok(()),
        Some(message) => Err(ExecuteError::Invalid(message)),
    }
}

/// Whether an allowed tool call wraps another tool call.
pub open spec fn wraps_mcp_call(decision: McpDecision) -> bool {
    decision matches McpDecision::Allowed { command } && *command is McpCall
}

/// Whether an allowed tool call wraps another tool call.
fn is_wrapped_mcp_call(decision: &McpDecision) -> (result: bool)
    ensures
        result == wraps_mcp_call(*decision),
{
    match decision {
        McpDecision::Allowed { command } => match **command {
            Command::McpCall { .. } => true,
            _ => false,
        },
        McpDecision::Denied { .. } => false,
    }
}

/// The fault in how a proposal supplies its hypothesis. Exactly one of a hypothesis or
/// an analysis with a cluster index is to be there.
pub open spec fn hypothesis_source_fault(
    hypothesis: Option<String>,
    analysis_id: Option<String>,
    cluster_index: Option<u32>,
) -> Option<&'static str> {
    match (hypothesis, analysis_id, cluster_index) {
        (Some(hypothesis), None, None) => error::need(
            usable_hypothesis(hypothesis@),
            "hypothesis must be 1 to 512 printable UTF-8 bytes",
        ),
        (None, Some(analysis_id), Some(_)) => error::need(
            job_identity(analysis_id@),
            "analysis_id is invalid",
        ),
        _ => Some("exactly one of hypothesis or (analysis_id and cluster_index) is required"),
    }
}

/// Accepts a proposal that supplies its hypothesis in exactly one way.
fn require_hypothesis_source(
    hypothesis: &Option<String>,
    analysis_id: &Option<String>,
    cluster_index: &Option<u32>,
) -> (result: Result<(), ExecuteError>)
    ensures
        result == refused(hypothesis_source_fault(*hypothesis, *analysis_id, *cluster_index)),
{
    match (hypothesis, analysis_id, cluster_index) {
        (Some(hypothesis), None, None) => validate_hypothesis(hypothesis.as_str()),
        (None, Some(analysis_id), Some(_)) => if is_job_identity(analysis_id.as_str()) {
            Ok(())
        } else {
            Err(ExecuteError::Invalid("analysis_id is invalid"))
        },
        _ => Err(
            ExecuteError::Invalid(
                "exactly one of hypothesis or (analysis_id and cluster_index) is required",
            ),
        ),
    }
}

/// Whether lineage `i` repeats the World of an earlier lineage.
pub open spec fn repeats_world(lineages: Seq<MetaLineageSpec>, i: int) -> bool {
    exists|j: int| 0 <= j < i && #[trigger] lineages[j].world_id@ == lineages[i].world_id@
}

/// The fault of lineage `i`.
pub open spec fn lineage_fault(lineages: Seq<MetaLineageSpec>, i: int) -> Option<&'static str> {
    error::first(
        error::need(
            !text::blank(lineages[i].world_id@) && !text::blank(lineages[i].from_genome_id@),
            "lineage world_id and from_genome_id are required",
        ),
        error::need(!repeats_world(lineages, i), "held-out lineages must use distinct Worlds"),
    )
}

/// The fault of the first faulty lineage from `i` on.
pub open spec fn lineages_fault(lineages: Seq<MetaLineageSpec>, i: int) -> Option<&'static str>
    decreases lineages.len() - i,
{
    if i >= lineages.len() {
        None
    } else {
        error::first(lineage_fault(lineages, i), lineages_fault(lineages, i + 1))
    }
}

/// Accepts lineages that name a World and a Genome each, no World twice.
fn require_lineages(lineages: &Vec<MetaLineageSpec>) -> (result: Result<(), ExecuteError>)
    ensures
        result == refused(lineages_fault(lineages@, 0)),
{
    for i in 0..lineages.len()
        invariant
            lineages_fault(lineages@, 0) == lineages_fault(lineages@, i as int),
    {
        if text::is_blank(lineages[i].world_id.as_str()) || text::is_blank(
            lineages[i].from_genome_id.as_str(),
        ) {
            return Err(ExecuteError::Invalid("lineage world_id and from_genome_id are required"));
        }
        for j in 0..i
            invariant
                i < lineages.len(),
                lineages_fault(lineages@, 0) == lineages_fault(lineages@, i as int),
                !text::blank(lineages@[i as int].world_id@),
                !text::blank(lineages@[i as int].from_genome_id@),
                forall|k: int| 0 <= k < j ==> #[trigger] lineages@[k].world_id@ != lineages@[i as int].world_id@,
        {
            if lineages[j].world_id == lineages[i].world_id {
                assert(lineages@[j as int].world_id@ == lineages@[i as int].world_id@);
                return Err(ExecuteError::Invalid("held-out lineages must use distinct Worlds"));
            }
        }
    }
    Ok(())
}

/// The first rule that a command's fields break. What the champion rules find at fault
/// with a command's reason comes from outside as `reason_fault`.
pub open spec fn command_fault(
    command: Command,
    reason_fault: Option<&'static str>,
) -> Option<&'static str> {
    match command {
        Command::GenomeShow { genome_id } | Command::GenomePrompt { genome_id } => error::need(
            !text::blank(genome_id@),
            "genome_id is required",
        ),
        Command::WorldShow { world_id } => error::need(
            !text::blank(world_id@),
            "world_id is required",
        ),
        Command::GenomeRegister { path, world_id } => error::first(
            error::need(!text::blank(world_id@), "world_id is required"),
            error::need(!text::blank(path@), "path is required"),
        ),
        Command::WorldRegister { path }
        | Command::ArtifactPut { path }
        | Command::MetaStrategyRegister { path } => error::need(
            !text::blank(path@),
            "path is required",
        ),
        Command::RunSubmit { job_id, genome_id } => error::need(
            !text::blank(job_id@) && !text::blank(genome_id@),
            "job_id and genome_id are required",
        ),
        Command::GenomeAssess { assessment_id, proposal_id, selection_event_id } => error::first(
            error::need(job_identity(assessment_id@), "assessment_id is invalid"),
            error::first(
                error::need(job_identity(proposal_id@), "proposal_id is invalid"),
                error::need(!text::blank(selection_event_id@), "selection_event_id is required"),
            ),
        ),
        Command::JobStatus { job_id }
        | Command::JobKill { job_id }
        | Command::RemoteJobStatus { job_id } => error::need(
            !text::blank(job_id@),
            "job_id is required",
        ),
        Command::RunReference { genome_id }
        | Command::RunEvaluation { genome_id, .. } => error::need(
            !text::blank(genome_id@),
            "genome_id is required",
        ),
        Command::EvaluatePair { evaluation_id, parent_genome_id, candidate_genome_id, .. } => error::need(
            !text::blank(evaluation_id@)
                && !text::blank(parent_genome_id@)
                && !text::blank(candidate_genome_id@),
            "evaluation and Genome identifiers are required",
        ),
        Command::ArenaSelect { evaluation_id }
        | Command::ArenaInvariants { evaluation_id } => error::need(
            !text::blank(evaluation_id@),
            "evaluation_id is required",
        ),
        Command::ForgeAnalyze { analysis_id, evaluation_id } => error::first(
            error::need(job_identity(analysis_id@), "analysis_id is invalid"),
            error::need(!text::blank(evaluation_id@), "evaluation_id is required"),
        ),
        Command::RunList { limit }
        | Command::EvaluationList { limit }
        | Command::DenialList { limit }
        | Command::MetaList { limit }
        | Command::DriftList { limit }
        | Command::CanaryList { limit } => error::need(
            0 < limit <= MAX_LIST_LIMIT,
            "limit must be between 1 and 200",
        ),
        Command::EvolveStart { run_id, world_id, from_genome_id, generations, budget, .. } => error::first(
            error::need(job_identity(run_id@), "run_id is invalid"),
            error::first(
                error::need(
                    text::byte_len(run_id@) <= MAX_EVOLUTION_RUN_ID_BYTES,
                    "run_id must leave room for the run's derived identifiers",
                ),
                error::first(
                    error::need(
                        !text::blank(world_id@) && !text::blank(from_genome_id@),
                        "world_id and from_genome_id are required",
                    ),
                    error::first(
                        error::need(generations != 0, "generations must be positive"),
                        error::need(
                            budget >= TRIALS_PER_GENERATION,
                            "budget must allow at least one generation",
                        ),
                    ),
                ),
            ),
        ),
        Command::EvolveStatus { run_id } | Command::EvolveCancel { run_id } => error::need(
            job_identity(run_id@),
            "run_id is invalid",
        ),
        Command::McpCall { client_id, tool, decision, .. } => error::first(
            error::need(
                !text::blank(client_id@) && !text::blank(tool@),
                "client_id and tool are required",
            ),
            error::need(!wraps_mcp_call(decision), "mcp_call must not nest mcp_call"),
        ),
        Command::WorkerCredentialMint { worker_id, ttl_seconds } => error::need(
            !text::blank(worker_id@) && 0 < ttl_seconds <= MAX_WORKER_TTL_SECONDS,
            "worker_id is required and ttl_seconds must be between 1 and the maximum",
        ),
        Command::WorkerCredentialRevoke { credential_id } => error::need(
            !text::blank(credential_id@),
            "credential_id is required",
        ),
        Command::RemoteRunSubmit { job_id, genome_id } => error::first(
            error::need(job_identity(job_id@), "job_id is invalid"),
            error::need(!text::blank(genome_id@), "genome_id is required"),
        ),
        Command::MetaStrategyShow { strategy_id } => error::need(
            !text::blank(strategy_id@),
            "strategy_id is required",
        ),
        Command::MetaShow { meta_run_id } => error::need(
            job_identity(meta_run_id@),
            "meta_run_id is invalid",
        ),
        Command::GenomePropose {
            proposal_id,
            selection_event_id,
            parent_genome_id,
            hypothesis,
            analysis_id,
            cluster_index,
        } => error::first(
            error::need(job_identity(proposal_id@), "proposal_id is invalid"),
            error::first(
                error::need(
                    !text::blank(selection_event_id@) && !text::blank(parent_genome_id@),
                    "selection_event_id and parent_genome_id are required",
                ),
                hypothesis_source_fault(hypothesis, analysis_id, cluster_index),
            ),
        ),
        Command::MetaEvaluate {
            meta_run_id,
            strategy_a_id,
            strategy_b_id,
            lineages,
            confidence_bps,
            ..
        } => error::first(
            error::need(job_identity(meta_run_id@), "meta_run_id is invalid"),
            error::first(
                error::need(
                    text::byte_len(meta_run_id@) <= MAX_META_RUN_ID_BYTES,
                    "meta_run_id must leave room for its derived run identifiers",
                ),
                error::first(
                    error::need(
                        !text::blank(strategy_a_id@) && !text::blank(strategy_b_id@),
                        "strategy_a_id and strategy_b_id are required",
                    ),
                    error::first(
                        error::need(
                            strategy_a_id@ != strategy_b_id@,
                            "strategy_a_id and strategy_b_id must differ",
                        ),
                        error::first(
                            error::need(
                                lineages@.len() >= 2,
                                "at least two held-out lineages are required for a bootstrap comparison",
                            ),
                            error::first(
                                lineages_fault(lineages@, 0),
                                error::need(
                                    0 < confidence_bps < 10_000,
                                    "confidence_bps must be between 1 and 9999",
                                ),
                            ),
                        ),
                    ),
                ),
            ),
        ),
        _ => error::first(
            champion_fault(command, reason_fault),
            error::first(drift_and_canary_fault(command), gene_fault(command)),
        ),
    }
}

/// The first rule that the fields of a Champion command break.
pub open spec fn champion_fault(
    command: Command,
    reason_fault: Option<&'static str>,
) -> Option<&'static str> {
    match command {
        Command::ChampionSeed { transition_id, world_id, genome_id, .. } => error::first(
            error::need(
                !text::blank(world_id@) && !text::blank(genome_id@),
                "world_id and genome_id are required",
            ),
            error::first(
                reason_fault,
                error::need(job_identity(transition_id@), "transition_id is invalid"),
            ),
        ),
        Command::ChampionPromote { transition_id, assessment_id } => error::first(
            error::need(job_identity(assessment_id@), "assessment_id is invalid"),
            error::need(job_identity(transition_id@), "transition_id is invalid"),
        ),
        Command::ChampionRollback { transition_id, world_id, .. } => error::first(
            error::need(!text::blank(world_id@), "world_id is required"),
            error::first(
                reason_fault,
                error::need(job_identity(transition_id@), "transition_id is invalid"),
            ),
        ),
        Command::ChampionShow { world_id } => error::need(
            !text::blank(world_id@),
            "world_id is required",
        ),
        _ => None,
    }
}

/// The first rule that the fields of a drift or canary command break.
pub open spec fn drift_and_canary_fault(command: Command) -> Option<&'static str> {
    match command {
        Command::DriftRecord { drift_id, world_id, evidence_evaluation_id, .. } => error::first(
            error::need(job_identity(drift_id@), "drift_id is invalid"),
            error::first(
                error::need(!text::blank(world_id@), "world_id is required"),
                error::need(
                    job_identity(evidence_evaluation_id@),
                    "evidence_evaluation_id is invalid",
                ),
            ),
        ),
        Command::DriftShow { drift_id } => error::need(
            job_identity(drift_id@),
            "drift_id is invalid",
        ),
        Command::CanaryStart { canary_id, world_id, candidate_genome_id, assessment_id } => error::first(
            error::need(job_identity(canary_id@), "canary_id is invalid"),
            error::first(
                error::need(
                    !text::blank(world_id@) && !text::blank(candidate_genome_id@),
                    "world_id and candidate_genome_id are required",
                ),
                error::need(job_identity(assessment_id@), "assessment_id is invalid"),
            ),
        ),
        Command::CanaryAdvance { canary_id, evidence_evaluation_id }
        | Command::CanaryLiveCheck { canary_id, evidence_evaluation_id } => error::first(
            error::need(job_identity(canary_id@), "canary_id is invalid"),
            error::need(job_identity(evidence_evaluation_id@), "evidence_evaluation_id is invalid"),
        ),
        Command::CanaryShow { canary_id } => error::need(
            job_identity(canary_id@),
            "canary_id is invalid",
        ),
        _ => None,
    }
}

/// The first rule that the fields of a Gene command break.
pub open spec fn gene_fault(command: Command) -> Option<&'static str> {
    match command {
        Command::GeneExtract { gene_id, promotion_transition_id } => error::first(
            error::need(job_identity(gene_id@), "gene_id is invalid"),
            error::need(
                job_identity(promotion_transition_id@),
                "promotion_transition_id is invalid",
            ),
        ),
        Command::GeneTransfer { trial_id, gene_id, to_genome_id } => error::first(
            error::need(job_identity(trial_id@), "trial_id is invalid"),
            error::need(
                !text::blank(gene_id@) && !text::blank(to_genome_id@),
                "gene_id and to_genome_id are required",
            ),
        ),
        Command::GeneRecord { trial_id, evaluation_id } => error::first(
            error::need(job_identity(trial_id@), "trial_id is invalid"),
            error::need(!text::blank(evaluation_id@), "evaluation_id is required"),
        ),
        Command::GeneShow { gene_id } => error::need(!text::blank(gene_id@), "gene_id is required"),
        Command::GeneSpeciate { species_id, gene_id, domain_world_id } => error::first(
            error::need(job_identity(species_id@), "species_id is invalid"),
            error::need(
                !text::blank(gene_id@) && !text::blank(domain_world_id@),
                "gene_id and domain_world_id are required",
            ),
        ),
        _ => None,
    }
}

/// Accepts a meta-evaluation whose fields keep their rules.
fn require_meta_evaluate_fields(command: &Command) -> (result: Result<(), ExecuteError>)
    ensures
        *command is MetaEvaluate ==> result == refused(command_fault(*command, None)),
        !(*command is MetaEvaluate) ==> result == Ok::<(), ExecuteError>(()),
{
    if let Command::MetaEvaluate {
        meta_run_id,
        strategy_a_id,
        strategy_b_id,
        lineages,
        confidence_bps,
        ..
    } = command {
        if !is_job_identity(meta_run_id.as_str()) {
            return Err(ExecuteError::Invalid("meta_run_id is invalid"));
        }
        if text::byte_length(meta_run_id.as_str()) > MAX_META_RUN_ID_BYTES {
            return Err(
                ExecuteError::Invalid("meta_run_id must leave room for its derived run identifiers"),
            );
        }
        if text::is_blank(strategy_a_id.as_str()) || text::is_blank(strategy_b_id.as_str()) {
            return Err(ExecuteError::Invalid("strategy_a_id and strategy_b_id are required"));
        }
        if text::text_eq(strategy_a_id.as_str(), strategy_b_id.as_str()) {
            return Err(ExecuteError::Invalid("strategy_a_id and strategy_b_id must differ"));
        }
        if lineages.len() < 2 {
            return Err(
                ExecuteError::Invalid(
                    "at least two held-out lineages are required for a bootstrap comparison",
                ),
            );
        }
        let checked = require_lineages(lineages);
        if checked.is_err() {
            return checked;
        }
        if *confidence_bps == 0 || *confidence_bps >= 10_000 {
            return Err(ExecuteError::Invalid("confidence_bps must be between 1 and 9999"));
        }
    }
    Ok(())
}

/// Accepts a command whose fields keep their rules.
pub fn require_command_fields(
    command: &Command,
    reason_fault: Option<&'static str>,
) -> (result: Result<(), ExecuteError>)
    ensures
        result == refused(command_fault(*command, reason_fault)),
{
    match command {
        Command::GenomeShow { genome_id } | Command::GenomePrompt { genome_id } => {
            if text::is_blank(genome_id.as_str()) {
                return Err(ExecuteError::Invalid("genome_id is required"));
            }
        },
        Command::WorldShow { world_id } => {
            if text::is_blank(world_id.as_str()) {
                return Err(ExecuteError::Invalid("world_id is required"));
            }
        },
        Command::GenomeRegister { path, world_id } => {
            if text::is_blank(world_id.as_str()) {
                return Err(ExecuteError::Invalid("world_id is required"));
            }
            if text::is_blank(path.as_str()) {
                return Err(ExecuteError::Invalid("path is required"));
            }
        },
        Command::WorldRegister { path }
        | Command::ArtifactPut { path }
        | Command::MetaStrategyRegister { path } => {
            if text::is_blank(path.as_str()) {
                return Err(ExecuteError::Invalid("path is required"));
            }
        },
        Command::RunSubmit { job_id, genome_id } => {
            if text::is_blank(job_id.as_str()) || text::is_blank(genome_id.as_str()) {
                return Err(ExecuteError::Invalid("job_id and genome_id are required"));
            }
        },
        Command::GenomeAssess { assessment_id, proposal_id, selection_event_id } => {
            if !is_job_identity(assessment_id.as_str()) {
                return Err(ExecuteError::Invalid("assessment_id is invalid"));
            }
            if !is_job_identity(proposal_id.as_str()) {
                return Err(ExecuteError::Invalid("proposal_id is invalid"));
            }
            if text::is_blank(selection_event_id.as_str()) {
                return Err(ExecuteError::Invalid("selection_event_id is required"));
            }
        },
        Command::JobStatus { job_id }
        | Command::JobKill { job_id }
        | Command::RemoteJobStatus { job_id } => {
            if text::is_blank(job_id.as_str()) {
                return Err(ExecuteError::Invalid("job_id is required"));
            }
        },
        Command::RunReference { genome_id } | Command::RunEvaluation { genome_id, .. } => {
            if text::is_blank(genome_id.as_str()) {
                return Err(ExecuteError::Invalid("genome_id is required"));
            }
        },
        Command::EvaluatePair { evaluation_id, parent_genome_id, candidate_genome_id, .. } => {
            if text::is_blank(evaluation_id.as_str())
                || text::is_blank(parent_genome_id.as_str())
                || text::is_blank(candidate_genome_id.as_str()) {
                return Err(ExecuteError::Invalid("evaluation and Genome identifiers are required"));
            }
        },
        Command::ArenaSelect { evaluation_id } | Command::ArenaInvariants { evaluation_id } => {
            if text::is_blank(evaluation_id.as_str()) {
                return Err(ExecuteError::Invalid("evaluation_id is required"));
            }
        },
        Command::ForgeAnalyze { analysis_id, evaluation_id } => {
            if !is_job_identity(analysis_id.as_str()) {
                return Err(ExecuteError::Invalid("analysis_id is invalid"));
            }
            if text::is_blank(evaluation_id.as_str()) {
                return Err(ExecuteError::Invalid("evaluation_id is required"));
            }
        },
        Command::RunList { limit }
        | Command::EvaluationList { limit }
        | Command::DenialList { limit }
        | Command::MetaList { limit }
        | Command::DriftList { limit }
        | Command::CanaryList { limit } => {
            if *limit == 0 || *limit > MAX_LIST_LIMIT {
                return Err(ExecuteError::Invalid("limit must be between 1 and 200"));
            }
        },
        Command::EvolveStart { run_id, world_id, from_genome_id, generations, budget, .. } => {
            if !is_job_identity(run_id.as_str()) {
                return Err(ExecuteError::Invalid("run_id is invalid"));
            }
            if text::byte_length(run_id.as_str()) > MAX_EVOLUTION_RUN_ID_BYTES {
                return Err(ExecuteError::Invalid("run_id must leave room for the run's derived identifiers"));
            }
            if text::is_blank(world_id.as_str()) || text::is_blank(from_genome_id.as_str()) {
                return Err(ExecuteError::Invalid("world_id and from_genome_id are required"));
            }
            if *generations == 0 {
                return Err(ExecuteError::Invalid("generations must be positive"));
            }
            if *budget < TRIALS_PER_GENERATION {
                return Err(ExecuteError::Invalid("budget must allow at least one generation"));
            }
        },
        Command::EvolveStatus { run_id } | Command::EvolveCancel { run_id } => {
            if !is_job_identity(run_id.as_str()) {
                return Err(ExecuteError::Invalid("run_id is invalid"));
            }
        },
        Command::McpCall { client_id, tool, decision, .. } => {
            if text::is_blank(client_id.as_str()) || text::is_blank(tool.as_str()) {
                return Err(ExecuteError::Invalid("client_id and tool are required"));
            }
            if is_wrapped_mcp_call(decision) {
                return Err(ExecuteError::Invalid("mcp_call must not nest mcp_call"));
            }
        },
        Command::WorkerCredentialMint { worker_id, ttl_seconds } => {
            if text::is_blank(worker_id.as_str())
                || *ttl_seconds == 0
                || *ttl_seconds > MAX_WORKER_TTL_SECONDS {
                return Err(ExecuteError::Invalid("worker_id is required and ttl_seconds must be between 1 and the maximum"));
            }
        },
        Command::WorkerCredentialRevoke { credential_id } => {
            if text::is_blank(credential_id.as_str()) {
                return Err(ExecuteError::Invalid("credential_id is required"));
            }
        },
        Command::RemoteRunSubmit { job_id, genome_id } => {
            if !is_job_identity(job_id.as_str()) {
                return Err(ExecuteError::Invalid("job_id is invalid"));
            }
            if text::is_blank(genome_id.as_str()) {
                return Err(ExecuteError::Invalid("genome_id is required"));
            }
        },
        Command::MetaStrategyShow { strategy_id } => {
            if text::is_blank(strategy_id.as_str()) {
                return Err(ExecuteError::Invalid("strategy_id is required"));
            }
        },
        Command::MetaShow { meta_run_id } => {
            if !is_job_identity(meta_run_id.as_str()) {
                return Err(ExecuteError::Invalid("meta_run_id is invalid"));
            }
        },
        Command::GenomePropose {
            proposal_id,
            selection_event_id,
            parent_genome_id,
            hypothesis,
            analysis_id,
            cluster_index,
        } => {
            if !is_job_identity(proposal_id.as_str()) {
                return Err(ExecuteError::Invalid("proposal_id is invalid"));
            }
            if text::is_blank(selection_event_id.as_str()) || text::is_blank(
                parent_genome_id.as_str(),
            ) {
                return Err(
                    ExecuteError::Invalid("selection_event_id and parent_genome_id are required"),
                );
            }
            return require_hypothesis_source(hypothesis, analysis_id, cluster_index);
        },
        Command::MetaEvaluate { .. } => {
            return require_meta_evaluate_fields(command);
        },
        _ => {
            let champion = require_champion_fields(command, reason_fault);
            if champion.is_err() {
                return champion;
            }
            let drift = require_drift_and_canary_fields(command);
            if drift.is_err() {
                return drift;
            }
            return require_gene_fields(command);
        },
    }
    Ok(())
}

/// Accepts a Champion command whose fields keep their rules.
pub fn require_champion_fields(
    command: &Command,
    reason_fault: Option<&'static str>,
) -> (result: Result<(), ExecuteError>)
    ensures
        result == refused(champion_fault(*command, reason_fault)),
{
    match command {
        Command::ChampionSeed { transition_id, world_id, genome_id, .. } => {
            if text::is_blank(world_id.as_str()) || text::is_blank(genome_id.as_str()) {
                return Err(ExecuteError::Invalid("world_id and genome_id are required"));
            }
            if let Some(fault) = reason_fault {
                return Err(ExecuteError::Invalid(fault));
            }
            if !is_job_identity(transition_id.as_str()) {
                return Err(ExecuteError::Invalid("transition_id is invalid"));
            }
        },
        Command::ChampionPromote { transition_id, assessment_id } => {
            if !is_job_identity(assessment_id.as_str()) {
                return Err(ExecuteError::Invalid("assessment_id is invalid"));
            }
            if !is_job_identity(transition_id.as_str()) {
                return Err(ExecuteError::Invalid("transition_id is invalid"));
            }
        },
        Command::ChampionRollback { transition_id, world_id, .. } => {
            if text::is_blank(world_id.as_str()) {
                return Err(ExecuteError::Invalid("world_id is required"));
            }
            if let Some(fault) = reason_fault {
                return Err(ExecuteError::Invalid(fault));
            }
            if !is_job_identity(transition_id.as_str()) {
                return Err(ExecuteError::Invalid("transition_id is invalid"));
            }
        },
        Command::ChampionShow { world_id } => {
            if text::is_blank(world_id.as_str()) {
                return Err(ExecuteError::Invalid("world_id is required"));
            }
        },
        _ => {},
    }
    Ok(())
}

/// Accepts a drift or canary command whose fields keep their rules.
pub fn require_drift_and_canary_fields(command: &Command) -> (result: Result<(), ExecuteError>)
    ensures
        result == refused(drift_and_canary_fault(*command)),
{
    match command {
        Command::DriftRecord { drift_id, world_id, evidence_evaluation_id, .. } => {
            if !is_job_identity(drift_id.as_str()) {
                return Err(ExecuteError::Invalid("drift_id is invalid"));
            }
            if text::is_blank(world_id.as_str()) {
                return Err(ExecuteError::Invalid("world_id is required"));
            }
            if !is_job_identity(evidence_evaluation_id.as_str()) {
                return Err(ExecuteError::Invalid("evidence_evaluation_id is invalid"));
            }
        },
        Command::DriftShow { drift_id } => {
            if !is_job_identity(drift_id.as_str()) {
                return Err(ExecuteError::Invalid("drift_id is invalid"));
            }
        },
        Command::CanaryStart { canary_id, world_id, candidate_genome_id, assessment_id } => {
            if !is_job_identity(canary_id.as_str()) {
                return Err(ExecuteError::Invalid("canary_id is invalid"));
            }
            if text::is_blank(world_id.as_str()) || text::is_blank(candidate_genome_id.as_str()) {
                return Err(ExecuteError::Invalid("world_id and candidate_genome_id are required"));
            }
            if !is_job_identity(assessment_id.as_str()) {
                return Err(ExecuteError::Invalid("assessment_id is invalid"));
            }
        },
        Command::CanaryAdvance { canary_id, evidence_evaluation_id }
        | Command::CanaryLiveCheck { canary_id, evidence_evaluation_id } => {
            if !is_job_identity(canary_id.as_str()) {
                return Err(ExecuteError::Invalid("canary_id is invalid"));
            }
            if !is_job_identity(evidence_evaluation_id.as_str()) {
                return Err(ExecuteError::Invalid("evidence_evaluation_id is invalid"));
            }
        },
        Command::CanaryShow { canary_id } => {
            if !is_job_identity(canary_id.as_str()) {
                return Err(ExecuteError::Invalid("canary_id is invalid"));
            }
        },
        _ => {},
    }
    Ok(())
}

/// Accepts a Gene command whose fields keep their rules.
pub fn require_gene_fields(command: &Command) -> (result: Result<(), ExecuteError>)
    ensures
        result == refused(gene_fault(*command)),
{
    match command {
        Command::GeneExtract { gene_id, promotion_transition_id } => {
            if !is_job_identity(gene_id.as_str()) {
                return Err(ExecuteError::Invalid("gene_id is invalid"));
            }
            if !is_job_identity(promotion_transition_id.as_str()) {
                return Err(ExecuteError::Invalid("promotion_transition_id is invalid"));
            }
        },
        Command::GeneTransfer { trial_id, gene_id, to_genome_id } => {
            if !is_job_identity(trial_id.as_str()) {
                return Err(ExecuteError::Invalid("trial_id is invalid"));
            }
            if text::is_blank(gene_id.as_str()) || text::is_blank(to_genome_id.as_str()) {
                return Err(ExecuteError::Invalid("gene_id and to_genome_id are required"));
            }
        },
        Command::GeneRecord { trial_id, evaluation_id } => {
            if !is_job_identity(trial_id.as_str()) {
                return Err(ExecuteError::Invalid("trial_id is invalid"));
            }
            if text::is_blank(evaluation_id.as_str()) {
                return Err(ExecuteError::Invalid("evaluation_id is required"));
            }
        },
        Command::GeneShow { gene_id } => {
            if text::is_blank(gene_id.as_str()) {
                return Err(ExecuteError::Invalid("gene_id is required"));
            }
        },
        Command::GeneSpeciate { species_id, gene_id, domain_world_id } => {
            if !is_job_identity(species_id.as_str()) {
                return Err(ExecuteError::Invalid("species_id is invalid"));
            }
            if text::is_blank(gene_id.as_str()) || text::is_blank(domain_world_id.as_str()) {
                return Err(ExecuteError::Invalid("gene_id and domain_world_id are required"));
            }
        },
        _ => {},
    }
    Ok(())
}

/// The audit event type of a command.
pub open spec fn audit_type(command: Command) -> &'static str {
    match command {
        Command::Status => "control.status",
        Command::Freeze => "control.freeze",
        Command::Unfreeze => "control.unfreeze",
        Command::KillAll => "control.kill_all",
        Command::GenomeShow { .. } => "control.genome_show",
        Command::GenomePrompt { .. } => "control.genome_prompt",
        Command::GenomeList => "control.genome_list",
        Command::GenomeRegister { .. } => "control.genome_register",
        Command::GenomePropose { .. } => "control.genome_propose",
        Command::GenomeAssess { .. } => "control.genome_assess",
        Command::ForgeAnalyze { .. } => "control.forge_analyze",
        Command::WorldShow { .. } => "control.world_show",
        Command::WorldList => "control.world_list",
        Command::WorldRegister { .. } => "control.world_register",
        Command::ManifestPut { .. } => "control.manifest_put",
        Command::ArtifactPut { .. } => "control.artifact_put",
        Command::VerifierShow => "control.verifier_show",
        Command::RunSubmit { .. } => "control.run_submit",
        Command::JobStatus { .. } => "control.job_status",
        Command::JobKill { .. } => "control.job_kill",
        Command::RunReference { .. } => "control.run_reference",
        Command::RunEvaluation { .. } => "control.run_evaluation",
        Command::EvaluatePair { .. } => "control.evaluate_pair",
        Command::ArenaSelect { .. } => "control.arena_select",
        Command::ArenaInvariants { .. } => "control.arena_invariants",
        Command::ChampionSeed { .. } => "control.champion_seed",
        Command::ChampionPromote { .. } => "control.champion_promote",
        Command::ChampionRollback { .. } => "control.champion_rollback",
        Command::ChampionShow { .. } => "control.champion_show",
        Command::DriftRecord { .. } => "control.drift_record",
        Command::DriftShow { .. } => "control.drift_show",
        Command::DriftList { .. } => "control.drift_list",
        Command::CanaryStart { .. } => "control.canary_start",
        Command::CanaryAdvance { .. } => "control.canary_advance",
        Command::CanaryLiveCheck { .. } => "control.canary_live_check",
        Command::CanaryShow { .. } => "control.canary_show",
        Command::CanaryList { .. } => "control.canary_list",
        Command::GeneExtract { .. } => "control.gene_extract",
        Command::GeneTransfer { .. } => "control.gene_transfer",
        Command::GeneRecord { .. } => "control.gene_record",
        Command::GeneShow { .. } => "control.gene_show",
        Command::GeneList => "control.gene_list",
        Command::GeneSpeciate { .. } => "control.gene_speciate",
        Command::EvolveStart { .. } => "control.evolve_start",
        Command::EvolveStatus { .. } => "control.evolve_status",
        Command::EvolveCancel { .. } => "control.evolve_cancel",
        Command::MetaStrategyRegister { .. } => "control.meta_strategy_register",
        Command::MetaStrategyShow { .. } => "control.meta_strategy_show",
        Command::MetaStrategyList => "control.meta_strategy_list",
        Command::MetaEvaluate { .. } => "control.meta_evaluate",
        Command::MetaShow { .. } => "control.meta_show",
        Command::MetaList { .. } => "control.meta_list",
        Command::Replay => "control.replay",
        Command::RunList { .. } => "control.run_list",
        Command::EvaluationList { .. } => "control.evaluation_list",
        Command::DenialList { .. } => "control.denial_list",
        Command::DaemonStop => "control.daemon_stop",
        Command::McpCall { .. } => "mcp.call",
        Command::WorkerCredentialMint { .. } => "control.worker_credential_mint",
        Command::WorkerCredentialRevoke { .. } => "control.worker_credential_revoke",
        Command::RemoteRunSubmit { .. } => "control.remote_run_submit",
        Command::RemoteJobStatus { .. } => "control.remote_job_status",
    }
}

/// Names the audit event type of a command.
pub fn event_type(command: &Command) -> (result: &'static str)
    ensures
        result == audit_type(*command),
{
    match command {
        Command::Status => "control.status",
        Command::Freeze => "control.freeze",
        Command::Unfreeze => "control.unfreeze",
        Command::KillAll => "control.kill_all",
        Command::GenomeShow { .. } => "control.genome_show",
        Command::GenomePrompt { .. } => "control.genome_prompt",
        Command::GenomeList => "control.genome_list",
        Command::GenomeRegister { .. } => "control.genome_register",
        Command::GenomePropose { .. } => "control.genome_propose",
        Command::GenomeAssess { .. } => "control.genome_assess",
        Command::ForgeAnalyze { .. } => "control.forge_analyze",
        Command::WorldShow { .. } => "control.world_show",
        Command::WorldList => "control.world_list",
        Command::WorldRegister { .. } => "control.world_register",
        Command::ManifestPut { .. } => "control.manifest_put",
        Command::ArtifactPut { .. } => "control.artifact_put",
        Command::VerifierShow => "control.verifier_show",
        Command::RunSubmit { .. } => "control.run_submit",
        Command::JobStatus { .. } => "control.job_status",
        Command::JobKill { .. } => "control.job_kill",
        Command::RunReference { .. } => "control.run_reference",
        Command::RunEvaluation { .. } => "control.run_evaluation",
        Command::EvaluatePair { .. } => "control.evaluate_pair",
        Command::ArenaSelect { .. } => "control.arena_select",
        Command::ArenaInvariants { .. } => "control.arena_invariants",
        Command::ChampionSeed { .. } => "control.champion_seed",
        Command::ChampionPromote { .. } => "control.champion_promote",
        Command::ChampionRollback { .. } => "control.champion_rollback",
        Command::ChampionShow { .. } => "control.champion_show",
        Command::DriftRecord { .. } => "control.drift_record",
        Command::DriftShow { .. } => "control.drift_show",
        Command::DriftList { .. } => "control.drift_list",
        Command::CanaryStart { .. } => "control.canary_start",
        Command::CanaryAdvance { .. } => "control.canary_advance",
        Command::CanaryLiveCheck { .. } => "control.canary_live_check",
        Command::CanaryShow { .. } => "control.canary_show",
        Command::CanaryList { .. } => "control.canary_list",
        Command::GeneExtract { .. } => "control.gene_extract",
        Command::GeneTransfer { .. } => "control.gene_transfer",
        Command::GeneRecord { .. } => "control.gene_record",
        Command::GeneShow { .. } => "control.gene_show",
        Command::GeneList => "control.gene_list",
        Command::GeneSpeciate { .. } => "control.gene_speciate",
        Command::EvolveStart { .. } => "control.evolve_start",
        Command::EvolveStatus { .. } => "control.evolve_status",
        Command::EvolveCancel { .. } => "control.evolve_cancel",
        Command::MetaStrategyRegister { .. } => "control.meta_strategy_register",
        Command::MetaStrategyShow { .. } => "control.meta_strategy_show",
        Command::MetaStrategyList => "control.meta_strategy_list",
        Command::MetaEvaluate { .. } => "control.meta_evaluate",
        Command::MetaShow { .. } => "control.meta_show",
        Command::MetaList { .. } => "control.meta_list",
        Command::Replay => "control.replay",
        Command::RunList { .. } => "control.run_list",
        Command::EvaluationList { .. } => "control.evaluation_list",
        Command::DenialList { .. } => "control.denial_list",
        Command::DaemonStop => "control.daemon_stop",
        Command::McpCall { .. } => "mcp.call",
        Command::WorkerCredentialMint { .. } => "control.worker_credential_mint",
        Command::WorkerCredentialRevoke { .. } => "control.worker_credential_revoke",
        Command::RemoteRunSubmit { .. } => "control.remote_run_submit",
        Command::RemoteJobStatus { .. } => "control.remote_job_status",
    }
}

/// Whether a command needs the canonical storage to itself.
pub open spec fn takes_storage(command: Command) -> bool {
    match command {
        Command::RunReference { .. }
        | Command::RunEvaluation { .. }
        | Command::ArenaSelect { .. }
        | Command::ArenaInvariants { .. }
        | Command::GenomeRegister { .. }
        | Command::GenomePropose { .. }
        | Command::GenomeAssess { .. }
        | Command::ForgeAnalyze { .. }
        | Command::ChampionSeed { .. }
        | Command::ChampionPromote { .. }
        | Command::ChampionRollback { .. }
        | Command::DriftRecord { .. }
        | Command::CanaryStart { .. }
        | Command::CanaryAdvance { .. }
        | Command::CanaryLiveCheck { .. }
        | Command::GeneExtract { .. }
        | Command::GeneTransfer { .. }
        | Command::GeneRecord { .. }
        | Command::GeneSpeciate { .. }
        | Command::WorldRegister { .. }
        | Command::ManifestPut { .. }
        | Command::ArtifactPut { .. }
        | Command::Replay
        | Command::EvolveStart { .. }
        | Command::MetaStrategyRegister { .. }
        | Command::MetaEvaluate { .. } => true,
        _ => false,
    }
}

/// Whether a command would race the run that an active evolution drives.
pub open spec fn races_evolution(command: Command) -> bool {
    match command {
        Command::EvaluatePair { .. }
        | Command::ArenaSelect { .. }
        | Command::ArenaInvariants { .. }
        | Command::GenomePropose { .. }
        | Command::GenomeAssess { .. }
        | Command::ForgeAnalyze { .. }
        | Command::ChampionSeed { .. }
        | Command::ChampionPromote { .. }
        | Command::ChampionRollback { .. }
        | Command::DriftRecord { .. }
        | Command::CanaryStart { .. }
        | Command::CanaryAdvance { .. }
        | Command::CanaryLiveCheck { .. }
        | Command::GeneExtract { .. }
        | Command::GeneTransfer { .. }
        | Command::GeneRecord { .. }
        | Command::GeneSpeciate { .. } => true,
        _ => false,
    }
}

/// Refuses a command that takes the storage while a bounded job or a paired evaluation
/// is active.
pub fn require_no_active_job_for_sync_work(
    command: &Command,
    active_job: bool,
    active_arena_job: bool,
) -> (result: Result<(), ExecuteError>)
    ensures
        result == (if (active_job || active_arena_job) && takes_storage(*command) {
            Err(ExecuteError::Busy)
        } else {
            Ok(())
        }),
{
    let storage_taking = match command {
        Command::RunReference { .. }
        | Command::RunEvaluation { .. }
        | Command::ArenaSelect { .. }
        | Command::ArenaInvariants { .. }
        | Command::GenomeRegister { .. }
        | Command::GenomePropose { .. }
        | Command::GenomeAssess { .. }
        | Command::ForgeAnalyze { .. }
        | Command::ChampionSeed { .. }
        | Command::ChampionPromote { .. }
        | Command::ChampionRollback { .. }
        | Command::DriftRecord { .. }
        | Command::CanaryStart { .. }
        | Command::CanaryAdvance { .. }
        | Command::CanaryLiveCheck { .. }
        | Command::GeneExtract { .. }
        | Command::GeneTransfer { .. }
        | Command::GeneRecord { .. }
        | Command::GeneSpeciate { .. }
        | Command::WorldRegister { .. }
        | Command::ManifestPut { .. }
        | Command::ArtifactPut { .. }
        | Command::Replay
        | Command::EvolveStart { .. }
        | Command::MetaStrategyRegister { .. }
        | Command::MetaEvaluate { .. } => true,
        _ => false,
    };
    if (active_job || active_arena_job) && storage_taking {
        Err(ExecuteError::Busy)
    } else {
        Ok(())
    }
}

/// Refuses a command that would race an active evolution run.
pub fn require_no_active_evolution_for_external_command(
    command: &Command,
    evolution_active: bool,
) -> (result: Result<(), ExecuteError>)
    ensures
        result == (if evolution_active && races_evolution(*command) {
            Err(ExecuteError::Busy)
        } else {
            Ok(())
        }),
{
    let blocked = match command {
        Command::EvaluatePair { .. }
        | Command::ArenaSelect { .. }
        | Command::ArenaInvariants { .. }
        | Command::GenomePropose { .. }
        | Command::GenomeAssess { .. }
        | Command::ForgeAnalyze { .. }
        | Command::ChampionSeed { .. }
        | Command::ChampionPromote { .. }
        | Command::ChampionRollback { .. }
        | Command::DriftRecord { .. }
        | Command::CanaryStart { .. }
        | Command::CanaryAdvance { .. }
        | Command::CanaryLiveCheck { .. }
        | Command::GeneExtract { .. }
        | Command::GeneTransfer { .. }
        | Command::GeneRecord { .. }
        | Command::GeneSpeciate { .. } => true,
        _ => false,
    };
    if blocked && evolution_active {
        Err(ExecuteError::Busy)
    } else {
        Ok(())
    }
}

/// What occupies the daemon when a command arrives.
pub struct Occupancy {
    /// A bounded job runs.
    pub job: bool,
    /// A paired evaluation runs.
    pub arena_job: bool,
    /// An evolution run is active in verified history.
    pub evolution: bool,
}

/// Whether a command is admitted, and under which audit event type.
pub open spec fn admission(
    command: Command,
    reason_fault: Option<&'static str>,
    occupancy: Occupancy,
) -> Result<&'static str, ExecuteError> {
    match command_fault(command, reason_fault) {
        Some(message) => Err(ExecuteError::Invalid(message)),
        None => if (occupancy.job || occupancy.arena_job) && takes_storage(command) {
            Err(ExecuteError::Busy)
        } else if occupancy.evolution && races_evolution(command) {
            Err(ExecuteError::Busy)
        } else {
            Ok(audit_type(command))
        },
    }
}

/// Checks a command before anything is recorded of it: its fields first, then what runs.
/// An admitted command is audited under the event type that is returned.
pub fn admit_command(
    command: &Command,
    reason_fault: Option<&'static str>,
    occupancy: &Occupancy,
) -> (result: Result<&'static str, ExecuteError>)
    ensures
        result == admission(*command, reason_fault, *occupancy),
{
    if let Err(error) = require_command_fields(command, reason_fault) {
        return Err(error);
    }
    if let Err(error) = require_no_active_job_for_sync_work(command, occupancy.job, occupancy.arena_job) {
        return Err(error);
    }
    if let Err(error) = require_no_active_evolution_for_external_command(command, occupancy.evolution) {
        return Err(error);
    }
    Ok(event_type(command))
}

} // verus!
