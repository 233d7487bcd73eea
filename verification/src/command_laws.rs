//! Which commands are accepted, how they are audited and what they are answered, said of inputs
//! and results alone.

use crate::api;
use crate::api::{
    Intake, Intaken, Reception, RequestReader, ResponseWriter, Step, WorkerIntake, WorkerQueueing,
    WriteStep, Written,
};
use crate::commands;
use crate::commands::Occupancy;
use crate::error::ExecuteError;
use crate::protocol::{
    ApiErrorCode, ApiRequest, ApiResponse, Command, McpDecision, ResponseData, WorkerReply,
};
use crate::records::EventEnvelope;
use crate::state::ControlState;
use crate::text;
use vstd::prelude::*;

verus! {

/// A text that says something: one of its characters is no white space.
pub open spec fn says_something(text: Seq<char>) -> bool {
    exists|i: int| 0 <= i < text.len() && !text::white_space(#[trigger] text[i])
}

/// Whether a character may stand in an identity that a caller selects.
pub open spec fn plain(c: char) -> bool {
    ||| 'a' <= c <= 'z'
    ||| 'A' <= c <= 'Z'
    ||| '0' <= c <= '9'
    ||| c == '-'
    ||| c == '_'
    ||| c == '.'
}

/// An identity that a caller may select: 1 to 128 plain characters.
pub open spec fn selectable(id: Seq<char>) -> bool {
    1 <= id.len() <= 128 && forall|i: int| 0 <= i < id.len() ==> plain(#[trigger] id[i])
}

/// An identity is selectable exactly where it is accepted as one.
proof fn identities_are_selectable(id: Seq<char>)
    ensures
        selectable(id) <==> commands::job_identity(id),
{
    if selectable(id) {
        assert forall|i: int| 0 <= i < id.len() implies commands::identity_char(#[trigger] id[i]) by {
            assert(plain(id[i]));
        }
    }
    if commands::job_identity(id) {
        assert forall|i: int| 0 <= i < id.len() implies plain(#[trigger] id[i]) by {
            assert(commands::identity_char(id[i]));
        }
    }
}

/// The identities of jobs are selectable ones, and no others.
pub proof fn job_identities_are_selectable(job_id: &str, result: Result<(), ExecuteError>)
    requires
        call_ensures(commands::validate_job_id, (job_id,), result),
    ensures
        result is Ok <==> selectable(job_id@),
{
    identities_are_selectable(job_id@);
}

/// An accepted command says something in each field that it needs, and names what it creates by
/// a selectable identity.
pub proof fn accepted_commands_name_what_they_need(
    command: Command,
    reason_fault: Option<&'static str>,
)
    requires
        call_ensures(
            commands::require_command_fields,
            (&command, reason_fault),
            Ok::<(), ExecuteError>(()),
        ),
    ensures
        match command {
            Command::RunSubmit { job_id, genome_id } => says_something(job_id@) && says_something(
                genome_id@,
            ),
            Command::RemoteRunSubmit { job_id, genome_id } => selectable(job_id@)
                && says_something(genome_id@),
            Command::JobStatus { job_id } | Command::JobKill { job_id } => says_something(job_id@),
            Command::RunReference { genome_id } => says_something(genome_id@),
            Command::RunEvaluation { genome_id, .. } => says_something(genome_id@),
            Command::GenomeRegister { path, world_id } => says_something(path@) && says_something(
                world_id@,
            ),
            Command::WorldRegister { path } => says_something(path@),
            Command::EvaluatePair {
                evaluation_id,
                parent_genome_id,
                candidate_genome_id,
                ..
            } => says_something(evaluation_id@) && says_something(parent_genome_id@)
                && says_something(candidate_genome_id@),
            Command::ArenaSelect { evaluation_id } | Command::ArenaInvariants {
                evaluation_id,
            } => says_something(evaluation_id@),
            Command::ForgeAnalyze { analysis_id, evaluation_id } => selectable(analysis_id@)
                && says_something(evaluation_id@),
            Command::GenomeAssess { assessment_id, proposal_id, selection_event_id } => selectable(
                assessment_id@,
            ) && selectable(proposal_id@) && says_something(selection_event_id@),
            Command::GenomePropose {
                proposal_id,
                selection_event_id,
                parent_genome_id,
                hypothesis,
                analysis_id,
                cluster_index,
            } => selectable(proposal_id@) && says_something(selection_event_id@)
                && says_something(parent_genome_id@) && ((hypothesis is Some && says_something(
                hypothesis->0@,
            ) && analysis_id is None && cluster_index is None) || (hypothesis is None
                && analysis_id is Some && selectable(analysis_id->0@) && cluster_index is Some)),
            Command::RunList { limit }
            | Command::EvaluationList { limit }
            | Command::DenialList { limit }
            | Command::MetaList { limit }
            | Command::DriftList { limit }
            | Command::CanaryList { limit } => 1 <= limit <= 200,
            Command::EvolveStart { run_id, world_id, from_genome_id, generations, budget, .. } =>
                selectable(run_id@) && run_id@.len() <= 100 && says_something(world_id@)
                && says_something(from_genome_id@) && generations >= 1 && budget >= 2,
            Command::EvolveStatus { run_id } | Command::EvolveCancel { run_id } => selectable(
                run_id@,
            ),
            Command::McpCall { client_id, tool, decision, .. } => says_something(client_id@)
                && says_something(tool@) && !(decision matches McpDecision::Allowed { command }
                && *command is McpCall),
            Command::WorkerCredentialMint { worker_id, ttl_seconds } => says_something(worker_id@)
                && 1 <= ttl_seconds <= 2_592_000,
            Command::MetaEvaluate {
                meta_run_id,
                strategy_a_id,
                strategy_b_id,
                lineages,
                confidence_bps,
                ..
            } => selectable(meta_run_id@) && meta_run_id@.len() <= 40 && says_something(
                strategy_a_id@,
            ) && says_something(strategy_b_id@) && strategy_a_id@ != strategy_b_id@
                && lineages@.len() >= 2 && 1 <= confidence_bps <= 9999,
            Command::ChampionSeed { transition_id, world_id, genome_id, .. } => selectable(
                transition_id@,
            ) && says_something(world_id@) && says_something(genome_id@) && reason_fault is None,
            Command::ChampionPromote { transition_id, assessment_id } => selectable(transition_id@)
                && selectable(assessment_id@),
            Command::ChampionRollback { transition_id, world_id, .. } => selectable(transition_id@)
                && says_something(world_id@) && reason_fault is None,
            Command::DriftRecord { drift_id, world_id, evidence_evaluation_id, .. } => selectable(
                drift_id@,
            ) && says_something(world_id@) && selectable(evidence_evaluation_id@),
            Command::CanaryStart { canary_id, world_id, candidate_genome_id, assessment_id } =>
                selectable(canary_id@) && says_something(world_id@) && says_something(
                candidate_genome_id@,
            ) && selectable(assessment_id@),
            Command::CanaryAdvance { canary_id, evidence_evaluation_id }
            | Command::CanaryLiveCheck { canary_id, evidence_evaluation_id } => selectable(
                canary_id@,
            ) && selectable(evidence_evaluation_id@),
            Command::GeneExtract { gene_id, promotion_transition_id } => selectable(gene_id@)
                && selectable(promotion_transition_id@),
            Command::GeneTransfer { trial_id, gene_id, to_genome_id } => selectable(trial_id@)
                && says_something(gene_id@) && says_something(to_genome_id@),
            Command::GeneRecord { trial_id, evaluation_id } => selectable(trial_id@)
                && says_something(evaluation_id@),
            Command::GeneSpeciate { species_id, gene_id, domain_world_id } => selectable(
                species_id@,
            ) && says_something(gene_id@) && says_something(domain_world_id@),
            _ => true,
        },
{
    match command {
        Command::RemoteRunSubmit { job_id, .. } => {
            identities_are_selectable(job_id@);
        },
        Command::ForgeAnalyze { analysis_id, .. } => {
            identities_are_selectable(analysis_id@);
        },
        Command::GenomeAssess { assessment_id, proposal_id, .. } => {
            identities_are_selectable(assessment_id@);
            identities_are_selectable(proposal_id@);
        },
        Command::EvolveStart { run_id, .. } => {
            identities_are_selectable(run_id@);
            commands::identity_bytes(run_id@);
        },
        Command::EvolveStatus { run_id, .. } => {
            identities_are_selectable(run_id@);
        },
        Command::EvolveCancel { run_id, .. } => {
            identities_are_selectable(run_id@);
        },
        Command::MetaEvaluate { meta_run_id, .. } => {
            identities_are_selectable(meta_run_id@);
            commands::identity_bytes(meta_run_id@);
        },
        Command::ChampionSeed { transition_id, .. } => {
            identities_are_selectable(transition_id@);
        },
        Command::ChampionPromote { transition_id, assessment_id, .. } => {
            identities_are_selectable(transition_id@);
            identities_are_selectable(assessment_id@);
        },
        Command::ChampionRollback { transition_id, .. } => {
            identities_are_selectable(transition_id@);
        },
        Command::DriftRecord { drift_id, evidence_evaluation_id, .. } => {
            identities_are_selectable(drift_id@);
            identities_are_selectable(evidence_evaluation_id@);
        },
        Command::CanaryStart { canary_id, assessment_id, .. } => {
            identities_are_selectable(canary_id@);
            identities_are_selectable(assessment_id@);
        },
        Command::CanaryAdvance { canary_id, evidence_evaluation_id, .. } => {
            identities_are_selectable(canary_id@);
            identities_are_selectable(evidence_evaluation_id@);
        },
        Command::CanaryLiveCheck { canary_id, evidence_evaluation_id, .. } => {
            identities_are_selectable(canary_id@);
            identities_are_selectable(evidence_evaluation_id@);
        },
        Command::GeneExtract { gene_id, promotion_transition_id, .. } => {
            identities_are_selectable(gene_id@);
            identities_are_selectable(promotion_transition_id@);
        },
        Command::GeneTransfer { trial_id, .. } => {
            identities_are_selectable(trial_id@);
        },
        Command::GeneRecord { trial_id, .. } => {
            identities_are_selectable(trial_id@);
        },
        Command::GeneSpeciate { species_id, .. } => {
            identities_are_selectable(species_id@);
        },
        Command::GenomePropose { proposal_id, analysis_id, .. } => {
            identities_are_selectable(proposal_id@);
            if analysis_id is Some {
                identities_are_selectable(analysis_id->0@);
            }
        },
        _ => {},
    }
}

/// A command is admitted exactly where its fields are accepted, nothing runs that it would
/// disturb, and it would not race a running evolution; it is then audited under its own type.
pub proof fn commands_are_admitted_when_nothing_is_disturbed(
    command: Command,
    reason_fault: Option<&'static str>,
    occupancy: Occupancy,
    fields: Result<(), ExecuteError>,
    idle: Result<(), ExecuteError>,
    alone: Result<(), ExecuteError>,
    audited: &'static str,
    result: Result<&'static str, ExecuteError>,
)
    requires
        call_ensures(commands::require_command_fields, (&command, reason_fault), fields),
        call_ensures(
            commands::require_no_active_job_for_sync_work,
            (&command, occupancy.job, occupancy.arena_job),
            idle,
        ),
        call_ensures(
            commands::require_no_active_evolution_for_external_command,
            (&command, occupancy.evolution),
            alone,
        ),
        call_ensures(commands::event_type, (&command,), audited),
        call_ensures(commands::admit_command, (&command, reason_fault, &occupancy), result),
    ensures
        result is Ok <==> fields is Ok && idle is Ok && alone is Ok,
        result matches Ok(shown) ==> shown == audited,
        fields is Err ==> result is Err && result->Err_0 == fields->Err_0,
        fields is Ok && result is Err ==> result->Err_0 == ExecuteError::Busy,
{
}

/// Reading, stopping, freezing and killing never wait for a job. What registers, proposes,
/// selects, promotes or extracts does, for a job as well as for a paired evaluation.
pub proof fn only_changes_wait_for_jobs(
    command: Command,
    active_job: bool,
    active_arena_job: bool,
    result: Result<(), ExecuteError>,
)
    requires
        call_ensures(
            commands::require_no_active_job_for_sync_work,
            (&command, active_job, active_arena_job),
            result,
        ),
    ensures
        !active_job && !active_arena_job ==> result is Ok,
        command is Status || command is KillAll || command is JobKill || command is JobStatus
            || command is Freeze || command is Unfreeze || command is DaemonStop || command
            is GenomeShow || command is GenomeList || command is WorldShow || command is WorldList
            || command is RunList || command is EvaluationList || command is DenialList || command
            is EvolveStatus || command is EvolveCancel || command is ChampionShow || command
            is DriftShow || command is CanaryShow || command is GeneShow || command is MetaShow
            ==> result is Ok,
        (active_job || active_arena_job) && (command is RunReference || command is RunEvaluation
            || command is GenomeRegister || command is WorldRegister || command is GenomePropose
            || command is GenomeAssess || command is ForgeAnalyze || command is ArenaSelect
            || command is ArenaInvariants || command is ChampionSeed || command is ChampionPromote
            || command is ChampionRollback || command is DriftRecord || command is CanaryStart
            || command is CanaryAdvance || command is CanaryLiveCheck || command is GeneExtract
            || command is GeneTransfer || command is GeneRecord || command is GeneSpeciate
            || command is ManifestPut || command is ArtifactPut || command is Replay || command
            is EvolveStart || command is MetaStrategyRegister || command is MetaEvaluate)
            ==> result == Err::<(), ExecuteError>(ExecuteError::Busy),
{
}

/// A running evolution is disturbed by nothing that takes part in its generations, and it keeps
/// nobody from reading, from stopping it or from registering.
pub proof fn evolutions_run_undisturbed(
    command: Command,
    evolution_active: bool,
    result: Result<(), ExecuteError>,
)
    requires
        call_ensures(
            commands::require_no_active_evolution_for_external_command,
            (&command, evolution_active),
            result,
        ),
    ensures
        !evolution_active ==> result is Ok,
        command is Status || command is KillAll || command is JobKill || command is JobStatus
            || command is Freeze || command is Unfreeze || command is DaemonStop || command
            is EvolveStatus || command is EvolveCancel || command is RunSubmit || command
            is GenomeRegister || command is WorldRegister || command is RunList || command
            is EvaluationList ==> result is Ok,
        evolution_active && (command is EvaluatePair || command is ArenaSelect || command
            is ArenaInvariants || command is GenomePropose || command is GenomeAssess || command
            is ForgeAnalyze || command is ChampionSeed || command is ChampionPromote || command
            is ChampionRollback || command is DriftRecord || command is CanaryStart || command
            is CanaryAdvance || command is CanaryLiveCheck || command is GeneExtract || command
            is GeneTransfer || command is GeneRecord || command is GeneSpeciate) ==> result == Err::<
            (),
            ExecuteError,
        >(ExecuteError::Busy),
{
}

/// Every command is audited under a type of its own, so that the ledger tells which one was
/// carried out.
#[verifier::rlimit(60)]
pub proof fn commands_are_audited_apart(command: Command, other: Command, audited: &'static str)
    requires
        call_ensures(commands::event_type, (&command,), audited),
        call_ensures(commands::event_type, (&other,), audited),
    ensures
        command is Status <==> other is Status,
        command is Freeze <==> other is Freeze,
        command is Unfreeze <==> other is Unfreeze,
        command is KillAll <==> other is KillAll,
        command is GenomeShow <==> other is GenomeShow,
        command is GenomePrompt <==> other is GenomePrompt,
        command is GenomeList <==> other is GenomeList,
        command is GenomeRegister <==> other is GenomeRegister,
        command is GenomePropose <==> other is GenomePropose,
        command is GenomeAssess <==> other is GenomeAssess,
        command is ForgeAnalyze <==> other is ForgeAnalyze,
        command is WorldShow <==> other is WorldShow,
        command is WorldList <==> other is WorldList,
        command is WorldRegister <==> other is WorldRegister,
        command is ManifestPut <==> other is ManifestPut,
        command is ArtifactPut <==> other is ArtifactPut,
        command is VerifierShow <==> other is VerifierShow,
        command is RunSubmit <==> other is RunSubmit,
        command is JobStatus <==> other is JobStatus,
        command is JobKill <==> other is JobKill,
        command is RunReference <==> other is RunReference,
        command is RunEvaluation <==> other is RunEvaluation,
        command is EvaluatePair <==> other is EvaluatePair,
        command is ArenaSelect <==> other is ArenaSelect,
        command is ArenaInvariants <==> other is ArenaInvariants,
        command is ChampionSeed <==> other is ChampionSeed,
        command is ChampionPromote <==> other is ChampionPromote,
        command is ChampionRollback <==> other is ChampionRollback,
        command is ChampionShow <==> other is ChampionShow,
        command is DriftRecord <==> other is DriftRecord,
        command is DriftShow <==> other is DriftShow,
        command is DriftList <==> other is DriftList,
        command is CanaryStart <==> other is CanaryStart,
        command is CanaryAdvance <==> other is CanaryAdvance,
        command is CanaryLiveCheck <==> other is CanaryLiveCheck,
        command is CanaryShow <==> other is CanaryShow,
        command is CanaryList <==> other is CanaryList,
        command is GeneExtract <==> other is GeneExtract,
        command is GeneTransfer <==> other is GeneTransfer,
        command is GeneRecord <==> other is GeneRecord,
        command is GeneShow <==> other is GeneShow,
        command is GeneList <==> other is GeneList,
        command is GeneSpeciate <==> other is GeneSpeciate,
        command is EvolveStart <==> other is EvolveStart,
        command is EvolveStatus <==> other is EvolveStatus,
        command is EvolveCancel <==> other is EvolveCancel,
        command is MetaStrategyRegister <==> other is MetaStrategyRegister,
        command is MetaStrategyShow <==> other is MetaStrategyShow,
        command is MetaStrategyList <==> other is MetaStrategyList,
        command is MetaEvaluate <==> other is MetaEvaluate,
        command is MetaShow <==> other is MetaShow,
        command is MetaList <==> other is MetaList,
        command is Replay <==> other is Replay,
        command is RunList <==> other is RunList,
        command is EvaluationList <==> other is EvaluationList,
        command is DenialList <==> other is DenialList,
        command is DaemonStop <==> other is DaemonStop,
        command is McpCall <==> other is McpCall,
        command is WorkerCredentialMint <==> other is WorkerCredentialMint,
        command is WorkerCredentialRevoke <==> other is WorkerCredentialRevoke,
        command is RemoteRunSubmit <==> other is RemoteRunSubmit,
        command is RemoteJobStatus <==> other is RemoteJobStatus,
{
    reveal_strlit("control.status");
    reveal_strlit("control.freeze");
    reveal_strlit("control.unfreeze");
    reveal_strlit("control.kill_all");
    reveal_strlit("control.genome_show");
    reveal_strlit("control.genome_prompt");
    reveal_strlit("control.genome_list");
    reveal_strlit("control.genome_register");
    reveal_strlit("control.genome_propose");
    reveal_strlit("control.genome_assess");
    reveal_strlit("control.forge_analyze");
    reveal_strlit("control.world_show");
    reveal_strlit("control.world_list");
    reveal_strlit("control.world_register");
    reveal_strlit("control.manifest_put");
    reveal_strlit("control.artifact_put");
    reveal_strlit("control.verifier_show");
    reveal_strlit("control.run_submit");
    reveal_strlit("control.job_status");
    reveal_strlit("control.job_kill");
    reveal_strlit("control.run_reference");
    reveal_strlit("control.run_evaluation");
    reveal_strlit("control.evaluate_pair");
    reveal_strlit("control.arena_select");
    reveal_strlit("control.arena_invariants");
    reveal_strlit("control.champion_seed");
    reveal_strlit("control.champion_promote");
    reveal_strlit("control.champion_rollback");
    reveal_strlit("control.champion_show");
    reveal_strlit("control.drift_record");
    reveal_strlit("control.drift_show");
    reveal_strlit("control.drift_list");
    reveal_strlit("control.canary_start");
    reveal_strlit("control.canary_advance");
    reveal_strlit("control.canary_live_check");
    reveal_strlit("control.canary_show");
    reveal_strlit("control.canary_list");
    reveal_strlit("control.gene_extract");
    reveal_strlit("control.gene_transfer");
    reveal_strlit("control.gene_record");
    reveal_strlit("control.gene_show");
    reveal_strlit("control.gene_list");
    reveal_strlit("control.gene_speciate");
    reveal_strlit("control.evolve_start");
    reveal_strlit("control.evolve_status");
    reveal_strlit("control.evolve_cancel");
    reveal_strlit("control.meta_strategy_register");
    reveal_strlit("control.meta_strategy_show");
    reveal_strlit("control.meta_strategy_list");
    reveal_strlit("control.meta_evaluate");
    reveal_strlit("control.meta_show");
    reveal_strlit("control.meta_list");
    reveal_strlit("control.replay");
    reveal_strlit("control.run_list");
    reveal_strlit("control.evaluation_list");
    reveal_strlit("control.denial_list");
    reveal_strlit("control.daemon_stop");
    reveal_strlit("mcp.call");
    reveal_strlit("control.worker_credential_mint");
    reveal_strlit("control.worker_credential_revoke");
    reveal_strlit("control.remote_run_submit");
    reveal_strlit("control.remote_job_status");
    let mark = |text: Seq<char>| (text.len(), text[text.len() - 2], text[text.len() - 7]);
    assert(mark("control.status"@) == (14nat, 'u', '.'));
    assert(mark("control.freeze"@) == (14nat, 'z', '.'));
    assert(mark("control.unfreeze"@) == (16nat, 'z', 'n'));
    assert(mark("control.kill_all"@) == (16nat, 'l', 'i'));
    assert(mark("control.genome_show"@) == (19nat, 'o', 'm'));
    assert(mark("control.genome_prompt"@) == (21nat, 'p', '_'));
    assert(mark("control.genome_list"@) == (19nat, 's', 'm'));
    assert(mark("control.genome_register"@) == (23nat, 'e', 'e'));
    assert(mark("control.genome_propose"@) == (22nat, 's', 'p'));
    assert(mark("control.genome_assess"@) == (21nat, 's', '_'));
    assert(mark("control.forge_analyze"@) == (21nat, 'z', 'a'));
    assert(mark("control.world_show"@) == (18nat, 'o', 'l'));
    assert(mark("control.world_list"@) == (18nat, 's', 'l'));
    assert(mark("control.world_register"@) == (22nat, 'e', 'e'));
    assert(mark("control.manifest_put"@) == (20nat, 'u', 'e'));
    assert(mark("control.artifact_put"@) == (20nat, 'u', 'a'));
    assert(mark("control.verifier_show"@) == (21nat, 'o', 'e'));
    assert(mark("control.run_submit"@) == (18nat, 'i', '_'));
    assert(mark("control.job_status"@) == (18nat, 'u', '_'));
    assert(mark("control.job_kill"@) == (16nat, 'l', 'o'));
    assert(mark("control.run_reference"@) == (21nat, 'c', 'f'));
    assert(mark("control.run_evaluation"@) == (22nat, 'o', 'l'));
    assert(mark("control.evaluate_pair"@) == (21nat, 'i', 't'));
    assert(mark("control.arena_select"@) == (20nat, 'c', '_'));
    assert(mark("control.arena_invariants"@) == (24nat, 't', 'a'));
    assert(mark("control.champion_seed"@) == (21nat, 'e', 'o'));
    assert(mark("control.champion_promote"@) == (24nat, 't', 'p'));
    assert(mark("control.champion_rollback"@) == (25nat, 'c', 'o'));
    assert(mark("control.champion_show"@) == (21nat, 'o', 'o'));
    assert(mark("control.drift_record"@) == (20nat, 'r', '_'));
    assert(mark("control.drift_show"@) == (18nat, 'o', 'f'));
    assert(mark("control.drift_list"@) == (18nat, 's', 'f'));
    assert(mark("control.canary_start"@) == (20nat, 'r', 'y'));
    assert(mark("control.canary_advance"@) == (22nat, 'c', 'a'));
    assert(mark("control.canary_live_check"@) == (25nat, 'c', 'e'));
    assert(mark("control.canary_show"@) == (19nat, 'o', 'r'));
    assert(mark("control.canary_list"@) == (19nat, 's', 'r'));
    assert(mark("control.gene_extract"@) == (20nat, 'c', 'e'));
    assert(mark("control.gene_transfer"@) == (21nat, 'e', 'r'));
    assert(mark("control.gene_record"@) == (19nat, 'r', '_'));
    assert(mark("control.gene_show"@) == (17nat, 'o', 'n'));
    assert(mark("control.gene_list"@) == (17nat, 's', 'n'));
    assert(mark("control.gene_speciate"@) == (21nat, 't', 'p'));
    assert(mark("control.evolve_start"@) == (20nat, 'r', 'e'));
    assert(mark("control.evolve_status"@) == (21nat, 'u', '_'));
    assert(mark("control.evolve_cancel"@) == (21nat, 'e', '_'));
    assert(mark("control.meta_strategy_register"@) == (30nat, 'e', 'e'));
    assert(mark("control.meta_strategy_show"@) == (26nat, 'o', 'g'));
    assert(mark("control.meta_strategy_list"@) == (26nat, 's', 'g'));
    assert(mark("control.meta_evaluate"@) == (21nat, 't', 'v'));
    assert(mark("control.meta_show"@) == (17nat, 'o', 't'));
    assert(mark("control.meta_list"@) == (17nat, 's', 't'));
    assert(mark("control.replay"@) == (14nat, 'a', '.'));
    assert(mark("control.run_list"@) == (16nat, 's', 'u'));
    assert(mark("control.evaluation_list"@) == (23nat, 's', 'o'));
    assert(mark("control.denial_list"@) == (19nat, 's', 'a'));
    assert(mark("control.daemon_stop"@) == (19nat, 'o', 'o'));
    assert(mark("mcp.call"@) == (8nat, 'l', 'c'));
    assert(mark("control.worker_credential_mint"@) == (30nat, 'n', 'a'));
    assert(mark("control.worker_credential_revoke"@) == (32nat, 'k', '_'));
    assert(mark("control.remote_run_submit"@) == (25nat, 'i', '_'));
    assert(mark("control.remote_job_status"@) == (25nat, 'u', '_'));
}

/// Only an authenticated request of this version is carried out, and what is carried out is the
/// command that it holds, under its own identity. Every refusal answers the request refused.
pub proof fn requests_are_carried_out_when_authentic(
    token: &str,
    request: ApiRequest,
    result: Reception,
)
    requires
        call_ensures(api::handle, (token, request), result),
    ensures
        !(result is Refuse) ==> request.version == 1 && request.token@ == token@,
        request.version == 1 && request.token@ == token@ ==> !(result is Refuse),
        result is Execute <==> request.version == 1 && request.token@ == token@ && says_something(
            request.request_id@,
        ),
        result matches Reception::Execute { request_id, command } ==> request_id
            == request.request_id && command == request.command,
        result matches Reception::Reject { request_id, command } ==> request_id
            == request.request_id && command == request.command,
        result matches Reception::Refuse(response) ==> response.request_id@ == request.request_id@
            && response.data is None && response.error is Some && (response.error->0.code
            == ApiErrorCode::UnsupportedVersion <==> request.version != 1) && (
        response.error->0.code == ApiErrorCode::Unauthorized <==> request.version == 1),
{
}

/// An answer belongs to its request and holds either what was asked for or why it was refused,
/// never both.
pub proof fn answers_hold_data_or_a_reason(
    request_id: String,
    result: Result<ResponseData, ExecuteError>,
    response: ApiResponse,
)
    requires
        call_ensures(api::answer, (request_id, result), response),
    ensures
        response.version == 1 && response.request_id@ == request_id@,
        result matches Ok(data) ==> response.data == Some(data) && response.error is None,
        result is Err ==> response.data is None && response.error is Some,
        result == Err::<ResponseData, ExecuteError>(ExecuteError::NotFound)
            ==> response.error->0.code == ApiErrorCode::NotFound,
        result == Err::<ResponseData, ExecuteError>(ExecuteError::Busy)
            ==> response.error->0.code == ApiErrorCode::Busy,
        result == Err::<ResponseData, ExecuteError>(ExecuteError::Internal)
            ==> response.error->0.code == ApiErrorCode::Internal,
        result matches Err(ExecuteError::Invalid(message)) ==> response.error->0.code
            == ApiErrorCode::InvalidRequest && response.error->0.message@ == message@,
        result matches Err(ExecuteError::Rejected(message)) ==> response.error->0.code
            == ApiErrorCode::InvalidRequest && response.error->0.message@ == message@,
{
}

/// A command is carried out as what it is: freezing and killing are acknowledged with the state
/// that they leave, records are shown as registered, a denied call stays denied, an allowed one
/// is carried out as the command that it wraps, and the daemon stops only where nothing runs.
pub proof fn commands_are_carried_out_as_given(
    state: ControlState,
    working: bool,
    command: Command,
    step: Step,
)
    requires
        state.wf(),
        call_ensures(api::execute, (&state, working, command), step),
    ensures
        command is Freeze || command is Unfreeze ==> (step matches Step::Answer(Ok(data)) && data
            == (ResponseData::Acknowledged { frozen: state@.frozen, killed_runs: 0 })),
        command is KillAll ==> (step matches Step::CancelRunning(Ok(data)) && data == (
        ResponseData::Acknowledged { frozen: state@.frozen, killed_runs: 0 })),
        step is CancelRunning ==> command is KillAll || command is DaemonStop,
        step is Stop <==> command is DaemonStop && !working,
        command is DaemonStop && working ==> (step matches Step::CancelRunning(Err(error)) && error
            == ExecuteError::Busy),
        step matches Step::Nested(inner) ==> command is McpCall && (command->McpCall_decision matches
            McpDecision::Allowed { command: allowed } && *allowed == inner),
        command matches Command::McpCall { decision: McpDecision::Denied { reason }, .. } ==> (
        step matches Step::Answer(Ok(ResponseData::McpDenied { reason: told })) && told == reason),
        step matches Step::Run { command: admitted, .. } ==> admitted == command && (command
            is RunReference || command is RunEvaluation),
        command is RunReference ==> (step matches Step::Run { run_id, .. } && run_id@
            == "reference-"@ + text::decimal(state@.event_count as nat)),
        command is RunEvaluation ==> (step matches Step::Run { run_id, .. } && run_id@
            == "evaluation-"@ + text::decimal(state@.event_count as nat)),
        step matches Step::Perform(performed) ==> performed == command,
        command matches Command::GenomeShow { genome_id } ==> if
            state.registered.genomes@.contains_key(genome_id@) {
            step matches Step::Answer(Ok(ResponseData::Genome { genome })) && genome@
                == state.registered.genomes@[genome_id@].record@
        } else {
            step == Step::Answer(Err(ExecuteError::NotFound))
        },
        command matches Command::WorldShow { world_id } ==> if
            state.registered.worlds@.contains_key(world_id@) {
            step matches Step::Answer(Ok(ResponseData::World { world })) && world
                == state.registered.worlds@[world_id@].record
        } else {
            step == Step::Answer(Err(ExecuteError::NotFound))
        },
        command is RunSubmit || command is EvaluatePair || command is EvolveStart || command
            is GenomePropose || command is ChampionSeed || command is JobKill ==> step
            == Step::Perform(command),
{
}

/// A request without an identity is answered as one, and one whose rejection could not be
/// recorded as a failure of the daemon.
pub proof fn rejections_are_answered(recorded: bool, response: ApiResponse)
    requires
        call_ensures(api::answer_rejection, (recorded,), response),
    ensures
        response.data is None && response.error is Some,
        response.error->0.code == ApiErrorCode::InvalidRequest <==> recorded,
        response.error->0.code == ApiErrorCode::Internal <==> !recorded,
{
}

/// The status tells whether evolution is frozen and counts what is recorded.
pub proof fn statuses_count_what_is_recorded(state: ControlState, response: ResponseData)
    requires
        state.wf(),
        call_ensures(api::status, (&state,), response),
    ensures
        response is Status,
        response->Status_frozen == state@.frozen,
        response->Status_active_runs == state@.active_runs.len(),
        response->Status_event_count == state@.event_count,
        response->Status_genome_count == state.registered.genomes@.dom().len(),
{
}

/// The audit of a request stands in the control aggregate under the next place in the ledger.
pub proof fn audits_stand_in_the_control_aggregate(
    state: ControlState,
    request_id: &str,
    event_type: &str,
    envelope: EventEnvelope,
)
    requires
        state.event_count < u64::MAX,
        call_ensures(api::audit_envelope, (&state, request_id, event_type), envelope),
    ensures
        envelope.aggregate_id@ == "hephaestus-control"@,
        envelope.actor@ == "local-operator"@,
        envelope.event_type@ == event_type@,
        envelope.event_id@ == "control:"@ + text::decimal((state.event_count + 1) as nat) + ":"@
            + request_id@,
{
}

/// A connection is answered with what the daemon replied, and with an error where it could not
/// be asked.
pub proof fn connections_pass_replies_on(intake: Intake, response: ApiResponse)
    requires
        call_ensures(api::connection_reply, (intake,), response),
    ensures
        intake matches Intake::Queued(Some(reply)) ==> response == reply,
        !(intake is Queued && intake->Queued_0 is Some) ==> response.data is None && response.error
            is Some,
        intake is QueueFull ==> response.error->0.code == ApiErrorCode::Busy,
        intake is TooLarge || intake is Unreadable || intake is Malformed
            ==> response.error->0.code == ApiErrorCode::InvalidRequest,
        intake is Stopping || (intake is Queued && intake->Queued_0 is None)
            ==> response.error->0.code == ApiErrorCode::Internal,
{
}

/// A worker is answered with what the daemon replied, and with an error where it could not be
/// asked or sent more than two mebibytes.
pub proof fn worker_connections_pass_replies_on(intake: WorkerIntake, reply: WorkerReply)
    requires
        call_ensures(api::worker_connection_reply, (intake,), reply),
    ensures
        intake matches WorkerIntake::Read {
            length,
            request: Some(WorkerQueueing::Queued(Some(given))),
        } ==> (length <= 2_097_152 ==> reply == given),
        intake is Unreadable ==> reply is Error,
        intake is Read && intake->length > 2_097_152 ==> reply is Error,
        intake is Read && intake->request is None ==> reply is Error,
{
}

/// Sixteen connections are served at a time.
pub proof fn sixteen_connections_are_served(current: usize, result: Option<ApiResponse>)
    requires
        call_ensures(api::reject_busy, (current,), result),
    ensures
        result is None <==> current < 16,
        result matches Some(response) ==> response.data is None && response.error is Some
            && response.error->0.code == ApiErrorCode::Busy,
{
}

/// A chunk is read on to what was read before, and nothing is kept of a request that is too
/// large.
pub proof fn chunks_are_read_on(reader: &mut RequestReader, chunk: &[u8], result: bool)
    requires
        call_ensures(RequestReader::take_chunk, (reader, chunk), result),
        old(reader).total_bytes + chunk@.len() <= usize::MAX,
    ensures
        final(reader).total_bytes == old(reader).total_bytes + chunk@.len(),
        final(reader).total_bytes <= 7_340_032 && !old(reader).too_large ==> final(reader).bytes@
            == old(reader).bytes@ + chunk@ && !final(reader).too_large,
        final(reader).total_bytes > 7_340_032 ==> final(reader).too_large && final(reader).bytes@.len() == 0,
        old(reader).too_large ==> final(reader).too_large,
{
    assert(final(reader)@ == api::after_chunk(old(reader)@, chunk@));
}

/// A request that was read whole is handed on as it was read.
pub proof fn whole_requests_are_handed_on(reader: RequestReader, failed: bool, result: Intaken)
    requires
        call_ensures(RequestReader::finish, (reader, failed), result),
    ensures
        result is Whole <==> !reader.too_large && !failed,
        result matches Intaken::Whole(bytes) ==> bytes == reader.bytes,
        result is TooLarge <==> reader.too_large,
{
}

/// A response is written on until all of it is written.
pub proof fn responses_are_written_whole(
    writer: &mut ResponseWriter,
    written: Written,
    due: bool,
    result: WriteStep,
)
    requires
        old(writer).wf(),
        written matches Written::Bytes(count) ==> old(writer).offset + count <= old(writer).total,
        call_ensures(ResponseWriter::write_bounded_response, (writer, written, due), result),
    ensures
        final(writer).total == old(writer).total,
        written matches Written::Bytes(count) ==> final(writer).offset == old(writer).offset
            + count,
        !(written is Bytes) ==> final(writer).offset == old(writer).offset,
        result is Done ==> final(writer).offset == final(writer).total,
        result is Again ==> final(writer).offset < final(writer).total,
        result is Wait <==> written is Blocked && !due,
        result is Stalled <==> written == Written::Bytes(0),
{
}

} // verus!
