//! When two records count as the same, and what the parts of a record have to be, said of their
//! fields alone.

use crate::arena_jobs;
use crate::assess;
use crate::error::ControlError;
use crate::evidence;
use crate::forge;
use crate::forge_history;
use crate::jobs;
use crate::protocol::{
    EvaluationRecord, ForgeAssessmentPayload, ForgeProposalPayload, JobRecord,
};
use crate::records::{ArenaJobRecord, RunResultReceipt, StoredEvent, TraceReceipt};
use crate::snapshot;
use crate::state;
use crate::state::{ControlState, RecordedEvent, TraceAddresses};
use crate::text;
use vstd::prelude::*;

verus! {

/// A signed result is a job's own exactly where it agrees with what the job was admitted for.
pub proof fn results_match_their_job(receipt: RunResultReceipt, job: JobRecord, result: bool)
    requires
        call_ensures(jobs::receipt_matches_job, (&receipt, &job), result),
    ensures
        result <==> {
            &&& receipt.run_id@ == job.run_id@ && receipt.genome_id@ == job.genome_id@
            &&& receipt.world_id@ == job.world_id@ && receipt.source_revision@
                == job.source_revision@
            &&& receipt.task_id@ == job.task_id@ && receipt.input_commitment@
                == job.input_commitment@
            &&& receipt.seed == job.seed && receipt.environment_id@ == job.environment_id@
            &&& receipt.budget.wall_millis == job.budget.wall_millis
            &&& receipt.budget.maximum_output_bytes == job.budget.maximum_output_bytes
            &&& receipt.budget.maximum_cost_microusd == job.budget.maximum_cost_microusd
        },
{
}

/// Two records are of one plan exactly where they agree in all that a pair is admitted with.
pub proof fn plans_match_in_every_part(old: ArenaJobRecord, new: ArenaJobRecord, result: bool)
    requires
        call_ensures(arena_jobs::arena_job_immutable_fields_match, (&old, &new), result),
    ensures
        result <==> {
            &&& old.job_id@ == new.job_id@ && old.evaluation_id@ == new.evaluation_id@
            &&& old.parent_genome_id@ == new.parent_genome_id@
            &&& old.candidate_genome_id@ == new.candidate_genome_id@
            &&& old.world_id@ == new.world_id@
            &&& old.visible_manifest_id@ == new.visible_manifest_id@
            &&& old.sealed_manifest_id@ == new.sealed_manifest_id@
            &&& old.evaluator_id@ == new.evaluator_id@
            &&& old.source_revision@ == new.source_revision@
            &&& old.worker_digest@ == new.worker_digest@
            &&& old.environment_id@ == new.environment_id@
            &&& old.candidate_environment_id is Some <==> new.candidate_environment_id is Some
            &&& old.candidate_environment_id is Some && new.candidate_environment_id is Some
                ==> old.candidate_environment_id->0@ == new.candidate_environment_id->0@
            &&& old.seed == new.seed && old.trial_budget == new.trial_budget
            &&& old.overall_budget == new.overall_budget
            &&& text::texts(old.ordered_trial_run_ids@) == text::texts(new.ordered_trial_run_ids@)
            &&& old.parent_trial_count == new.parent_trial_count && old.total_trials
                == new.total_trials
            &&& old.plan_commitment@ == new.plan_commitment@ && old.caller_id@ == new.caller_id@
            &&& old.receipt_timestamp_millis == new.receipt_timestamp_millis
        },
{
}

/// Two proposals are the same only where they agree in all that they say.
pub proof fn proposals_match_in_every_part(
    a: ForgeProposalPayload,
    b: ForgeProposalPayload,
    result: bool,
)
    requires
        call_ensures(forge::proposals_match, (&a, &b), result),
    ensures
        result ==> {
            &&& a.schema_version == b.schema_version && a.proposal_id@ == b.proposal_id@
            &&& a.selection_event_id@ == b.selection_event_id@ && a.selection_event_hash@
                == b.selection_event_hash@
            &&& a.evaluation_id@ == b.evaluation_id@ && a.world_id@ == b.world_id@
            &&& a.parent_genome_id@ == b.parent_genome_id@
            &&& a.child.genome_id@ == b.child.genome_id@ && a.child.name@ == b.child.name@
            &&& a.child.world_id@ == b.child.world_id@ && a.child.artifact_id@
                == b.child.artifact_id@
            &&& text::texts(a.child.parent_ids@) == text::texts(b.child.parent_ids@)
            &&& a.hypothesis@ == b.hypothesis@ && a.artifact_name@ == b.artifact_name@
            &&& a.prompt_artifact_before@ == b.prompt_artifact_before@
            &&& a.prompt_artifact_after@ == b.prompt_artifact_after@
            &&& a.operation_before@ == b.operation_before@ && a.operation_after@
                == b.operation_after@
            &&& a.catalog_version == b.catalog_version
            &&& a.mutation_kind is Some <==> b.mutation_kind is Some
            &&& a.mutation_kind is Some && b.mutation_kind is Some ==> a.mutation_kind->0@
                == b.mutation_kind->0@
            &&& a.analysis_binding is Some <==> b.analysis_binding is Some
            &&& a.analysis_binding is Some && b.analysis_binding is Some
                ==> a.analysis_binding->0.analysis_id@ == b.analysis_binding->0.analysis_id@
                && a.analysis_binding->0.analysis_event_id@
                == b.analysis_binding->0.analysis_event_id@
                && a.analysis_binding->0.analysis_event_hash@
                == b.analysis_binding->0.analysis_event_hash@
                && a.analysis_binding->0.cluster_index == b.analysis_binding->0.cluster_index
                && a.analysis_binding->0.cluster_signature@
                == b.analysis_binding->0.cluster_signature@
        },
        a == b ==> result,
{
}

/// Two assessments are the same only where they agree in all that they say.
pub proof fn assessments_match_in_every_part(
    a: ForgeAssessmentPayload,
    b: ForgeAssessmentPayload,
    result: bool,
)
    requires
        call_ensures(assess::assessments_match, (&a, &b), result),
    ensures
        result <==> {
            &&& a.schema_version == b.schema_version && a.assessment_id@ == b.assessment_id@
            &&& a.proposal_id@ == b.proposal_id@ && a.proposal_event_id@ == b.proposal_event_id@
            &&& a.proposal_event_hash@ == b.proposal_event_hash@
            &&& a.selection_event_id@ == b.selection_event_id@ && a.selection_event_hash@
                == b.selection_event_hash@
            &&& a.selection_receipt_artifact_id@ == b.selection_receipt_artifact_id@
            &&& a.evaluation_id@ == b.evaluation_id@ && a.evaluation_event_id@
                == b.evaluation_event_id@ && a.evaluation_event_hash@ == b.evaluation_event_hash@
            &&& a.world_id@ == b.world_id@ && a.parent_genome_id@ == b.parent_genome_id@
            &&& a.child_genome_id@ == b.child_genome_id@ && a.outcome == b.outcome
            &&& a.invariant_gate_verified == b.invariant_gate_verified && a.promotion_eligible
                == b.promotion_eligible
        },
{
}

/// Two evaluations are the same exactly where they agree in all that they say.
pub proof fn evaluations_match_in_every_part(
    a: EvaluationRecord,
    b: EvaluationRecord,
    result: bool,
)
    requires
        call_ensures(evidence::evaluations_match, (&a, &b), result),
    ensures
        result <==> {
            &&& a.evaluation_id@ == b.evaluation_id@ && a.world_id@ == b.world_id@
            &&& a.parent_genome_id@ == b.parent_genome_id@ && a.candidate_genome_id@
                == b.candidate_genome_id@
            &&& a.parent_visible_correct == b.parent_visible_correct
            &&& a.candidate_visible_correct == b.candidate_visible_correct
            &&& a.visible_total == b.visible_total
            &&& a.event.sequence == b.event.sequence && a.event.event_id@ == b.event.event_id@
            &&& a.event.aggregate_id@ == b.event.aggregate_id@ && a.event.event_type@
                == b.event.event_type@
            &&& a.event.actor@ == b.event.actor@ && a.event.timestamp_millis
                == b.event.timestamp_millis
        },
{
}

/// Two states that show the same show every job, pair, result and count alike.
pub proof fn equal_snapshots_agree_in_every_record(
    a: ControlState,
    b: ControlState,
    id: Seq<char>,
)
    requires
        a.wf(),
        b.wf(),
        call_ensures(snapshot::is_same_snapshot, (&a, &b), true),
    ensures
        a@.jobs.contains_key(id) ==> {
            let one = a@.jobs[id];
            let other = b@.jobs[id];
            &&& b@.jobs.contains_key(id)
            &&& one.state == other.state && one.terminal == other.terminal && one.run_id@
                == other.run_id@ && one.genome_id@ == other.genome_id@ && one.world_id@
                == other.world_id@ && one.environment_id@ == other.environment_id@ && one.budget
                == other.budget && one.source_revision@ == other.source_revision@ && one.task_id@
                == other.task_id@ && one.input_commitment@ == other.input_commitment@ && one.seed
                == other.seed
        },
        a@.arena_jobs.contains_key(id) ==> {
            let one = a@.arena_jobs[id];
            let other = b@.arena_jobs[id];
            &&& b@.arena_jobs.contains_key(id)
            &&& one.state == other.state && one.phase == other.phase && one.terminal
                == other.terminal && one.completed_trials == other.completed_trials
            &&& one.parent_genome_id@ == other.parent_genome_id@ && one.candidate_genome_id@
                == other.candidate_genome_id@ && one.plan_commitment@ == other.plan_commitment@
            &&& one.evaluation is Some <==> other.evaluation is Some
        },
        a@.run_results.contains_key(id) ==> {
            let one = a@.run_results[id];
            let other = b@.run_results[id];
            &&& b@.run_results.contains_key(id)
            &&& one.completion_reason == other.completion_reason && one.genome_id@
                == other.genome_id@ && one.stdout_artifact_id@ == other.stdout_artifact_id@
                && one.stderr_artifact_id@ == other.stderr_artifact_id@ && one.latency_millis
                == other.latency_millis && one.actual_cost_microusd == other.actual_cost_microusd
        },
        a@.job_progress.contains_key(id) ==> a@.job_progress[id] == b@.job_progress[id],
        a@.evaluation_events.contains_key(id) ==> a@.evaluation_events[id]
            == b@.evaluation_events[id],
        a.registered.genomes@.contains_key(id) ==> a.registered.genomes@[id].record@
            == b.registered.genomes@[id].record@,
        a.registered.worlds@.contains_key(id) ==> a.registered.worlds@[id].record.artifact_id@
            == b.registered.worlds@[id].record.artifact_id@,
{
}

/// A proposal's event stands under its proposal, and an assessment's under the proposal that it
/// assesses.
pub proof fn forge_events_stand_under_their_proposal(
    event: StoredEvent,
    proposal: ForgeProposalPayload,
    other: StoredEvent,
    assessment: ForgeAssessmentPayload,
)
    requires
        call_ensures(
            forge::validate_forge_event,
            (&event, &proposal),
            Ok::<(), ControlError>(()),
        ),
        call_ensures(
            forge_history::validate_assessment_event,
            (&other, &assessment),
            Ok::<(), ControlError>(()),
        ),
    ensures
        proposal.schema_version == 1 && assessment.schema_version == 1,
        event.event_type@ == "forge.proposed"@ && event.actor@ == "local-operator"@,
        event.event_id@ == "forge:"@ + proposal.proposal_id@ + ":proposed"@,
        event.aggregate_id@ == "forge:"@ + proposal.proposal_id@,
        other.actor@ == "local-operator"@,
        other.event_id@ == "forge-assessment:"@ + assessment.assessment_id@ + ":recorded"@,
        other.aggregate_id@ == "forge:"@ + assessment.proposal_id@,
{
}

/// A trace's event stands under its run, comes from the experience plane and is the one that the
/// trace names.
pub proof fn traces_stand_under_their_run(
    event: StoredEvent,
    receipt: TraceReceipt,
    addresses: TraceAddresses,
)
    requires
        call_ensures(
            state::validate_trace_receipt,
            (&event, &receipt, &addresses),
            Ok::<(), ControlError>(()),
        ),
    ensures
        event.aggregate_id@ == "run:"@ + receipt.run_id@,
        event.event_id@ == receipt.event_id@ && event.actor@ == "experience-plane"@,
        addresses.artifact && addresses.genome && addresses.world,
{
}

/// A result rests on its output, its diagnostics and each of its traces, and a trace on what it
/// recorded.
pub proof fn events_rest_on_all_their_artifacts(
    recorded: RecordedEvent,
    found: Vec<String>,
    place: int,
)
    requires
        call_ensures(
            evidence::artifacts_of,
            (&recorded,),
            Ok::<Vec<String>, ControlError>(found),
        ),
    ensures
        recorded.event.event_type@ == "trace.recorded"@ ==> recorded.payload is Trace
            && text::texts(found@).contains((recorded.payload->Trace_0).artifact_id@),
        recorded.event.event_type@ == "run.result_recorded"@ ==> recorded.payload is RunResult && {
            let receipt = recorded.payload->RunResult_0;
            let ids = text::texts(found@);
            &&& ids.contains(receipt.stdout_artifact_id@) && ids.contains(
                receipt.stderr_artifact_id@,
            )
            &&& 0 <= place < receipt.trace_artifact_ids@.len() ==> ids.contains(
                receipt.trace_artifact_ids@[place]@,
            )
        },
{
    reveal_strlit("trace.recorded");
    reveal_strlit("run.result_recorded");
    assert("trace.recorded"@.len() != "run.result_recorded"@.len());
    let ids = text::texts(found@);
    if recorded.event.event_type@ == "trace.recorded"@ {
        assert(ids[0] == (recorded.payload->Trace_0).artifact_id@);
    } else if recorded.event.event_type@ == "run.result_recorded"@ {
        let receipt = recorded.payload->RunResult_0;
        assert(ids[0] == receipt.stdout_artifact_id@);
        assert(ids[1] == receipt.stderr_artifact_id@);
        if 0 <= place < receipt.trace_artifact_ids@.len() {
            assert(ids[place + 2] == receipt.trace_artifact_ids@[place]@);
        }
    }
}

/// A content-derived identity names its namespace, and what follows is its address.
pub proof fn identities_name_their_namespace(
    value: &str,
    namespace: &str,
    address: bool,
    rest: String,
)
    requires
        call_ensures(
            jobs::validate_content_id,
            (value, namespace, address),
            Ok::<String, ControlError>(rest),
        ),
    ensures
        address && value@ == "hephaestus:"@ + namespace@ + ":"@ + rest@,
{
}

/// An environment is the reference worker's or a provider's, and its address is well formed.
pub proof fn environments_are_of_a_known_kind(
    environment_id: &str,
    address: bool,
    message: &str,
    provider: bool,
)
    requires
        call_ensures(
            jobs::validate_environment,
            (environment_id, address, message),
            Ok::<bool, ControlError>(provider),
        ),
    ensures
        address,
        !provider ==> text::begins_with(environment_id@, "reference-v1."@),
        provider ==> text::begins_with(environment_id@, "provider-v1."@) && !text::begins_with(
            environment_id@,
            "reference-v1."@,
        ),
{
}

} // verus!
