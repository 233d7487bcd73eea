//! What proposals and the assessments of their children do, said of their inputs and results
//! alone.

use crate::adaptation;
use crate::assess;
use crate::assess::{Assessing, AssessmentSites};
use crate::error::ExecuteError;
use crate::forge;
use crate::forge::{HypothesisSource, ProposalRequest, ResolvedHypothesis};
use crate::forge_history;
use crate::forge_history::VerifiedSelection;
use crate::hex;
use crate::json;
use crate::json::EditFault;
use crate::mutation;
use crate::mutation::{PromptMutation, RequestedOperation};
use crate::proposal;
use crate::proposal::{ChildReply, ProposalEnd, ProposalFacts, Settled};
use crate::protocol::{
    Command, ForgeAssessmentOutcome, ForgeAssessmentPayload, SelectionEventRecord,
};
use crate::records::{ClusterAnalysis, SelectionReceipt, SuggestedMutation};
use crate::registry::{Registry, WorldEntry};
use crate::state::{EvaluationReference, EventPayload, RecordedEvent};
use vstd::prelude::*;
use vstd::utf8::*;

verus! {

/// Whether an event of a history, with an identity and of a type, stands after one place in the
/// ledger and before another.
pub open spec fn recorded_between(
    history: Seq<RecordedEvent>,
    event_id: Seq<char>,
    event_type: Seq<char>,
    after: u64,
    before: u64,
) -> bool {
    exists|at: int|
        0 <= at < history.len() && (#[trigger] history[at]).event.event_id@ == event_id
            && history[at].event.event_type@ == event_type && after < history[at].event.sequence
            < before
}

/// An assessment passes a child by its metrics if and only if the receipt of the selection that
/// it rests on is metrics-eligible, and rejects it otherwise. It is an assessment of the child
/// that the receipt measured, which is the one that the proposal proposed; it promotes nothing.
pub proof fn assessments_follow_the_metrics(
    history: Vec<RecordedEvent>,
    sites: AssessmentSites,
    assessment_id: &str,
    proposal_id: &str,
    receipt: SelectionReceipt,
    selection: SelectionEventRecord,
    payload: ForgeAssessmentPayload,
)
    requires
        sites.proposal < history@.len(),
        sites.selection < history@.len(),
        call_ensures(
            assess::forge_assessment_payload,
            (&history, &sites, assessment_id, proposal_id, &receipt, &selection),
            Ok::<ForgeAssessmentPayload, ExecuteError>(payload),
        ),
    ensures
        payload.outcome == ForgeAssessmentOutcome::MetricsPassed <==> receipt.metrics_eligible,
        payload.outcome == ForgeAssessmentOutcome::MetricsRejected <==> !receipt.metrics_eligible,
        !payload.promotion_eligible && !payload.invariant_gate_verified,
        payload.schema_version == 1,
        payload.assessment_id@ == assessment_id@ && payload.proposal_id@ == proposal_id@,
        payload.child_genome_id@ == receipt.candidate_genome_id@,
        payload.parent_genome_id@ == receipt.parent_genome_id@,
        payload.world_id@ == receipt.world_id@,
        payload.evaluation_id@ == receipt.evaluation_id@,
        payload.evaluation_event_id@ == receipt.evaluation_event_id@,
        payload.evaluation_event_hash@ == receipt.evaluation_event_hash@,
        payload.selection_event_id@ == selection.event_id@,
        payload.selection_event_hash@ == selection.event_hash@,
        payload.selection_receipt_artifact_id@ == selection.receipt_artifact_id@,
        payload.proposal_event_id@ == history@[sites.proposal as int].event.event_id@,
        payload.proposal_event_hash@ == hex::hex(history@[sites.proposal as int].event.hash@),
        history@[sites.proposal as int].payload matches EventPayload::ForgeProposal(proposed, _)
            && proposed.child.genome_id@ == payload.child_genome_id@
            && proposed.parent_genome_id@ == payload.parent_genome_id@
            && proposed.world_id@ == payload.world_id@,
        recorded_between(
            history@,
            receipt.evaluation_event_id@,
            "evaluation.recorded"@,
            history@[sites.proposal as int].event.sequence,
            selection.sequence,
        ),
{
    forge::place_holds(history@, receipt.evaluation_event_id@);
    let at = forge::place_of_event(history@, receipt.evaluation_event_id@)->0;
    assert(history@[at].event.event_id@ == receipt.evaluation_event_id@);
}

/// Two assessments of one proposal differ in their outcome exactly where the receipts that they
/// rest on differ in their metrics.
pub proof fn outcomes_differ_with_the_metrics(
    history: Vec<RecordedEvent>,
    sites: AssessmentSites,
    assessment_id: &str,
    proposal_id: &str,
    receipt: SelectionReceipt,
    other_receipt: SelectionReceipt,
    selection: SelectionEventRecord,
    payload: ForgeAssessmentPayload,
    other: ForgeAssessmentPayload,
)
    requires
        sites.proposal < history@.len(),
        sites.selection < history@.len(),
        call_ensures(
            assess::forge_assessment_payload,
            (&history, &sites, assessment_id, proposal_id, &receipt, &selection),
            Ok::<ForgeAssessmentPayload, ExecuteError>(payload),
        ),
        call_ensures(
            assess::forge_assessment_payload,
            (&history, &sites, assessment_id, proposal_id, &other_receipt, &selection),
            Ok::<ForgeAssessmentPayload, ExecuteError>(other),
        ),
    ensures
        payload.outcome == other.outcome <==> receipt.metrics_eligible
            == other_receipt.metrics_eligible,
{
}

/// The place where a search for an assessment ends holds one of that identity, or none that can
/// be read.
proof fn assessment_places_hold(history: Seq<RecordedEvent>, assessment_id: Seq<char>)
    ensures
        assess::assessment_place(history, assessment_id) matches Some(at) ==> 0 <= at
            < history.len() && history[at].event.event_type@ == "forge.assessed"@ && (
        forge::decoded_assessment(history[at]) matches Ok(payload) ==> payload.assessment_id@
            == assessment_id),
    decreases history.len(),
{
    if history.len() > 0 {
        assessment_places_hold(history.drop_last(), assessment_id);
    }
}

/// Assessing the child of a proposal by a selection records what the selection's receipt says of
/// that child: it passes if and only if its metrics are eligible. The proposal named is the one
/// assessed, the selection named is the one that it rests on, and an assessment that was recorded
/// before is found again under its identity, with the same proposal and selection.
pub proof fn assessing_records_what_was_measured(
    working: bool,
    verified: bool,
    history: Vec<RecordedEvent>,
    registry: Registry,
    assessment_id: &str,
    proposal_id: &str,
    selection_event_id: &str,
    selection: Option<VerifiedSelection>,
    result: Result<Assessing, ExecuteError>,
)
    requires
        registry.wf(),
        call_ensures(
            assess::assess_genome,
            (
                working,
                verified,
                &history,
                &registry,
                assessment_id,
                proposal_id,
                selection_event_id,
                selection,
            ),
            result,
        ),
    ensures
        result is Ok ==> !working && verified,
        result matches Ok(Assessing::Record(payload)) ==> {
            &&& selection is Some
            &&& payload.outcome == ForgeAssessmentOutcome::MetricsPassed
                <==> selection->0.receipt.metrics_eligible
            &&& payload.outcome == ForgeAssessmentOutcome::MetricsRejected
                <==> !selection->0.receipt.metrics_eligible
            &&& !payload.promotion_eligible && !payload.invariant_gate_verified
            &&& payload.assessment_id@ == assessment_id@
            &&& payload.proposal_id@ == proposal_id@
            &&& payload.child_genome_id@ == selection->0.receipt.candidate_genome_id@
            &&& payload.parent_genome_id@ == selection->0.receipt.parent_genome_id@
            &&& payload.world_id@ == selection->0.receipt.world_id@
            &&& payload.evaluation_id@ == selection->0.receipt.evaluation_id@
            &&& payload.selection_event_id@ == selection->0.event.event_id@
            &&& payload.selection_event_hash@ == selection->0.event.event_hash@
            &&& payload.proposal_event_id@ == "forge:"@ + proposal_id@ + ":proposed"@
            &&& exists|at: int|
                0 <= at < history@.len() && (#[trigger] history@[at]).event.event_id@
                    == payload.proposal_event_id@ && (history@[at].payload matches
                    EventPayload::ForgeProposal(proposed, _) && proposed.proposal_id@ == proposal_id@
                    && proposed.child.genome_id@ == payload.child_genome_id@
                    && proposed.parent_genome_id@ == payload.parent_genome_id@)
            &&& exists|at: int|
                0 <= at < history@.len() && (#[trigger] history@[at]).event.event_id@
                    == selection_event_id@ && history@[at].event.event_type@
                    == "selection.recorded"@ && (history@[at].payload matches
                    EventPayload::Reference(reference) && reference.evaluation_id@
                    == payload.evaluation_id@ && reference.world_id@ == payload.world_id@)
        },
        result matches Ok(Assessing::Existing(at)) ==> at < history@.len()
            && history@[at as int].event.event_type@ == "forge.assessed"@ && (
        history@[at as int].payload matches EventPayload::ForgeAssessment(existing, _)
            && existing.assessment_id@ == assessment_id@ && existing.proposal_id@ == proposal_id@
            && existing.selection_event_id@ == selection_event_id@),
{
    assessment_places_hold(history@, assessment_id@);
    if result is Ok && result->Ok_0 is Record {
        let event_id = "forge:"@ + proposal_id@ + ":proposed"@;
        forge::place_holds(history@, event_id);
        forge::place_holds(history@, selection_event_id@);
        let proposed = forge::place_of_event(history@, event_id)->0;
        let selected = forge::place_of_event(history@, selection_event_id@)->0;
        assert(history@[proposed].event.event_id@ == event_id);
        assert(history@[selected].event.event_id@ == selection_event_id@);
    }
}

/// A mutation replaces the operation that a prompt names, and nothing else of it: by the one
/// that is asked for, which the catalog has to lead to, and else by the other of the two casing
/// operations.
pub proof fn mutations_lead_to_the_operation_asked_for(
    bytes: Option<Vec<u8>>,
    before: Option<&str>,
    target: Option<&RequestedOperation>,
    mutation: PromptMutation,
)
    requires
        call_ensures(
            mutation::forge_prompt_mutation,
            (bytes, before, target),
            Ok::<PromptMutation, ExecuteError>(mutation),
        ),
    ensures
        bytes is Some && before is Some,
        mutation.before@ == before->0@,
        target matches Some(asked) ==> asked.catalog_edge && mutation.after@ == asked.operation@,
        target is None ==> mutation.after@ != mutation.before@,
        target is None ==> mutation.after@ == "identity"@ || mutation.after@
            == "ascii_uppercase"@,
        target is None ==> mutation.before@ == "identity"@ || mutation.before@
            == "ascii_uppercase"@,
        exists|head: Seq<char>, tail: Seq<char>|
            decode_utf8(bytes->0@) == #[trigger] (head + ("\"operation\":\""@ + mutation.before@
                + "\""@) + tail) && mutation.text@ == head + ("\"operation\":\""@ + mutation.after@
                + "\""@) + tail,
{
    let prompt = decode_utf8(bytes->0@);
    mutation::mutations_change_only_the_operation(prompt, mutation.before@, mutation.after@);
    let (head, tail) = choose|head: Seq<char>, tail: Seq<char>|
        prompt == #[trigger] (head + mutation::operation_field(mutation.before@) + tail)
            && mutation::mutated(prompt, mutation.before@, mutation.after@) == Some(
            head + mutation::operation_field(mutation.after@) + tail,
        );
    assert(prompt == head + ("\"operation\":\""@ + mutation.before@ + "\""@) + tail);
    reveal_strlit("identity");
    reveal_strlit("ascii_uppercase");
    assert("identity"@.len() != "ascii_uppercase"@.len());
}

/// A proposal starts from the selection that it names, whose candidate is the parent that it
/// mutates, under the World of that selection. It changes the prompt of that parent, whose
/// operation becomes the one that the bound cluster suggests, or, where none is suggested, the
/// other of the two casing operations. Its hypothesis is the operator's or the cluster's.
pub proof fn proposals_change_the_selected_candidate(
    frozen: bool,
    registry: Registry,
    history: Vec<RecordedEvent>,
    prefix: &str,
    request: ProposalRequest,
    facts: ProposalFacts,
    settled: Settled,
)
    requires
        registry.wf(),
        call_ensures(
            proposal::propose_genome_from_source,
            (frozen, &registry, &history, prefix, request, facts),
            Ok::<Settled, ExecuteError>(settled),
        ),
    ensures
        !frozen,
        facts.selection matches Some(selection) && selection.receipt.candidate_genome_id@
            == request.parent_genome_id@ && selection.receipt.evaluation_id@
            == settled.evaluation_id@ && selection.receipt.world_id@ == settled.world_id@
            && settled.selection_event_hash == selection.event.event_hash,
        exists|at: int|
            0 <= at < history@.len() && (#[trigger] history@[at]).event.event_id@
                == request.selection_event_id@ && history@[at].event.event_type@
                == "selection.recorded"@,
        registry.worlds@.contains_key(settled.world_id@)
            && registry.worlds@[settled.world_id@].harness_mutations,
        registry.genomes@.contains_key(request.parent_genome_id@),
        registry.genomes@[request.parent_genome_id@].prompt_artifact_id == Some(
            settled.prompt_artifact_before,
        ),
        facts.operation matches Some(operation) && settled.mutation.before@ == operation@,
        request.source matches HypothesisSource::Operator(hypothesis) ==> {
            &&& settled.resolved.hypothesis == hypothesis
            &&& settled.resolved.binding is None
            &&& settled.mutation.after@ != settled.mutation.before@
        },
        request.source matches HypothesisSource::Analysis { analysis_id, cluster_index } ==> {
            let analysis = facts.analysis->0.analysis;
            let cluster = analysis.clusters@[cluster_index as int];
            &&& facts.analysis is Some && cluster_index < analysis.clusters@.len()
            &&& analysis.evaluation_id@ == settled.evaluation_id@
            &&& analysis.candidate_genome_id@ == request.parent_genome_id@
            &&& settled.resolved.hypothesis == cluster.hypothesis
            &&& settled.resolved.binding matches Some(binding) && binding.analysis_id == analysis_id
                && binding.cluster_index == cluster_index && binding.cluster_signature
                == cluster.signature && binding.analysis_event_hash
                == facts.analysis->0.event_hash && binding.analysis_event_id@ == prefix@
                + analysis_id@ + ":clustered"@
            &&& cluster.suggested_mutation matches Some(suggestion) && match suggestion {
                SuggestedMutation::ReferenceOperation { operation_after } =>
                    settled.mutation.after@ == operation_after@ && facts.catalog_edge,
                SuggestedMutation::ReferenceOperationFlip => settled.mutation.after@
                    != settled.mutation.before@,
            }
        },
        exists|head: Seq<char>, tail: Seq<char>|
            decode_utf8(facts.prompt_bytes->0@) == #[trigger] (head + ("\"operation\":\""@
                + settled.mutation.before@ + "\""@) + tail) && settled.mutation.text@ == head + (
            "\"operation\":\""@ + settled.mutation.after@ + "\""@) + tail,
{
    forge::place_holds(history@, request.selection_event_id@);
    let at = forge::place_of_event(history@, request.selection_event_id@)->0;
    assert(history@[at].event.event_id@ == request.selection_event_id@);
    let prompt = decode_utf8(facts.prompt_bytes->0@);
    let before = settled.mutation.before@;
    let after = settled.mutation.after@;
    mutation::mutations_change_only_the_operation(prompt, before, after);
    let (head, tail) = choose|head: Seq<char>, tail: Seq<char>|
        prompt == #[trigger] (head + mutation::operation_field(before) + tail)
            && mutation::mutated(prompt, before, after) == Some(
            head + mutation::operation_field(after) + tail,
        );
    assert(prompt == head + ("\"operation\":\""@ + before + "\""@) + tail);
    reveal_strlit("identity");
    reveal_strlit("ascii_uppercase");
    assert("identity"@.len() != "ascii_uppercase"@.len());
}

/// The place where a search for a proposal ends holds one of that identity, or none that can be
/// read.
proof fn proposal_places_hold(history: Seq<RecordedEvent>, proposal_id: Seq<char>)
    ensures
        forge::proposal_place(history, proposal_id) matches Some(at) ==> 0 <= at < history.len()
            && history[at].event.event_type@ == "forge.proposed"@ && (
        forge::decoded_proposal(history[at]) matches Ok(payload) ==> payload.proposal_id@
            == proposal_id),
    decreases history.len(),
{
    if history.len() > 0 {
        proposal_places_hold(history.drop_last(), proposal_id);
    }
}

/// A proposal is recorded with what was settled: with its parent, its selection and its
/// hypothesis, with the prompt and the operation before and after, and with a child that is the
/// compiled one, in the World of its parent and not registered before. One that history holds
/// already is found again, with the same parent and the same child.
pub proof fn proposals_record_what_was_settled(
    registry: Registry,
    history: Vec<RecordedEvent>,
    proposal_id: String,
    selection_event_id: String,
    parent_genome_id: String,
    settled: Settled,
    reply: ChildReply,
    result: Result<ProposalEnd, ExecuteError>,
)
    requires
        registry.wf(),
        call_ensures(
            proposal::settle_proposal,
            (
                &registry,
                &history,
                proposal_id,
                selection_event_id,
                parent_genome_id,
                settled,
                reply,
            ),
            result,
        ),
    ensures
        result is Ok ==> reply is Compiled,
        result matches Ok(ProposalEnd::Record(payload)) ==> {
            &&& payload.schema_version == 1 && payload.artifact_name@ == "agent.prompt"@
            &&& payload.proposal_id@ == proposal_id@
            &&& payload.selection_event_id@ == selection_event_id@
            &&& payload.selection_event_hash@ == settled.selection_event_hash@
            &&& payload.evaluation_id@ == settled.evaluation_id@
            &&& payload.world_id@ == settled.world_id@ && payload.child.world_id@
                == settled.world_id@
            &&& payload.parent_genome_id@ == parent_genome_id@
            &&& payload.child.genome_id@ == reply->genome_id@
            &&& payload.child.name@ == reply->name@
            &&& payload.child.artifact_id@ == reply->artifact_id@
            &&& payload.child.parent_ids@ == reply->parent_ids@
            &&& !registry.genomes@.contains_key(payload.child.genome_id@)
            &&& payload.hypothesis@ == settled.resolved.hypothesis@
            &&& payload.analysis_binding == settled.resolved.binding
            &&& payload.prompt_artifact_before@ == settled.prompt_artifact_before@
            &&& payload.prompt_artifact_after@ == reply->prompt_artifact_id@
            &&& payload.operation_before@ == settled.mutation.before@
            &&& payload.operation_after@ == settled.mutation.after@
            &&& payload.mutation_kind == reply->mutation_kind
            &&& payload.catalog_version == Some(reply->catalog_version)
        },
        result matches Ok(ProposalEnd::Recorded(at)) ==> at < history@.len()
            && history@[at as int].event.event_type@ == "forge.proposed"@ && (
        history@[at as int].payload matches EventPayload::ForgeProposal(existing, _)
            && existing.proposal_id@ == proposal_id@ && existing.parent_genome_id@
            == parent_genome_id@ && existing.selection_event_id@ == selection_event_id@
            && existing.child.genome_id@ == reply->genome_id@ && existing.operation_after@
            == settled.mutation.after@ && existing.hypothesis@ == settled.resolved.hypothesis@),
{
    proposal_places_hold(history@, proposal_id@);
}

/// A command to propose asks for what it names: it mutates the named parent by the named
/// selection, under a hypothesis of the operator's or by a cluster of an analysis.
pub proof fn proposal_commands_ask_for_what_they_name(command: Command, request: ProposalRequest)
    requires
        call_ensures(
            forge::propose_genome_command,
            (command,),
            Ok::<ProposalRequest, ExecuteError>(request),
        ),
    ensures
        command is GenomePropose,
        request.proposal_id == command->GenomePropose_proposal_id,
        request.selection_event_id == command->GenomePropose_selection_event_id,
        request.parent_genome_id == command->GenomePropose_parent_genome_id,
        match request.source {
            HypothesisSource::Operator(hypothesis) => command->GenomePropose_hypothesis == Some(
                hypothesis,
            ) && command->GenomePropose_analysis_id is None,
            HypothesisSource::Analysis { analysis_id, cluster_index } =>
                command->GenomePropose_analysis_id == Some(analysis_id)
                && command->GenomePropose_cluster_index == Some(cluster_index)
                && command->GenomePropose_hypothesis is None,
        },
{
}

/// A cluster's hypothesis is taken only of an analysis of the selected candidate, and it is
/// bound to that very analysis and cluster.
pub proof fn cluster_hypotheses_are_bound_to_their_cluster(
    analysis: ClusterAnalysis,
    analysis_id: String,
    analysis_event_id: String,
    analysis_event_hash: String,
    evaluation_id: &str,
    parent_genome_id: &str,
    cluster_index: u32,
    resolved: ResolvedHypothesis,
)
    requires
        call_ensures(
            forge::resolve_cluster_hypothesis,
            (
                &analysis,
                analysis_id,
                analysis_event_id,
                analysis_event_hash,
                evaluation_id,
                parent_genome_id,
                cluster_index,
            ),
            Ok::<ResolvedHypothesis, ExecuteError>(resolved),
        ),
    ensures
        analysis.evaluation_id@ == evaluation_id@,
        analysis.candidate_genome_id@ == parent_genome_id@,
        cluster_index < analysis.clusters@.len(),
        resolved.hypothesis == analysis.clusters@[cluster_index as int].hypothesis,
        analysis.clusters@[cluster_index as int].suggested_mutation is Some,
        resolved.binding is Some,
        resolved.binding->0.analysis_id == analysis_id,
        resolved.binding->0.analysis_event_id == analysis_event_id,
        resolved.binding->0.analysis_event_hash == analysis_event_hash,
        resolved.binding->0.cluster_index == cluster_index,
        resolved.binding->0.cluster_signature
            == analysis.clusters@[cluster_index as int].signature,
        match analysis.clusters@[cluster_index as int].suggested_mutation->0 {
            SuggestedMutation::ReferenceOperation { operation_after } => resolved.target == Some(
                operation_after,
            ),
            SuggestedMutation::ReferenceOperationFlip => resolved.target is None,
        },
{
}

/// A proposal's parent is the candidate of its selection, under the evaluation and the World
/// that the event names.
pub proof fn parents_are_selected_candidates(
    reference: EvaluationReference,
    receipt: SelectionReceipt,
    parent_genome_id: &str,
    result: Result<(), ExecuteError>,
)
    requires
        call_ensures(
            forge::bind_forge_source,
            (&reference, &receipt, parent_genome_id),
            result,
        ),
    ensures
        result is Ok <==> receipt.candidate_genome_id@ == parent_genome_id@
            && receipt.evaluation_id@ == reference.evaluation_id@ && receipt.world_id@
            == reference.world_id@,
{
}

/// Only the prompt of the named parent is mutated, and only where its World allows it.
pub proof fn prompts_are_mutated_where_allowed(
    registry: Registry,
    world: WorldEntry,
    parent_genome_id: &str,
    result: Result<String, ExecuteError>,
)
    requires
        registry.wf(),
        call_ensures(mutation::prompt_to_mutate, (&registry, &world, parent_genome_id), result),
    ensures
        result matches Ok(prompt) ==> world.harness_mutations && registry.genomes@.contains_key(
            parent_genome_id@,
        ) && registry.genomes@[parent_genome_id@].prompt_artifact_id == Some(prompt)
            && registry.genomes@[parent_genome_id@].record.world_id@ == world.compiled_id@,
        result is Err ==> !world.harness_mutations || !registry.genomes@.contains_key(
            parent_genome_id@,
        ) || registry.genomes@[parent_genome_id@].prompt_artifact_id is None
            || registry.genomes@[parent_genome_id@].record.world_id@ != world.compiled_id@,
{
}

/// An adaptation goes on with the mutation that was derived, leaves it where none could be
/// derived of this prompt, and stops where the derivation failed.
pub proof fn adaptations_take_derivable_mutations(
    derived: Result<PromptMutation, ExecuteError>,
    result: Result<bool, ExecuteError>,
)
    requires
        call_ensures(mutation::choose_adaptation_mutation, (&derived,), result),
    ensures
        result == Ok::<bool, ExecuteError>(true) <==> derived is Ok,
        result == Ok::<bool, ExecuteError>(false) <==> derived is Err && (derived->Err_0
            is Rejected || derived->Err_0 is NotFound),
{
}

/// The child that is found of a proposal is the one that its event records.
pub proof fn found_children_are_the_recorded_ones(
    history: Vec<RecordedEvent>,
    proposal_id: &str,
    result: Option<Option<String>>,
)
    requires
        call_ensures(adaptation::find_child, (&history, proposal_id), result),
    ensures
        result matches Some(Some(child)) ==> exists|at: int|
            0 <= at < history@.len() && (#[trigger] history@[at]).event.event_id@ == "forge:"@
                + proposal_id@ + ":proposed"@ && history@[at].payload is ForgeProposal && (
            history@[at].payload->ForgeProposal_0).child.genome_id@ == child@,
{
    if result is Some {
        let event_id = "forge:"@ + proposal_id@ + ":proposed"@;
        forge::place_holds(history@, event_id);
        let at = forge::place_of_event(history@, event_id)->0;
        assert(history@[at].event.event_id@ == event_id);
    }
}

/// The source of a child has its own name, its one parent and its own prompt; every other member
/// of it is its parent's.
pub proof fn sources_of_children_keep_the_rest(
    object: serde_json::Map<String, serde_json::Value>,
    name: &str,
    parent_genome_id: &str,
    prompt: &str,
    edited: serde_json::Map<String, serde_json::Value>,
    field: Seq<char>,
)
    requires
        call_ensures(
            forge_history::edit_source,
            (object, name, parent_genome_id, prompt),
            Ok::<serde_json::Map<String, serde_json::Value>, EditFault>(edited),
        ),
    ensures
        json::members(edited)["name"@] == json::json_string(name@),
        json::members(edited)["parents"@] == "["@ + json::json_string(parent_genome_id@) + "]"@,
        json::members(object).contains_key("artifacts"@),
        json::object_in(json::members(object)["artifacts"@]) matches Some(artifacts)
            && json::members(edited)["artifacts"@] == json::json_of_object(
            artifacts.insert("agent.prompt"@, json::json_string(prompt@)),
        ),
        field != "name"@ && field != "parents"@ && field != "artifacts"@ ==> json::members(
            edited,
        ).contains_key(field) == json::members(object).contains_key(field) && json::members(
            edited,
        )[field] == json::members(object)[field],
{
    reveal_strlit("name");
    reveal_strlit("parents");
    reveal_strlit("artifacts");
    assert("name"@.len() == 4 && "parents"@.len() == 7 && "artifacts"@.len() == 9);
}

/// Lines that end in a carriage return and a line feed come to end in the line feed alone, and
/// every other character stays.
pub proof fn line_endings_are_evened_out(
    text: &str,
    rest: &str,
    plain: String,
    plain_rest: String,
    first: char,
)
    requires
        call_ensures(mutation::normalize_lines, (text,), plain),
        call_ensures(mutation::normalize_lines, (rest,), plain_rest),
    ensures
        text@.len() == 0 ==> plain@.len() == 0,
        text@ == seq!['\r', '\n'] + rest@ ==> plain@ == seq!['\n'] + plain_rest@,
        text@ == seq![first] + rest@ && (first != '\r' || rest@.len() == 0 || rest@[0] != '\n')
            ==> plain@ == seq![first] + plain_rest@,
{
    if text@ == seq!['\r', '\n'] + rest@ {
        assert(text@.skip(2) =~= rest@);
        assert(plain@ =~= seq!['\n'] + plain_rest@);
    }
    if text@ == seq![first] + rest@ {
        assert(text@.skip(1) =~= rest@);
        assert(text@[0] == first);
        if text@.len() >= 2 {
            assert(text@[1] == rest@[0]);
        }
        if first != '\r' || rest@.len() == 0 || rest@[0] != '\n' {
            assert(plain@ =~= seq![first] + plain_rest@);
        }
    }
}

} // verus!
