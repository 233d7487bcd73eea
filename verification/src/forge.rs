//! Forge proposals and assessments.

use crate::arena_jobs;
use crate::commands;
use crate::error;
use crate::error::{projection, rejected, ControlError, ExecuteError, Fault, Refusal};
use crate::hex;
use crate::ids;
use crate::json;
use crate::mutation::PromptMutation;
use crate::protocol::{
    Command, ForgeAnalysisBinding, ForgeAssessmentPayload, ForgeProposalEventRecord,
    ForgeProposalPayload, ForgeProposalRecord,
};
use crate::records::{ClusterAnalysis, GenomeRecord, SelectionReceipt, StoredEvent, SuggestedMutation};
use crate::registry::Registry;
use crate::state;
use crate::state::{EvaluationReference, EventPayload, RecordedEvent};
use crate::text;
use vstd::prelude::*;

verus! {

/// Where a proposal has its hypothesis from.
#[derive(Clone, Debug, PartialEq, Eq)]
pub enum HypothesisSource {
    /// An operator wrote it.
    Operator(String),
    /// A cluster of a verified analysis supports it.
    Analysis {
        /// The analysis.
        analysis_id: String,
        /// The cluster's place in it.
        cluster_index: u32,
    },
}

/// What a proposal command asks for.
#[derive(Debug, PartialEq, Eq)]
pub struct ProposalRequest {
    /// Identity of the proposal.
    pub proposal_id: String,
    /// Selection that chose the parent.
    pub selection_event_id: String,
    /// The parent.
    pub parent_genome_id: String,
    /// Where the hypothesis comes from.
    pub source: HypothesisSource,
}

/// Reads what a proposal command asks for.
pub fn propose_genome_command(command: Command) -> (result: Result<ProposalRequest, ExecuteError>)
    ensures
        result == (match command {
            Command::GenomePropose {
                proposal_id,
                selection_event_id,
                parent_genome_id,
                hypothesis,
                analysis_id,
                cluster_index,
            } => match (hypothesis, analysis_id, cluster_index) {
                (Some(hypothesis), None, None) => Ok(
                    ProposalRequest {
                        proposal_id,
                        selection_event_id,
                        parent_genome_id,
                        source: HypothesisSource::Operator(hypothesis),
                    },
                ),
                (None, Some(analysis_id), Some(cluster_index)) => Ok(
                    ProposalRequest {
                        proposal_id,
                        selection_event_id,
                        parent_genome_id,
                        source: HypothesisSource::Analysis { analysis_id, cluster_index },
                    },
                ),
                _ => Err(ExecuteError::Internal),
            },
            _ => Err(ExecuteError::Internal),
        }),
{
    match command {
        Command::GenomePropose {
            proposal_id,
            selection_event_id,
            parent_genome_id,
            hypothesis,
            analysis_id,
            cluster_index,
        } => {
            let source: HypothesisSource = match (hypothesis, analysis_id, cluster_index) {
                (Some(hypothesis), None, None) => HypothesisSource::Operator(hypothesis),
                (None, Some(analysis_id), Some(cluster_index)) => HypothesisSource::Analysis {
                    analysis_id,
                    cluster_index,
                },
                _ => {
                    return Err(ExecuteError::Internal);
                },
            };
            Ok(ProposalRequest { proposal_id, selection_event_id, parent_genome_id, source })
        },
        _ => Err(ExecuteError::Internal),
    }
}

/// Opens a proposal: evolution is not frozen, and the identity is usable.
pub fn open_proposal(frozen: bool, proposal_id: &str) -> (result: Result<(), ExecuteError>)
    ensures
        result == (if frozen {
            Err(ExecuteError::Invalid("evolution is frozen"))
        } else if !commands::job_identity(proposal_id@) {
            Err(ExecuteError::Invalid("proposal_id is invalid"))
        } else {
            Ok(())
        }),
{
    if frozen {
        return Err(ExecuteError::Invalid("evolution is frozen"));
    }
    match commands::validate_job_id(proposal_id) {
        Ok(()) => Ok(()),
        Err(_) => Err(ExecuteError::Invalid("proposal_id is invalid")),
    }
}

/// Why an assessment is not open.
pub open spec fn assessment_opening(
    working: bool,
    assessment_id: Seq<char>,
    proposal_id: Seq<char>,
    selection_event_id: Seq<char>,
) -> Result<(), ExecuteError> {
    if working {
        Err(ExecuteError::Busy)
    } else if !commands::job_identity(assessment_id) {
        Err(ExecuteError::Invalid("assessment_id is invalid"))
    } else if !commands::job_identity(proposal_id) {
        Err(ExecuteError::Invalid("proposal_id is invalid"))
    } else if text::blank(selection_event_id) {
        Err(ExecuteError::Invalid("selection_event_id is required"))
    } else {
        Ok(())
    }
}

/// Opens an assessment.
pub fn open_assessment(
    working: bool,
    assessment_id: &str,
    proposal_id: &str,
    selection_event_id: &str,
) -> (result: Result<(), ExecuteError>)
    ensures
        result == assessment_opening(working, assessment_id@, proposal_id@, selection_event_id@),
{
    if working {
        return Err(ExecuteError::Busy);
    }
    if commands::validate_job_id(assessment_id).is_err() {
        return Err(ExecuteError::Invalid("assessment_id is invalid"));
    }
    if commands::validate_job_id(proposal_id).is_err() {
        return Err(ExecuteError::Invalid("proposal_id is invalid"));
    }
    if text::is_blank(selection_event_id) {
        return Err(ExecuteError::Invalid("selection_event_id is required"));
    }
    Ok(())
}

/// Where the event with an identity stands.
pub open spec fn place_of_event(history: Seq<RecordedEvent>, event_id: Seq<char>) -> Option<int>
    decreases history.len(),
{
    if history.len() == 0 {
        None
    } else {
        match place_of_event(history.drop_last(), event_id) {
            Some(at) => Some(at),
            None => if history.last().event.event_id@ == event_id {
                Some(history.len() - 1)
            } else {
                None
            },
        }
    }
}

/// The place of an event holds it, and a longer history keeps the place.
pub proof fn place_is_kept(history: Seq<RecordedEvent>, length: int, event_id: Seq<char>)
    requires
        0 <= length <= history.len(),
        place_of_event(history.take(length), event_id) is Some,
    ensures
        place_of_event(history, event_id) == place_of_event(history.take(length), event_id),
        0 <= place_of_event(history, event_id)->0 < history.len(),
        history[place_of_event(history, event_id)->0].event.event_id@ == event_id,
    decreases history.len() - length, length,
{
    if length == history.len() {
        assert(history.take(length) == history);
        let earlier = history.drop_last();
        if place_of_event(earlier, event_id) is Some {
            assert(earlier.take(length - 1) == earlier);
            place_holds(earlier, event_id);
        }
    } else {
        assert(history.take(length + 1).drop_last() == history.take(length));
        place_is_kept(history, length + 1, event_id);
    }
}

/// The place of an event holds it.
pub proof fn place_holds(history: Seq<RecordedEvent>, event_id: Seq<char>)
    requires
        place_of_event(history, event_id) is Some,
    ensures
        0 <= place_of_event(history, event_id)->0 < history.len(),
        history[place_of_event(history, event_id)->0].event.event_id@ == event_id,
    decreases history.len(),
{
    if history.len() > 0 && place_of_event(history.drop_last(), event_id) is Some {
        place_holds(history.drop_last(), event_id);
    }
}

/// Finds the event with an identity.
pub fn find_event(history: &Vec<RecordedEvent>, event_id: &str) -> (result: Option<usize>)
    ensures
        match result {
            Some(at) => place_of_event(history@, event_id@) == Some(at as int) && at
                < history@.len() && history@[at as int].event.event_id@ == event_id@,
            None => place_of_event(history@, event_id@) is None,
        },
{
    for at in 0..history.len()
        invariant
            place_of_event(history@.take(at as int), event_id@) is None,
    {
        proof {
            assert(history@.take(at + 1).drop_last() == history@.take(at as int));
            assert(history@.take(at + 1).last() == history@[at as int]);
        }
        if text::text_eq(history[at].event.event_id.as_str(), event_id) {
            proof {
                place_is_kept(history@, at + 1, event_id@);
            }
            return Some(at);
        }
    }
    proof {
        assert(history@.take(history@.len() as int) == history@);
    }
    None
}

/// The proposal that an event holds: its payload has to decode, and to be canonical.
pub open spec fn decoded_proposal(recorded: RecordedEvent) -> Result<ForgeProposalPayload, Fault> {
    match recorded.payload {
        EventPayload::ForgeProposal(payload, canonical) => if canonical@ == recorded.event.payload@ {
            Ok(payload)
        } else {
            Err(Fault::Projection("Forge proposal payload is not canonical"@))
        },
        _ => Err(Fault::Projection("Forge proposal payload is invalid"@)),
    }
}

/// Reads the proposal that an event holds.
pub fn decode_forge_proposal(recorded: &RecordedEvent) -> (result: Result<
    &ForgeProposalPayload,
    ControlError,
>)
    ensures
        match decoded_proposal(*recorded) {
            Ok(payload) => result matches Ok(found) && *found == payload,
            Err(fault) => result matches Err(error) && error@ == fault,
        },
{
    match &recorded.payload {
        EventPayload::ForgeProposal(payload, canonical) => {
            if arena_jobs::bytes_equal(canonical, &recorded.event.payload) {
                Ok(payload)
            } else {
                Err(projection("Forge proposal payload is not canonical"))
            }
        },
        _ => Err(projection("Forge proposal payload is invalid")),
    }
}

/// The assessment that an event holds: its payload has to decode, and to be canonical.
pub open spec fn decoded_assessment(recorded: RecordedEvent) -> Result<ForgeAssessmentPayload, Fault> {
    match recorded.payload {
        EventPayload::ForgeAssessment(payload, canonical) => if canonical@
            == recorded.event.payload@ {
            Ok(payload)
        } else {
            Err(Fault::Projection("Forge assessment payload is not canonical"@))
        },
        _ => Err(Fault::Projection("Forge assessment payload is invalid"@)),
    }
}

/// Reads the assessment that an event holds.
pub fn decode_forge_assessment(recorded: &RecordedEvent) -> (result: Result<
    &ForgeAssessmentPayload,
    ControlError,
>)
    ensures
        match decoded_assessment(*recorded) {
            Ok(payload) => result matches Ok(found) && *found == payload,
            Err(fault) => result matches Err(error) && error@ == fault,
        },
{
    match &recorded.payload {
        EventPayload::ForgeAssessment(payload, canonical) => {
            if arena_jobs::bytes_equal(canonical, &recorded.event.payload) {
                Ok(payload)
            } else {
                Err(projection("Forge assessment payload is not canonical"))
            }
        },
        _ => Err(projection("Forge assessment payload is invalid")),
    }
}

/// The first rule that a proposal event breaks.
pub open spec fn proposal_fault(event: StoredEvent, payload: ForgeProposalPayload) -> Option<Fault> {
    error::first(
        error::need(
            {
                &&& payload.schema_version == 1
                &&& event.actor@ == state::OPERATOR_ACTOR@
                &&& event.event_type@ == "forge.proposed"@
                &&& event.event_id@ == "forge:"@ + payload.proposal_id@ + ":proposed"@
                &&& event.aggregate_id@ == "forge:"@ + payload.proposal_id@
            },
            Fault::Projection("Forge proposal event identity is invalid"@),
        ),
        error::first(
            error::need(
                commands::job_identity(payload.proposal_id@),
                Fault::Projection("Forge proposal id is invalid"@),
            ),
            error::need(
                commands::usable_hypothesis(payload.hypothesis@),
                Fault::Projection("Forge hypothesis is invalid"@),
            ),
        ),
    )
}

/// Accepts a proposal event that keeps every rule.
pub fn validate_forge_event(event: &StoredEvent, payload: &ForgeProposalPayload) -> (result: Result<
    (),
    ControlError,
>)
    ensures
        error::verdict(result) == error::faulted(proposal_fault(*event, *payload)),
{
    let event_id: String = ids::forge_event_id(payload.proposal_id.as_str());
    let aggregate_id: String = ids::forge_aggregate_id(payload.proposal_id.as_str());
    if payload.schema_version != 1 || !text::text_eq(event.actor.as_str(), state::OPERATOR_ACTOR)
        || !text::text_eq(event.event_type.as_str(), "forge.proposed") || !text::text_eq(
        event.event_id.as_str(),
        event_id.as_str(),
    ) || !text::text_eq(event.aggregate_id.as_str(), aggregate_id.as_str()) {
        return Err(projection("Forge proposal event identity is invalid"));
    }
    if commands::validate_job_id(payload.proposal_id.as_str()).is_err() {
        return Err(projection("Forge proposal id is invalid"));
    }
    if commands::validate_hypothesis(payload.hypothesis.as_str()).is_err() {
        return Err(projection("Forge hypothesis is invalid"));
    }
    Ok(())
}

/// Where the selection that a proposal starts from stands.
pub open spec fn source_place(history: Seq<RecordedEvent>, registry: Registry, selection_event_id: Seq<char>) -> Result<
    int,
    Refusal,
> {
    match place_of_event(history, selection_event_id) {
        None => Err(Refusal::NotFound),
        Some(at) => if history[at].event.event_type@ != "selection.recorded"@ {
            Err(Refusal::Rejected("selection_event_id does not identify a selection"@))
        } else {
            match history[at].payload {
                EventPayload::Reference(reference) => if registry.worlds@.contains_key(
                    reference.world_id@,
                ) {
                    Ok(at)
                } else {
                    Err(Refusal::Internal)
                },
                _ => Err(Refusal::Internal),
            }
        },
    }
}

/// Finds the selection that a proposal or an assessment starts from.
pub fn find_source(history: &Vec<RecordedEvent>, registry: &Registry, selection_event_id: &str) -> (result: Result<
    usize,
    ExecuteError,
>)
    requires
        registry.wf(),
    ensures
        (match result {
            Ok(at) => Ok(at as int),
            Err(error) => Err(error@),
        }) == source_place(history@, *registry, selection_event_id@),
        result matches Ok(at) ==> at < history@.len() && history@[at as int].payload is Reference,
{
    match find_event(history, selection_event_id) {
        None => Err(ExecuteError::NotFound),
        Some(at) => {
            if !text::text_eq(history[at].event.event_type.as_str(), "selection.recorded") {
                return Err(rejected("selection_event_id does not identify a selection"));
            }
            match &history[at].payload {
                EventPayload::Reference(reference) => {
                    if registry.worlds.contains_key(reference.world_id.as_str()) {
                        Ok(at)
                    } else {
                        Err(ExecuteError::Internal)
                    }
                },
                _ => Err(ExecuteError::Internal),
            }
        },
    }
}

/// Accepts a verified selection as the source of a proposal: it has to be the one that its
/// event refers to, and to have chosen the parent as its candidate.
pub fn bind_forge_source(
    reference: &EvaluationReference,
    receipt: &SelectionReceipt,
    parent_genome_id: &str,
) -> (result: Result<(), ExecuteError>)
    ensures
        error::outcome(result) == (if receipt.evaluation_id@ == reference.evaluation_id@
            && receipt.world_id@ == reference.world_id@ && receipt.candidate_genome_id@
            == parent_genome_id@ {
            Ok(())
        } else {
            Err(
                Refusal::Rejected(
                    "the parent must be the selected candidate under the same World"@,
                ),
            )
        }),
{
    if receipt.evaluation_id != reference.evaluation_id || receipt.world_id != reference.world_id
        || !text::text_eq(receipt.candidate_genome_id.as_str(), parent_genome_id) {
        return Err(rejected("the parent must be the selected candidate under the same World"));
    }
    Ok(())
}

/// Names the event of a cluster analysis. `prefix` begins the identities of all such events.
pub fn cluster_event_id(prefix: &str, analysis_id: &str) -> (result: String)
    ensures
        result@ == prefix@ + analysis_id@ + ":clustered"@,
{
    ids::wrap(prefix, analysis_id, ":clustered")
}

/// What a proposal takes from its source.
#[derive(Debug, PartialEq, Eq)]
pub struct ResolvedHypothesis {
    /// The hypothesis.
    pub hypothesis: String,
    /// The analysis that supports it, if one does.
    pub binding: Option<ForgeAnalysisBinding>,
    /// The operation to change to, if the source names one.
    pub target: Option<String>,
}

/// Takes an operator's hypothesis.
pub fn resolve_operator_hypothesis(hypothesis: String) -> (result: Result<
    ResolvedHypothesis,
    ExecuteError,
>)
    ensures
        result == (if commands::usable_hypothesis(hypothesis@) {
            Ok(ResolvedHypothesis { hypothesis, binding: None, target: None })
        } else {
            Err(ExecuteError::Invalid("hypothesis must be 1 to 512 printable UTF-8 bytes"))
        }),
{
    if let Err(error) = commands::validate_hypothesis(hypothesis.as_str()) {
        return Err(error);
    }
    Ok(ResolvedHypothesis { hypothesis, binding: None, target: None })
}

/// The operation that a suggestion names, if it names one.
pub open spec fn suggested_operation(suggestion: SuggestedMutation) -> Option<String> {
    match suggestion {
        SuggestedMutation::ReferenceOperationFlip => None,
        SuggestedMutation::ReferenceOperation { operation_after } => Some(operation_after),
    }
}

/// Takes the hypothesis of a cluster from the verified analysis that holds it.
pub fn resolve_cluster_hypothesis(
    analysis: &ClusterAnalysis,
    analysis_id: String,
    analysis_event_id: String,
    analysis_event_hash: String,
    evaluation_id: &str,
    parent_genome_id: &str,
    cluster_index: u32,
) -> (result: Result<ResolvedHypothesis, ExecuteError>)
    ensures
        error::outcome(result) == (if analysis.evaluation_id@ != evaluation_id@
            || analysis.candidate_genome_id@ != parent_genome_id@ {
            Err(
                Refusal::Rejected(
                    "the bound analysis must have clustered the exact same selected candidate"@,
                ),
            )
        } else if cluster_index >= analysis.clusters@.len() {
            Err(Refusal::NotFound)
        } else {
            let cluster = analysis.clusters@[cluster_index as int];
            match cluster.suggested_mutation {
                None => Err(Refusal::Rejected("the selected cluster has no supported mutation"@)),
                Some(suggestion) => Ok(
                    ResolvedHypothesis {
                        hypothesis: cluster.hypothesis,
                        binding: Some(
                            ForgeAnalysisBinding {
                                analysis_id,
                                analysis_event_id,
                                analysis_event_hash,
                                cluster_index,
                                cluster_signature: cluster.signature,
                            },
                        ),
                        target: suggested_operation(suggestion),
                    },
                ),
            }
        }),
{
    if !text::text_eq(analysis.evaluation_id.as_str(), evaluation_id) || !text::text_eq(
        analysis.candidate_genome_id.as_str(),
        parent_genome_id,
    ) {
        return Err(
            rejected("the bound analysis must have clustered the exact same selected candidate"),
        );
    }
    if cluster_index as usize >= analysis.clusters.len() {
        return Err(ExecuteError::NotFound);
    }
    let cluster = &analysis.clusters[cluster_index as usize];
    let target: Option<String> = match &cluster.suggested_mutation {
        Some(SuggestedMutation::ReferenceOperationFlip) => None,
        Some(SuggestedMutation::ReferenceOperation { operation_after }) => Some(
            operation_after.clone(),
        ),
        None => {
            return Err(rejected("the selected cluster has no supported mutation"));
        },
    };
    Ok(
        ResolvedHypothesis {
            hypothesis: cluster.hypothesis.clone(),
            binding: Some(
                ForgeAnalysisBinding {
                    analysis_id,
                    analysis_event_id,
                    analysis_event_hash,
                    cluster_index,
                    cluster_signature: cluster.signature.clone(),
                },
            ),
            target,
        },
    )
}

/// What a proposal records besides its hypothesis and its mutation.
pub struct ProposalParts {
    /// Identity of the proposal.
    pub proposal_id: String,
    /// Selection that chose the parent.
    pub selection_event_id: String,
    /// Hash of that selection.
    pub selection_event_hash: String,
    /// Evaluation that was selected over.
    pub evaluation_id: String,
    /// World of the parent.
    pub world_id: String,
    /// The parent.
    pub parent_genome_id: String,
    /// The compiled child.
    pub child: GenomeRecord,
    /// Content address of the parent's prompt.
    pub prompt_artifact_before: String,
    /// Content address of the child's prompt.
    pub prompt_artifact_after: String,
    /// Version of the mutation catalog.
    pub catalog_version: u16,
    /// Kind of the catalog edge from the parent's operation to the child's, if there is one.
    pub mutation_kind: Option<String>,
}

/// Puts the payload of a proposal together.
pub fn proposal_payload(parts: ProposalParts, resolved: ResolvedHypothesis, mutation: PromptMutation) -> (result: ForgeProposalPayload)
    ensures
        result == (ForgeProposalPayload {
            schema_version: 1,
            proposal_id: parts.proposal_id,
            selection_event_id: parts.selection_event_id,
            selection_event_hash: parts.selection_event_hash,
            evaluation_id: parts.evaluation_id,
            world_id: parts.world_id,
            parent_genome_id: parts.parent_genome_id,
            child: parts.child,
            hypothesis: resolved.hypothesis,
            artifact_name: result.artifact_name,
            prompt_artifact_before: parts.prompt_artifact_before,
            prompt_artifact_after: parts.prompt_artifact_after,
            operation_before: mutation.before,
            operation_after: mutation.after,
            analysis_binding: resolved.binding,
            catalog_version: Some(parts.catalog_version),
            mutation_kind: parts.mutation_kind,
        }),
        result.artifact_name@ == "agent.prompt"@,
{
    ForgeProposalPayload {
        schema_version: 1,
        proposal_id: parts.proposal_id,
        selection_event_id: parts.selection_event_id,
        selection_event_hash: parts.selection_event_hash,
        evaluation_id: parts.evaluation_id,
        world_id: parts.world_id,
        parent_genome_id: parts.parent_genome_id,
        child: parts.child,
        hypothesis: resolved.hypothesis,
        artifact_name: "agent.prompt".to_owned(),
        prompt_artifact_before: parts.prompt_artifact_before,
        prompt_artifact_after: parts.prompt_artifact_after,
        operation_before: mutation.before,
        operation_after: mutation.after,
        analysis_binding: resolved.binding,
        catalog_version: Some(parts.catalog_version),
        mutation_kind: parts.mutation_kind,
    }
}

/// Whether two bindings say the same.
pub open spec fn same_binding(a: Option<ForgeAnalysisBinding>, b: Option<ForgeAnalysisBinding>) -> bool {
    match (a, b) {
        (None, None) => true,
        (Some(a), Some(b)) => {
            &&& a.analysis_id@ == b.analysis_id@
            &&& a.analysis_event_id@ == b.analysis_event_id@
            &&& a.analysis_event_hash@ == b.analysis_event_hash@
            &&& a.cluster_index == b.cluster_index
            &&& a.cluster_signature@ == b.cluster_signature@
        },
        _ => false,
    }
}

/// Tests whether two bindings say the same.
fn bindings_match(a: &Option<ForgeAnalysisBinding>, b: &Option<ForgeAnalysisBinding>) -> (result: bool)
    ensures
        result == same_binding(*a, *b),
{
    match (a, b) {
        (None, None) => true,
        (Some(a), Some(b)) => text::text_eq(a.analysis_id.as_str(), b.analysis_id.as_str())
            && text::text_eq(a.analysis_event_id.as_str(), b.analysis_event_id.as_str())
            && text::text_eq(a.analysis_event_hash.as_str(), b.analysis_event_hash.as_str())
            && a.cluster_index == b.cluster_index && text::text_eq(
            a.cluster_signature.as_str(),
            b.cluster_signature.as_str(),
        ),
        _ => false,
    }
}

/// Whether two proposals say the same.
pub open spec fn same_proposal(a: ForgeProposalPayload, b: ForgeProposalPayload) -> bool {
    &&& a.schema_version == b.schema_version
    &&& a.proposal_id@ == b.proposal_id@
    &&& a.selection_event_id@ == b.selection_event_id@
    &&& a.selection_event_hash@ == b.selection_event_hash@
    &&& a.evaluation_id@ == b.evaluation_id@
    &&& a.world_id@ == b.world_id@
    &&& a.parent_genome_id@ == b.parent_genome_id@
    &&& a.child@ == b.child@
    &&& a.hypothesis@ == b.hypothesis@
    &&& a.artifact_name@ == b.artifact_name@
    &&& a.prompt_artifact_before@ == b.prompt_artifact_before@
    &&& a.prompt_artifact_after@ == b.prompt_artifact_after@
    &&& a.operation_before@ == b.operation_before@
    &&& a.operation_after@ == b.operation_after@
    &&& same_binding(a.analysis_binding, b.analysis_binding)
    &&& a.catalog_version == b.catalog_version
    &&& json::held(a.mutation_kind) == json::held(b.mutation_kind)
}

/// Tests whether two optional texts are the same.
pub fn same_held(a: &Option<String>, b: &Option<String>) -> (result: bool)
    ensures
        result == (json::held(*a) == json::held(*b)),
{
    match (a, b) {
        (None, None) => true,
        (Some(a), Some(b)) => text::text_eq(a.as_str(), b.as_str()),
        _ => false,
    }
}

/// Tests whether two Genome records say the same.
pub fn same_genome(a: &GenomeRecord, b: &GenomeRecord) -> (result: bool)
    ensures
        result == (a@ == b@),
{
    text::text_eq(a.genome_id.as_str(), b.genome_id.as_str()) && text::text_eq(
        a.name.as_str(),
        b.name.as_str(),
    ) && text::text_eq(a.world_id.as_str(), b.world_id.as_str()) && text::text_eq(
        a.artifact_id.as_str(),
        b.artifact_id.as_str(),
    ) && text::texts_eq(&a.parent_ids, &b.parent_ids)
}

/// Tests whether two proposals say the same.
pub fn proposals_match(a: &ForgeProposalPayload, b: &ForgeProposalPayload) -> (result: bool)
    ensures
        result == same_proposal(*a, *b),
{
    a.schema_version == b.schema_version && text::text_eq(
        a.proposal_id.as_str(),
        b.proposal_id.as_str(),
    ) && text::text_eq(a.selection_event_id.as_str(), b.selection_event_id.as_str())
        && text::text_eq(a.selection_event_hash.as_str(), b.selection_event_hash.as_str())
        && text::text_eq(a.evaluation_id.as_str(), b.evaluation_id.as_str()) && text::text_eq(
        a.world_id.as_str(),
        b.world_id.as_str(),
    ) && text::text_eq(a.parent_genome_id.as_str(), b.parent_genome_id.as_str()) && same_genome(
        &a.child,
        &b.child,
    ) && text::text_eq(a.hypothesis.as_str(), b.hypothesis.as_str()) && text::text_eq(
        a.artifact_name.as_str(),
        b.artifact_name.as_str(),
    ) && text::text_eq(a.prompt_artifact_before.as_str(), b.prompt_artifact_before.as_str())
        && text::text_eq(a.prompt_artifact_after.as_str(), b.prompt_artifact_after.as_str())
        && text::text_eq(a.operation_before.as_str(), b.operation_before.as_str())
        && text::text_eq(a.operation_after.as_str(), b.operation_after.as_str())
        && bindings_match(&a.analysis_binding, &b.analysis_binding) && a.catalog_version
        == b.catalog_version && same_held(&a.mutation_kind, &b.mutation_kind)
}

/// Whether a search for a proposal ends at an event: at the proposal, or where none can be
/// read.
pub open spec fn ends_at_proposal(recorded: RecordedEvent, proposal_id: Seq<char>) -> bool {
    recorded.event.event_type@ == "forge.proposed"@ && match decoded_proposal(recorded) {
        Ok(payload) => payload.proposal_id@ == proposal_id,
        Err(_) => true,
    }
}

/// Where a search for a proposal ends.
pub open spec fn proposal_place(history: Seq<RecordedEvent>, proposal_id: Seq<char>) -> Option<int>
    decreases history.len(),
{
    if history.len() == 0 {
        None
    } else {
        match proposal_place(history.drop_last(), proposal_id) {
            Some(at) => Some(at),
            None => if ends_at_proposal(history.last(), proposal_id) {
                Some(history.len() - 1)
            } else {
                None
            },
        }
    }
}

/// A search that ended does not go on.
proof fn proposal_place_is_first(history: Seq<RecordedEvent>, length: int, proposal_id: Seq<char>)
    requires
        0 <= length <= history.len(),
        proposal_place(history.take(length), proposal_id) is Some,
    ensures
        proposal_place(history, proposal_id) == proposal_place(history.take(length), proposal_id),
    decreases history.len() - length,
{
    if length == history.len() {
        assert(history.take(length) == history);
    } else {
        assert(history.take(length + 1).drop_last() == history.take(length));
        proposal_place_is_first(history, length + 1, proposal_id);
    }
}

/// What history already holds of a proposal: nothing, or the event that recorded it. An
/// identity keeps the content that it was first bound to.
pub open spec fn recorded_proposal(history: Seq<RecordedEvent>, payload: ForgeProposalPayload) -> Result<
    Option<int>,
    Refusal,
> {
    match proposal_place(history, payload.proposal_id@) {
        None => Ok(None),
        Some(at) => match decoded_proposal(history[at]) {
            Err(_) => Err(Refusal::Internal),
            Ok(existing) => if same_proposal(existing, payload) {
                Ok(Some(at))
            } else {
                Err(
                    Refusal::Rejected(
                        "proposal_id is already bound to different proposal content"@,
                    ),
                )
            },
        },
    }
}

/// Finds what history already holds of a proposal.
pub fn existing_proposal(history: &Vec<RecordedEvent>, payload: &ForgeProposalPayload) -> (result: Result<
    Option<usize>,
    ExecuteError,
>)
    ensures
        (match result {
            Ok(Some(at)) => Ok(Some(at as int)),
            Ok(None) => Ok(None),
            Err(error) => Err(error@),
        }) == recorded_proposal(history@, *payload),
        result matches Ok(Some(at)) ==> at < history@.len(),
{
    for at in 0..history.len()
        invariant
            proposal_place(history@.take(at as int), payload.proposal_id@) is None,
    {
        proof {
            assert(history@.take(at + 1).drop_last() == history@.take(at as int));
            assert(history@.take(at + 1).last() == history@[at as int]);
            if proposal_place(history@.take(at + 1), payload.proposal_id@) is Some {
                proposal_place_is_first(history@, at + 1, payload.proposal_id@);
            }
        }
        if text::text_eq(history[at].event.event_type.as_str(), "forge.proposed") {
            match decode_forge_proposal(&history[at]) {
                Err(_) => {
                    return Err(ExecuteError::Internal);
                },
                Ok(existing) => {
                    if text::text_eq(existing.proposal_id.as_str(), payload.proposal_id.as_str()) {
                        if proposals_match(existing, payload) {
                            return Ok(Some(at));
                        }
                        return Err(
                            rejected("proposal_id is already bound to different proposal content"),
                        );
                    }
                },
            }
        }
    }
    proof {
        assert(history@.take(history@.len() as int) == history@);
    }
    Ok(None)
}

/// Shows a recorded proposal. Nothing recorded by a proposal makes its child eligible.
pub fn forge_proposal_record(payload: ForgeProposalPayload, event: &StoredEvent) -> (result: ForgeProposalRecord)
    ensures
        result.payload == payload,
        result.event.sequence == event.sequence,
        result.event.event_id == event.event_id,
        result.event.aggregate_id == event.aggregate_id,
        result.event.event_hash@ == hex::hex(event.hash@),
        !result.promotion_eligible,
{
    ForgeProposalRecord {
        payload,
        event: ForgeProposalEventRecord {
            sequence: event.sequence,
            event_id: event.event_id.clone(),
            aggregate_id: event.aggregate_id.clone(),
            event_hash: hex::hex_encode(&event.hash),
        },
        promotion_eligible: false,
    }
}

/// Refuses a proposal whose child is registered already.
pub fn admit_child(registry: &Registry, child_genome_id: &str) -> (result: Result<(), ExecuteError>)
    requires
        registry.wf(),
    ensures
        error::outcome(result) == (if registry.genomes@.contains_key(child_genome_id@) {
            Err(Refusal::Rejected("derived child identity is already registered"@))
        } else {
            Ok(())
        }),
{
    if registry.genomes.contains_key(child_genome_id) {
        Err(rejected("derived child identity is already registered"))
    } else {
        Ok(())
    }
}

} // verus!
