//! A Forge proposal from its request to what is recorded of it.
//!
//! A proposal alternates between decisions and work on stored artifacts: first its source,
//! its hypothesis and the mutation of its parent's prompt are settled; then the mutated
//! prompt is stored and the child is compiled; then the proposal is recorded, unless history
//! holds it already.

use crate::commands;
use crate::error;
use crate::error::{ExecuteError, Refusal};
use crate::forge;
use crate::forge::{HypothesisSource, ProposalParts, ProposalRequest, ResolvedHypothesis};
use crate::forge_history;
use crate::forge_history::VerifiedSelection;
use crate::mutation;
use crate::mutation::{PromptMutation, RequestedOperation};
use crate::protocol::ForgeProposalPayload;
use crate::records::{ClusterAnalysis, GenomeRecord};
use crate::registry::{Registry, WorldEntry};
use crate::state::{EvaluationReference, EventPayload, RecordedEvent};
use crate::json;
use vstd::prelude::*;

verus! {

/// What verifying a cluster analysis gave.
pub struct VerifiedAnalysis {
    /// The analysis.
    pub analysis: ClusterAnalysis,
    /// Hash of its event in hexadecimal.
    pub event_hash: String,
}

/// What has to be found out before a proposal is settled. A caller finds it out in this order
/// and stops where something fails.
pub struct ProposalFacts {
    /// The selection that the proposal starts from, where it could be verified.
    pub selection: Option<VerifiedSelection>,
    /// The analysis that the proposal names, where it could be verified.
    pub analysis: Option<VerifiedAnalysis>,
    /// Whether the operation that the analysis suggests is a known one.
    pub target_known: bool,
    /// Bytes of the parent's prompt, where they could be read.
    pub prompt_bytes: Option<Vec<u8>>,
    /// Operation that they parse to, where they do.
    pub operation: Option<String>,
    /// Whether the catalog has an edge from that operation to the suggested one.
    pub catalog_edge: bool,
}

/// The hypothesis of a proposal. `prefix` begins the identities of the events that record
/// analyses.
pub open spec fn hypothesis_of(
    source: HypothesisSource,
    history: Seq<RecordedEvent>,
    prefix: Seq<char>,
    verified: Option<VerifiedAnalysis>,
    target_known: bool,
    evaluation_id: Seq<char>,
    parent_genome_id: Seq<char>,
    resolved: Result<ResolvedHypothesis, Refusal>,
) -> bool {
    match source {
        HypothesisSource::Operator(hypothesis) => resolved == (if commands::usable_hypothesis(
            hypothesis@,
        ) {
            Ok::<ResolvedHypothesis, Refusal>(
                ResolvedHypothesis { hypothesis, binding: None, target: None },
            )
        } else {
            Err(Refusal::Invalid("hypothesis must be 1 to 512 printable UTF-8 bytes"@))
        }),
        HypothesisSource::Analysis { analysis_id, cluster_index } => {
            let event_id = prefix + analysis_id@ + ":clustered"@;
            if forge::place_of_event(history, event_id) is None {
                resolved == Err::<ResolvedHypothesis, Refusal>(Refusal::NotFound)
            } else if verified is None {
                resolved == Err::<ResolvedHypothesis, Refusal>(Refusal::Internal)
            } else {
                let analysis = verified->0.analysis;
                let cluster = analysis.clusters@[cluster_index as int];
                if analysis.evaluation_id@ != evaluation_id || analysis.candidate_genome_id@
                    != parent_genome_id {
                    resolved == Err::<ResolvedHypothesis, Refusal>(
                        Refusal::Rejected(
                            "the bound analysis must have clustered the exact same selected candidate"@,
                        ),
                    )
                } else if cluster_index >= analysis.clusters@.len() {
                    resolved == Err::<ResolvedHypothesis, Refusal>(Refusal::NotFound)
                } else if cluster.suggested_mutation is None {
                    resolved == Err::<ResolvedHypothesis, Refusal>(
                        Refusal::Rejected("the selected cluster has no supported mutation"@),
                    )
                } else if forge::suggested_operation(cluster.suggested_mutation->0) is Some
                    && !target_known {
                    resolved == Err::<ResolvedHypothesis, Refusal>(Refusal::Internal)
                } else {
                    resolved matches Ok(taken) && {
                        &&& taken.hypothesis == cluster.hypothesis
                        &&& taken.target == forge::suggested_operation(cluster.suggested_mutation->0)
                        &&& taken.binding matches Some(binding) && {
                            &&& binding.analysis_id == analysis_id
                            &&& binding.analysis_event_id@ == event_id
                            &&& binding.analysis_event_hash == verified->0.event_hash
                            &&& binding.cluster_index == cluster_index
                            &&& binding.cluster_signature == cluster.signature
                        }
                    }
                }
            }
        },
    }
}

/// Takes the hypothesis of a proposal from its source.
pub fn resolve_forge_hypothesis(
    source: HypothesisSource,
    history: &Vec<RecordedEvent>,
    prefix: &str,
    analysis: Option<VerifiedAnalysis>,
    target_known: bool,
    evaluation_id: &str,
    parent_genome_id: &str,
) -> (result: Result<ResolvedHypothesis, ExecuteError>)
    ensures
        hypothesis_of(
            source,
            history@,
            prefix@,
            analysis,
            target_known,
            evaluation_id@,
            parent_genome_id@,
            error::outcome(result),
        ),
{
    match source {
        HypothesisSource::Operator(hypothesis) => forge::resolve_operator_hypothesis(hypothesis),
        HypothesisSource::Analysis { analysis_id, cluster_index } => {
            let event_id: String = forge::cluster_event_id(prefix, analysis_id.as_str());
            if forge::find_event(history, event_id.as_str()).is_none() {
                return Err(ExecuteError::NotFound);
            }
            match analysis {
                None => Err(ExecuteError::Internal),
                Some(verified) => {
                    let resolved = forge::resolve_cluster_hypothesis(
                        &verified.analysis,
                        analysis_id,
                        event_id,
                        verified.event_hash,
                        evaluation_id,
                        parent_genome_id,
                        cluster_index,
                    );
                    match resolved {
                        Err(error) => Err(error),
                        Ok(resolved) => if resolved.target.is_some() && !target_known {
                            Err(ExecuteError::Internal)
                        } else {
                            Ok(resolved)
                        },
                    }
                },
            }
        },
    }
}

/// The selection event that a proposal starts from.
pub open spec fn reference_at(history: Seq<RecordedEvent>, at: int) -> EvaluationReference {
    history[at].payload->Reference_0
}

/// Whether a verified selection chose the parent as its candidate, as its event says.
pub open spec fn selects_parent(
    selection: VerifiedSelection,
    reference: EvaluationReference,
    parent_genome_id: Seq<char>,
) -> bool {
    &&& selection.receipt.evaluation_id@ == reference.evaluation_id@
    &&& selection.receipt.world_id@ == reference.world_id@
    &&& selection.receipt.candidate_genome_id@ == parent_genome_id
}

/// Why a proposal is refused before its hypothesis is looked at.
pub open spec fn source_refusal(
    frozen: bool,
    registry: Registry,
    history: Seq<RecordedEvent>,
    request: ProposalRequest,
    facts: ProposalFacts,
) -> Option<Refusal> {
    error::first(
        error::need(!frozen, Refusal::Invalid("evolution is frozen"@)),
        error::first(
            error::need(
                commands::job_identity(request.proposal_id@),
                Refusal::Invalid("proposal_id is invalid"@),
            ),
            match forge::source_place(history, registry, request.selection_event_id@) {
                Err(refusal) => Some(refusal),
                Ok(at) => error::first(
                    error::need(facts.selection is Some, Refusal::Internal),
                    error::need(
                        selects_parent(
                            facts.selection->0,
                            reference_at(history, at),
                            request.parent_genome_id@,
                        ),
                        Refusal::Rejected(
                            "the parent must be the selected candidate under the same World"@,
                        ),
                    ),
                ),
            },
        ),
    )
}

/// The operation that a proposal asks for.
pub open spec fn requested_operation(resolved: ResolvedHypothesis, catalog_edge: bool) -> Option<
    RequestedOperation,
> {
    match resolved.target {
        None => None,
        Some(operation) => Some(RequestedOperation { operation, catalog_edge }),
    }
}

/// Bytes that may be missing.
pub open spec fn read_bytes(bytes: Option<Vec<u8>>) -> Option<Seq<u8>> {
    match bytes {
        None => None,
        Some(bytes) => Some(bytes@),
    }
}

/// A settled proposal: what it starts from and what it changes.
pub struct Settled {
    /// Hash of the selection event in hexadecimal.
    pub selection_event_hash: String,
    /// Evaluation that was selected over.
    pub evaluation_id: String,
    /// World of the parent.
    pub world_id: String,
    /// Hypothesis of the proposal.
    pub resolved: ResolvedHypothesis,
    /// Content address of the parent's prompt.
    pub prompt_artifact_before: String,
    /// What changes in the prompt.
    pub mutation: PromptMutation,
}

/// What a proposal that passes its source comes to: the first refusal of its hypothesis, its
/// prompt or its mutation, or what is settled.
pub open spec fn settles(
    registry: Registry,
    history: Seq<RecordedEvent>,
    prefix: Seq<char>,
    request: ProposalRequest,
    facts: ProposalFacts,
    resolved: Result<ResolvedHypothesis, Refusal>,
    result: Result<Settled, ExecuteError>,
) -> bool {
    let at = forge::source_place(history, registry, request.selection_event_id@)->Ok_0;
    let reference = reference_at(history, at);
    let world = registry.worlds@[reference.world_id@];
    let prompt = mutation::mutable_prompt(registry, world, request.parent_genome_id@);
    &&& hypothesis_of(
        request.source,
        history,
        prefix,
        facts.analysis,
        facts.target_known,
        reference.evaluation_id@,
        request.parent_genome_id@,
        resolved,
    )
    &&& match resolved {
        Err(refusal) => result matches Err(error) && error@ == refusal,
        Ok(taken) => match prompt {
            Err(refusal) => result matches Err(error) && error@ == refusal,
            Ok(prompt) => match mutation::prompt_mutation(
                read_bytes(facts.prompt_bytes),
                json::held(facts.operation),
                requested_operation(taken, facts.catalog_edge),
            ) {
                Err(refusal) => result matches Err(error) && error@ == refusal,
                Ok(changed) => result matches Ok(settled) && {
                    &&& settled.selection_event_hash == facts.selection->0.event.event_hash
                    &&& settled.evaluation_id == reference.evaluation_id
                    &&& settled.world_id == reference.world_id
                    &&& settled.resolved == taken
                    &&& settled.prompt_artifact_before == prompt
                    &&& settled.mutation@ == changed
                },
            },
        },
    }
}

/// Settles what a proposal starts from and what it changes. The first step that fails refuses
/// it. `prefix` begins the identities of the events that record analyses.
pub fn propose_genome_from_source(
    frozen: bool,
    registry: &Registry,
    history: &Vec<RecordedEvent>,
    prefix: &str,
    request: ProposalRequest,
    facts: ProposalFacts,
) -> (result: Result<Settled, ExecuteError>)
    requires
        registry.wf(),
    ensures
        match source_refusal(frozen, *registry, history@, request, facts) {
            Some(refusal) => result matches Err(error) && error@ == refusal,
            None => exists|resolved: Result<ResolvedHypothesis, Refusal>| #[trigger]
                settles(*registry, history@, prefix@, request, facts, resolved, result),
        },
{
    let ghost whole = facts;
    let ghost asked = request;
    if let Err(error) = forge::open_proposal(frozen, request.proposal_id.as_str()) {
        return Err(error);
    }
    let at: usize = match forge::find_source(history, registry, request.selection_event_id.as_str()) {
        Ok(at) => at,
        Err(error) => {
            return Err(error);
        },
    };
    let reference: &EvaluationReference = match &history[at].payload {
        EventPayload::Reference(reference) => reference,
        _ => {
            return Err(ExecuteError::Internal);
        },
    };
    let selection: VerifiedSelection = match facts.selection {
        Some(selection) => selection,
        None => {
            return Err(ExecuteError::Internal);
        },
    };
    if let Err(error) = forge::bind_forge_source(
        reference,
        &selection.receipt,
        request.parent_genome_id.as_str(),
    ) {
        return Err(error);
    }
    let world: &WorldEntry = match registry.worlds.get(reference.world_id.as_str()) {
        Some(world) => world,
        None => {
            return Err(ExecuteError::Internal);
        },
    };
    let answer = resolve_forge_hypothesis(
        request.source,
        history,
        prefix,
        facts.analysis,
        facts.target_known,
        reference.evaluation_id.as_str(),
        request.parent_genome_id.as_str(),
    );
    let ghost taken = error::outcome(answer);
    let resolved: ResolvedHypothesis = match answer {
        Ok(resolved) => resolved,
        Err(error) => {
            let result = Err(error);
            assert(settles(*registry, history@, prefix@, asked, whole, taken, result));
            return result;
        },
    };
    let prompt_artifact_before: String = match mutation::prompt_to_mutate(
        registry,
        world,
        request.parent_genome_id.as_str(),
    ) {
        Ok(prompt) => prompt,
        Err(error) => {
            let result = Err(error);
            assert(settles(*registry, history@, prefix@, asked, whole, taken, result));
            return result;
        },
    };
    let target: Option<RequestedOperation> = match &resolved.target {
        None => None,
        Some(operation) => Some(
            RequestedOperation { operation: operation.clone(), catalog_edge: facts.catalog_edge },
        ),
    };
    let operation: Option<&str> = match &facts.operation {
        None => None,
        Some(operation) => Some(operation.as_str()),
    };
    let derived = mutation::forge_prompt_mutation(facts.prompt_bytes, operation, target.as_ref());
    let result = match derived {
        Err(error) => Err(error),
        Ok(mutation) => Ok(
            Settled {
                selection_event_hash: selection.event.event_hash,
                evaluation_id: reference.evaluation_id.clone(),
                world_id: reference.world_id.clone(),
                resolved,
                prompt_artifact_before,
                mutation,
            },
        ),
    };
    assert(target == requested_operation(taken->Ok_0, whole.catalog_edge));
    assert(settles(*registry, history@, prefix@, asked, whole, taken, result));
    result
}

/// What compiling the child of a proposal came to.
pub enum ChildReply {
    /// The prompt or the child could not be stored, or the child's source not be written.
    Failed,
    /// The compiler rejected the child.
    Rejected {
        /// Why.
        reason: String,
    },
    /// The child is compiled and stored.
    Compiled {
        /// Content address of the mutated prompt.
        prompt_artifact_id: String,
        /// Identity that the compiler derived.
        genome_id: String,
        /// Name of the child.
        name: String,
        /// Parents of the child.
        parent_ids: Vec<String>,
        /// Content address of its canonical source.
        artifact_id: String,
        /// Version of the mutation catalog.
        catalog_version: u16,
        /// Kind of the catalog edge that was taken, if there is one.
        mutation_kind: Option<String>,
    },
}

/// What a settled proposal comes to.
pub enum ProposalEnd {
    /// History holds it already, in the event at this place.
    Recorded(usize),
    /// It is recorded.
    Record(ForgeProposalPayload),
}

/// Whether a payload says what was settled and what the child was compiled to.
pub open spec fn proposes(
    payload: ForgeProposalPayload,
    proposal_id: String,
    selection_event_id: String,
    parent_genome_id: String,
    settled: Settled,
    reply: ChildReply,
) -> bool {
    reply matches ChildReply::Compiled {
        prompt_artifact_id,
        genome_id,
        name,
        parent_ids,
        artifact_id,
        catalog_version,
        mutation_kind,
    } && {
        &&& payload.schema_version == 1
        &&& payload.proposal_id == proposal_id
        &&& payload.selection_event_id == selection_event_id
        &&& payload.selection_event_hash == settled.selection_event_hash
        &&& payload.evaluation_id == settled.evaluation_id
        &&& payload.world_id == settled.world_id
        &&& payload.parent_genome_id == parent_genome_id
        &&& payload.child == (GenomeRecord {
            genome_id,
            name,
            world_id: settled.world_id,
            artifact_id,
            parent_ids,
        })
        &&& payload.hypothesis == settled.resolved.hypothesis
        &&& payload.artifact_name@ == "agent.prompt"@
        &&& payload.prompt_artifact_before == settled.prompt_artifact_before
        &&& payload.prompt_artifact_after == prompt_artifact_id
        &&& payload.operation_before == settled.mutation.before
        &&& payload.operation_after == settled.mutation.after
        &&& payload.analysis_binding == settled.resolved.binding
        &&& payload.catalog_version == Some(catalog_version)
        &&& payload.mutation_kind == mutation_kind
    }
}

/// Decides what a settled proposal comes to once its child was compiled. The same proposal is
/// recorded once; another under its identity is refused, and so is a child that is registered
/// already.
pub fn settle_proposal(
    registry: &Registry,
    history: &Vec<RecordedEvent>,
    proposal_id: String,
    selection_event_id: String,
    parent_genome_id: String,
    settled: Settled,
    reply: ChildReply,
) -> (result: Result<ProposalEnd, ExecuteError>)
    requires
        registry.wf(),
    ensures
        match reply {
            ChildReply::Failed => result == Err::<ProposalEnd, ExecuteError>(ExecuteError::Internal),
            ChildReply::Rejected { reason } => result matches Err(error) && error@
                == Refusal::Rejected("Forge child rejected: "@ + reason@),
            ChildReply::Compiled { genome_id, .. } => exists|payload: ForgeProposalPayload| #[trigger]
                proposes(
                    payload,
                    proposal_id,
                    selection_event_id,
                    parent_genome_id,
                    settled,
                    reply,
                ) && match forge::recorded_proposal(history@, payload) {
                    Err(refusal) => result matches Err(error) && error@ == refusal,
                    Ok(Some(at)) => result matches Ok(ProposalEnd::Recorded(place)) && place == at,
                    Ok(None) => if registry.genomes@.contains_key(genome_id@) {
                        result matches Err(error) && error@ == Refusal::Rejected(
                            "derived child identity is already registered"@,
                        )
                    } else {
                        result == Ok::<ProposalEnd, ExecuteError>(ProposalEnd::Record(payload))
                    },
                },
        },
{
    let ghost answered = reply;
    let ghost before = settled;
    match reply {
        ChildReply::Failed => Err(ExecuteError::Internal),
        ChildReply::Rejected { reason } => Err(forge_history::reject_child(reason.as_str())),
        ChildReply::Compiled {
            prompt_artifact_id,
            genome_id,
            name,
            parent_ids,
            artifact_id,
            catalog_version,
            mutation_kind,
        } => {
            let child = GenomeRecord {
                genome_id,
                name,
                world_id: settled.world_id.clone(),
                artifact_id,
                parent_ids,
            };
            let parts = ProposalParts {
                proposal_id: proposal_id.clone(),
                selection_event_id: selection_event_id.clone(),
                selection_event_hash: settled.selection_event_hash,
                evaluation_id: settled.evaluation_id,
                world_id: settled.world_id,
                parent_genome_id: parent_genome_id.clone(),
                child,
                prompt_artifact_before: settled.prompt_artifact_before,
                prompt_artifact_after: prompt_artifact_id,
                catalog_version,
                mutation_kind,
            };
            let payload: ForgeProposalPayload = forge::proposal_payload(
                parts,
                settled.resolved,
                settled.mutation,
            );
            assert(proposes(
                payload,
                proposal_id,
                selection_event_id,
                parent_genome_id,
                before,
                answered,
            ));
            match forge::existing_proposal(history, &payload) {
                Err(error) => Err(error),
                Ok(Some(at)) => Ok(ProposalEnd::Recorded(at)),
                Ok(None) => match forge::admit_child(registry, payload.child.genome_id.as_str()) {
                    Err(error) => Err(error),
                    Ok(()) => Ok(ProposalEnd::Record(payload)),
                },
            }
        },
    }
}

} // verus!
