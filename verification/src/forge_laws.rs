//! What the Forge records, its verification accepts.

use crate::assess;
use crate::commands;
use crate::error;
use crate::error::Refusal;
use crate::forge;
use crate::forge::{ProposalRequest, ResolvedHypothesis};
use crate::forge_history;
use crate::forge_history::{ForgeEvidence, VerifiedSelection};
use crate::json;
use crate::mutation;
use crate::proposal;
use crate::proposal::{ChildReply, ProposalFacts, Settled};
use crate::protocol::{ForgeAssessmentPayload, ForgeProposalPayload};
use crate::registry::{GenomeEntry, Registry};
use crate::state;
use crate::state::RecordedEvent;
use crate::text;
use vstd::prelude::*;
use vstd::utf8::*;

verus! {

/// A longer history keeps the place of an event.
pub proof fn pushing_keeps_places(history: Seq<RecordedEvent>, recorded: RecordedEvent, event_id: Seq<char>)
    requires
        forge::place_of_event(history, event_id) is Some,
    ensures
        forge::place_of_event(history.push(recorded), event_id) == forge::place_of_event(
            history,
            event_id,
        ),
        0 <= forge::place_of_event(history, event_id)->0 < history.len(),
        history.push(recorded)[forge::place_of_event(history, event_id)->0]
            == history[forge::place_of_event(history, event_id)->0],
{
    assert(history.push(recorded).drop_last() == history);
    forge::place_holds(history, event_id);
}

/// Whether an event records an assessment as the Forge does.
pub open spec fn records_assessment(recorded: RecordedEvent, payload: ForgeAssessmentPayload) -> bool {
    &&& forge::decoded_assessment(recorded) == Ok::<ForgeAssessmentPayload, error::Fault>(payload)
    &&& recorded.event.actor@ == state::OPERATOR_ACTOR@
    &&& recorded.event.event_id@ == "forge-assessment:"@ + payload.assessment_id@ + ":recorded"@
    &&& recorded.event.aggregate_id@ == "forge:"@ + payload.proposal_id@
}

/// A derived assessment that is recorded after its evidence passes verification.
pub proof fn recorded_assessments_verify(
    history: Seq<RecordedEvent>,
    registry: Registry,
    assessment_id: Seq<char>,
    proposal_id: Seq<char>,
    selection: VerifiedSelection,
    payload: ForgeAssessmentPayload,
    recorded: RecordedEvent,
)
    requires
        commands::job_identity(assessment_id),
        commands::job_identity(proposal_id),
        ({
            let places = assess::assessment_places(
                history,
                registry,
                proposal_id,
                selection.event.event_id@,
            );
            &&& places is Ok
            &&& assess::assessment_refusal(
                history,
                places->Ok_0.0,
                places->Ok_0.1,
                selection.receipt,
                selection.event.sequence,
            ) is None
            &&& assess::assesses(
                payload,
                assessment_id,
                proposal_id,
                history[places->Ok_0.0].event,
                selection.receipt,
                selection.event,
            )
            &&& history[places->Ok_0.1].event.sequence < recorded.event.sequence
        }),
        records_assessment(recorded, payload),
    ensures
        forge_history::assessment_fault(
            history.push(recorded),
            registry,
            history.len() as int,
            Some(selection),
        ) is None,
{
    let longer = history.push(recorded);
    pushing_keeps_places(history, recorded, "forge:"@ + proposal_id + ":proposed"@);
    pushing_keeps_places(history, recorded, selection.event.event_id@);
    pushing_keeps_places(history, recorded, selection.receipt.evaluation_event_id@);
    assert(longer[history.len() as int] == recorded);
}

/// Whether an event records a proposal as the Forge does.
pub open spec fn records_proposal(recorded: RecordedEvent, payload: ForgeProposalPayload) -> bool {
    &&& forge::decoded_proposal(recorded) == Ok::<ForgeProposalPayload, error::Fault>(payload)
    &&& recorded.event.actor@ == state::OPERATOR_ACTOR@
    &&& recorded.event.event_type@ == "forge.proposed"@
    &&& recorded.event.event_id@ == "forge:"@ + payload.proposal_id@ + ":proposed"@
    &&& recorded.event.aggregate_id@ == "forge:"@ + payload.proposal_id@
}

/// No event before ends the search for a proposal that was not found.
pub proof fn unfound_proposals_are_absent(history: Seq<RecordedEvent>, proposal_id: Seq<char>)
    requires
        forge::proposal_place(history, proposal_id) is None,
    ensures
        forall|at: int|
            0 <= at < history.len() ==> !forge::ends_at_proposal(#[trigger] history[at], proposal_id),
    decreases history.len(),
{
    if history.len() > 0 {
        unfound_proposals_are_absent(history.drop_last(), proposal_id);
        assert forall|at: int| 0 <= at < history.len() implies !forge::ends_at_proposal(
            #[trigger] history[at],
            proposal_id,
        ) by {
            if at < history.len() - 1 {
                assert(history.drop_last()[at] == history[at]);
            }
        }
    }
}

/// A proposal that is recorded under a new identity passes the checks on its event.
pub proof fn recorded_proposals_are_new(
    history: Seq<RecordedEvent>,
    payload: ForgeProposalPayload,
    recorded: RecordedEvent,
)
    requires
        forge::recorded_proposal(history, payload) == Ok::<Option<int>, Refusal>(None),
        payload.schema_version == 1,
        commands::job_identity(payload.proposal_id@),
        commands::usable_hypothesis(payload.hypothesis@),
        records_proposal(recorded, payload),
    ensures
        forge_history::early_proposal_fault(history.push(recorded), history.len() as int) is None,
{
    let longer = history.push(recorded);
    let end = history.len() as int;
    unfound_proposals_are_absent(history, payload.proposal_id@);
    assert(longer[end] == recorded);
    assert forall|earlier: int| 0 <= earlier < end implies longer[earlier] == #[trigger] history[earlier] by {}
    if forge_history::proposed_before(longer, end, payload.proposal_id@) {
        let earlier = choose|earlier: int|
            0 <= earlier < end && forge_history::proposals()(#[trigger] longer[earlier])
                && forge::decoded_proposal(longer[earlier]) is Ok && forge::decoded_proposal(
                longer[earlier],
            )->Ok_0.proposal_id@ == payload.proposal_id@;
        assert(longer[earlier] == history[earlier]);
        assert(forge::ends_at_proposal(history[earlier], payload.proposal_id@));
    }
}

/// Whether the evidence of a recorded proposal is what it was made from: the same selection,
/// the parent's prompt and the one that was stored for the child, and the catalog's own words
/// for the edge between their operations.
pub open spec fn evidences(
    evidence: ForgeEvidence,
    facts: ProposalFacts,
    settled: Settled,
    payload: ForgeProposalPayload,
) -> bool {
    let prompts = evidence.prompts;
    &&& evidence.selection == facts.selection
    &&& prompts.before is Some
    &&& prompts.before->0@ == facts.prompt_bytes->0@
    &&& prompts.after is Some
    &&& valid_utf8(prompts.after->0@)
    &&& decode_utf8(prompts.after->0@) == settled.mutation.text@
    &&& json::held(prompts.operation_before) == Some(settled.mutation.before@)
    &&& json::held(prompts.operation_after) == Some(settled.mutation.after@)
    &&& prompts.edge_kind is Some
    &&& payload.mutation_kind is Some ==> payload.mutation_kind->0@ == prompts.edge_kind->0@
    &&& payload.catalog_version == Some(prompts.catalog_version)
}

/// Whether a child is registered as its proposal proposed it, with the one prompt changed.
pub open spec fn registers_child(
    child: GenomeEntry,
    parent: GenomeEntry,
    payload: ForgeProposalPayload,
    recorded: RecordedEvent,
    evidence: ForgeEvidence,
) -> bool {
    &&& parent.registration_sequence < recorded.event.sequence
    &&& child.registration_sequence == recorded.event.sequence
    &&& child.record@ == payload.child@
    &&& text::texts(child.compiled_parents@) == seq![payload.parent_genome_id@]
    &&& json::held(child.prompt_artifact_id) == Some(payload.prompt_artifact_after@)
    &&& forge_history::child_source(
        parent,
        payload.parent_genome_id@,
        payload.proposal_id@,
        payload.prompt_artifact_after@,
    ) is Ok
    &&& evidence.child is Some
    &&& evidence.child->0.genome_id@ == child.record.genome_id@
    &&& evidence.child->0.canonical_json@ == child.canonical_json@
}

/// A settled proposal whose child was compiled, recorded under a new identity and registered
/// with it, passes verification. Its hypothesis has to be usable, which an analysis does not
/// ensure by itself.
pub proof fn recorded_proposals_verify(
    frozen: bool,
    history: Seq<RecordedEvent>,
    registry: Registry,
    prefix: Seq<char>,
    request: ProposalRequest,
    facts: ProposalFacts,
    resolved: Result<ResolvedHypothesis, Refusal>,
    settled: Settled,
    reply: ChildReply,
    payload: ForgeProposalPayload,
    recorded: RecordedEvent,
    later: Registry,
    evidence: ForgeEvidence,
)
    requires
        proposal::source_refusal(frozen, registry, history, request, facts) is None,
        proposal::settles(registry, history, prefix, request, facts, resolved, Ok(settled)),
        proposal::proposes(
            payload,
            request.proposal_id,
            request.selection_event_id,
            request.parent_genome_id,
            settled,
            reply,
        ),
        forge::recorded_proposal(history, payload) == Ok::<Option<int>, Refusal>(None),
        commands::usable_hypothesis(payload.hypothesis@),
        records_proposal(recorded, payload),
        ({
            let place = forge::place_of_event(history, request.selection_event_id@);
            history[place->0].event.sequence < recorded.event.sequence
        }),
        evidences(evidence, facts, settled, payload),
        registry.worlds@[payload.world_id@].compiled_id@ == payload.world_id@,
        later.worlds@.contains_key(payload.world_id@),
        later.genomes@.contains_key(payload.parent_genome_id@),
        later.genomes@[payload.parent_genome_id@] == registry.genomes@[payload.parent_genome_id@],
        later.genomes@.contains_key(payload.child.genome_id@),
        registers_child(
            later.genomes@[payload.child.genome_id@],
            later.genomes@[payload.parent_genome_id@],
            payload,
            recorded,
            evidence,
        ),
    ensures
        forge_history::early_proposal_fault(history.push(recorded), history.len() as int) is None,
        forge_history::late_proposal_fault(
            history.push(recorded),
            later,
            history.len() as int,
            evidence,
        ) is None,
{
    let longer = history.push(recorded);
    let end = history.len() as int;
    recorded_proposals_are_new(history, payload, recorded);
    pushing_keeps_places(history, recorded, request.selection_event_id@);
    assert(longer[end] == recorded);
    let parent = later.genomes@[payload.parent_genome_id@];
    let child = later.genomes@[payload.child.genome_id@];
    let changed = mutation::prompt_mutation(
        proposal::read_bytes(facts.prompt_bytes),
        json::held(facts.operation),
        proposal::requested_operation(resolved->Ok_0, facts.catalog_edge),
    );
    assert(changed->Ok_0 == settled.mutation@);
    assert(forge_history::bound_to_selection(payload, evidence.selection->0));
    assert(child.record@ == payload.child@);
    assert(child.record.world_id@ == payload.world_id@);
    assert(forge_history::keeps_lineage(recorded.event, payload, parent, child));
    assert(forge_history::prompt_fault(payload, evidence.prompts) is None);
    assert(forge_history::compile_fault(payload, parent, child, evidence.child) is None);
}

} // verus!
