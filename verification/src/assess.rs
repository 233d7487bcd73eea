//! Forge assessments: what they rest on and what they record.

use crate::error;
use crate::error::{rejected, ExecuteError, Refusal};
use crate::forge;
use crate::forge_history::VerifiedSelection;
use crate::hex;
use crate::ids;
use crate::protocol::{
    ForgeAssessmentEventRecord, ForgeAssessmentOutcome, ForgeAssessmentPayload,
    ForgeAssessmentRecord, ForgeProposalPayload, SelectionEventRecord,
};
use crate::records::{SelectionReceipt, StoredEvent};
use crate::registry::Registry;
use crate::state::{EvaluationReference, EventPayload, RecordedEvent};
use crate::text;
use vstd::prelude::*;

verus! {

/// Where the events that an assessment rests on stand.
pub struct AssessmentSites {
    /// The proposal.
    pub proposal: usize,
    /// The selection.
    pub selection: usize,
}

/// Where the proposal that an assessment is of stands.
pub open spec fn assessed_proposal(history: Seq<RecordedEvent>, proposal_id: Seq<char>) -> Result<
    int,
    Refusal,
> {
    match forge::place_of_event(history, "forge:"@ + proposal_id + ":proposed"@) {
        None => Err(Refusal::NotFound),
        Some(at) => match forge::decoded_proposal(history[at]) {
            Err(_) => Err(Refusal::Internal),
            Ok(proposal) => if forge::proposal_fault(history[at].event, proposal) is Some
                || proposal.proposal_id@ != proposal_id {
                Err(Refusal::Internal)
            } else {
                Ok(at)
            },
        },
    }
}

/// Where the events that an assessment rests on stand: the proposal, then the selection.
pub open spec fn assessment_places(
    history: Seq<RecordedEvent>,
    registry: Registry,
    proposal_id: Seq<char>,
    selection_event_id: Seq<char>,
) -> Result<(int, int), Refusal> {
    match assessed_proposal(history, proposal_id) {
        Err(refusal) => Err(refusal),
        Ok(proposal) => match forge::source_place(history, registry, selection_event_id) {
            Err(refusal) => Err(refusal),
            Ok(selection) => Ok((proposal, selection)),
        },
    }
}

/// Finds the events that an assessment rests on.
pub fn find_assessment_sites(
    history: &Vec<RecordedEvent>,
    registry: &Registry,
    proposal_id: &str,
    selection_event_id: &str,
) -> (result: Result<AssessmentSites, ExecuteError>)
    requires
        registry.wf(),
    ensures
        (match result {
            Ok(sites) => Ok((sites.proposal as int, sites.selection as int)),
            Err(error) => Err(error@),
        }) == assessment_places(history@, *registry, proposal_id@, selection_event_id@),
        result matches Ok(sites) ==> sites.proposal < history@.len() && sites.selection
            < history@.len() && history@[sites.selection as int].payload is Reference
            && forge::decoded_proposal(history@[sites.proposal as int]) is Ok,
{
    let event_id: String = ids::forge_event_id(proposal_id);
    let at: usize = match forge::find_event(history, event_id.as_str()) {
        Some(at) => at,
        None => {
            return Err(ExecuteError::NotFound);
        },
    };
    match forge::decode_forge_proposal(&history[at]) {
        Err(_) => {
            return Err(ExecuteError::Internal);
        },
        Ok(proposal) => {
            if forge::validate_forge_event(&history[at].event, proposal).is_err() {
                return Err(ExecuteError::Internal);
            }
            if !text::text_eq(proposal.proposal_id.as_str(), proposal_id) {
                return Err(ExecuteError::Internal);
            }
        },
    }
    match forge::find_source(history, registry, selection_event_id) {
        Ok(selection) => Ok(AssessmentSites { proposal: at, selection }),
        Err(error) => Err(error),
    }
}

/// Whether a verified selection measured the child that a proposal proposed.
pub open spec fn measures_child(
    proposal: ForgeProposalPayload,
    reference: EvaluationReference,
    receipt: SelectionReceipt,
) -> bool {
    &&& reference.evaluation_id@ == receipt.evaluation_id@
    &&& reference.world_id@ == receipt.world_id@
    &&& receipt.world_id@ == proposal.world_id@
    &&& receipt.parent_genome_id@ == proposal.parent_genome_id@
    &&& receipt.candidate_genome_id@ == proposal.child.genome_id@
}

/// Why verified evidence does not carry an assessment. The proposal has to precede the
/// evaluation, and the evaluation the selection.
pub open spec fn assessment_refusal(
    history: Seq<RecordedEvent>,
    proposal: int,
    selection: int,
    receipt: SelectionReceipt,
    selection_sequence: u64,
) -> Option<Refusal> {
    let evaluation = forge::place_of_event(history, receipt.evaluation_event_id@);
    if evaluation is None {
        Some(Refusal::Internal)
    } else {
        let event = history[evaluation->0].event;
        if event.event_type@ != "evaluation.recorded"@ || hex::hex(event.hash@)
            != receipt.evaluation_event_hash@ {
            Some(Refusal::Internal)
        } else if history[proposal].event.sequence >= event.sequence || event.sequence
            >= selection_sequence {
            Some(Refusal::Rejected("Forge assessment evidence is out of order"@))
        } else {
            match (forge::decoded_proposal(history[proposal]), history[selection].payload) {
                (Ok(proposed), EventPayload::Reference(reference)) => error::need(
                    measures_child(proposed, reference, receipt),
                    Refusal::Rejected("selection evidence does not match the proposed child"@),
                ),
                _ => Some(Refusal::Internal),
            }
        }
    }
}

/// Whether a payload is the assessment that some evidence carries.
pub open spec fn assesses(
    payload: ForgeAssessmentPayload,
    assessment_id: Seq<char>,
    proposal_id: Seq<char>,
    proposal_event: StoredEvent,
    receipt: SelectionReceipt,
    selection: SelectionEventRecord,
) -> bool {
    &&& payload.schema_version == 1
    &&& payload.assessment_id@ == assessment_id
    &&& payload.proposal_id@ == proposal_id
    &&& payload.proposal_event_id@ == proposal_event.event_id@
    &&& payload.proposal_event_hash@ == hex::hex(proposal_event.hash@)
    &&& payload.selection_event_id@ == selection.event_id@
    &&& payload.selection_event_hash@ == selection.event_hash@
    &&& payload.selection_receipt_artifact_id@ == selection.receipt_artifact_id@
    &&& payload.evaluation_id@ == receipt.evaluation_id@
    &&& payload.evaluation_event_id@ == receipt.evaluation_event_id@
    &&& payload.evaluation_event_hash@ == receipt.evaluation_event_hash@
    &&& payload.world_id@ == receipt.world_id@
    &&& payload.parent_genome_id@ == receipt.parent_genome_id@
    &&& payload.child_genome_id@ == receipt.candidate_genome_id@
    &&& payload.outcome == (if receipt.metrics_eligible {
        ForgeAssessmentOutcome::MetricsPassed
    } else {
        ForgeAssessmentOutcome::MetricsRejected
    })
    &&& !payload.invariant_gate_verified
    &&& !payload.promotion_eligible
}

/// Derives an assessment from verified evidence. `receipt` and `selection` are what verifying
/// the selection gave.
pub fn forge_assessment_payload(
    history: &Vec<RecordedEvent>,
    sites: &AssessmentSites,
    assessment_id: &str,
    proposal_id: &str,
    receipt: &SelectionReceipt,
    selection: &SelectionEventRecord,
) -> (result: Result<ForgeAssessmentPayload, ExecuteError>)
    requires
        sites.proposal < history@.len(),
        sites.selection < history@.len(),
    ensures
        match assessment_refusal(
            history@,
            sites.proposal as int,
            sites.selection as int,
            *receipt,
            selection.sequence,
        ) {
            Some(refusal) => result matches Err(error) && error@ == refusal,
            None => result matches Ok(payload) && assesses(
                payload,
                assessment_id@,
                proposal_id@,
                history@[sites.proposal as int].event,
                *receipt,
                *selection,
            ),
        },
{
    let evaluation: usize = match forge::find_event(history, receipt.evaluation_event_id.as_str()) {
        Some(at) => at,
        None => {
            return Err(ExecuteError::Internal);
        },
    };
    let evaluation_event: &StoredEvent = &history[evaluation].event;
    let hash: String = hex::hex_encode(&evaluation_event.hash);
    if !text::text_eq(evaluation_event.event_type.as_str(), "evaluation.recorded")
        || !text::text_eq(hash.as_str(), receipt.evaluation_event_hash.as_str()) {
        return Err(ExecuteError::Internal);
    }
    let proposal_event: &StoredEvent = &history[sites.proposal].event;
    if proposal_event.sequence >= evaluation_event.sequence || evaluation_event.sequence
        >= selection.sequence {
        return Err(rejected("Forge assessment evidence is out of order"));
    }
    let proposal: &ForgeProposalPayload = match forge::decode_forge_proposal(
        &history[sites.proposal],
    ) {
        Ok(proposal) => proposal,
        Err(_) => {
            return Err(ExecuteError::Internal);
        },
    };
    let reference: &EvaluationReference = match &history[sites.selection].payload {
        EventPayload::Reference(reference) => reference,
        _ => {
            return Err(ExecuteError::Internal);
        },
    };
    if reference.evaluation_id != receipt.evaluation_id || reference.world_id != receipt.world_id
        || receipt.world_id != proposal.world_id || receipt.parent_genome_id
        != proposal.parent_genome_id || receipt.candidate_genome_id != proposal.child.genome_id {
        return Err(rejected("selection evidence does not match the proposed child"));
    }
    Ok(
        ForgeAssessmentPayload {
            schema_version: 1,
            assessment_id: assessment_id.to_owned(),
            proposal_id: proposal_id.to_owned(),
            proposal_event_id: proposal_event.event_id.clone(),
            proposal_event_hash: hex::hex_encode(&proposal_event.hash),
            selection_event_id: selection.event_id.clone(),
            selection_event_hash: selection.event_hash.clone(),
            selection_receipt_artifact_id: selection.receipt_artifact_id.clone(),
            evaluation_id: receipt.evaluation_id.clone(),
            evaluation_event_id: receipt.evaluation_event_id.clone(),
            evaluation_event_hash: receipt.evaluation_event_hash.clone(),
            world_id: receipt.world_id.clone(),
            parent_genome_id: receipt.parent_genome_id.clone(),
            child_genome_id: receipt.candidate_genome_id.clone(),
            outcome: if receipt.metrics_eligible {
                ForgeAssessmentOutcome::MetricsPassed
            } else {
                ForgeAssessmentOutcome::MetricsRejected
            },
            invariant_gate_verified: false,
            promotion_eligible: false,
        },
    )
}

/// Whether two assessments say the same.
pub open spec fn same_assessment(a: ForgeAssessmentPayload, b: ForgeAssessmentPayload) -> bool {
    &&& a.schema_version == b.schema_version
    &&& a.assessment_id@ == b.assessment_id@
    &&& a.proposal_id@ == b.proposal_id@
    &&& a.proposal_event_id@ == b.proposal_event_id@
    &&& a.proposal_event_hash@ == b.proposal_event_hash@
    &&& a.selection_event_id@ == b.selection_event_id@
    &&& a.selection_event_hash@ == b.selection_event_hash@
    &&& a.selection_receipt_artifact_id@ == b.selection_receipt_artifact_id@
    &&& a.evaluation_id@ == b.evaluation_id@
    &&& a.evaluation_event_id@ == b.evaluation_event_id@
    &&& a.evaluation_event_hash@ == b.evaluation_event_hash@
    &&& a.world_id@ == b.world_id@
    &&& a.parent_genome_id@ == b.parent_genome_id@
    &&& a.child_genome_id@ == b.child_genome_id@
    &&& a.outcome == b.outcome
    &&& a.invariant_gate_verified == b.invariant_gate_verified
    &&& a.promotion_eligible == b.promotion_eligible
}

/// Tests whether two assessments say the same.
pub fn assessments_match(a: &ForgeAssessmentPayload, b: &ForgeAssessmentPayload) -> (result: bool)
    ensures
        result == same_assessment(*a, *b),
{
    a.schema_version == b.schema_version && text::text_eq(
        a.assessment_id.as_str(),
        b.assessment_id.as_str(),
    ) && text::text_eq(a.proposal_id.as_str(), b.proposal_id.as_str()) && text::text_eq(
        a.proposal_event_id.as_str(),
        b.proposal_event_id.as_str(),
    ) && text::text_eq(a.proposal_event_hash.as_str(), b.proposal_event_hash.as_str())
        && text::text_eq(a.selection_event_id.as_str(), b.selection_event_id.as_str())
        && text::text_eq(a.selection_event_hash.as_str(), b.selection_event_hash.as_str())
        && text::text_eq(
        a.selection_receipt_artifact_id.as_str(),
        b.selection_receipt_artifact_id.as_str(),
    ) && text::text_eq(a.evaluation_id.as_str(), b.evaluation_id.as_str()) && text::text_eq(
        a.evaluation_event_id.as_str(),
        b.evaluation_event_id.as_str(),
    ) && text::text_eq(a.evaluation_event_hash.as_str(), b.evaluation_event_hash.as_str())
        && text::text_eq(a.world_id.as_str(), b.world_id.as_str()) && text::text_eq(
        a.parent_genome_id.as_str(),
        b.parent_genome_id.as_str(),
    ) && text::text_eq(a.child_genome_id.as_str(), b.child_genome_id.as_str()) && a.outcome
        == b.outcome && a.invariant_gate_verified == b.invariant_gate_verified
        && a.promotion_eligible == b.promotion_eligible
}

/// Assessing the same evidence twice says the same: an assessment is a function of the
/// events it rests on.
pub proof fn assessments_are_reproducible(
    a: ForgeAssessmentPayload,
    b: ForgeAssessmentPayload,
    assessment_id: Seq<char>,
    proposal_id: Seq<char>,
    proposal_event: StoredEvent,
    receipt: SelectionReceipt,
    selection: SelectionEventRecord,
)
    requires
        assesses(a, assessment_id, proposal_id, proposal_event, receipt, selection),
        assesses(b, assessment_id, proposal_id, proposal_event, receipt, selection),
    ensures
        same_assessment(a, b),
{
}

/// Whether a search for an assessment ends at an event: at the assessment, or where none can
/// be read.
pub open spec fn ends_at_assessment(recorded: RecordedEvent, assessment_id: Seq<char>) -> bool {
    recorded.event.event_type@ == "forge.assessed"@ && match forge::decoded_assessment(recorded) {
        Ok(payload) => payload.assessment_id@ == assessment_id,
        Err(_) => true,
    }
}

/// Where a search for an assessment ends.
pub open spec fn assessment_place(history: Seq<RecordedEvent>, assessment_id: Seq<char>) -> Option<int>
    decreases history.len(),
{
    if history.len() == 0 {
        None
    } else {
        match assessment_place(history.drop_last(), assessment_id) {
            Some(at) => Some(at),
            None => if ends_at_assessment(history.last(), assessment_id) {
                Some(history.len() - 1)
            } else {
                None
            },
        }
    }
}

/// A search that ended does not go on.
proof fn assessment_place_is_first(history: Seq<RecordedEvent>, length: int, assessment_id: Seq<char>)
    requires
        0 <= length <= history.len(),
        assessment_place(history.take(length), assessment_id) is Some,
    ensures
        assessment_place(history, assessment_id) == assessment_place(
            history.take(length),
            assessment_id,
        ),
    decreases history.len() - length,
{
    if length == history.len() {
        assert(history.take(length) == history);
    } else {
        assert(history.take(length + 1).drop_last() == history.take(length));
        assessment_place_is_first(history, length + 1, assessment_id);
    }
}

/// What history already holds of an assessment: nothing, or the event that recorded it. An
/// identity keeps the proposal and the selection that it was first bound to.
pub open spec fn recorded_assessment(
    history: Seq<RecordedEvent>,
    assessment_id: Seq<char>,
    proposal_id: Seq<char>,
    selection_event_id: Seq<char>,
) -> Result<Option<int>, Refusal> {
    match assessment_place(history, assessment_id) {
        None => Ok(None),
        Some(at) => match forge::decoded_assessment(history[at]) {
            Err(_) => Err(Refusal::Internal),
            Ok(existing) => if existing.proposal_id@ == proposal_id && existing.selection_event_id@
                == selection_event_id {
                Ok(Some(at))
            } else {
                Err(
                    Refusal::Rejected(
                        "assessment_id is already bound to different assessment content"@,
                    ),
                )
            },
        },
    }
}

/// Finds what history already holds of an assessment.
pub fn existing_assessment(
    history: &Vec<RecordedEvent>,
    assessment_id: &str,
    proposal_id: &str,
    selection_event_id: &str,
) -> (result: Result<Option<usize>, ExecuteError>)
    ensures
        (match result {
            Ok(Some(at)) => Ok(Some(at as int)),
            Ok(None) => Ok(None),
            Err(error) => Err(error@),
        }) == recorded_assessment(history@, assessment_id@, proposal_id@, selection_event_id@),
        result matches Ok(Some(at)) ==> at < history@.len(),
{
    for at in 0..history.len()
        invariant
            assessment_place(history@.take(at as int), assessment_id@) is None,
    {
        proof {
            assert(history@.take(at + 1).drop_last() == history@.take(at as int));
            assert(history@.take(at + 1).last() == history@[at as int]);
            if assessment_place(history@.take(at + 1), assessment_id@) is Some {
                assessment_place_is_first(history@, at + 1, assessment_id@);
            }
        }
        if text::text_eq(history[at].event.event_type.as_str(), "forge.assessed") {
            match forge::decode_forge_assessment(&history[at]) {
                Err(_) => {
                    return Err(ExecuteError::Internal);
                },
                Ok(existing) => {
                    if text::text_eq(existing.assessment_id.as_str(), assessment_id) {
                        if !text::text_eq(existing.proposal_id.as_str(), proposal_id)
                            || !text::text_eq(
                            existing.selection_event_id.as_str(),
                            selection_event_id,
                        ) {
                            return Err(
                                rejected(
                                    "assessment_id is already bound to different assessment content",
                                ),
                            );
                        }
                        return Ok(Some(at));
                    }
                },
            }
        }
    }
    proof {
        assert(history@.take(history@.len() as int) == history@);
    }
    Ok(None)
}

/// Shows a recorded assessment.
pub fn forge_assessment_record(payload: ForgeAssessmentPayload, event: &StoredEvent) -> (result: ForgeAssessmentRecord)
    ensures
        result.payload == payload,
        result.event.sequence == event.sequence,
        result.event.event_id == event.event_id,
        result.event.aggregate_id == event.aggregate_id,
        result.event.event_hash@ == hex::hex(event.hash@),
{
    ForgeAssessmentRecord {
        payload,
        event: ForgeAssessmentEventRecord {
            sequence: event.sequence,
            event_id: event.event_id.clone(),
            aggregate_id: event.aggregate_id.clone(),
            event_hash: hex::hex_encode(&event.hash),
        },
    }
}

/// What an assessment comes to.
pub enum Assessing {
    /// It was recorded before, by the event at this place.
    Existing(usize),
    /// It is recorded now.
    Record(ForgeAssessmentPayload),
}

/// Whether an outcome is what assessing a child comes to. The first step that fails refuses
/// it. `verified` says whether the history could be read and its Forge events verified;
/// `selection` is what verifying the named selection gave.
pub open spec fn assessment_comes_to(
    result: Result<Assessing, ExecuteError>,
    working: bool,
    verified: bool,
    history: Seq<RecordedEvent>,
    registry: Registry,
    assessment_id: Seq<char>,
    proposal_id: Seq<char>,
    selection_event_id: Seq<char>,
    selection: Option<VerifiedSelection>,
) -> bool {
    let opening = forge::assessment_opening(
        working,
        assessment_id,
        proposal_id,
        selection_event_id,
    );
    if opening is Err {
        result == Err::<Assessing, ExecuteError>(opening->Err_0)
    } else if !verified {
        result == Err::<Assessing, ExecuteError>(ExecuteError::Internal)
    } else {
        match recorded_assessment(history, assessment_id, proposal_id, selection_event_id) {
            Err(refusal) => result matches Err(error) && error@ == refusal,
            Ok(Some(at)) => result matches Ok(Assessing::Existing(place)) && place == at,
            Ok(None) => match assessment_places(history, registry, proposal_id, selection_event_id) {
                Err(refusal) => result matches Err(error) && error@ == refusal,
                Ok((proposed, selected)) => match selection {
                    None => result == Err::<Assessing, ExecuteError>(ExecuteError::Internal),
                    Some(selection) => match assessment_refusal(
                        history,
                        proposed,
                        selected,
                        selection.receipt,
                        selection.event.sequence,
                    ) {
                        Some(refusal) => result matches Err(error) && error@ == refusal,
                        None => result matches Ok(Assessing::Record(payload)) && assesses(
                            payload,
                            assessment_id,
                            proposal_id,
                            history[proposed].event,
                            selection.receipt,
                            selection.event,
                        ),
                    },
                },
            },
        }
    }
}

/// Assesses the child of a proposal by a selection.
pub fn assess_genome(
    working: bool,
    verified: bool,
    history: &Vec<RecordedEvent>,
    registry: &Registry,
    assessment_id: &str,
    proposal_id: &str,
    selection_event_id: &str,
    selection: Option<VerifiedSelection>,
) -> (result: Result<Assessing, ExecuteError>)
    requires
        registry.wf(),
    ensures
        assessment_comes_to(
            result,
            working,
            verified,
            history@,
            *registry,
            assessment_id@,
            proposal_id@,
            selection_event_id@,
            selection,
        ),
{
    if let Err(error) = forge::open_assessment(
        working,
        assessment_id,
        proposal_id,
        selection_event_id,
    ) {
        return Err(error);
    }
    if !verified {
        return Err(ExecuteError::Internal);
    }
    match existing_assessment(history, assessment_id, proposal_id, selection_event_id) {
        Err(error) => {
            return Err(error);
        },
        Ok(Some(at)) => {
            return Ok(Assessing::Existing(at));
        },
        Ok(None) => {},
    }
    let sites: AssessmentSites = match find_assessment_sites(
        history,
        registry,
        proposal_id,
        selection_event_id,
    ) {
        Ok(sites) => sites,
        Err(error) => {
            return Err(error);
        },
    };
    let selection: VerifiedSelection = match selection {
        Some(selection) => selection,
        None => {
            return Err(ExecuteError::Internal);
        },
    };
    match forge_assessment_payload(
        history,
        &sites,
        assessment_id,
        proposal_id,
        &selection.receipt,
        &selection.event,
    ) {
        Ok(payload) => Ok(Assessing::Record(payload)),
        Err(error) => Err(error),
    }
}

} // verus!
