//! What a verified history holds, said of its events and of the evidence for them alone.

use crate::arena_jobs;
use crate::digest;
use crate::environment;
use crate::environment::{Platform, ResultRevision, RevisionReply};
use crate::error::{ControlError, ExecuteError, Fault};
use crate::evidence;
use crate::evidence::{ClusterEvidence, EvidenceCache, InvariantEvidence};
use crate::forge;
use crate::forge_history;
use crate::forge_history::{ForgeEvidence, PromptEvidence, VerifiedSelection};
use crate::hex;
use crate::ids;
use crate::mutation;
use crate::projection;
use crate::projection::HistoryEvidence;
use crate::protocol::{
    EvaluationRecord, ForgeAssessmentOutcome, ForgeProposalPayload,
    ResponseData,
};
use crate::records::StoredEvent;
use crate::registry::Registry;
use crate::state::{ControlState, RecordedEvent};
use crate::text;
use vstd::prelude::*;
use vstd::utf8::*;

verus! {

/// A recorded selection counts exactly where it names a registered World and its receipt was
/// verified.
pub proof fn selections_count_when_verified(
    recorded: RecordedEvent,
    registry: Registry,
    verified: bool,
    result: Result<(), ControlError>,
)
    requires
        registry.wf(),
        call_ensures(evidence::check_selection, (&recorded, &registry, verified), result),
    ensures
        result is Ok <==> verified && recorded.payload is Reference
            && registry.worlds@.contains_key((recorded.payload->Reference_0).world_id@),
{
}

/// A recorded check of invariants counts only where its event, its envelope and its verified
/// receipt are of one evaluation in one registered World, and of one stored receipt.
pub proof fn invariants_count_when_verified(
    recorded: RecordedEvent,
    registry: Registry,
    evidence: InvariantEvidence,
)
    requires
        registry.wf(),
        call_ensures(
            evidence::check_invariants,
            (&recorded, &registry, &evidence),
            Ok::<(), ControlError>(()),
        ),
    ensures
        recorded.payload is Reference && evidence.envelope is Some && evidence.verified is Some,
        ({
            let reference = recorded.payload->Reference_0;
            let check = evidence.verified->0;
            &&& registry.worlds@.contains_key(reference.world_id@)
            &&& check.receipt.evaluation_id@ == reference.evaluation_id@
            &&& check.receipt.world_id@ == reference.world_id@
            &&& evidence.envelope->0.evaluation_id@ == reference.evaluation_id@
            &&& check.event.receipt_artifact_id@ == evidence.envelope->0.receipt_artifact_id@
        }),
{
}

/// A recorded analysis counts only where its event, its envelope and its verified clusters are
/// of one evaluation in one registered World, and of one stored analysis.
pub proof fn clusters_count_when_verified(registry: Registry, evidence: ClusterEvidence)
    requires
        registry.wf(),
        call_ensures(
            evidence::check_clusters,
            (&registry, &evidence),
            Ok::<(), ControlError>(()),
        ),
    ensures
        evidence.reference is Some && evidence.envelope is Some && evidence.verified is Some,
        ({
            let reference = evidence.reference->0;
            let found = evidence.verified->0;
            &&& registry.worlds@.contains_key(reference.world_id@)
            &&& evidence.envelope->0.analysis_id@ == reference.analysis_id@
            &&& found.analysis.evaluation_id@ == reference.evaluation_id@
            &&& found.analysis.world_id@ == reference.world_id@
            &&& found.event.analysis_artifact_id@ == evidence.envelope->0.analysis_artifact_id@
        }),
{
}

/// The prompt of a proposed child is its parent's but for the operation, which goes from the
/// recorded one to the recorded one by an edge of the catalog.
pub proof fn proposed_prompts_change_the_operation(
    payload: ForgeProposalPayload,
    prompts: PromptEvidence,
)
    requires
        call_ensures(
            forge_history::verify_forge_prompt,
            (&payload, &prompts),
            Ok::<(), ControlError>(()),
        ),
    ensures
        prompts.before is Some && prompts.after is Some && prompts.edge_kind is Some,
        prompts.operation_before is Some && prompts.operation_before->0@
            == payload.operation_before@,
        prompts.operation_after is Some && prompts.operation_after->0@ == payload.operation_after@,
        exists|head: Seq<char>, tail: Seq<char>|
            decode_utf8(prompts.before->0@) == #[trigger] (head + ("\"operation\":\""@
                + payload.operation_before@ + "\""@) + tail) && decode_utf8(prompts.after->0@)
                == head + ("\"operation\":\""@ + payload.operation_after@ + "\""@) + tail,
        payload.catalog_version matches Some(version) ==> version == prompts.catalog_version,
        payload.mutation_kind matches Some(kind) ==> kind@ == prompts.edge_kind->0@,
{
    let prompt = decode_utf8(prompts.before->0@);
    let before = payload.operation_before@;
    let after = payload.operation_after@;
    mutation::mutations_change_only_the_operation(prompt, before, after);
    let (head, tail) = choose|head: Seq<char>, tail: Seq<char>|
        prompt == #[trigger] (head + mutation::operation_field(before) + tail)
            && mutation::mutated(prompt, before, after) == Some(
            head + mutation::operation_field(after) + tail,
        );
    assert(prompt == head + ("\"operation\":\""@ + before + "\""@) + tail);
}

/// The child of a recorded proposal is registered by that very event, as the record says, in
/// its parent's World, with that parent alone; its parent was registered before, and the prompts
/// of the two are the recorded ones.
pub proof fn proposed_children_keep_their_lineage(
    registry: Registry,
    event: StoredEvent,
    payload: ForgeProposalPayload,
    evidence: ForgeEvidence,
)
    requires
        registry.wf(),
        call_ensures(
            forge_history::verify_forge_child,
            (&registry, &event, &payload, &evidence),
            Ok::<(), ControlError>(()),
        ),
    ensures
        registry.genomes@.contains_key(payload.parent_genome_id@),
        registry.genomes@.contains_key(payload.child.genome_id@),
        ({
            let parent = registry.genomes@[payload.parent_genome_id@];
            let child = registry.genomes@[payload.child.genome_id@];
            &&& parent.registration_sequence < event.sequence
            &&& child.registration_sequence == event.sequence
            &&& child.record@ == payload.child@
            &&& child.record.world_id@ == payload.world_id@ && parent.record.world_id@
                == payload.world_id@
            &&& text::texts(child.compiled_parents@) == seq![payload.parent_genome_id@]
            &&& parent.prompt_artifact_id is Some && parent.prompt_artifact_id->0@
                == payload.prompt_artifact_before@
            &&& child.prompt_artifact_id is Some && child.prompt_artifact_id->0@
                == payload.prompt_artifact_after@
            &&& payload.artifact_name@ == "agent.prompt"@
            &&& evidence.child is Some && evidence.child->0.genome_id@ == child.record.genome_id@
            &&& evidence.child->0.canonical_json@ == child.canonical_json@
        }),
{
}

/// A recorded proposal rests on a verified selection that was recorded before it and whose
/// candidate it takes as its parent.
pub proof fn recorded_proposals_rest_on_their_selection(
    history: Vec<RecordedEvent>,
    registry: Registry,
    at: usize,
    evidence: ForgeEvidence,
)
    requires
        registry.wf(),
        at < history@.len(),
        call_ensures(
            forge_history::check_proposal,
            (&history, &registry, at, &evidence),
            Ok::<(), ControlError>(()),
        ),
    ensures
        history@[at as int].payload is ForgeProposal && evidence.selection is Some,
        ({
            let payload = history@[at as int].payload->ForgeProposal_0;
            let selection = evidence.selection->0;
            &&& payload.parent_genome_id@ == selection.receipt.candidate_genome_id@
            &&& payload.evaluation_id@ == selection.receipt.evaluation_id@
            &&& payload.world_id@ == selection.receipt.world_id@
            &&& payload.selection_event_hash@ == selection.event.event_hash@
            &&& registry.genomes@.contains_key(payload.child.genome_id@)
            &&& exists|earlier: int|
                0 <= earlier < history@.len() && (#[trigger] history@[earlier]).event.event_id@
                    == payload.selection_event_id@ && history@[earlier].event.sequence
                    < history@[at as int].event.sequence && history@[earlier].payload is Reference
        }),
{
    let payload = history@[at as int].payload->ForgeProposal_0;
    forge::place_holds(history@, payload.selection_event_id@);
    let earlier = forge::place_of_event(history@, payload.selection_event_id@)->0;
    assert(history@[earlier].event.event_id@ == payload.selection_event_id@);
}

/// A recorded assessment says what its verified selection measured: the child passed if and only
/// if the receipt is metrics-eligible, it is the child of the proposal that the assessment names,
/// and the selection was recorded before the assessment.
pub proof fn recorded_assessments_say_what_was_measured(
    history: Vec<RecordedEvent>,
    registry: Registry,
    at: usize,
    selection: Option<VerifiedSelection>,
)
    requires
        registry.wf(),
        at < history@.len(),
        call_ensures(
            forge_history::check_assessment,
            (&history, &registry, at, &selection),
            Ok::<(), ControlError>(()),
        ),
    ensures
        history@[at as int].payload is ForgeAssessment && selection is Some,
        ({
            let payload = history@[at as int].payload->ForgeAssessment_0;
            let receipt = selection->0.receipt;
            &&& payload.outcome == ForgeAssessmentOutcome::MetricsPassed <==> receipt.metrics_eligible
            &&& payload.outcome == ForgeAssessmentOutcome::MetricsRejected
                <==> !receipt.metrics_eligible
            &&& payload.child_genome_id@ == receipt.candidate_genome_id@
            &&& payload.parent_genome_id@ == receipt.parent_genome_id@
            &&& payload.evaluation_id@ == receipt.evaluation_id@ && payload.world_id@
                == receipt.world_id@
            &&& !payload.promotion_eligible && !payload.invariant_gate_verified
            &&& history@[at as int].event.event_id@ == "forge-assessment:"@
                + payload.assessment_id@ + ":recorded"@
            &&& exists|proposed: int|
                0 <= proposed < history@.len() && (#[trigger] history@[proposed]).payload
                    is ForgeProposal && (history@[proposed].payload->ForgeProposal_0).proposal_id@
                    == payload.proposal_id@ && (
                history@[proposed].payload->ForgeProposal_0).child.genome_id@
                    == payload.child_genome_id@
            &&& exists|selected: int|
                0 <= selected < history@.len() && (#[trigger] history@[selected]).event.event_id@
                    == payload.selection_event_id@ && history@[selected].event.sequence
                    < history@[at as int].event.sequence
        }),
{
    let payload = history@[at as int].payload->ForgeAssessment_0;
    let event_id = "forge:"@ + payload.proposal_id@ + ":proposed"@;
    forge::place_holds(history@, event_id);
    forge::place_holds(history@, payload.selection_event_id@);
    let proposed = forge::place_of_event(history@, event_id)->0;
    let selected = forge::place_of_event(history@, payload.selection_event_id@)->0;
    assert(history@[proposed].payload is ForgeProposal);
    assert(history@[selected].event.event_id@ == payload.selection_event_id@);
}

/// A pass that finds no fault has remembered every event that concerns it, and each of these was
/// remembered before or was found in order under the same key.
proof fn passes_check_what_is_not_remembered(
    history: Seq<RecordedEvent>,
    upto: int,
    kind: Seq<char>,
    concerned: spec_fn(RecordedEvent) -> bool,
    early: spec_fn(int) -> Option<Fault>,
    late: spec_fn(int) -> Option<Fault>,
    start: Set<Seq<char>>,
    place: int,
)
    requires
        0 <= place < upto <= history.len(),
        concerned(history[place]),
        evidence::sweep(history, upto, kind, concerned, early, late, start).fault is None,
    ensures
        early(place) is None,
        evidence::sweep(history, upto, kind, concerned, early, late, start).cache.contains(
            evidence::evidence_key(kind, history[place].event),
        ),
        start.contains(evidence::evidence_key(kind, history[place].event)) || exists|at: int|
            0 <= at <= place && late(at) is None && evidence::evidence_key(
                kind,
                (#[trigger] history[at]).event,
            ) == evidence::evidence_key(kind, history[place].event),
    decreases upto,
{
    let before = evidence::sweep(history, upto - 1, kind, concerned, early, late, start);
    let key = evidence::evidence_key(kind, history[place].event);
    if place < upto - 1 {
        passes_check_what_is_not_remembered(
            history,
            upto - 1,
            kind,
            concerned,
            early,
            late,
            start,
            place,
        );
    } else if before.cache.contains(key) {
        remembered_keys_were_checked(history, upto - 1, kind, concerned, early, late, start, key);
    } else {
        assert(late(place) is None);
        assert(evidence::evidence_key(kind, history[place].event) == key);
    }
}

/// What a pass remembers it remembered before or found in order.
proof fn remembered_keys_were_checked(
    history: Seq<RecordedEvent>,
    upto: int,
    kind: Seq<char>,
    concerned: spec_fn(RecordedEvent) -> bool,
    early: spec_fn(int) -> Option<Fault>,
    late: spec_fn(int) -> Option<Fault>,
    start: Set<Seq<char>>,
    key: Seq<char>,
)
    requires
        0 <= upto <= history.len(),
        evidence::sweep(history, upto, kind, concerned, early, late, start).cache.contains(key),
    ensures
        start.contains(key) || exists|at: int|
            0 <= at < upto && late(at) is None && evidence::evidence_key(
                kind,
                (#[trigger] history[at]).event,
            ) == key,
    decreases upto,
{
    if upto > 0 {
        let before = evidence::sweep(history, upto - 1, kind, concerned, early, late, start);
        if before.cache.contains(key) {
            remembered_keys_were_checked(
                history,
                upto - 1,
                kind,
                concerned,
                early,
                late,
                start,
                key,
            );
        } else {
            assert(evidence::evidence_key(kind, history[upto - 1].event) == key);
        }
    }
}

/// Where the selections of a history are verified, each of them was remembered as verified or
/// is verified now in a registered World, and is remembered from now on.
pub proof fn every_selection_is_verified(
    history: Vec<RecordedEvent>,
    registry: Registry,
    verified: Vec<bool>,
    cache: &mut EvidenceCache,
    place: int,
)
    requires
        registry.wf(),
        old(cache).wf(),
        verified@.len() == history@.len(),
        call_ensures(
            evidence::verify_selection_history_with,
            (&history, &registry, &verified, cache),
            Ok::<(), ControlError>(()),
        ),
        0 <= place < history@.len(),
        history@[place].event.event_type@ == "selection.recorded"@,
    ensures
        ({
            let key = evidence::evidence_key("selection"@, history@[place].event);
            &&& final(cache)@.contains(key)
            &&& old(cache)@.contains(key) || exists|at: int|
                0 <= at <= place && verified@[at] && (#[trigger] history@[at]).payload is Reference
                    && registry.worlds@.contains_key(
                    (history@[at].payload->Reference_0).world_id@,
                ) && evidence::evidence_key("selection"@, history@[at].event) == key
        }),
{
    let late = evidence::selection_check(history@, registry, verified@);
    passes_check_what_is_not_remembered(
        history@,
        history@.len() as int,
        "selection"@,
        evidence::selections(),
        evidence::unchecked(),
        late,
        old(cache)@,
        place,
    );
    let key = evidence::evidence_key("selection"@, history@[place].event);
    if !old(cache)@.contains(key) {
        let at = choose|at: int|
            0 <= at <= place && late(at) is None && evidence::evidence_key(
                "selection"@,
                (#[trigger] history@[at]).event,
            ) == key;
        assert(history@[at].payload is Reference);
    }
}

/// Where the assessments of a history are verified, each of them was remembered as verified or
/// says what its verified selection measured, and is remembered from now on.
pub proof fn every_assessment_is_verified(
    history: Vec<RecordedEvent>,
    registry: Registry,
    selections: Vec<Option<VerifiedSelection>>,
    cache: &mut EvidenceCache,
    place: int,
)
    requires
        registry.wf(),
        old(cache).wf(),
        selections@.len() == history@.len(),
        call_ensures(
            forge_history::verify_forge_assessment_history_with,
            (&history, &registry, &selections, cache),
            Ok::<(), ControlError>(()),
        ),
        0 <= place < history@.len(),
        history@[place].event.event_type@ == "forge.assessed"@,
    ensures
        ({
            let key = evidence::evidence_key("forge_assessment"@, history@[place].event);
            &&& final(cache)@.contains(key)
            &&& old(cache)@.contains(key) || exists|at: int|
                0 <= at <= place && (#[trigger] history@[at]).payload is ForgeAssessment
                    && selections@[at] is Some && ((
                history@[at].payload->ForgeAssessment_0).outcome
                    == ForgeAssessmentOutcome::MetricsPassed
                    <==> selections@[at]->0.receipt.metrics_eligible)
                    && evidence::evidence_key("forge_assessment"@, history@[at].event) == key
        }),
{
    let late = forge_history::assessment_check(history@, registry, selections@);
    passes_check_what_is_not_remembered(
        history@,
        history@.len() as int,
        "forge_assessment"@,
        forge_history::assessments(),
        evidence::unchecked(),
        late,
        old(cache)@,
        place,
    );
    let key = evidence::evidence_key("forge_assessment"@, history@[place].event);
    if !old(cache)@.contains(key) {
        let at = choose|at: int|
            0 <= at <= place && late(at) is None && evidence::evidence_key(
                "forge_assessment"@,
                (#[trigger] history@[at]).event,
            ) == key;
        assert(history@[at].payload is ForgeAssessment);
    }
}

/// Where the proposals of a history are verified, no identity is proposed twice, and each of
/// them was remembered as verified or takes the candidate of its verified selection as its
/// parent, and is remembered from now on.
pub proof fn every_proposal_is_verified(
    history: Vec<RecordedEvent>,
    registry: Registry,
    evidence: Vec<ForgeEvidence>,
    cache: &mut EvidenceCache,
    place: int,
    earlier: int,
)
    requires
        registry.wf(),
        old(cache).wf(),
        evidence@.len() == history@.len(),
        call_ensures(
            forge_history::verify_forge_history_with,
            (&history, &registry, &evidence, cache),
            Ok::<(), ControlError>(()),
        ),
        0 <= earlier < place < history@.len(),
        history@[place].event.event_type@ == "forge.proposed"@,
    ensures
        history@[place].payload is ForgeProposal,
        history@[earlier].event.event_type@ == "forge.proposed"@ ==> history@[earlier].payload
            is ForgeProposal && (history@[earlier].payload->ForgeProposal_0).proposal_id@ != (
        history@[place].payload->ForgeProposal_0).proposal_id@,
        ({
            let key = evidence::evidence_key("forge"@, history@[place].event);
            &&& final(cache)@.contains(key)
            &&& old(cache)@.contains(key) || exists|at: int|
                0 <= at <= place && (#[trigger] history@[at]).payload is ForgeProposal
                    && evidence@[at].selection is Some && (
                history@[at].payload->ForgeProposal_0).parent_genome_id@
                    == evidence@[at].selection->0.receipt.candidate_genome_id@
                    && evidence::evidence_key("forge"@, history@[at].event) == key
        }),
{
    let early = forge_history::early_proposal_check(history@);
    let late = forge_history::late_proposal_check(history@, registry, evidence@);
    let length = history@.len() as int;
    passes_check_what_is_not_remembered(
        history@,
        length,
        "forge"@,
        forge_history::proposals(),
        early,
        late,
        old(cache)@,
        place,
    );
    if history@[earlier].event.event_type@ == "forge.proposed"@ {
        passes_check_what_is_not_remembered(
            history@,
            length,
            "forge"@,
            forge_history::proposals(),
            early,
            late,
            old(cache)@,
            earlier,
        );
        assert(forge_history::proposals()(history@[earlier]));
    }
    let key = evidence::evidence_key("forge"@, history@[place].event);
    if !old(cache)@.contains(key) {
        let at = choose|at: int|
            0 <= at <= place && late(at) is None && evidence::evidence_key(
                "forge"@,
                (#[trigger] history@[at]).event,
            ) == key;
        assert(history@[at].payload is ForgeProposal);
    }
}

/// Where the artifacts of a history are verified, every trace and every result was remembered
/// as stored or what it rests on is stored now.
pub proof fn every_artifact_is_stored(
    history: Vec<RecordedEvent>,
    stored: Vec<bool>,
    cache: &mut EvidenceCache,
    place: int,
)
    requires
        old(cache).wf(),
        stored@.len() == history@.len(),
        call_ensures(
            evidence::verify_artifacts_with,
            (&history, &stored, cache),
            Ok::<(), ControlError>(()),
        ),
        0 <= place < history@.len(),
        history@[place].event.event_type@ == "trace.recorded"@
            || history@[place].event.event_type@ == "run.result_recorded"@,
        !old(cache)@.contains(evidence::evidence_key("artifacts"@, history@[place].event)),
        forall|at: int|
            0 <= at < place ==> evidence::evidence_key(
                "artifacts"@,
                (#[trigger] history@[at]).event,
            ) != evidence::evidence_key("artifacts"@, history@[place].event),
    ensures
        stored@[place],
        history@[place].event.event_type@ == "trace.recorded"@ ==> history@[place].payload
            is Trace,
{
    let late = evidence::artifact_check(history@, stored@);
    passes_check_what_is_not_remembered(
        history@,
        history@.len() as int,
        "artifacts"@,
        evidence::everything(),
        evidence::unchecked(),
        late,
        old(cache)@,
        place,
    );
    let key = evidence::evidence_key("artifacts"@, history@[place].event);
    let at = choose|at: int|
        0 <= at <= place && late(at) is None && evidence::evidence_key(
            "artifacts"@,
            (#[trigger] history@[at]).event,
        ) == key;
    assert(at == place);
    reveal_strlit("trace.recorded");
    reveal_strlit("run.result_recorded");
    assert("trace.recorded"@.len() != "run.result_recorded"@.len());
}

/// A history is verified only where every one of its parts is, and each selection, proposal,
/// assessment and check of invariants in it is remembered as verified from now on.
pub proof fn histories_are_verified_in_every_part(
    history: Vec<RecordedEvent>,
    registry: Registry,
    prefix: &str,
    evidence: HistoryEvidence,
    cache: &mut EvidenceCache,
    place: int,
)
    requires
        registry.wf(),
        old(cache).wf(),
        evidence.covers(history@.len()),
        call_ensures(
            projection::verify_history,
            (&history, &registry, prefix, evidence, cache),
            Ok::<(), ControlError>(()),
        ),
        0 <= place < history@.len(),
    ensures
        evidence.champions is Ok && evidence.genes is Ok && evidence.evolution is Ok
            && evidence.meta_evolution is Ok && evidence.drifts is Ok && evidence.canaries is Ok
            && evidence.adaptations is Ok,
        history@[place].event.event_type@ == "selection.recorded"@ ==> final(cache)@.contains(
            evidence::evidence_key("selection"@, history@[place].event),
        ),
        history@[place].event.event_type@ == "forge.proposed"@ ==> final(cache)@.contains(
            evidence::evidence_key("forge"@, history@[place].event),
        ),
        history@[place].event.event_type@ == "forge.assessed"@ ==> final(cache)@.contains(
            evidence::evidence_key("forge_assessment"@, history@[place].event),
        ),
        history@[place].event.event_type@ == "invariants.recorded"@ ==> final(cache)@.contains(
            evidence::evidence_key("invariant"@, history@[place].event),
        ),
        history@[place].event.event_type@ == "forge.clustered"@ ==> evidence.clusters@[place].verified
            is Some,
{
    let events = history@;
    let length = events.len() as int;
    let start = old(cache)@;
    let first = projection::selection_pass(events, registry, evidence, start);
    let second = projection::proposal_pass(events, registry, evidence, first.cache);
    let third = projection::assessment_pass(events, registry, evidence, second.cache);
    let selection_late = evidence::selection_check(events, registry, evidence.selections@);
    let early = forge_history::early_proposal_check(events);
    let proposal_late = forge_history::late_proposal_check(events, registry, evidence.proposals@);
    let assessment_late = forge_history::assessment_check(events, registry, evidence.assessments@);
    let invariant_late = evidence::invariant_check(events, registry, evidence.invariants@);
    if events[place].event.event_type@ == "selection.recorded"@ {
        passes_check_what_is_not_remembered(
            events,
            length,
            "selection"@,
            evidence::selections(),
            evidence::unchecked(),
            selection_late,
            start,
            place,
        );
    }
    if events[place].event.event_type@ == "forge.proposed"@ {
        passes_check_what_is_not_remembered(
            events,
            length,
            "forge"@,
            forge_history::proposals(),
            early,
            proposal_late,
            first.cache,
            place,
        );
    }
    if events[place].event.event_type@ == "forge.assessed"@ {
        passes_check_what_is_not_remembered(
            events,
            length,
            "forge_assessment"@,
            forge_history::assessments(),
            evidence::unchecked(),
            assessment_late,
            second.cache,
            place,
        );
    }
    if events[place].event.event_type@ == "invariants.recorded"@ {
        passes_check_what_is_not_remembered(
            events,
            length,
            "invariant"@,
            evidence::invariant_checks(),
            evidence::unchecked(),
            invariant_late,
            third.cache,
            place,
        );
    }
    evidence::passes_keep_what_is_remembered(
        events,
        length,
        "forge"@,
        forge_history::proposals(),
        early,
        proposal_late,
        first.cache,
    );
    evidence::passes_keep_what_is_remembered(
        events,
        length,
        "forge_assessment"@,
        forge_history::assessments(),
        evidence::unchecked(),
        assessment_late,
        second.cache,
    );
    evidence::passes_keep_what_is_remembered(
        events,
        length,
        "invariant"@,
        evidence::invariant_checks(),
        evidence::unchecked(),
        invariant_late,
        third.cache,
    );
    clusters_are_checked(events, length, prefix@, registry, evidence.clusters@, place);
}

/// Where no cluster is at fault, each of them was verified.
proof fn clusters_are_checked(
    history: Seq<RecordedEvent>,
    upto: int,
    prefix: Seq<char>,
    registry: Registry,
    evidence: Seq<ClusterEvidence>,
    place: int,
)
    requires
        0 <= place < upto,
        evidence::first_cluster_fault(history, upto, prefix, registry, evidence) is None,
    ensures
        history[place].event.event_type@ == "forge.clustered"@ ==> evidence[place].verified is Some,
    decreases upto,
{
    if place < upto - 1 {
        clusters_are_checked(history, upto - 1, prefix, registry, evidence, place);
    }
}

/// A pair that succeeded counts only with the evaluation that trusted evidence holds of it.
pub proof fn succeeded_pairs_match_their_evidence(
    summary: Option<EvaluationRecord>,
    trusted: Option<EvaluationRecord>,
    result: Result<(), ControlError>,
)
    requires
        call_ensures(evidence::check_arena_record, (&summary, &trusted), result),
    ensures
        result is Ok ==> summary is Some && trusted is Some && summary->0.evaluation_id@
            == trusted->0.evaluation_id@ && summary->0.parent_genome_id@
            == trusted->0.parent_genome_id@ && summary->0.candidate_genome_id@
            == trusted->0.candidate_genome_id@ && summary->0.world_id@ == trusted->0.world_id@
            && summary->0.parent_visible_correct == trusted->0.parent_visible_correct
            && summary->0.candidate_visible_correct == trusted->0.candidate_visible_correct
            && summary->0.visible_total == trusted->0.visible_total,
        summary is Some && summary == trusted ==> result is Ok,
{
}

/// A projection is taken only where the history was verified, replayed and confirmed.
pub proof fn projections_are_verified_and_confirmed(
    verified: Result<(), ControlError>,
    projected: Result<ControlState, ControlError>,
    confirmed: Result<(), ControlError>,
    result: Result<ControlState, ExecuteError>,
)
    requires
        call_ensures(projection::refresh_projection, (verified, projected, confirmed), result),
    ensures
        result is Ok <==> verified is Ok && projected is Ok && confirmed is Ok,
        result matches Ok(state) ==> projected == Ok::<ControlState, ControlError>(state),
{
}

/// A replay is answered only where it gives the live state again, and then with that state and
/// with the digest of its canonical form.
pub proof fn replays_answer_with_the_live_state(
    replayed: Result<ControlState, ControlError>,
    live: ControlState,
    canonical: Option<&Vec<u8>>,
    response: ResponseData,
)
    requires
        replayed matches Ok(state) ==> state.wf(),
        live.wf(),
        call_ensures(
            projection::replay_response,
            (replayed, &live, canonical),
            Ok::<ResponseData, ExecuteError>(response),
        ),
    ensures
        replayed is Ok && canonical is Some,
        response is Replay,
        response->Replay_frozen == live@.frozen,
        response->Replay_event_count == live@.event_count,
        response->Replay_active_runs == live@.active_runs.len(),
        replayed->Ok_0@.jobs.dom() == live@.jobs.dom(),
        replayed->Ok_0@.run_results.dom() == live@.run_results.dom(),
        response->projection_hash@ == hex::hex(digest::blake3_hash(canonical->0@)),
{
}

/// The commit that a revision resolves to is what Git printed, without the white space round it
/// and in lower case.
pub proof fn revisions_are_commits(reply: RevisionReply, commit: String)
    requires
        call_ensures(
            environment::resolve_source_revision,
            (reply,),
            Ok::<String, ExecuteError>(commit),
        ),
    ensures
        reply.success && valid_utf8(reply.stdout@),
        commit@.len() == 40 || commit@.len() == 64,
        forall|i: int|
            0 <= i < commit@.len() ==> ('0' <= #[trigger] commit@[i] <= '9' || 'a' <= commit@[i]
                <= 'f'),
{
    let inner = choose|inner: Seq<char>| #[trigger]
        text::trimmed(decode_utf8(reply.stdout@), inner) && arena_jobs::revision(inner)
            && commit@ == Seq::new(inner.len(), |i: int| text::lower(inner[i]));
    assert forall|i: int| 0 <= i < commit@.len() implies ('0' <= #[trigger] commit@[i] <= '9'
        || 'a' <= commit@[i] <= 'f') by {
        assert(text::ascii_hex_digit(inner[i]));
        assert(commit@[i] == text::lower(inner[i]));
    }
}

/// Whether an event is the result of one of the runs of a paired evaluation.
pub open spec fn result_of_pair(event: ResultRevision, evaluation_id: Seq<char>) -> bool {
    &&& event.event_type@ == "run.result_recorded"@
    &&& text::begins_with(event.event_id@, "result:"@ + ids::paired_prefix(evaluation_id) + "-"@)
}

/// What earlier results pin is the revision of each of them.
proof fn results_pin_one_revision(
    events: Seq<ResultRevision>,
    evaluation_id: Seq<char>,
    length: int,
    place: int,
)
    requires
        0 <= place < length <= events.len(),
        result_of_pair(events[place], evaluation_id),
        environment::pinned_by(events, ids::paired_prefix(evaluation_id), length) is Ok,
    ensures
        environment::pinned_by(events, ids::paired_prefix(evaluation_id), length)->Ok_0 is Some,
        events[place].source_revision is Some,
        environment::pinned_by(events, ids::paired_prefix(evaluation_id), length)->Ok_0->0
            == events[place].source_revision->0@,
    decreases length,
{
    if place < length - 1 {
        results_pin_one_revision(events, evaluation_id, length - 1, place);
    }
}

/// All results of one pair are over one revision, and that is the revision of the pair.
pub proof fn pairs_run_over_one_revision(
    evaluation_id: &str,
    events: Vec<ResultRevision>,
    result: Result<Option<String>, ExecuteError>,
    place: int,
)
    requires
        call_ensures(environment::paired_revision, (evaluation_id, &events), result),
        0 <= place < events@.len(),
        result_of_pair(events@[place], evaluation_id@),
        result is Ok,
    ensures
        result->Ok_0 is Some && events@[place].source_revision is Some && result->Ok_0->0@
            == events@[place].source_revision->0@,
{
    results_pin_one_revision(events@, evaluation_id@, events@.len() as int, place);
}

/// A worker is accepted only where it is the one that was pinned.
pub proof fn workers_stay_the_pinned_ones(
    inside: bool,
    actual: Option<&str>,
    pinned: &str,
    result: Result<(), ExecuteError>,
    bytes: &[u8],
    expected: &str,
    found: Result<String, ExecuteError>,
)
    requires
        call_ensures(environment::verify_pinned_worker, (inside, actual, pinned), result),
        call_ensures(environment::require_worker_digest, (bytes, expected), found),
    ensures
        result is Ok <==> inside && (actual matches Some(digest) && digest@ == pinned@),
        found is Ok <==> expected@ == hex::hex(digest::blake3_hash(bytes@)),
        found matches Ok(digest) ==> digest@ == expected@,
{
}

/// A worker's digest is taken only of a regular file that may be executed.
pub proof fn digests_are_of_executables(
    regular: bool,
    mode: u32,
    bytes: &[u8],
    result: Result<String, ControlError>,
)
    requires
        call_ensures(environment::executable_digest, (regular, mode, bytes), result),
    ensures
        result is Ok <==> regular && mode & 0o111 != 0,
        result matches Ok(digest) ==> digest@ == hex::hex(digest::blake3_hash(bytes@)),
{
}

/// The environment of the reference worker and that of a provider are told apart by how they
/// begin.
pub proof fn environments_begin_with_their_kind(
    platform: Platform,
    worker_digest: &str,
    name: &str,
    executable_digest: &str,
    reference: String,
    provider: String,
)
    requires
        call_ensures(
            environment::reference_execution_environment,
            (&platform, worker_digest),
            reference,
        ),
        call_ensures(
            environment::provider_job_environment,
            (name, &platform, executable_digest),
            provider,
        ),
    ensures
        reference@.take(13) == "reference-v1."@,
        provider@.take(12) == "provider-v1."@,
        reference@ != provider@,
{
    reveal_strlit("reference-v1.");
    reveal_strlit("provider-v1.");
    assert(reference@.take(13) =~= "reference-v1."@);
    assert(provider@.take(12) =~= "provider-v1."@);
    assert(reference@[0] == 'r' && provider@[0] == 'p');
}

} // verus!
