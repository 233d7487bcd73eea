//! Verification of recorded evidence, and the memory of what was verified.

use crate::digest;
use crate::error;
use crate::error::{projection, ControlError, Fault};
use crate::hex;
use crate::ids;
use crate::ordered::OrderedMap;
use crate::protocol::{
    EvaluationRecord, ForgeAnalysisRecord, InvariantRecord, JobState, JobTerminal,
};
use crate::records::{ArenaJobRecord, StoredEvent};
use crate::registry::Registry;
use crate::state::{ControlState, EventPayload, RecordedEvent};
use crate::text;
use vstd::prelude::*;
use vstd::string::*;

verus! {

/// The key of an event in the memory of verified evidence: the kind of verification, the
/// event, and its chain hash.
pub open spec fn evidence_key(kind: Seq<char>, event: StoredEvent) -> Seq<char> {
    kind + ":"@ + event.event_id@ + ":"@ + hex::hex(event.hash@)
}

/// Memory of the evidence that was verified.
pub struct EvidenceCache {
    verified: OrderedMap<()>,
}

impl View for EvidenceCache {
    type V = Set<Seq<char>>;

    closed spec fn view(&self) -> Set<Seq<char>> {
        self.verified@.dom()
    }
}

impl EvidenceCache {
    /// The memory is well formed.
    pub closed spec fn wf(self) -> bool {
        self.verified.wf()
    }

    /// A memory of nothing.
    pub fn new() -> (result: Self)
        ensures
            result.wf(),
            result@ == Set::<Seq<char>>::empty(),
    {
        let result = EvidenceCache { verified: OrderedMap::new() };
        assert(result@ == Set::<Seq<char>>::empty());
        result
    }

    /// Writes the key of an event.
    pub fn event_key(kind: &str, event: &StoredEvent) -> (result: String)
        ensures
            result@ == evidence_key(kind@, *event),
    {
        let hash: String = hex::hex_encode(&event.hash);
        let mut key: String = ids::wrap(kind, ":", event.event_id.as_str());
        key.append(":");
        key.append(hash.as_str());
        key
    }

    /// Tells whether an event was verified.
    pub fn contains(&self, kind: &str, event: &StoredEvent) -> (result: bool)
        requires
            self.wf(),
        ensures
            result == self@.contains(evidence_key(kind@, *event)),
    {
        let key: String = Self::event_key(kind, event);
        self.verified.contains_key(key.as_str())
    }

    /// Remembers that an event was verified.
    pub fn insert(&mut self, kind: &str, event: &StoredEvent)
        requires
            old(self).wf(),
        ensures
            final(self).wf(),
            final(self)@ == old(self)@.insert(evidence_key(kind@, *event)),
    {
        let ghost before = self@;
        let key: String = Self::event_key(kind, event);
        self.verified.insert(key, ());
        assert(self@ == before.insert(evidence_key(kind@, *event)));
    }

    /// Tells whether a key is remembered.
    pub fn contains_key(&self, key: &str) -> (result: bool)
        requires
            self.wf(),
        ensures
            result == self@.contains(key@),
    {
        self.verified.contains_key(key)
    }

    /// Remembers a key.
    pub fn insert_key(&mut self, key: String)
        requires
            old(self).wf(),
        ensures
            final(self).wf(),
            final(self)@ == old(self)@.insert(key@),
    {
        let ghost before = self@;
        let ghost held = key@;
        self.verified.insert(key, ());
        assert(self@ == before.insert(held));
    }
}

/// A remembered event stands for one chain hash only: two events with one key have the same
/// hash.
pub proof fn keys_hold_the_hash(kind: Seq<char>, a: StoredEvent, b: StoredEvent)
    requires
        evidence_key(kind, a) == evidence_key(kind, b),
    ensures
        a.hash@ == b.hash@,
        a.event_id@ == b.event_id@,
{
    let key_a = evidence_key(kind, a);
    let key_b = evidence_key(kind, b);
    let hash_a = hex::hex(a.hash@);
    let hash_b = hex::hex(b.hash@);
    assert(hash_a.len() == 64 && hash_b.len() == 64);
    assert(hash_a == key_a.skip(key_a.len() - 64));
    assert(hash_b == key_b.skip(key_b.len() - 64));
    hex::hex_is_injective(a.hash@, b.hash@);
    let start = kind.len() + ":"@.len();
    let end = key_a.len() - 64 - ":"@.len();
    assert(a.event_id@ == key_a.subrange(start as int, end));
    assert(b.event_id@ == key_b.subrange(start as int, end));
}

/// How far a pass over recorded evidence got.
#[verifier::ext_equal]
pub struct Sweep {
    /// What is remembered.
    pub cache: Set<Seq<char>>,
    /// The first fault.
    pub fault: Option<Fault>,
}

/// A pass over the first `upto` events. It concerns itself with some events only; of each it
/// makes the early check, skips the rest where the event is remembered, and remembers the
/// event once the late check has passed. It stops at the first fault.
pub open spec fn sweep(
    history: Seq<RecordedEvent>,
    upto: int,
    kind: Seq<char>,
    concerned: spec_fn(RecordedEvent) -> bool,
    early: spec_fn(int) -> Option<Fault>,
    late: spec_fn(int) -> Option<Fault>,
    start: Set<Seq<char>>,
) -> Sweep
    decreases upto,
{
    if upto <= 0 {
        Sweep { cache: start, fault: None }
    } else {
        let before = sweep(history, upto - 1, kind, concerned, early, late, start);
        let recorded = history[upto - 1];
        let key = evidence_key(kind, recorded.event);
        if before.fault is Some || !concerned(recorded) {
            before
        } else if early(upto - 1) is Some {
            Sweep { fault: early(upto - 1), ..before }
        } else if before.cache.contains(key) {
            before
        } else if late(upto - 1) is Some {
            Sweep { fault: late(upto - 1), ..before }
        } else {
            Sweep { cache: before.cache.insert(key), ..before }
        }
    }
}

/// A pass that stopped does not go on.
pub proof fn sweep_stops(
    history: Seq<RecordedEvent>,
    at: int,
    upto: int,
    kind: Seq<char>,
    concerned: spec_fn(RecordedEvent) -> bool,
    early: spec_fn(int) -> Option<Fault>,
    late: spec_fn(int) -> Option<Fault>,
    start: Set<Seq<char>>,
)
    requires
        0 <= at <= upto,
        sweep(history, at, kind, concerned, early, late, start).fault is Some,
    ensures
        sweep(history, upto, kind, concerned, early, late, start) == sweep(
            history,
            at,
            kind,
            concerned,
            early,
            late,
            start,
        ),
    decreases upto - at,
{
    if at < upto {
        sweep_stops(history, at, upto - 1, kind, concerned, early, late, start);
    }
}

/// A pass that started with an empty memory and found no fault has verified everything it is
/// concerned with: each event passed the late check itself, or has the key of an earlier one
/// that did.
pub proof fn fresh_passes_verify_everything(
    history: Seq<RecordedEvent>,
    upto: int,
    kind: Seq<char>,
    concerned: spec_fn(RecordedEvent) -> bool,
    early: spec_fn(int) -> Option<Fault>,
    late: spec_fn(int) -> Option<Fault>,
)
    requires
        0 <= upto <= history.len(),
        sweep(history, upto, kind, concerned, early, late, Set::empty()).fault is None,
    ensures
        forall|i: int|
            0 <= i < upto && concerned(#[trigger] history[i]) ==> early(i) is None && exists|j: int|
                0 <= j <= i && late(j) is None && evidence_key(kind, (#[trigger] history[j]).event)
                    == evidence_key(kind, history[i].event),
        forall|key: Seq<char>| #[trigger]
            sweep(history, upto, kind, concerned, early, late, Set::empty()).cache.contains(key)
                ==> exists|j: int|
                0 <= j < upto && late(j) is None && evidence_key(kind, (#[trigger] history[j]).event)
                    == key,
    decreases upto,
{
    if upto > 0 {
        fresh_passes_verify_everything(history, upto - 1, kind, concerned, early, late);
        let before = sweep(history, upto - 1, kind, concerned, early, late, Set::empty());
        let last = history[upto - 1];
        let key = evidence_key(kind, last.event);
        assert forall|i: int| 0 <= i < upto && concerned(#[trigger] history[i]) implies early(i) is None
            && exists|j: int|
            0 <= j <= i && late(j) is None && evidence_key(kind, (#[trigger] history[j]).event)
                == evidence_key(kind, history[i].event) by {
            if i == upto - 1 {
                if before.cache.contains(key) {
                    let j = choose|j: int|
                        0 <= j < upto - 1 && late(j) is None && evidence_key(
                            kind,
                            (#[trigger] history[j]).event,
                        ) == key;
                    assert(evidence_key(kind, history[j].event) == key);
                } else {
                    assert(late(i) is None);
                }
            }
        }
        assert forall|held: Seq<char>| #[trigger]
            sweep(history, upto, kind, concerned, early, late, Set::empty()).cache.contains(
                held,
            ) implies exists|j: int|
            0 <= j < upto && late(j) is None && evidence_key(kind, (#[trigger] history[j]).event)
                == held by {
            if before.cache.contains(held) {
                let j = choose|j: int|
                    0 <= j < upto - 1 && late(j) is None && evidence_key(
                        kind,
                        (#[trigger] history[j]).event,
                    ) == held;
                assert(evidence_key(kind, history[j].event) == held);
            } else {
                assert(evidence_key(kind, history[upto - 1].event) == held);
            }
        }
    }
}

/// A pass forgets nothing.
pub proof fn passes_keep_what_is_remembered(
    history: Seq<RecordedEvent>,
    upto: int,
    kind: Seq<char>,
    concerned: spec_fn(RecordedEvent) -> bool,
    early: spec_fn(int) -> Option<Fault>,
    late: spec_fn(int) -> Option<Fault>,
    start: Set<Seq<char>>,
)
    ensures
        start.subset_of(sweep(history, upto, kind, concerned, early, late, start).cache),
    decreases upto,
{
    if upto > 0 {
        passes_keep_what_is_remembered(history, upto - 1, kind, concerned, early, late, start);
    }
}

/// No early check.
pub open spec fn unchecked() -> spec_fn(int) -> Option<Fault> {
    |at: int| None
}

/// The events that record a selection.
pub open spec fn selections() -> spec_fn(RecordedEvent) -> bool {
    |recorded: RecordedEvent| recorded.event.event_type@ == "selection.recorded"@
}

/// The fault of a selection, given whether its receipt could be verified.
pub open spec fn selection_fault(recorded: RecordedEvent, registry: Registry, verified: bool) -> Option<
    Fault,
> {
    match recorded.payload {
        EventPayload::Reference(reference) => error::first(
            error::need(
                registry.worlds@.contains_key(reference.world_id@),
                Fault::Projection("selection World is not registered"@),
            ),
            error::need(
                verified,
                Fault::Projection("canonical selection receipt is invalid"@),
            ),
        ),
        _ => Some(Fault::Projection("canonical selection event is invalid"@)),
    }
}

/// The late check of selections.
pub open spec fn selection_check(history: Seq<RecordedEvent>, registry: Registry, verified: Seq<bool>) -> spec_fn(
    int,
) -> Option<Fault> {
    |at: int| selection_fault(history[at], registry, verified[at])
}

/// Checks one selection.
pub fn check_selection(recorded: &RecordedEvent, registry: &Registry, verified: bool) -> (result: Result<
    (),
    ControlError,
>)
    requires
        registry.wf(),
    ensures
        error::verdict(result) == error::faulted(selection_fault(*recorded, *registry, verified)),
{
    match &recorded.payload {
        EventPayload::Reference(reference) => {
            if !registry.worlds.contains_key(reference.world_id.as_str()) {
                return Err(projection("selection World is not registered"));
            }
            if !verified {
                return Err(projection("canonical selection receipt is invalid"));
            }
            Ok(())
        },
        _ => Err(projection("canonical selection event is invalid")),
    }
}

/// Verifies every recorded selection that is not remembered. `verified` tells of each event
/// whether its receipt could be verified.
pub fn verify_selection_history_with(
    history: &Vec<RecordedEvent>,
    registry: &Registry,
    verified: &Vec<bool>,
    cache: &mut EvidenceCache,
) -> (result: Result<(), ControlError>)
    requires
        registry.wf(),
        old(cache).wf(),
        verified@.len() == history@.len(),
    ensures
        final(cache).wf(),
        ({
            let pass = sweep(
                history@,
                history@.len() as int,
                "selection"@,
                selections(),
                unchecked(),
                selection_check(history@, *registry, verified@),
                old(cache)@,
            );
            error::verdict(result) == error::faulted(pass.fault) && final(cache)@ == pass.cache
        }),
{
    let ghost start = cache@;
    let ghost late = selection_check(history@, *registry, verified@);
    for at in 0..history.len()
        invariant
            registry.wf(),
            cache.wf(),
            start == old(cache)@,
            verified@.len() == history@.len(),
            late == selection_check(history@, *registry, verified@),
            ({
                let pass = sweep(
                    history@,
                    at as int,
                    "selection"@,
                    selections(),
                    unchecked(),
                    late,
                    start,
                );
                pass.fault is None && cache@ == pass.cache
            }),
    {
        let recorded: &RecordedEvent = &history[at];
        if text::text_eq(recorded.event.event_type.as_str(), "selection.recorded")
            && !cache.contains("selection", &recorded.event) {
            if let Err(error) = check_selection(recorded, registry, verified[at]) {
                proof {
                    sweep_stops(
                        history@,
                        at + 1,
                        history@.len() as int,
                        "selection"@,
                        selections(),
                        unchecked(),
                        late,
                        start,
                    );
                }
                return Err(error);
            }
            cache.insert("selection", &recorded.event);
        }
    }
    Ok(())
}

/// What the envelope of an invariant event says.
#[derive(Debug, PartialEq, Eq)]
pub struct InvariantEventEnvelope {
    /// Payload schema.
    pub schema_version: u16,
    /// Evaluation that was checked.
    pub evaluation_id: String,
    /// World whose policy governed the check.
    pub world_id: String,
    /// Content address of the receipt.
    pub receipt_artifact_id: String,
}

/// What is known of a recorded invariant check besides its event.
pub struct InvariantEvidence {
    /// The envelope, where it decodes.
    pub envelope: Option<InvariantEventEnvelope>,
    /// The check, where it could be verified.
    pub verified: Option<InvariantRecord>,
}

/// The events that record an invariant check, or are named like one.
pub open spec fn invariant_checks() -> spec_fn(RecordedEvent) -> bool {
    |recorded: RecordedEvent|
        recorded.event.event_type@ == "invariants.recorded"@ || text::begins_with(
            recorded.event.event_id@,
            "arena:invariants:"@,
        ) || text::begins_with(recorded.event.aggregate_id@, "arena:invariants:"@)
}

/// Tells whether an event records an invariant check, or is named like one.
pub fn is_invariant_check(event: &StoredEvent) -> (result: bool)
    ensures
        result == (event.event_type@ == "invariants.recorded"@ || text::begins_with(
            event.event_id@,
            "arena:invariants:"@,
        ) || text::begins_with(event.aggregate_id@, "arena:invariants:"@)),
{
    text::text_eq(event.event_type.as_str(), "invariants.recorded") || text::starts_with(
        event.event_id.as_str(),
        "arena:invariants:",
    ) || text::starts_with(event.aggregate_id.as_str(), "arena:invariants:")
}

/// The fault of an invariant check, given what is known of it.
pub open spec fn invariant_fault(
    recorded: RecordedEvent,
    registry: Registry,
    evidence: InvariantEvidence,
) -> Option<Fault> {
    match (recorded.payload, evidence.envelope) {
        (EventPayload::Reference(reference), Some(envelope)) => if !(envelope.schema_version == 1
            && envelope.evaluation_id@ == reference.evaluation_id@ && envelope.world_id@
            == reference.world_id@ && !text::blank(envelope.receipt_artifact_id@)) {
            Some(Fault::Projection("canonical invariant event identity is invalid"@))
        } else if !registry.worlds@.contains_key(reference.world_id@) {
            Some(Fault::Projection("invariant World is not registered"@))
        } else {
            match evidence.verified {
                None => Some(Fault::Projection("canonical invariant receipt is invalid"@)),
                Some(check) => error::need(
                    check.receipt.evaluation_id@ == reference.evaluation_id@
                        && check.receipt.world_id@ == reference.world_id@
                        && check.event.receipt_artifact_id@ == envelope.receipt_artifact_id@,
                    Fault::Projection("canonical invariant event differs from verified receipt"@),
                ),
            }
        },
        _ => Some(Fault::Projection("canonical invariant event envelope is invalid"@)),
    }
}

/// The late check of invariant checks.
pub open spec fn invariant_check(
    history: Seq<RecordedEvent>,
    registry: Registry,
    evidence: Seq<InvariantEvidence>,
) -> spec_fn(int) -> Option<Fault> {
    |at: int| invariant_fault(history[at], registry, evidence[at])
}

/// Checks one invariant check.
pub fn check_invariants(recorded: &RecordedEvent, registry: &Registry, evidence: &InvariantEvidence) -> (result: Result<
    (),
    ControlError,
>)
    requires
        registry.wf(),
    ensures
        error::verdict(result) == error::faulted(invariant_fault(*recorded, *registry, *evidence)),
{
    match (&recorded.payload, &evidence.envelope) {
        (EventPayload::Reference(reference), Some(envelope)) => {
            if envelope.schema_version != 1 || envelope.evaluation_id != reference.evaluation_id
                || envelope.world_id != reference.world_id || text::is_blank(
                envelope.receipt_artifact_id.as_str(),
            ) {
                return Err(projection("canonical invariant event identity is invalid"));
            }
            if !registry.worlds.contains_key(reference.world_id.as_str()) {
                return Err(projection("invariant World is not registered"));
            }
            match &evidence.verified {
                None => Err(projection("canonical invariant receipt is invalid")),
                Some(check) => {
                    if check.receipt.evaluation_id != reference.evaluation_id
                        || check.receipt.world_id != reference.world_id
                        || check.event.receipt_artifact_id != envelope.receipt_artifact_id {
                        return Err(
                            projection("canonical invariant event differs from verified receipt"),
                        );
                    }
                    Ok(())
                },
            }
        },
        _ => Err(projection("canonical invariant event envelope is invalid")),
    }
}

/// Verifies every recorded invariant check that is not remembered.
pub fn verify_invariant_history_with(
    history: &Vec<RecordedEvent>,
    registry: &Registry,
    evidence: &Vec<InvariantEvidence>,
    cache: &mut EvidenceCache,
) -> (result: Result<(), ControlError>)
    requires
        registry.wf(),
        old(cache).wf(),
        evidence@.len() == history@.len(),
    ensures
        final(cache).wf(),
        ({
            let pass = sweep(
                history@,
                history@.len() as int,
                "invariant"@,
                invariant_checks(),
                unchecked(),
                invariant_check(history@, *registry, evidence@),
                old(cache)@,
            );
            error::verdict(result) == error::faulted(pass.fault) && final(cache)@ == pass.cache
        }),
{
    let ghost start = cache@;
    let ghost late = invariant_check(history@, *registry, evidence@);
    for at in 0..history.len()
        invariant
            registry.wf(),
            cache.wf(),
            start == old(cache)@,
            evidence@.len() == history@.len(),
            late == invariant_check(history@, *registry, evidence@),
            ({
                let pass = sweep(
                    history@,
                    at as int,
                    "invariant"@,
                    invariant_checks(),
                    unchecked(),
                    late,
                    start,
                );
                pass.fault is None && cache@ == pass.cache
            }),
    {
        let recorded: &RecordedEvent = &history[at];
        if is_invariant_check(&recorded.event) && !cache.contains("invariant", &recorded.event) {
            if let Err(error) = check_invariants(recorded, registry, &evidence[at]) {
                proof {
                    sweep_stops(
                        history@,
                        at + 1,
                        history@.len() as int,
                        "invariant"@,
                        invariant_checks(),
                        unchecked(),
                        late,
                        start,
                    );
                }
                return Err(error);
            }
            cache.insert("invariant", &recorded.event);
        }
    }
    Ok(())
}

/// What the envelope of a cluster event says.
#[derive(Debug, PartialEq, Eq)]
pub struct ClusterEventEnvelope {
    /// Payload schema.
    pub schema_version: u16,
    /// Identity of the analysis.
    pub analysis_id: String,
    /// Evaluation whose trials were clustered.
    pub evaluation_id: String,
    /// World of that evaluation.
    pub world_id: String,
    /// Content address of the analysis.
    pub analysis_artifact_id: String,
}

/// What a cluster event refers to.
#[derive(Debug, PartialEq, Eq)]
pub struct ClusterReference {
    /// Identity of the analysis.
    pub analysis_id: String,
    /// Evaluation whose trials were clustered.
    pub evaluation_id: String,
    /// World of that evaluation.
    pub world_id: String,
}

/// What is known of a recorded cluster analysis besides its event.
pub struct ClusterEvidence {
    /// What the event refers to, where that can be read.
    pub reference: Option<ClusterReference>,
    /// The envelope, where it decodes.
    pub envelope: Option<ClusterEventEnvelope>,
    /// The analysis, where it could be verified.
    pub verified: Option<ForgeAnalysisRecord>,
}

/// Whether an event records a cluster analysis, or is named like one. `prefix` begins the
/// names of all such events.
pub open spec fn clusters(event: StoredEvent, prefix: Seq<char>) -> bool {
    event.event_type@ == "forge.clustered"@ || text::begins_with(event.event_id@, prefix)
        || text::begins_with(event.aggregate_id@, prefix)
}

/// The fault of a cluster analysis, given what is known of it.
pub open spec fn cluster_fault(registry: Registry, evidence: ClusterEvidence) -> Option<Fault> {
    match (evidence.reference, evidence.envelope) {
        (Some(reference), Some(envelope)) => if !(envelope.schema_version == 1
            && envelope.analysis_id@ == reference.analysis_id@ && envelope.evaluation_id@
            == reference.evaluation_id@ && envelope.world_id@ == reference.world_id@ && !text::blank(
            envelope.analysis_artifact_id@,
        )) {
            Some(Fault::Projection("canonical cluster event identity is invalid"@))
        } else if !registry.worlds@.contains_key(reference.world_id@) {
            Some(Fault::Projection("cluster World is not registered"@))
        } else {
            match evidence.verified {
                None => Some(Fault::Projection("canonical cluster analysis is invalid"@)),
                Some(found) => error::need(
                    found.analysis.evaluation_id@ == reference.evaluation_id@
                        && found.analysis.world_id@ == reference.world_id@
                        && found.event.analysis_artifact_id@ == envelope.analysis_artifact_id@,
                    Fault::Projection("canonical cluster event differs from verified analysis"@),
                ),
            }
        },
        _ => Some(Fault::Projection("canonical cluster event envelope is invalid"@)),
    }
}

/// The first fault among the first `upto` cluster analyses.
pub open spec fn first_cluster_fault(
    history: Seq<RecordedEvent>,
    upto: int,
    prefix: Seq<char>,
    registry: Registry,
    evidence: Seq<ClusterEvidence>,
) -> Option<Fault>
    decreases upto,
{
    if upto <= 0 {
        None
    } else {
        error::first(
            first_cluster_fault(history, upto - 1, prefix, registry, evidence),
            if clusters(history[upto - 1].event, prefix) {
                cluster_fault(registry, evidence[upto - 1])
            } else {
                None
            },
        )
    }
}

/// A first fault stays the first.
proof fn first_cluster_fault_stays(
    history: Seq<RecordedEvent>,
    at: int,
    upto: int,
    prefix: Seq<char>,
    registry: Registry,
    evidence: Seq<ClusterEvidence>,
)
    requires
        0 <= at <= upto,
        first_cluster_fault(history, at, prefix, registry, evidence) is Some,
    ensures
        first_cluster_fault(history, upto, prefix, registry, evidence) == first_cluster_fault(
            history,
            at,
            prefix,
            registry,
            evidence,
        ),
    decreases upto - at,
{
    if at < upto {
        first_cluster_fault_stays(history, at, upto - 1, prefix, registry, evidence);
    }
}

/// Checks one cluster analysis.
pub fn check_clusters(registry: &Registry, evidence: &ClusterEvidence) -> (result: Result<
    (),
    ControlError,
>)
    requires
        registry.wf(),
    ensures
        error::verdict(result) == error::faulted(cluster_fault(*registry, *evidence)),
{
    match (&evidence.reference, &evidence.envelope) {
        (Some(reference), Some(envelope)) => {
            if envelope.schema_version != 1 || envelope.analysis_id != reference.analysis_id
                || envelope.evaluation_id != reference.evaluation_id || envelope.world_id
                != reference.world_id || text::is_blank(envelope.analysis_artifact_id.as_str()) {
                return Err(projection("canonical cluster event identity is invalid"));
            }
            if !registry.worlds.contains_key(reference.world_id.as_str()) {
                return Err(projection("cluster World is not registered"));
            }
            match &evidence.verified {
                None => Err(projection("canonical cluster analysis is invalid")),
                Some(found) => {
                    if found.analysis.evaluation_id != reference.evaluation_id
                        || found.analysis.world_id != reference.world_id
                        || found.event.analysis_artifact_id != envelope.analysis_artifact_id {
                        return Err(
                            projection("canonical cluster event differs from verified analysis"),
                        );
                    }
                    Ok(())
                },
            }
        },
        _ => Err(projection("canonical cluster event envelope is invalid")),
    }
}

/// Verifies every recorded cluster analysis.
pub fn verify_cluster_history(
    history: &Vec<RecordedEvent>,
    prefix: &str,
    registry: &Registry,
    evidence: &Vec<ClusterEvidence>,
) -> (result: Result<(), ControlError>)
    requires
        registry.wf(),
        evidence@.len() == history@.len(),
    ensures
        error::verdict(result) == error::faulted(
            first_cluster_fault(
                history@,
                history@.len() as int,
                prefix@,
                *registry,
                evidence@,
            ),
        ),
{
    for at in 0..history.len()
        invariant
            registry.wf(),
            evidence@.len() == history@.len(),
            first_cluster_fault(history@, at as int, prefix@, *registry, evidence@) is None,
    {
        let event: &StoredEvent = &history[at].event;
        if text::text_eq(event.event_type.as_str(), "forge.clustered") || text::starts_with(
            event.event_id.as_str(),
            prefix,
        ) || text::starts_with(event.aggregate_id.as_str(), prefix) {
            if let Err(error) = check_clusters(registry, &evidence[at]) {
                proof {
                    first_cluster_fault_stays(
                        history@,
                        at + 1,
                        history@.len() as int,
                        prefix@,
                        *registry,
                        evidence@,
                    );
                }
                return Err(error);
            }
        }
    }
    Ok(())
}

/// All events.
pub open spec fn everything() -> spec_fn(RecordedEvent) -> bool {
    |recorded: RecordedEvent| true
}

/// The content addresses that an event rests on, or the fault of its payload.
pub open spec fn resting_on(recorded: RecordedEvent) -> Result<Seq<Seq<char>>, Fault> {
    if recorded.event.event_type@ == "trace.recorded"@ {
        match recorded.payload {
            EventPayload::Trace(receipt, _) => Ok(seq![receipt.artifact_id@]),
            _ => Err(Fault::Serialization),
        }
    } else if recorded.event.event_type@ == "run.result_recorded"@ {
        match recorded.payload {
            EventPayload::RunResult(receipt) => Ok(
                seq![receipt.stdout_artifact_id@, receipt.stderr_artifact_id@] + text::texts(
                    receipt.trace_artifact_ids@,
                ),
            ),
            _ => Err(Fault::Projection("canonical run result is invalid"@)),
        }
    } else {
        Ok(Seq::empty())
    }
}

/// Lists the content addresses that an event rests on.
pub fn artifacts_of(recorded: &RecordedEvent) -> (result: Result<Vec<String>, ControlError>)
    ensures
        (match result {
            Ok(ids) => Ok(text::texts(ids@)),
            Err(error) => Err(error@),
        }) == resting_on(*recorded),
{
    let mut ids: Vec<String> = Vec::new();
    assert(text::texts(ids@) == Seq::<Seq<char>>::empty());
    if text::text_eq(recorded.event.event_type.as_str(), "trace.recorded") {
        match &recorded.payload {
            EventPayload::Trace(receipt, _) => {
                ids.push(receipt.artifact_id.clone());
                assert(text::texts(ids@) == seq![receipt.artifact_id@]);
                return Ok(ids);
            },
            _ => {
                return Err(ControlError::Serialization);
            },
        }
    }
    if text::text_eq(recorded.event.event_type.as_str(), "run.result_recorded") {
        match &recorded.payload {
            EventPayload::RunResult(receipt) => {
                ids.push(receipt.stdout_artifact_id.clone());
                ids.push(receipt.stderr_artifact_id.clone());
                let ghost outputs = text::texts(ids@);
                assert(outputs == seq![receipt.stdout_artifact_id@, receipt.stderr_artifact_id@]);
                let ghost traces = text::texts(receipt.trace_artifact_ids@);
                for i in 0..receipt.trace_artifact_ids.len()
                    invariant
                        traces == text::texts(receipt.trace_artifact_ids@),
                        text::texts(ids@) == outputs + traces.take(i as int),
                {
                    let ghost before = ids@;
                    ids.push(receipt.trace_artifact_ids[i].clone());
                    assert(text::texts(ids@) == text::texts(before).push(traces[i as int]));
                    assert(outputs + traces.take(i + 1) == (outputs + traces.take(i as int)).push(
                        traces[i as int],
                    ));
                }
                assert(traces.take(traces.len() as int) == traces);
                return Ok(ids);
            },
            _ => {
                return Err(projection("canonical run result is invalid"));
            },
        }
    }
    Ok(ids)
}

/// The fault of an event's artifacts, given whether all of them could be read.
pub open spec fn artifact_fault(recorded: RecordedEvent, stored: bool) -> Option<Fault> {
    match resting_on(recorded) {
        Err(fault) => Some(fault),
        Ok(ids) => error::need(ids.len() == 0 || stored, Fault::Artifact),
    }
}

/// The late check of artifacts.
pub open spec fn artifact_check(history: Seq<RecordedEvent>, stored: Seq<bool>) -> spec_fn(int) -> Option<
    Fault,
> {
    |at: int| artifact_fault(history[at], stored[at])
}

/// Verifies the artifacts of every event that is not remembered. `stored` tells of each event
/// whether all artifacts that it rests on could be read.
pub fn verify_artifacts_with(history: &Vec<RecordedEvent>, stored: &Vec<bool>, cache: &mut EvidenceCache) -> (result: Result<
    (),
    ControlError,
>)
    requires
        old(cache).wf(),
        stored@.len() == history@.len(),
    ensures
        final(cache).wf(),
        ({
            let pass = sweep(
                history@,
                history@.len() as int,
                "artifacts"@,
                everything(),
                unchecked(),
                artifact_check(history@, stored@),
                old(cache)@,
            );
            error::verdict(result) == error::faulted(pass.fault) && final(cache)@ == pass.cache
        }),
{
    let ghost start = cache@;
    let ghost late = artifact_check(history@, stored@);
    for at in 0..history.len()
        invariant
            cache.wf(),
            start == old(cache)@,
            stored@.len() == history@.len(),
            late == artifact_check(history@, stored@),
            ({
                let pass = sweep(
                    history@,
                    at as int,
                    "artifacts"@,
                    everything(),
                    unchecked(),
                    late,
                    start,
                );
                pass.fault is None && cache@ == pass.cache
            }),
    {
        let recorded: &RecordedEvent = &history[at];
        if !cache.contains("artifacts", &recorded.event) {
            let fault: Option<ControlError> = match artifacts_of(recorded) {
                Err(error) => Some(error),
                Ok(ids) => if ids.len() == 0 || stored[at] {
                    None
                } else {
                    Some(ControlError::Artifact)
                },
            };
            if let Some(error) = fault {
                proof {
                    sweep_stops(
                        history@,
                        at + 1,
                        history@.len() as int,
                        "artifacts"@,
                        everything(),
                        unchecked(),
                        late,
                        start,
                    );
                }
                return Err(error);
            }
            cache.insert("artifacts", &recorded.event);
        }
    }
    Ok(())
}

/// The key of a succeeded evaluation in the memory of verified evidence. `canonical` holds
/// the bytes of its recorded summary.
pub fn arena_record_cache_key(evaluation_id: &str, canonical: &[u8]) -> (result: String)
    ensures
        result@ == arena_key(evaluation_id@, canonical@),
{
    let hash: String = digest::blake3_hex(canonical);
    let mut key: String = ids::wrap("arena_record:", evaluation_id, ":");
    key.append(hash.as_str());
    key
}

/// Whether two evaluations say the same.
pub open spec fn same_evaluation(a: EvaluationRecord, b: EvaluationRecord) -> bool {
    &&& a.evaluation_id@ == b.evaluation_id@
    &&& a.world_id@ == b.world_id@
    &&& a.parent_genome_id@ == b.parent_genome_id@
    &&& a.candidate_genome_id@ == b.candidate_genome_id@
    &&& a.parent_visible_correct == b.parent_visible_correct
    &&& a.candidate_visible_correct == b.candidate_visible_correct
    &&& a.visible_total == b.visible_total
    &&& a.event.sequence == b.event.sequence
    &&& a.event.event_id@ == b.event.event_id@
    &&& a.event.aggregate_id@ == b.event.aggregate_id@
    &&& a.event.event_type@ == b.event.event_type@
    &&& a.event.actor@ == b.event.actor@
    &&& a.event.timestamp_millis == b.event.timestamp_millis
}

/// Tests whether two evaluations say the same.
pub fn evaluations_match(a: &EvaluationRecord, b: &EvaluationRecord) -> (result: bool)
    ensures
        result == same_evaluation(*a, *b),
{
    text::text_eq(a.evaluation_id.as_str(), b.evaluation_id.as_str()) && text::text_eq(
        a.world_id.as_str(),
        b.world_id.as_str(),
    ) && text::text_eq(a.parent_genome_id.as_str(), b.parent_genome_id.as_str()) && text::text_eq(
        a.candidate_genome_id.as_str(),
        b.candidate_genome_id.as_str(),
    ) && a.parent_visible_correct == b.parent_visible_correct && a.candidate_visible_correct
        == b.candidate_visible_correct && a.visible_total == b.visible_total && a.event.sequence
        == b.event.sequence && text::text_eq(a.event.event_id.as_str(), b.event.event_id.as_str())
        && text::text_eq(a.event.aggregate_id.as_str(), b.event.aggregate_id.as_str())
        && text::text_eq(a.event.event_type.as_str(), b.event.event_type.as_str())
        && text::text_eq(a.event.actor.as_str(), b.event.actor.as_str())
        && a.event.timestamp_millis == b.event.timestamp_millis
}

/// Checks the summary of a succeeded evaluation against trusted evidence of it.
pub fn check_arena_record(summary: &Option<EvaluationRecord>, trusted: &Option<EvaluationRecord>) -> (result: Result<
    (),
    ControlError,
>)
    ensures
        error::verdict(result) == error::faulted(summary_fault(*summary, *trusted)),
{
    match (summary, trusted) {
        (_, None) => Err(projection("Arena terminal lacks trusted evaluation evidence")),
        (Some(summary), Some(trusted)) => if evaluations_match(summary, trusted) {
            Ok(())
        } else {
            Err(projection("Arena terminal differs from trusted evaluation evidence"))
        },
        (None, Some(_)) => Err(
            projection("Arena terminal differs from trusted evaluation evidence"),
        ),
    }
}

/// What is known of a paired evaluation besides its record.
pub struct ArenaEvidence {
    /// The bytes of the recorded summary.
    pub canonical: Vec<u8>,
    /// The evaluation as trusted evidence has it, where there is some.
    pub trusted: Option<EvaluationRecord>,
}

/// Whether a paired evaluation succeeded.
pub open spec fn succeeded(job: ArenaJobRecord) -> bool {
    job.state == JobState::Succeeded && job.terminal == Some(JobTerminal::Succeeded)
}

/// The fault of the summary of a succeeded evaluation, given trusted evidence of it.
pub open spec fn summary_fault(summary: Option<EvaluationRecord>, trusted: Option<EvaluationRecord>) -> Option<
    Fault,
> {
    if trusted is None {
        Some(Fault::Projection("Arena terminal lacks trusted evaluation evidence"@))
    } else {
        error::need(
            summary is Some && same_evaluation(summary->0, trusted->0),
            Fault::Projection("Arena terminal differs from trusted evaluation evidence"@),
        )
    }
}

/// The key of a succeeded evaluation in the memory of verified evidence.
pub open spec fn arena_key(evaluation_id: Seq<char>, canonical: Seq<u8>) -> Seq<char> {
    "arena_record:"@ + evaluation_id + ":"@ + hex::hex(digest::blake3_hash(canonical))
}

/// A pass over the first `upto` paired evaluations, in the order of their identities. It
/// skips those that did not succeed and those that are remembered, and stops at the first
/// fault.
pub open spec fn arena_sweep(
    jobs: Seq<ArenaJobRecord>,
    upto: int,
    evidence: Seq<ArenaEvidence>,
    start: Set<Seq<char>>,
) -> Sweep
    decreases upto,
{
    if upto <= 0 {
        Sweep { cache: start, fault: None }
    } else {
        let before = arena_sweep(jobs, upto - 1, evidence, start);
        let job = jobs[upto - 1];
        let known = evidence[upto - 1];
        let key = arena_key(job.evaluation_id@, known.canonical@);
        if before.fault is Some || !succeeded(job) || before.cache.contains(key) {
            before
        } else if summary_fault(job.evaluation, known.trusted) is Some {
            Sweep { fault: summary_fault(job.evaluation, known.trusted), ..before }
        } else {
            Sweep { cache: before.cache.insert(key), ..before }
        }
    }
}

/// A pass over paired evaluations that stopped does not go on.
proof fn arena_sweep_stops(
    jobs: Seq<ArenaJobRecord>,
    at: int,
    upto: int,
    evidence: Seq<ArenaEvidence>,
    start: Set<Seq<char>>,
)
    requires
        0 <= at <= upto,
        arena_sweep(jobs, at, evidence, start).fault is Some,
    ensures
        arena_sweep(jobs, upto, evidence, start) == arena_sweep(jobs, at, evidence, start),
    decreases upto - at,
{
    if at < upto {
        arena_sweep_stops(jobs, at, upto - 1, evidence, start);
    }
}

/// Verifies the summary of every succeeded evaluation that is not remembered. `evidence`
/// tells of each paired evaluation, in the order of their identities, what is known of it.
pub fn verify_arena_evaluation_records_with(
    state: &ControlState,
    evidence: &Vec<ArenaEvidence>,
    cache: &mut EvidenceCache,
) -> (result: Result<(), ControlError>)
    requires
        state.wf(),
        old(cache).wf(),
        evidence@.len() == state.arena_jobs.keys().len(),
    ensures
        final(cache).wf(),
        ({
            let pass = arena_sweep(
                state.arena_jobs.values(),
                state.arena_jobs.values().len() as int,
                evidence@,
                old(cache)@,
            );
            error::verdict(result) == error::faulted(pass.fault) && final(cache)@ == pass.cache
        }),
{
    let ghost start = cache@;
    let ghost jobs = state.arena_jobs.values();
    let count: usize = state.arena_jobs.len();
    for at in 0..count
        invariant
            state.wf(),
            cache.wf(),
            start == old(cache)@,
            jobs == state.arena_jobs.values(),
            count == state.arena_jobs.keys().len(),
            evidence@.len() == count,
            arena_sweep(jobs, at as int, evidence@, start).fault is None,
            cache@ == arena_sweep(jobs, at as int, evidence@, start).cache,
    {
        let job: &ArenaJobRecord = state.arena_jobs.value_at(at);
        let known: &ArenaEvidence = &evidence[at];
        if job.state == JobState::Succeeded && job.terminal == Some(JobTerminal::Succeeded) {
            let key: String = arena_record_cache_key(
                job.evaluation_id.as_str(),
                known.canonical.as_slice(),
            );
            if !cache.contains_key(key.as_str()) {
                if let Err(error) = check_arena_record(&job.evaluation, &known.trusted) {
                    proof {
                        arena_sweep_stops(jobs, at + 1, jobs.len() as int, evidence@, start);
                    }
                    return Err(error);
                }
                cache.insert_key(key);
            }
        }
    }
    Ok(())
}

} // verus!
