//! Verification of a whole history, and of the state that it projects to.

use crate::digest;
use crate::error;
use crate::error::{ControlError, ExecuteError, Fault};
use crate::evidence;
use crate::evidence::{ArenaEvidence, ClusterEvidence, EvidenceCache, InvariantEvidence};
use crate::forge_history;
use crate::forge_history::{ForgeEvidence, VerifiedSelection};
use crate::hex;
use crate::protocol::ResponseData;
use crate::registry::Registry;
use crate::snapshot;
use crate::state::{ControlState, RecordedEvent};
use vstd::prelude::*;

verus! {

/// What verifying the events of a history took, event by event, and what verifying its
/// Champions, Genes, evolution runs, drifts and canaries came to.
pub struct HistoryEvidence {
    /// Whether each selection receipt could be verified.
    pub selections: Vec<bool>,
    /// What is known of each proposal.
    pub proposals: Vec<ForgeEvidence>,
    /// The selection that each assessment rests on.
    pub assessments: Vec<Option<VerifiedSelection>>,
    /// What is known of each invariant check.
    pub invariants: Vec<InvariantEvidence>,
    /// What is known of each cluster analysis.
    pub clusters: Vec<ClusterEvidence>,
    /// Champion transitions.
    pub champions: Result<(), ControlError>,
    /// Genes, their transfers and species.
    pub genes: Result<(), ControlError>,
    /// Evolution runs.
    pub evolution: Result<(), ControlError>,
    /// Strategies and meta-evaluations.
    pub meta_evolution: Result<(), ControlError>,
    /// Drifts.
    pub drifts: Result<(), ControlError>,
    /// Canaries.
    pub canaries: Result<(), ControlError>,
    /// Drift adaptations.
    pub adaptations: Result<(), ControlError>,
}

impl HistoryEvidence {
    /// There is evidence for each of `length` events.
    pub open spec fn covers(self, length: nat) -> bool {
        &&& self.selections@.len() == length
        &&& self.proposals@.len() == length
        &&& self.assessments@.len() == length
        &&& self.invariants@.len() == length
        &&& self.clusters@.len() == length
    }
}

/// What a check of the whole history found.
pub open spec fn found(result: Result<(), ControlError>) -> Option<Fault> {
    match result {
        Ok(()) => None,
        Err(error) => Some(error@),
    }
}

/// The pass over the selections.
pub open spec fn selection_pass(
    history: Seq<RecordedEvent>,
    registry: Registry,
    evidence: HistoryEvidence,
    cache: Set<Seq<char>>,
) -> evidence::Sweep {
    evidence::sweep(
        history,
        history.len() as int,
        "selection"@,
        evidence::selections(),
        evidence::unchecked(),
        evidence::selection_check(history, registry, evidence.selections@),
        cache,
    )
}

/// The pass over the proposals.
pub open spec fn proposal_pass(
    history: Seq<RecordedEvent>,
    registry: Registry,
    evidence: HistoryEvidence,
    cache: Set<Seq<char>>,
) -> evidence::Sweep {
    evidence::sweep(
        history,
        history.len() as int,
        "forge"@,
        forge_history::proposals(),
        forge_history::early_proposal_check(history),
        forge_history::late_proposal_check(history, registry, evidence.proposals@),
        cache,
    )
}

/// The pass over the assessments.
pub open spec fn assessment_pass(
    history: Seq<RecordedEvent>,
    registry: Registry,
    evidence: HistoryEvidence,
    cache: Set<Seq<char>>,
) -> evidence::Sweep {
    evidence::sweep(
        history,
        history.len() as int,
        "forge_assessment"@,
        forge_history::assessments(),
        evidence::unchecked(),
        forge_history::assessment_check(history, registry, evidence.assessments@),
        cache,
    )
}

/// The pass over the invariant checks.
pub open spec fn invariant_pass(
    history: Seq<RecordedEvent>,
    registry: Registry,
    evidence: HistoryEvidence,
    cache: Set<Seq<char>>,
) -> evidence::Sweep {
    evidence::sweep(
        history,
        history.len() as int,
        "invariant"@,
        evidence::invariant_checks(),
        evidence::unchecked(),
        evidence::invariant_check(history, registry, evidence.invariants@),
        cache,
    )
}

/// What verifying a history with a cache comes to: the first fault, and what is remembered
/// afterwards. Each pass starts from what the one before remembers, and none follows a fault.
pub open spec fn history_pass(
    history: Seq<RecordedEvent>,
    registry: Registry,
    prefix: Seq<char>,
    evidence: HistoryEvidence,
    cache: Set<Seq<char>>,
) -> evidence::Sweep {
    let first = selection_pass(history, registry, evidence, cache);
    let second = proposal_pass(history, registry, evidence, first.cache);
    let third = assessment_pass(history, registry, evidence, second.cache);
    let fourth = invariant_pass(history, registry, evidence, third.cache);
    if first.fault is Some {
        first
    } else if second.fault is Some {
        second
    } else if third.fault is Some {
        third
    } else if fourth.fault is Some {
        fourth
    } else {
        evidence::Sweep {
            fault: error::first(
                evidence::first_cluster_fault(
                    history,
                    history.len() as int,
                    prefix,
                    registry,
                    evidence.clusters@,
                ),
                error::first(
                    found(evidence.champions),
                    error::first(
                        found(evidence.genes),
                        error::first(
                            found(evidence.evolution),
                            error::first(
                                found(evidence.meta_evolution),
                                error::first(
                                    found(evidence.drifts),
                                    error::first(
                                        found(evidence.canaries),
                                        found(evidence.adaptations),
                                    ),
                                ),
                            ),
                        ),
                    ),
                ),
            ),
            cache: fourth.cache,
        }
    }
}

/// Verifies a history: its selections, proposals, assessments, invariant checks and cluster
/// analyses, then its Champions, Genes, evolution runs, drifts and canaries. The first fault
/// is reported. `prefix` begins the identities of the events that record analyses.
pub fn verify_history(
    history: &Vec<RecordedEvent>,
    registry: &Registry,
    prefix: &str,
    evidence: HistoryEvidence,
    cache: &mut EvidenceCache,
) -> (result: Result<(), ControlError>)
    requires
        registry.wf(),
        old(cache).wf(),
        evidence.covers(history@.len()),
    ensures
        final(cache).wf(),
        ({
            let pass = history_pass(history@, *registry, prefix@, evidence, old(cache)@);
            error::verdict(result) == error::faulted(pass.fault) && final(cache)@ == pass.cache
        }),
{
    if let Err(error) = evidence::verify_selection_history_with(
        history,
        registry,
        &evidence.selections,
        cache,
    ) {
        return Err(error);
    }
    if let Err(error) = forge_history::verify_forge_history_with(
        history,
        registry,
        &evidence.proposals,
        cache,
    ) {
        return Err(error);
    }
    if let Err(error) = forge_history::verify_forge_assessment_history_with(
        history,
        registry,
        &evidence.assessments,
        cache,
    ) {
        return Err(error);
    }
    if let Err(error) = evidence::verify_invariant_history_with(
        history,
        registry,
        &evidence.invariants,
        cache,
    ) {
        return Err(error);
    }
    if let Err(error) = evidence::verify_cluster_history(
        history,
        prefix,
        registry,
        &evidence.clusters,
    ) {
        return Err(error);
    }
    if let Err(error) = evidence.champions {
        return Err(error);
    }
    if let Err(error) = evidence.genes {
        return Err(error);
    }
    if let Err(error) = evidence.evolution {
        return Err(error);
    }
    if let Err(error) = evidence.meta_evolution {
        return Err(error);
    }
    if let Err(error) = evidence.drifts {
        return Err(error);
    }
    if let Err(error) = evidence.canaries {
        return Err(error);
    }
    evidence.adaptations
}

/// Verifies that the artifacts of a history are stored, and that the evaluations which the
/// state shows as succeeded are the recorded ones.
pub fn verify_projection(
    history: &Vec<RecordedEvent>,
    state: &ControlState,
    stored: &Vec<bool>,
    evaluations: &Vec<ArenaEvidence>,
    cache: &mut EvidenceCache,
) -> (result: Result<(), ControlError>)
    requires
        state.wf(),
        old(cache).wf(),
        stored@.len() == history@.len(),
        evaluations@.len() == state.arena_jobs.keys().len(),
    ensures
        final(cache).wf(),
        ({
            let first = evidence::sweep(
                history@,
                history@.len() as int,
                "artifacts"@,
                evidence::everything(),
                evidence::unchecked(),
                evidence::artifact_check(history@, stored@),
                old(cache)@,
            );
            let second = evidence::arena_sweep(
                state.arena_jobs.values(),
                state.arena_jobs.values().len() as int,
                evaluations@,
                first.cache,
            );
            let pass = if first.fault is Some {
                first
            } else {
                second
            };
            error::verdict(result) == error::faulted(pass.fault) && final(cache)@ == pass.cache
        }),
{
    if let Err(error) = evidence::verify_artifacts_with(history, stored, cache) {
        return Err(error);
    }
    evidence::verify_arena_evaluation_records_with(state, evaluations, cache)
}

/// Decides what a refresh of the projection leaves: the new state where all of its history
/// was verified and projects, and a failure that keeps the old one otherwise.
pub fn refresh_projection(
    verified: Result<(), ControlError>,
    projected: Result<ControlState, ControlError>,
    confirmed: Result<(), ControlError>,
) -> (result: Result<ControlState, ExecuteError>)
    ensures
        result == (match (verified, projected, confirmed) {
            (Ok(()), Ok(state), Ok(())) => Ok(state),
            _ => Err(ExecuteError::Internal),
        }),
{
    match (verified, projected, confirmed) {
        (Ok(()), Ok(state), Ok(())) => Ok(state),
        _ => Err(ExecuteError::Internal),
    }
}

/// Answers a replay: what verified history projects to has to show the same as the live state.
/// The answer carries the digest of the canonical bytes of what it shows, where it has them.
pub fn replay_response(
    replayed: Result<ControlState, ControlError>,
    live: &ControlState,
    canonical: Option<&Vec<u8>>,
) -> (result: Result<ResponseData, ExecuteError>)
    requires
        replayed matches Ok(state) ==> state.wf(),
        live.wf(),
    ensures
        match (replayed, canonical) {
            (Ok(state), Some(canonical)) => if !snapshot::same_snapshot(state, *live) {
                result == Err::<ResponseData, ExecuteError>(ExecuteError::Internal)
            } else {
                result matches Ok(
                    ResponseData::Replay { event_count, frozen, active_runs, projection_hash },
                ) && event_count == state@.event_count && frozen == state@.frozen && active_runs
                    == state@.active_runs.len() && projection_hash@ == hex::hex(
                    digest::blake3_hash(canonical@),
                )
            },
            _ => result == Err::<ResponseData, ExecuteError>(ExecuteError::Internal),
        },
{
    let (state, canonical): (ControlState, &Vec<u8>) = match (replayed, canonical) {
        (Ok(state), Some(canonical)) => (state, canonical),
        _ => {
            return Err(ExecuteError::Internal);
        },
    };
    if !snapshot::is_same_snapshot(&state, live) {
        return Err(ExecuteError::Internal);
    }
    let active_runs: usize = state.active_runs.len();
    proof {
        state.active_runs.lemma_len();
    }
    Ok(
        ResponseData::Replay {
            event_count: state.event_count,
            frozen: state.frozen,
            active_runs,
            projection_hash: digest::blake3_hex(canonical.as_slice()),
        },
    )
}

/// What a pass remembers stays remembered: verifying a history only adds to the cache.
pub proof fn verified_histories_stay_remembered(
    history: Seq<RecordedEvent>,
    registry: Registry,
    prefix: Seq<char>,
    evidence: HistoryEvidence,
    cache: Set<Seq<char>>,
)
    ensures
        cache.subset_of(history_pass(history, registry, prefix, evidence, cache).cache),
{
    let first = selection_pass(history, registry, evidence, cache);
    let second = proposal_pass(history, registry, evidence, first.cache);
    let third = assessment_pass(history, registry, evidence, second.cache);
    let length = history.len() as int;
    evidence::passes_keep_what_is_remembered(
        history,
        length,
        "selection"@,
        evidence::selections(),
        evidence::unchecked(),
        evidence::selection_check(history, registry, evidence.selections@),
        cache,
    );
    evidence::passes_keep_what_is_remembered(
        history,
        length,
        "forge"@,
        forge_history::proposals(),
        forge_history::early_proposal_check(history),
        forge_history::late_proposal_check(history, registry, evidence.proposals@),
        first.cache,
    );
    evidence::passes_keep_what_is_remembered(
        history,
        length,
        "forge_assessment"@,
        forge_history::assessments(),
        evidence::unchecked(),
        forge_history::assessment_check(history, registry, evidence.assessments@),
        second.cache,
    );
    evidence::passes_keep_what_is_remembered(
        history,
        length,
        "invariant"@,
        evidence::invariant_checks(),
        evidence::unchecked(),
        evidence::invariant_check(history, registry, evidence.invariants@),
        third.cache,
    );
}

} // verus!
