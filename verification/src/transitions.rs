//! Champion, drift, canary and Gene commands: when they are open and what they lead to.

use crate::commands;
use crate::error;
use crate::error::{rejected, ExecuteError, Refusal};
use crate::hex;
use crate::protocol::{
    CanaryStage, CanaryTransitionKind, CanaryTransitionPayload, CanaryTransitionRecord,
    ChampionTransitionPayload, ChampionTransitionRecord, Command, DriftRecord, DriftRecordPayload,
    GeneExtractedPayload, GeneRecord, GeneSpeciesPayload, GeneSpeciesRecord,
    GeneTransferAppliedPayload, GeneTransferRecord, GeneTransferRecordedPayload,
};
use crate::registry::Registry;
use crate::text;
use vstd::prelude::*;
use vstd::string::*;

verus! {

/// A requested Champion transition.
#[derive(Debug, PartialEq, Eq)]
pub enum ChampionRequest {
    /// Make a Genome the first Champion of a World.
    Seed {
        /// The World.
        world_id: String,
        /// The Genome.
        genome_id: String,
        /// Why.
        reason: String,
    },
    /// Promote the child that an assessment passed.
    Promote {
        /// The assessment.
        assessment_id: String,
    },
    /// Return to the Champion before the latest.
    Rollback {
        /// The World.
        world_id: String,
        /// Why.
        reason: String,
    },
}

/// A requested canary transition.
#[derive(Debug, PartialEq, Eq)]
pub enum CanaryRequest {
    /// Start a canary of a candidate.
    Start {
        /// The World.
        world_id: String,
        /// The candidate.
        candidate_genome_id: String,
        /// The assessment of the candidate.
        assessment_id: String,
    },
    /// Advance a canary on fresh evidence.
    Advance {
        /// The evaluation that is the evidence.
        evidence_evaluation_id: String,
    },
    /// Check a completed canary against live evidence.
    LiveCheck {
        /// The evaluation that is the evidence.
        evidence_evaluation_id: String,
    },
}

/// Reads the transition that a Champion command requests, with its identity.
pub fn champion_transition_command(command: Command) -> (result: Result<
    (String, ChampionRequest),
    ExecuteError,
>)
    ensures
        result == (match command {
            Command::ChampionSeed { transition_id, world_id, genome_id, reason } => Ok(
                (transition_id, ChampionRequest::Seed { world_id, genome_id, reason }),
            ),
            Command::ChampionPromote { transition_id, assessment_id } => Ok(
                (transition_id, ChampionRequest::Promote { assessment_id }),
            ),
            Command::ChampionRollback { transition_id, world_id, reason } => Ok(
                (transition_id, ChampionRequest::Rollback { world_id, reason }),
            ),
            _ => Err(ExecuteError::Internal),
        }),
{
    match command {
        Command::ChampionSeed { transition_id, world_id, genome_id, reason } => Ok(
            (transition_id, ChampionRequest::Seed { world_id, genome_id, reason }),
        ),
        Command::ChampionPromote { transition_id, assessment_id } => Ok(
            (transition_id, ChampionRequest::Promote { assessment_id }),
        ),
        Command::ChampionRollback { transition_id, world_id, reason } => Ok(
            (transition_id, ChampionRequest::Rollback { world_id, reason }),
        ),
        _ => Err(ExecuteError::Internal),
    }
}

/// Reads the transition that a canary command requests, with the canary it is for.
pub fn canary_transition_command(command: Command) -> (result: Result<
    (String, CanaryRequest),
    ExecuteError,
>)
    ensures
        result == (match command {
            Command::CanaryStart { canary_id, world_id, candidate_genome_id, assessment_id } => Ok(
                (canary_id, CanaryRequest::Start { world_id, candidate_genome_id, assessment_id }),
            ),
            Command::CanaryAdvance { canary_id, evidence_evaluation_id } => Ok(
                (canary_id, CanaryRequest::Advance { evidence_evaluation_id }),
            ),
            Command::CanaryLiveCheck { canary_id, evidence_evaluation_id } => Ok(
                (canary_id, CanaryRequest::LiveCheck { evidence_evaluation_id }),
            ),
            _ => Err(ExecuteError::Internal),
        }),
{
    match command {
        Command::CanaryStart { canary_id, world_id, candidate_genome_id, assessment_id } => Ok(
            (canary_id, CanaryRequest::Start { world_id, candidate_genome_id, assessment_id }),
        ),
        Command::CanaryAdvance { canary_id, evidence_evaluation_id } => Ok(
            (canary_id, CanaryRequest::Advance { evidence_evaluation_id }),
        ),
        Command::CanaryLiveCheck { canary_id, evidence_evaluation_id } => Ok(
            (canary_id, CanaryRequest::LiveCheck { evidence_evaluation_id }),
        ),
        _ => Err(ExecuteError::Internal),
    }
}

/// When a transition is open: nothing else runs, and the identity is usable.
pub open spec fn transition_opening(working: bool, id: Seq<char>, fault: &'static str) -> Result<
    (),
    ExecuteError,
> {
    if working {
        Err(ExecuteError::Busy)
    } else if !commands::job_identity(id) {
        Err(ExecuteError::Invalid(fault))
    } else {
        Ok(())
    }
}

/// Opens a transition. `working` tells whether a job or a paired evaluation
/// runs.
pub fn open_transition(working: bool, id: &str, fault: &'static str) -> (result: Result<
    (),
    ExecuteError,
>)
    ensures
        result == transition_opening(working, id@, fault),
{
    if working {
        return Err(ExecuteError::Busy);
    }
    match commands::validate_job_id(id) {
        Ok(()) => Ok(()),
        Err(_) => Err(ExecuteError::Invalid(fault)),
    }
}

/// Opens a Champion transition.
pub fn open_champion_transition(working: bool, transition_id: &str) -> (result: Result<
    (),
    ExecuteError,
>)
    ensures
        result == transition_opening(working, transition_id@, "transition_id is invalid"),
{
    open_transition(working, transition_id, "transition_id is invalid")
}

/// Opens a drift record.
pub fn open_drift(working: bool, drift_id: &str) -> (result: Result<(), ExecuteError>)
    ensures
        result == transition_opening(working, drift_id@, "drift_id is invalid"),
{
    open_transition(working, drift_id, "drift_id is invalid")
}

/// Opens a canary transition.
pub fn open_canary(working: bool, canary_id: &str) -> (result: Result<(), ExecuteError>)
    ensures
        result == transition_opening(working, canary_id@, "canary_id is invalid"),
{
    open_transition(working, canary_id, "canary_id is invalid")
}

/// Why the extraction of a Gene is not open.
pub open spec fn extraction_opening(
    working: bool,
    gene_id: Seq<char>,
    promotion_transition_id: Seq<char>,
) -> Result<(), ExecuteError> {
    match transition_opening(working, gene_id, "gene_id is invalid") {
        Err(error) => Err(error),
        Ok(()) => if commands::job_identity(promotion_transition_id) {
            Ok(())
        } else {
            Err(ExecuteError::Invalid("promotion_transition_id is invalid"))
        },
    }
}

/// Opens a Gene extraction.
pub fn open_extraction(working: bool, gene_id: &str, promotion_transition_id: &str) -> (result: Result<
    (),
    ExecuteError,
>)
    ensures
        result == extraction_opening(working, gene_id@, promotion_transition_id@),
{
    if let Err(error) = open_transition(working, gene_id, "gene_id is invalid") {
        return Err(error);
    }
    match commands::validate_job_id(promotion_transition_id) {
        Ok(()) => Ok(()),
        Err(_) => Err(ExecuteError::Invalid("promotion_transition_id is invalid")),
    }
}

/// Why the application of a Gene is not open.
pub open spec fn transfer_opening(frozen: bool, trial_id: Seq<char>) -> Result<(), ExecuteError> {
    if frozen {
        Err(ExecuteError::Invalid("evolution is frozen"))
    } else if !commands::job_identity(trial_id) {
        Err(ExecuteError::Invalid("trial_id is invalid"))
    } else {
        Ok(())
    }
}

/// Opens a Gene transfer: evolution is not frozen, and the identity is usable.
pub fn open_transfer(frozen: bool, trial_id: &str) -> (result: Result<(), ExecuteError>)
    ensures
        result == transfer_opening(frozen, trial_id@),
{
    if frozen {
        return Err(ExecuteError::Invalid("evolution is frozen"));
    }
    match commands::validate_job_id(trial_id) {
        Ok(()) => Ok(()),
        Err(_) => Err(ExecuteError::Invalid("trial_id is invalid")),
    }
}

/// Refuses a transfer whose child is registered already.
pub fn admit_transfer(registry: &Registry, child_genome_id: &str) -> (result: Result<
    (),
    ExecuteError,
>)
    requires
        registry.wf(),
    ensures
        error::outcome(result) == (if registry.genomes@.contains_key(child_genome_id@) {
            Err(Refusal::Rejected("derived transfer child identity is already registered"@))
        } else {
            Ok(())
        }),
{
    if registry.genomes.contains_key(child_genome_id) {
        Err(rejected("derived transfer child identity is already registered"))
    } else {
        Ok(())
    }
}

/// Why the identities of a transfer's outcome are refused.
pub open spec fn outcome_opening(working: bool, trial_id: Seq<char>, evaluation_id: Seq<char>) -> Result<
    (),
    ExecuteError,
> {
    match transition_opening(working, trial_id, "trial_id is invalid") {
        Err(error) => Err(error),
        Ok(()) => if text::blank(evaluation_id) {
            Err(ExecuteError::Invalid("evaluation_id is required"))
        } else {
            Ok(())
        },
    }
}

/// Opens a measured transfer.
pub fn open_transfer_record(working: bool, trial_id: &str, evaluation_id: &str) -> (result: Result<
    (),
    ExecuteError,
>)
    ensures
        result == outcome_opening(working, trial_id@, evaluation_id@),
{
    if let Err(error) = open_transition(working, trial_id, "trial_id is invalid") {
        return Err(error);
    }
    if text::is_blank(evaluation_id) {
        return Err(ExecuteError::Invalid("evaluation_id is required"));
    }
    Ok(())
}

/// Why the founding of a species is not open.
pub open spec fn speciation_opening(
    registry: Registry,
    working: bool,
    species_id: Seq<char>,
    domain_world_id: Seq<char>,
) -> Result<(), ExecuteError> {
    match transition_opening(working, species_id, "species_id is invalid") {
        Err(error) => Err(error),
        Ok(()) => if registry.worlds@.contains_key(domain_world_id) {
            Ok(())
        } else {
            Err(ExecuteError::NotFound)
        },
    }
}

/// Opens a speciation: its domain is a registered World.
pub fn open_speciation(registry: &Registry, working: bool, species_id: &str, domain_world_id: &str) -> (result: Result<
    (),
    ExecuteError,
>)
    requires
        registry.wf(),
    ensures
        result == speciation_opening(*registry, working, species_id@, domain_world_id@),
{
    if let Err(error) = open_transition(working, species_id, "species_id is invalid") {
        return Err(error);
    }
    if registry.worlds.contains_key(domain_world_id) {
        Ok(())
    } else {
        Err(ExecuteError::NotFound)
    }
}

/// What a transition command comes to.
#[derive(Debug, PartialEq, Eq)]
pub enum Transition<R, P> {
    /// It was recorded before: the answer is that record.
    Existing(R),
    /// It is recorded now.
    Record(P),
}

/// What is known of a transition. Each is only asked for once all before it held.
pub struct TransitionFacts<R, P> {
    /// Whether the history could be read and its transitions verified.
    pub verified: bool,
    /// The record of the same transition, where there is one.
    pub existing: Result<Option<R>, ExecuteError>,
    /// What the transition would record under its policy.
    pub payload: Result<P, ExecuteError>,
}

/// What a transition comes to once it is open.
pub open spec fn transitioned<R, P>(
    opening: Result<(), ExecuteError>,
    facts: TransitionFacts<R, P>,
) -> Result<Transition<R, P>, ExecuteError> {
    if opening is Err {
        Err(opening->Err_0)
    } else if !facts.verified {
        Err(ExecuteError::Internal)
    } else {
        match (facts.existing, facts.payload) {
            (Err(error), _) => Err(error),
            (Ok(Some(record)), _) => Ok(Transition::Existing(record)),
            (Ok(None), Err(error)) => Err(error),
            (Ok(None), Ok(payload)) => Ok(Transition::Record(payload)),
        }
    }
}

/// Settles a transition: one that was recorded before is answered with its record, so that
/// asking again records nothing.
fn settle_transition<R, P>(opening: Result<(), ExecuteError>, facts: TransitionFacts<R, P>) -> (result: Result<
    Transition<R, P>,
    ExecuteError,
>)
    ensures
        result == transitioned(opening, facts),
{
    if let Err(error) = opening {
        return Err(error);
    }
    if !facts.verified {
        return Err(ExecuteError::Internal);
    }
    match facts.existing {
        Err(error) => Err(error),
        Ok(Some(record)) => Ok(Transition::Existing(record)),
        Ok(None) => match facts.payload {
            Err(error) => Err(error),
            Ok(payload) => Ok(Transition::Record(payload)),
        },
    }
}

/// Settles a Champion transition.
pub fn transition_champion(
    working: bool,
    transition_id: &str,
    facts: TransitionFacts<ChampionTransitionRecord, ChampionTransitionPayload>,
) -> (result: Result<Transition<ChampionTransitionRecord, ChampionTransitionPayload>, ExecuteError>)
    ensures
        result == transitioned(
            transition_opening(working, transition_id@, "transition_id is invalid"),
            facts,
        ),
{
    settle_transition(open_champion_transition(working, transition_id), facts)
}

/// Settles a drift record.
pub fn record_drift(
    working: bool,
    drift_id: &str,
    facts: TransitionFacts<DriftRecord, DriftRecordPayload>,
) -> (result: Result<Transition<DriftRecord, DriftRecordPayload>, ExecuteError>)
    ensures
        result == transitioned(
            transition_opening(working, drift_id@, "drift_id is invalid"),
            facts,
        ),
{
    settle_transition(open_drift(working, drift_id), facts)
}

/// Settles the extraction of a Gene.
pub fn gene_extract(
    working: bool,
    gene_id: &str,
    promotion_transition_id: &str,
    facts: TransitionFacts<GeneRecord, GeneExtractedPayload>,
) -> (result: Result<Transition<GeneRecord, GeneExtractedPayload>, ExecuteError>)
    ensures
        result == transitioned(
            extraction_opening(working, gene_id@, promotion_transition_id@),
            facts,
        ),
{
    settle_transition(open_extraction(working, gene_id, promotion_transition_id), facts)
}

/// Settles the application of a Gene to another Genome. The child it derives must be new.
pub fn gene_transfer_apply(
    registry: &Registry,
    frozen: bool,
    trial_id: &str,
    facts: TransitionFacts<GeneTransferRecord, GeneTransferAppliedPayload>,
) -> (result: Result<Transition<GeneTransferRecord, GeneTransferAppliedPayload>, ExecuteError>)
    requires
        registry.wf(),
    ensures
        ({
            let settled = transitioned(transfer_opening(frozen, trial_id@), facts);
            match settled {
                Ok(Transition::Record(payload)) => if registry.genomes@.contains_key(
                    payload.child.genome_id@,
                ) {
                    error::outcome(result) == Err::<
                        Transition<GeneTransferRecord, GeneTransferAppliedPayload>,
                        Refusal,
                    >(Refusal::Rejected("derived transfer child identity is already registered"@))
                } else {
                    result == settled
                },
                _ => result == settled,
            }
        }),
{
    match settle_transition(open_transfer(frozen, trial_id), facts) {
        Ok(Transition::Record(payload)) => match admit_transfer(
            registry,
            payload.child.genome_id.as_str(),
        ) {
            Ok(()) => Ok(Transition::Record(payload)),
            Err(error) => Err(error),
        },
        other => other,
    }
}

/// What is known of the application of a Gene that an outcome is recorded for.
pub struct AppliedTransfer {
    /// Whether the application is recorded.
    pub recorded: bool,
    /// Whether its record decodes.
    pub decodes: bool,
}

/// Settles the outcome of a transfer. Its application must be on record.
pub fn gene_transfer_record(
    working: bool,
    trial_id: &str,
    evaluation_id: &str,
    applied: AppliedTransfer,
    facts: TransitionFacts<GeneTransferRecord, GeneTransferRecordedPayload>,
) -> (result: Result<Transition<GeneTransferRecord, GeneTransferRecordedPayload>, ExecuteError>)
    ensures
        result == (match outcome_opening(working, trial_id@, evaluation_id@) {
            Err(error) => Err(error),
            Ok(()) => if !facts.verified {
                Err(ExecuteError::Internal)
            } else if !applied.recorded {
                Err(ExecuteError::NotFound)
            } else if !applied.decodes {
                Err(ExecuteError::Internal)
            } else {
                transitioned(Ok(()), facts)
            },
        }),
{
    if let Err(error) = open_transfer_record(working, trial_id, evaluation_id) {
        return Err(error);
    }
    if !facts.verified {
        return Err(ExecuteError::Internal);
    }
    if !applied.recorded {
        return Err(ExecuteError::NotFound);
    }
    if !applied.decodes {
        return Err(ExecuteError::Internal);
    }
    settle_transition(Ok(()), facts)
}

/// Settles the founding of a species.
pub fn gene_speciate(
    registry: &Registry,
    working: bool,
    species_id: &str,
    domain_world_id: &str,
    facts: TransitionFacts<GeneSpeciesRecord, GeneSpeciesPayload>,
) -> (result: Result<Transition<GeneSpeciesRecord, GeneSpeciesPayload>, ExecuteError>)
    requires
        registry.wf(),
    ensures
        result == transitioned(
            speciation_opening(*registry, working, species_id@, domain_world_id@),
            facts,
        ),
{
    settle_transition(open_speciation(registry, working, species_id, domain_world_id), facts)
}

/// What a canary transition comes to.
#[derive(Debug, PartialEq, Eq)]
pub enum CanaryStep {
    /// It was recorded before: the answer is that record.
    Existing(CanaryTransitionRecord),
    /// It is recorded, after the Champion transition that goes with it where there is one.
    Record {
        /// What it records.
        payload: CanaryTransitionPayload,
        /// The Champion transition to record first.
        companion: Option<ChampionRequest>,
    },
}

/// Settles a canary transition. One that completes promotes the candidate, and one that
/// detects a live regression rolls the Champion back.
pub fn transition_canary(
    working: bool,
    canary_id: &str,
    facts: TransitionFacts<CanaryTransitionRecord, CanaryTransitionPayload>,
) -> (result: Result<CanaryStep, ExecuteError>)
    ensures
        match transitioned(
            transition_opening(working, canary_id@, "canary_id is invalid"),
            facts,
        ) {
            Err(error) => result == Err::<CanaryStep, ExecuteError>(error),
            Ok(Transition::Existing(record)) => result == Ok::<CanaryStep, ExecuteError>(
                CanaryStep::Existing(record),
            ),
            Ok(Transition::Record(recorded)) => result matches Ok(
                CanaryStep::Record { payload, companion },
            ) && payload == recorded && accompanies(companion, canary_id@, payload),
        },
{
    match settle_transition(open_canary(working, canary_id), facts) {
        Err(error) => Err(error),
        Ok(Transition::Existing(record)) => Ok(CanaryStep::Existing(record)),
        Ok(Transition::Record(payload)) => {
            let companion: Option<ChampionRequest> = canary_companion(canary_id, &payload);
            Ok(CanaryStep::Record { payload, companion })
        },
    }
}

/// A transition that is on record is not recorded again, whatever its policy would say of it
/// now.
pub proof fn recorded_transitions_are_answered<R, P>(
    opening: Result<(), ExecuteError>,
    facts: TransitionFacts<R, P>,
    record: R,
)
    requires
        facts.existing == Ok::<Option<R>, ExecuteError>(Some(record)),
    ensures
        !(transitioned(opening, facts) matches Ok(Transition::Record(_))),
        opening is Ok && facts.verified ==> transitioned(opening, facts) == Ok::<
            Transition<R, P>,
            ExecuteError,
        >(Transition::Existing(record)),
{
}

/// The reason that an automatic rollback records.
pub open spec fn rollback_reason(canary_id: Seq<char>, evaluation_id: Seq<char>) -> Seq<char> {
    "canary "@ + canary_id + " automatic rollback: live evaluation "@ + evaluation_id
        + " regressed beyond the documented threshold"@
}

/// The evaluation that is the evidence of a canary transition; empty where there is none.
pub open spec fn evidence_of(payload: CanaryTransitionPayload) -> Seq<char> {
    match payload.evidence {
        Some(evidence) => evidence.evidence_evaluation_id@,
        None => ""@,
    }
}

/// Whether a canary transition completes the canary.
pub open spec fn completes(payload: CanaryTransitionPayload) -> bool {
    payload.kind == CanaryTransitionKind::Advanced && payload.stage == CanaryStage::Completed
}

/// Whether a canary transition takes the canary's Champion back.
pub open spec fn takes_back(payload: CanaryTransitionPayload) -> bool {
    payload.kind == CanaryTransitionKind::LiveRegressionDetected
}

/// Whether a Champion transition goes with a canary transition.
pub open spec fn accompanies(
    companion: Option<ChampionRequest>,
    canary_id: Seq<char>,
    payload: CanaryTransitionPayload,
) -> bool {
    if completes(payload) {
        companion == Some(ChampionRequest::Promote { assessment_id: payload.assessment_id })
    } else if takes_back(payload) {
        companion matches Some(ChampionRequest::Rollback { world_id, reason }) && world_id
            == payload.world_id && reason@ == rollback_reason(canary_id, evidence_of(payload))
    } else {
        companion is None
    }
}

/// Decides which Champion transition is recorded before a canary transition: a promotion
/// with the advance that completes the canary, a rollback with a live regression, and none
/// otherwise.
pub fn canary_companion(canary_id: &str, payload: &CanaryTransitionPayload) -> (result: Option<
    ChampionRequest,
>)
    ensures
        accompanies(result, canary_id@, *payload),
{
    if payload.kind == CanaryTransitionKind::Advanced && payload.stage == CanaryStage::Completed {
        return Some(ChampionRequest::Promote { assessment_id: payload.assessment_id.clone() });
    }
    if payload.kind == CanaryTransitionKind::LiveRegressionDetected {
        let mut reason: String = "canary ".to_owned();
        reason.append(canary_id);
        reason.append(" automatic rollback: live evaluation ");
        match &payload.evidence {
            Some(evidence) => {
                reason.append(evidence.evidence_evaluation_id.as_str());
            },
            None => {
                reason.append("");
            },
        }
        reason.append(" regressed beyond the documented threshold");
        return Some(ChampionRequest::Rollback { world_id: payload.world_id.clone(), reason });
    }
    None
}

/// Binds a canary transition to the rollback that was recorded before it.
pub fn bind_rollback(payload: &mut CanaryTransitionPayload, rollback_hash: &[u8; 32])
    ensures
        final(payload).champion_rollback_event_hash matches Some(hash) && hash@ == hex::hex(
            rollback_hash@,
        ),
        *final(payload) == (CanaryTransitionPayload {
            champion_rollback_event_hash: final(payload).champion_rollback_event_hash,
            ..*old(payload)
        }),
{
    payload.champion_rollback_event_hash = Some(hex::hex_encode(rollback_hash));
}

/// Tells whether a contradiction is recorded beside a measured transfer: where history shows
/// one for the Gene and none was recorded before.
pub fn records_contradiction(recorded_before: bool, shown: bool) -> (result: bool)
    ensures
        result == (shown && !recorded_before),
{
    !recorded_before && shown
}

/// A canary transition never promotes and takes back at once, and one that does neither
/// leaves the Champion as it is.
pub proof fn canary_transitions_move_the_champion_one_way(payload: CanaryTransitionPayload)
    ensures
        !(completes(payload) && takes_back(payload)),
        payload.kind == CanaryTransitionKind::Started || payload.kind
            == CanaryTransitionKind::Aborted ==> !completes(payload) && !takes_back(payload),
        payload.kind == CanaryTransitionKind::Advanced && payload.stage != CanaryStage::Completed
            ==> !completes(payload) && !takes_back(payload),
{
}

} // verus!
