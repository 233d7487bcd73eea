//! What transitions of Champions, canaries, drifts and genes record, said of their inputs and
//! results alone.

use crate::error::ExecuteError;
use crate::hex;
use crate::protocol::{
    CanaryStage, CanaryTransitionKind, CanaryTransitionPayload, CanaryTransitionRecord,
    ChampionTransitionPayload, ChampionTransitionRecord, Command, DriftRecord, DriftRecordPayload,
    GeneExtractedPayload, GeneRecord, GeneSpeciesPayload, GeneSpeciesRecord,
    GeneTransferAppliedPayload, GeneTransferRecord, GeneTransferRecordedPayload,
};
use crate::registry::Registry;
use crate::transitions;
use crate::transitions::{
    AppliedTransfer, CanaryRequest, CanaryStep, ChampionRequest, Transition, TransitionFacts,
};
use vstd::prelude::*;

verus! {

/// A command on a Champion asks for what it names: seeding puts the named Genome into the named
/// World, promoting goes by the named assessment, and rolling back is of the named World.
pub proof fn champion_commands_ask_for_what_they_name(
    command: Command,
    transition_id: String,
    request: ChampionRequest,
)
    requires
        call_ensures(
            transitions::champion_transition_command,
            (command,),
            Ok::<(String, ChampionRequest), ExecuteError>((transition_id, request)),
        ),
    ensures
        request is Seed ==> command is ChampionSeed && transition_id
            == command->ChampionSeed_transition_id && request->Seed_world_id
            == command->ChampionSeed_world_id && request->genome_id
            == command->ChampionSeed_genome_id && request->Seed_reason
            == command->ChampionSeed_reason,
        request is Promote ==> command is ChampionPromote && transition_id
            == command->ChampionPromote_transition_id && request->assessment_id
            == command->ChampionPromote_assessment_id,
        request is Rollback ==> command is ChampionRollback && transition_id
            == command->ChampionRollback_transition_id && request->Rollback_world_id
            == command->ChampionRollback_world_id && request->Rollback_reason
            == command->ChampionRollback_reason,
{
}

/// A command on a canary asks for what it names: starting takes the named candidate, which is
/// not the World and not the assessment, and the other steps go by the named evaluation.
pub proof fn canary_commands_ask_for_what_they_name(
    command: Command,
    canary_id: String,
    request: CanaryRequest,
)
    requires
        call_ensures(
            transitions::canary_transition_command,
            (command,),
            Ok::<(String, CanaryRequest), ExecuteError>((canary_id, request)),
        ),
    ensures
        request is Start ==> command is CanaryStart && canary_id == command->CanaryStart_canary_id
            && request->candidate_genome_id == command->CanaryStart_candidate_genome_id
            && request->world_id == command->CanaryStart_world_id && request->assessment_id
            == command->CanaryStart_assessment_id,
        request is Advance ==> command is CanaryAdvance && canary_id
            == command->CanaryAdvance_canary_id && request->Advance_evidence_evaluation_id
            == command->CanaryAdvance_evidence_evaluation_id,
        request is LiveCheck ==> command is CanaryLiveCheck && canary_id
            == command->CanaryLiveCheck_canary_id && request->LiveCheck_evidence_evaluation_id
            == command->CanaryLiveCheck_evidence_evaluation_id,
{
}

/// A Champion changes by what was derived from verified history, while no other work is under
/// way, and a transition that is recorded already is answered as it is recorded.
pub proof fn champions_change_as_derived(
    working: bool,
    transition_id: &str,
    facts: TransitionFacts<ChampionTransitionRecord, ChampionTransitionPayload>,
    result: Result<Transition<ChampionTransitionRecord, ChampionTransitionPayload>, ExecuteError>,
)
    requires
        call_ensures(transitions::transition_champion, (working, transition_id, facts), result),
    ensures
        result matches Ok(Transition::Existing(record)) ==> facts.existing == Ok::<
            Option<ChampionTransitionRecord>,
            ExecuteError,
        >(Some(record)),
        result matches Ok(Transition::Record(payload)) ==> facts.payload == Ok::<
            ChampionTransitionPayload,
            ExecuteError,
        >(payload) && facts.existing == Ok::<Option<ChampionTransitionRecord>, ExecuteError>(None),
        result is Ok ==> facts.verified,
        facts.existing is Err ==> result is Err,
        working ==> result is Err,
{
}

/// A drift is recorded as it was derived from verified history, while no other work is under
/// way, and one that is recorded already is answered as it is recorded.
pub proof fn drifts_are_recorded_as_derived(
    working: bool,
    drift_id: &str,
    facts: TransitionFacts<DriftRecord, DriftRecordPayload>,
    result: Result<Transition<DriftRecord, DriftRecordPayload>, ExecuteError>,
)
    requires
        call_ensures(transitions::record_drift, (working, drift_id, facts), result),
    ensures
        result matches Ok(Transition::Existing(record)) ==> facts.existing == Ok::<
            Option<DriftRecord>,
            ExecuteError,
        >(Some(record)),
        result matches Ok(Transition::Record(payload)) ==> facts.payload == Ok::<
            DriftRecordPayload,
            ExecuteError,
        >(payload) && facts.existing == Ok::<Option<DriftRecord>, ExecuteError>(None),
        result is Ok ==> facts.verified,
        facts.existing is Err ==> result is Err,
        working ==> result is Err,
{
}

/// A gene is extracted as it was derived from verified history, while no other work is under
/// way, and one that is recorded already is answered as it is recorded.
pub proof fn genes_are_extracted_as_derived(
    working: bool,
    gene_id: &str,
    promotion_transition_id: &str,
    facts: TransitionFacts<GeneRecord, GeneExtractedPayload>,
    result: Result<Transition<GeneRecord, GeneExtractedPayload>, ExecuteError>,
)
    requires
        call_ensures(transitions::gene_extract, (working, gene_id, promotion_transition_id, facts), result),
    ensures
        result matches Ok(Transition::Existing(record)) ==> facts.existing == Ok::<
            Option<GeneRecord>,
            ExecuteError,
        >(Some(record)),
        result matches Ok(Transition::Record(payload)) ==> facts.payload == Ok::<
            GeneExtractedPayload,
            ExecuteError,
        >(payload) && facts.existing == Ok::<Option<GeneRecord>, ExecuteError>(None),
        result is Ok ==> facts.verified,
        facts.existing is Err ==> result is Err,
        working ==> result is Err,
{
}

/// A gene is transferred into a child that is not registered yet, as it was derived from
/// verified history, unless evolution is frozen.
pub proof fn transfers_make_new_children(
    registry: Registry,
    frozen: bool,
    trial_id: &str,
    facts: TransitionFacts<GeneTransferRecord, GeneTransferAppliedPayload>,
    result: Result<Transition<GeneTransferRecord, GeneTransferAppliedPayload>, ExecuteError>,
)
    requires
        registry.wf(),
        call_ensures(transitions::gene_transfer_apply, (&registry, frozen, trial_id, facts), result),
    ensures
        result matches Ok(Transition::Existing(record)) ==> facts.existing == Ok::<
            Option<GeneTransferRecord>,
            ExecuteError,
        >(Some(record)),
        result matches Ok(Transition::Record(payload)) ==> facts.payload == Ok::<
            GeneTransferAppliedPayload,
            ExecuteError,
        >(payload) && facts.existing == Ok::<Option<GeneTransferRecord>, ExecuteError>(None),
        result is Ok ==> facts.verified,
        facts.existing is Err ==> result is Err,
        frozen ==> result is Err,
        result matches Ok(Transition::Record(payload)) ==> !registry.genomes@.contains_key(
            payload.child.genome_id@,
        ),
{
}

/// The outcome of a transfer is recorded only of a transfer that was applied, as it was derived
/// from verified history, while no other work is under way.
pub proof fn transfers_are_measured_after_they_were_applied(
    working: bool,
    trial_id: &str,
    evaluation_id: &str,
    applied: AppliedTransfer,
    facts: TransitionFacts<GeneTransferRecord, GeneTransferRecordedPayload>,
    result: Result<Transition<GeneTransferRecord, GeneTransferRecordedPayload>, ExecuteError>,
)
    requires
        call_ensures(transitions::gene_transfer_record, (working, trial_id, evaluation_id, applied, facts), result),
    ensures
        result matches Ok(Transition::Existing(record)) ==> facts.existing == Ok::<
            Option<GeneTransferRecord>,
            ExecuteError,
        >(Some(record)),
        result matches Ok(Transition::Record(payload)) ==> facts.payload == Ok::<
            GeneTransferRecordedPayload,
            ExecuteError,
        >(payload) && facts.existing == Ok::<Option<GeneTransferRecord>, ExecuteError>(None),
        result is Ok ==> facts.verified,
        facts.existing is Err ==> result is Err,
        working ==> result is Err,
        result is Ok ==> applied.recorded && applied.decodes,
{
}

/// A species is recorded for a registered World, as it was derived from verified history, while
/// no other work is under way.
pub proof fn species_arise_in_known_worlds(
    registry: Registry,
    working: bool,
    species_id: &str,
    domain_world_id: &str,
    facts: TransitionFacts<GeneSpeciesRecord, GeneSpeciesPayload>,
    result: Result<Transition<GeneSpeciesRecord, GeneSpeciesPayload>, ExecuteError>,
)
    requires
        registry.wf(),
        call_ensures(transitions::gene_speciate, (&registry, working, species_id, domain_world_id, facts), result),
    ensures
        result matches Ok(Transition::Existing(record)) ==> facts.existing == Ok::<
            Option<GeneSpeciesRecord>,
            ExecuteError,
        >(Some(record)),
        result matches Ok(Transition::Record(payload)) ==> facts.payload == Ok::<
            GeneSpeciesPayload,
            ExecuteError,
        >(payload) && facts.existing == Ok::<Option<GeneSpeciesRecord>, ExecuteError>(None),
        result is Ok ==> facts.verified,
        facts.existing is Err ==> result is Err,
        working ==> result is Err,
        result is Ok ==> registry.worlds@.contains_key(domain_world_id@),
{
}

/// A canary that completes promotes by its own assessment, a canary whose live check regressed
/// takes its Champion back in its own World, and no other step changes a Champion.
pub proof fn canaries_promote_and_take_back(
    canary_id: &str,
    payload: CanaryTransitionPayload,
    companion: Option<ChampionRequest>,
)
    requires
        call_ensures(transitions::canary_companion, (canary_id, &payload), companion),
    ensures
        companion matches Some(ChampionRequest::Promote { assessment_id }) ==> assessment_id
            == payload.assessment_id,
        companion matches Some(ChampionRequest::Rollback { world_id, .. }) ==> world_id
            == payload.world_id,
        !(companion is Some && companion->0 is Seed),
        companion is Some && companion->0 is Promote <==> payload.kind
            == CanaryTransitionKind::Advanced && payload.stage == CanaryStage::Completed,
        companion is Some && companion->0 is Rollback <==> payload.kind
            == CanaryTransitionKind::LiveRegressionDetected,
{
}

/// A step of a canary is recorded as it was derived from verified history, while no other work
/// is under way; one that is recorded already is answered as it is recorded and changes no
/// Champion again.
pub proof fn canaries_change_as_derived(
    working: bool,
    canary_id: &str,
    facts: TransitionFacts<CanaryTransitionRecord, CanaryTransitionPayload>,
    result: Result<CanaryStep, ExecuteError>,
)
    requires
        call_ensures(transitions::transition_canary, (working, canary_id, facts), result),
    ensures
        working ==> result is Err,
        result is Ok ==> facts.verified,
        result matches Ok(CanaryStep::Existing(record)) ==> facts.existing == Ok::<
            Option<CanaryTransitionRecord>,
            ExecuteError,
        >(Some(record)),
        result matches Ok(CanaryStep::Record { payload, companion }) ==> {
            &&& facts.payload == Ok::<CanaryTransitionPayload, ExecuteError>(payload)
            &&& facts.existing == Ok::<Option<CanaryTransitionRecord>, ExecuteError>(None)
            &&& companion is Some && companion->0 is Promote <==> payload.kind
                == CanaryTransitionKind::Advanced && payload.stage == CanaryStage::Completed
            &&& companion is Some && companion->0 is Rollback <==> payload.kind
                == CanaryTransitionKind::LiveRegressionDetected
            &&& companion is Some && companion->0 is Promote ==> companion->0->assessment_id
                == payload.assessment_id
            &&& companion is Some && companion->0 is Rollback ==> companion->0->Rollback_world_id
                == payload.world_id
        },
{
}

/// A canary that took its Champion back refers to the event that did so, and nothing else of it
/// changes by that.
pub proof fn rollbacks_are_bound_by_their_hash(
    payload: &mut CanaryTransitionPayload,
    rollback_hash: [u8; 32],
)
    requires
        call_ensures(transitions::bind_rollback, (payload, &rollback_hash), ()),
    ensures
        final(payload).champion_rollback_event_hash matches Some(hash) && hash@ == hex::hex(
            rollback_hash@,
        ),
        final(payload).kind == old(payload).kind && final(payload).stage == old(payload).stage,
        final(payload).world_id == old(payload).world_id,
        final(payload).candidate_genome_id == old(payload).candidate_genome_id,
        final(payload).assessment_id == old(payload).assessment_id && final(payload).evidence
            == old(payload).evidence,
{
}

/// A contradiction is recorded the first time that it shows.
pub proof fn contradictions_are_recorded_once(recorded_before: bool, shown: bool, result: bool)
    requires
        call_ensures(transitions::records_contradiction, (recorded_before, shown), result),
    ensures
        result ==> shown && !recorded_before,
        shown ==> result || recorded_before,
{
}

} // verus!
