//! Why requests are refused, said of their inputs and of the kind of refusal alone.

use crate::arena_submit;
use crate::arena_submit::PairOpening;
use crate::assess;
use crate::assess::Assessing;
use crate::error::ExecuteError;
use crate::evolution;
use crate::evolution::{EvolutionFacts, EvolutionOpening};
use crate::forge;
use crate::forge::ProposalRequest;
use crate::forge_history::VerifiedSelection;
use crate::job_submit;
use crate::job_submit::JobOpening;
use crate::proposal;
use crate::proposal::{ChildReply, ProposalEnd, ProposalFacts, Settled};
use crate::protocol::{Command, GeneTransferAppliedPayload, GeneTransferRecord, JobState};
use crate::records::GenomeRecord;
use crate::registry::Registry;
use crate::remote;
use crate::remote::RemoteSubmitStep;
use crate::runs;
use crate::runs::{ArenaFault, EvaluationRequest, Registration, RunContext};
use crate::state::{ControlState, RecordedEvent};
use crate::transitions;
use crate::transitions::{Transition, TransitionFacts};
use vstd::prelude::*;

verus! {

/// No event of a history has an identity.
pub open spec fn missing(history: Seq<RecordedEvent>, event_id: Seq<char>) -> bool {
    forall|at: int| 0 <= at < history.len() ==> (#[trigger] history[at]).event.event_id@ != event_id
}

/// What is missing has no place.
proof fn missing_events_have_no_place(history: Seq<RecordedEvent>, event_id: Seq<char>)
    requires
        missing(history, event_id),
    ensures
        forge::place_of_event(history, event_id) is None,
{
    if forge::place_of_event(history, event_id) is Some {
        forge::place_holds(history, event_id);
        let at = forge::place_of_event(history, event_id)->0;
        assert(history[at].event.event_id@ == event_id);
    }
}

/// A child is not assessed while other work is under way. Nothing is assessed of a proposal or
/// of a selection that is not recorded, nor by a selection that measured another child.
pub proof fn assessments_are_refused_for_their_reason(
    working: bool,
    verified: bool,
    history: Vec<RecordedEvent>,
    registry: Registry,
    assessment_id: &str,
    proposal_id: &str,
    selection_event_id: &str,
    selection: Option<VerifiedSelection>,
    result: Result<Assessing, ExecuteError>,
)
    requires
        registry.wf(),
        call_ensures(
            assess::assess_genome,
            (
                working,
                verified,
                &history,
                &registry,
                assessment_id,
                proposal_id,
                selection_event_id,
                selection,
            ),
            result,
        ),
    ensures
        working ==> result == Err::<Assessing, ExecuteError>(ExecuteError::Busy),
        result == Err::<Assessing, ExecuteError>(ExecuteError::Busy) ==> working,
        result is Err && result->Err_0 is NotFound ==> missing(
            history@,
            "forge:"@ + proposal_id@ + ":proposed"@,
        ) || missing(history@, selection_event_id@),
        missing(history@, "forge:"@ + proposal_id@ + ":proposed"@) ==> !(result is Ok
            && result->Ok_0 is Record),
        missing(history@, selection_event_id@) ==> !(result is Ok && result->Ok_0 is Record),
{
    let event_id = "forge:"@ + proposal_id@ + ":proposed"@;
    if missing(history@, event_id) {
        missing_events_have_no_place(history@, event_id);
    }
    if missing(history@, selection_event_id@) {
        missing_events_have_no_place(history@, selection_event_id@);
    }
    if forge::place_of_event(history@, event_id) is None {
        unplaced_events_are_missing(history@, event_id);
    }
    if forge::place_of_event(history@, selection_event_id@) is None {
        unplaced_events_are_missing(history@, selection_event_id@);
    }
}

/// What has no place is missing.
proof fn unplaced_events_are_missing(history: Seq<RecordedEvent>, event_id: Seq<char>)
    requires
        forge::place_of_event(history, event_id) is None,
    ensures
        missing(history, event_id),
    decreases history.len(),
{
    if history.len() > 0 {
        let earlier = history.drop_last();
        unplaced_events_are_missing(earlier, event_id);
        assert forall|at: int| 0 <= at < history.len() implies (#[trigger] history[at]).event.event_id@
            != event_id by {
            if at < earlier.len() {
                assert(earlier[at].event.event_id@ != event_id);
            }
        }
    }
}

/// Nothing is proposed while evolution is frozen, of a selection that is not recorded, or of a
/// parent that was not selected.
pub proof fn proposals_are_refused_for_their_reason(
    frozen: bool,
    registry: Registry,
    history: Vec<RecordedEvent>,
    prefix: &str,
    request: ProposalRequest,
    facts: ProposalFacts,
    result: Result<Settled, ExecuteError>,
)
    requires
        registry.wf(),
        call_ensures(
            proposal::propose_genome_from_source,
            (frozen, &registry, &history, prefix, request, facts),
            result,
        ),
    ensures
        frozen ==> result is Err && result->Err_0 is Invalid,
        missing(history@, request.selection_event_id@) ==> result is Err && (result->Err_0
            is Invalid || result->Err_0 is NotFound),
        facts.selection is Some && facts.selection->0.receipt.candidate_genome_id@
            != request.parent_genome_id@ ==> result is Err,
        facts.selection is None ==> result is Err,
        facts.prompt_bytes is None ==> result is Err,
        result is Err ==> !(result->Err_0 is Busy),
{
    if missing(history@, request.selection_event_id@) {
        missing_events_have_no_place(history@, request.selection_event_id@);
    }
}

/// A child that the compiler rejects is rejected, and so is one that is registered already; what
/// could not be stored is a failure.
pub proof fn children_are_refused_for_their_reason(
    registry: Registry,
    history: Vec<RecordedEvent>,
    proposal_id: String,
    selection_event_id: String,
    parent_genome_id: String,
    settled: Settled,
    reply: ChildReply,
    result: Result<ProposalEnd, ExecuteError>,
)
    requires
        registry.wf(),
        call_ensures(
            proposal::settle_proposal,
            (
                &registry,
                &history,
                proposal_id,
                selection_event_id,
                parent_genome_id,
                settled,
                reply,
            ),
            result,
        ),
    ensures
        reply is Failed ==> result == Err::<ProposalEnd, ExecuteError>(ExecuteError::Internal),
        reply is Rejected ==> result is Err && result->Err_0 is Rejected,
        reply is Compiled && registry.genomes@.contains_key(reply->genome_id@) ==> !(result is Ok
            && result->Ok_0 is Record),
        reply is Compiled && result is Err ==> result->Err_0 is Rejected || result->Err_0
            is Internal,
{
}

/// A pair is refused as busy where work is under way, as unknown where a Genome is not
/// registered, as invalid where the Genomes are one or of different Worlds or evolution is
/// frozen, and as rejected where its identity is taken by another pair.
pub proof fn pairs_are_refused_for_their_reason(
    state: ControlState,
    occupied: bool,
    evaluation_id: &str,
    parent_genome_id: &str,
    candidate_genome_id: &str,
    result: Result<PairOpening, ExecuteError>,
)
    requires
        state.wf(),
        call_ensures(
            arena_submit::open_pair,
            (&state, occupied, evaluation_id, parent_genome_id, candidate_genome_id),
            result,
        ),
    ensures
        ({
            let genomes = state.registered.genomes@;
            let taken = state@.arena_jobs.contains_key(evaluation_id@);
            let same = state@.arena_jobs[evaluation_id@].parent_genome_id@ == parent_genome_id@
                && state@.arena_jobs[evaluation_id@].candidate_genome_id@ == candidate_genome_id@;
            &&& result is Err && result->Err_0 is Rejected ==> taken && !same
            &&& taken && !same ==> result is Err && (result->Err_0 is Rejected || result->Err_0
                is Invalid)
            &&& result is Err && result->Err_0 is NotFound ==> !genomes.contains_key(
                parent_genome_id@,
            ) || !genomes.contains_key(candidate_genome_id@)
            &&& !taken && occupied ==> result is Err && (result->Err_0 is Busy || result->Err_0
                is Invalid)
            &&& result is Err && result->Err_0 is Busy ==> !taken
            &&& !taken && parent_genome_id@ == candidate_genome_id@ ==> result is Err
            &&& result is Err ==> !(result->Err_0 is Internal)
        }),
{
}

/// A job is refused as busy where work is under way, as unknown where its Genome is not
/// registered, and as rejected where its identity is another Genome's.
pub proof fn jobs_are_refused_for_their_reason(
    state: ControlState,
    arena_active: bool,
    job_id: &str,
    genome_id: &str,
    result: Result<JobOpening, ExecuteError>,
)
    requires
        state.wf(),
        call_ensures(job_submit::open_job, (&state, arena_active, job_id, genome_id), result),
    ensures
        ({
            let taken = state@.jobs.contains_key(job_id@);
            let same = state@.jobs[job_id@].genome_id@ == genome_id@;
            &&& result is Err && result->Err_0 is Rejected ==> taken && !same
            &&& taken && !same ==> result is Err && (result->Err_0 is Rejected || result->Err_0
                is Invalid)
            &&& result is Err && result->Err_0 is NotFound
                ==> !state.registered.genomes@.contains_key(genome_id@)
            &&& !taken && arena_active ==> result is Err && (result->Err_0 is Busy
                || result->Err_0 is Invalid)
            &&& result is Err && result->Err_0 is Busy ==> !taken && (arena_active || exists|
                id: Seq<char>,
            | #[trigger]
                state@.jobs.contains_key(id) && state@.jobs[id].state != JobState::Succeeded
                    && state@.jobs[id].state != JobState::Failed && state@.jobs[id].state
                    != JobState::Interrupted)
            &&& result is Err ==> !(result->Err_0 is Internal)
        }),
{
}

/// An evaluation run is invalid where evolution is frozen or it would cost too much, and
/// unknown where its Genome is not registered.
pub proof fn evaluation_runs_are_refused_for_their_reason(
    state: ControlState,
    genome_id: &str,
    request: EvaluationRequest,
    result: Result<RunContext, ExecuteError>,
)
    requires
        state.wf(),
        call_ensures(runs::run_evaluation, (&state, genome_id, request), result),
    ensures
        state@.frozen ==> result is Err && result->Err_0 is Invalid,
        !state@.frozen && !state.registered.genomes@.contains_key(genome_id@) ==> result == Err::<
            RunContext,
            ExecuteError,
        >(ExecuteError::NotFound),
        result is Err && result->Err_0 is NotFound ==> !state.registered.genomes@.contains_key(
            genome_id@,
        ),
        result is Err ==> !(result->Err_0 is Busy) && !(result->Err_0 is Rejected),
{
}

/// A transfer is invalid while evolution is frozen, and rejected where its child is registered
/// already.
pub proof fn transfers_are_refused_for_their_reason(
    registry: Registry,
    frozen: bool,
    trial_id: &str,
    facts: TransitionFacts<GeneTransferRecord, GeneTransferAppliedPayload>,
    result: Result<Transition<GeneTransferRecord, GeneTransferAppliedPayload>, ExecuteError>,
)
    requires
        registry.wf(),
        call_ensures(
            transitions::gene_transfer_apply,
            (&registry, frozen, trial_id, facts),
            result,
        ),
    ensures
        frozen ==> result is Err && result->Err_0 is Invalid,
        !frozen && result is Err && facts.verified && facts.existing is Ok && facts.payload is Ok
            && !(result->Err_0 is Invalid) ==> result->Err_0 is Rejected
            && registry.genomes@.contains_key(facts.payload->Ok_0.child.genome_id@),
{
}

/// A run of evolution is refused as busy beside other work or another run, and as rejected where
/// its identity is that of a run with another configuration.
pub proof fn evolutions_are_refused_for_their_reason(
    facts: EvolutionFacts,
    registry: Registry,
    command: Command,
    result: Result<EvolutionOpening, ExecuteError>,
)
    requires
        registry.wf(),
        command is EvolveStart,
        call_ensures(evolution::evolve_start, (facts, &registry, command), result),
    ensures
        facts.working ==> result == Err::<EvolutionOpening, ExecuteError>(ExecuteError::Busy),
        facts.active_run is Some && facts.active_run->0@ != command->EvolveStart_run_id@
            ==> result == Err::<EvolutionOpening, ExecuteError>(ExecuteError::Busy),
        result is Err && result->Err_0 is Busy ==> facts.working || facts.active_run is Some,
        !facts.working && facts.active_run is None && facts.existing is Some && result is Err
            ==> result->Err_0 is Rejected,
{
}

/// A remote job is rejected where its identity is another Genome's, and unknown where its Genome
/// is not registered.
pub proof fn remote_jobs_are_refused_for_their_reason(
    state: ControlState,
    job_id: &str,
    genome_id: &str,
    result: Result<RemoteSubmitStep, ExecuteError>,
)
    requires
        state.wf(),
        call_ensures(remote::open_remote_job, (&state, job_id, genome_id), result),
    ensures
        result is Err && result->Err_0 is Rejected <==> state@.remote_jobs.contains_key(job_id@)
            && state@.remote_jobs[job_id@].genome_id@ != genome_id@,
        result is Err && result->Err_0 is Invalid <==> !state@.remote_jobs.contains_key(job_id@)
            && state@.frozen,
        result is Err && result->Err_0 is NotFound ==> !state.registered.genomes@.contains_key(
            genome_id@,
        ),
        result is Err ==> !(result->Err_0 is Busy) && !(result->Err_0 is Internal),
{
}

/// A Genome that is registered in another World is rejected.
pub proof fn registrations_are_refused_for_their_reason(
    registry: Registry,
    genome_id: &str,
    world_id: &str,
    result: Result<Registration<GenomeRecord>, ExecuteError>,
)
    requires
        registry.wf(),
        call_ensures(runs::register_genome, (&registry, genome_id, world_id), result),
    ensures
        result is Err ==> result->Err_0 is Rejected,
{
}

/// A worker's credential is refused as unknown, revoked, another's or expired, in that order.
pub proof fn credentials_are_refused_for_their_reason(
    state: ControlState,
    id: &str,
    worker_id: &str,
    now: Option<i64>,
    result: Result<(), &'static str>,
)
    requires
        state.wf(),
        call_ensures(remote::check_credential, (&state, id, worker_id, now), result),
    ensures
        !state@.worker_credentials.contains_key(id@) ==> result is Err && result->Err_0@
            == "credential is not recognized"@,
        state@.worker_credentials.contains_key(id@) && state@.worker_credentials[id@].revoked
            ==> result is Err && result->Err_0@ == "credential has been revoked"@,
        state@.worker_credentials.contains_key(id@) && !state@.worker_credentials[id@].revoked
            && state@.worker_credentials[id@].worker_id@ != worker_id@ ==> result is Err
            && result->Err_0@ == "credential does not match worker_id"@,
        state@.worker_credentials.contains_key(id@) && !state@.worker_credentials[id@].revoked
            && state@.worker_credentials[id@].worker_id@ == worker_id@ && now is Some && now->0
            >= state@.worker_credentials[id@].expires_at_millis ==> result is Err && result->Err_0@
            == "credential has expired"@,
{
}

/// What a World does not allow or hold is rejected; what fails otherwise is a failure.
pub proof fn arena_faults_are_told_apart(
    fault: ArenaFault,
    selecting: ExecuteError,
    checking: ExecuteError,
    clustering: ExecuteError,
)
    requires
        call_ensures(runs::map_selection_error, (&fault,), selecting),
        call_ensures(runs::map_invariant_error, (fault,), checking),
        call_ensures(runs::map_cluster_error, (fault,), clustering),
    ensures
        selecting is NotFound <==> fault is UnknownEvaluation,
        selecting is Rejected <==> fault is UnsupportedSelectionConfidence || fault
            is BootstrapWorkExceeded,
        checking is NotFound <==> fault is UnknownEvaluation || fault is UnknownInvariantCheck,
        checking is Rejected <==> fault is MissingInvariantManifest || fault is InvariantConflict,
        clustering is NotFound <==> fault is UnknownEvaluation || fault is UnknownClusterAnalysis,
        clustering is Rejected <==> fault is ClusterConflict,
        clustering is Invalid <==> fault is InvalidId,
        fault is Other ==> selecting is Internal && checking is Internal && clustering is Internal,
{
}

} // verus!
