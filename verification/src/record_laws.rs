//! What records have to agree with before they count, said of inputs and results alone.

use crate::api;
use crate::arena_jobs;
use crate::arena_jobs::ArenaAddresses;
use crate::arena_submit;
use crate::assess;
use crate::error::ControlError;
use crate::evolution;
use crate::forge;
use crate::hex;
use crate::ids;
use crate::jobs;
use crate::jobs::JobAddresses;
use crate::list_laws;
use crate::ordered;
use crate::protocol::{
    ArenaJobPhase, ForgeAssessmentPayload, ForgeAssessmentRecord, ForgeProposalPayload,
    ForgeProposalRecord, JobRecord, JobState, JobTerminal,
};
use crate::records::{ArenaJobRecord, GenomeRecord, RunResultReceipt, StoredEvent, WorldRecord};
use crate::registry::Registry;
use crate::snapshot;
use crate::state::ControlState;
use crate::text;
use vstd::prelude::*;

verus! {

/// A recorded job counts only where its Genome is registered, in the World of that Genome, in an
/// environment of the kind that its provider needs, under its own name, and with nothing to
/// spend unless a provider spends it. One that succeeded has a completed run whose own signed
/// result says so.
pub proof fn recorded_jobs_agree_with_the_registry(
    event: StoredEvent,
    record: JobRecord,
    addresses: JobAddresses,
    registry: Registry,
    result: Option<&RunResultReceipt>,
    completed: bool,
)
    requires
        registry.wf(),
        call_ensures(
            jobs::validate_job_record,
            (&event, &record, &addresses, &registry, result, completed),
            Ok::<(), ControlError>(()),
        ),
    ensures
        registry.genomes@.contains_key(record.genome_id@),
        ({
            let genome = registry.genomes@[record.genome_id@];
            let external = text::texts(registry.providers@).contains(genome.model_provider@);
            &&& record.world_id@ == genome.record.world_id@
            &&& record.run_id@ == ids::job_run(record.job_id@)
            &&& record.seed == 0 && record.budget.wall_millis == 10_000
            &&& external ==> record.budget.maximum_cost_microusd
                == registry.worlds@[genome.record.world_id@].maximum_cost_microusd
            &&& !external ==> record.budget.maximum_cost_microusd == 0
        }),
        event.aggregate_id@ == "job:"@ + record.job_id@ && event.actor@ == "daemon-runtime"@,
        event.event_type@ == "job.terminal"@ && record.state == JobState::Succeeded ==> completed
            && result is Some && result->0.run_id@ == record.run_id@ && result->0.genome_id@
            == record.genome_id@,
{
}

/// A recorded pair counts only where its World and both its Genomes are registered, the Genomes
/// in that World, with the manifests and the evaluator that the World declares, and each side in
/// an environment of the kind that its own provider needs.
pub proof fn recorded_pairs_agree_with_the_registry(registry: Registry, record: ArenaJobRecord)
    requires
        registry.wf(),
        call_ensures(
            arena_jobs::require_arena_registration,
            (&registry, &record),
            Ok::<(), ControlError>(()),
        ),
    ensures
        registry.worlds@.contains_key(record.world_id@),
        registry.genomes@.contains_key(record.parent_genome_id@),
        registry.genomes@.contains_key(record.candidate_genome_id@),
        ({
            let world = registry.worlds@[record.world_id@];
            let parent = registry.genomes@[record.parent_genome_id@];
            let candidate = registry.genomes@[record.candidate_genome_id@];
            let own = if record.candidate_environment_id is Some {
                record.candidate_environment_id->0@
            } else {
                record.environment_id@
            };
            &&& parent.record.world_id@ == record.world_id@
            &&& candidate.record.world_id@ == record.world_id@
            &&& world.visible_manifest is Some && world.visible_manifest->0@
                == record.visible_manifest_id@
            &&& world.sealed_manifest is Some && world.sealed_manifest->0@
                == record.sealed_manifest_id@
            &&& world.evaluator is Some && world.evaluator->0@ == record.evaluator_id@
            &&& text::begins_with(record.environment_id@, "provider-v1."@) <==> text::texts(
                registry.providers@,
            ).contains(parent.model_provider@)
            &&& text::begins_with(own, "provider-v1."@) <==> text::texts(
                registry.providers@,
            ).contains(candidate.model_provider@)
            &&& record.candidate_environment_id is Some ==> world.allow_mixed_environments
        }),
{
}

/// A recorded pair is a plan of two different Genomes with trials for both, each trial under the
/// name of its place, and its event stands under the pair.
pub proof fn recorded_pairs_are_whole_plans(
    event: StoredEvent,
    record: ArenaJobRecord,
    addresses: ArenaAddresses,
    canonical: Vec<u8>,
    place: int,
)
    requires
        call_ensures(
            arena_jobs::validate_arena_job_record,
            (&event, &record, &addresses, &canonical),
            Ok::<(), ControlError>(()),
        ),
        0 <= place < record.total_trials,
    ensures
        record.job_id@ == record.evaluation_id@,
        record.parent_genome_id@ != record.candidate_genome_id@,
        0 < record.parent_trial_count < record.total_trials,
        record.completed_trials <= record.total_trials,
        record.ordered_trial_run_ids@.len() == record.total_trials,
        record.ordered_trial_run_ids@[place]@ == ids::trial_run(
            record.evaluation_id@,
            record.parent_trial_count as int,
            place,
        ),
        record.candidate_environment_id matches Some(own) ==> own@ != record.environment_id@,
        event.aggregate_id@ == "arena-job:"@ + record.evaluation_id@,
        event.actor@ == "daemon-runtime"@ && event.payload@ == canonical@,
{
}

/// A pair that starts runs its parent's trials first, and changes in nothing else.
pub proof fn started_pairs_run_the_parents_trials(record: &mut ArenaJobRecord)
    requires
        call_ensures(arena_submit::start_trials, (record,), ()),
    ensures
        final(record).state == JobState::Running && final(record).phase
            == ArenaJobPhase::ParentTrials,
        final(record).completed_trials == old(record).completed_trials && final(record).terminal
            == old(record).terminal,
        final(record).parent_genome_id == old(record).parent_genome_id
            && final(record).candidate_genome_id == old(record).candidate_genome_id,
        final(record).plan_commitment == old(record).plan_commitment,
{
}

/// A pair that could not be launched ends as interrupted, and changes in nothing else.
pub proof fn abandoned_pairs_end_interrupted(record: &mut ArenaJobRecord)
    requires
        call_ensures(arena_submit::abandon_launch, (record,), ()),
    ensures
        final(record).state == JobState::Interrupted && final(record).phase
            == ArenaJobPhase::Terminal && final(record).terminal == Some(JobTerminal::Interrupted),
        final(record).completed_trials == old(record).completed_trials && final(record).evaluation
            == old(record).evaluation,
        final(record).plan_commitment == old(record).plan_commitment,
{
}

/// Work is unfinished exactly where a job or a pair has not ended.
pub proof fn unfinished_work_is_on_record(state: ControlState, result: bool, id: Seq<char>)
    requires
        state.wf(),
        call_ensures(arena_submit::has_unfinished_work, (&state,), result),
    ensures
        !result && state@.jobs.contains_key(id) ==> state@.jobs[id].state == JobState::Succeeded
            || state@.jobs[id].state == JobState::Failed || state@.jobs[id].state
            == JobState::Interrupted,
        !result && state@.arena_jobs.contains_key(id) ==> state@.arena_jobs[id].state
            == JobState::Succeeded || state@.arena_jobs[id].state == JobState::Failed
            || state@.arena_jobs[id].state == JobState::Interrupted,
        result ==> (exists|job: Seq<char>| #[trigger]
            state@.jobs.contains_key(job) && state@.jobs[job].state != JobState::Succeeded
                && state@.jobs[job].state != JobState::Failed && state@.jobs[job].state
                != JobState::Interrupted) || (exists|pair: Seq<char>| #[trigger]
            state@.arena_jobs.contains_key(pair) && state@.arena_jobs[pair].state
                != JobState::Succeeded && state@.arena_jobs[pair].state != JobState::Failed
                && state@.arena_jobs[pair].state != JobState::Interrupted),
{
}

/// The Genomes that are listed are the registered ones, all of them, in the order of their
/// identities.
pub proof fn genomes_are_listed_in_order(
    registry: Registry,
    result: Vec<GenomeRecord>,
    id: Seq<char>,
)
    requires
        registry.wf(),
        call_ensures(api::genome_list, (&registry,), result),
        registry.genomes@.contains_key(id),
    ensures
        exists|at: int|
            0 <= at < result@.len() && (#[trigger] result@[at])@ == registry.genomes@[id].record@,
        exists|keys: Seq<Seq<char>>| #[trigger]
            ordered::ascending(keys) && keys.len() == result@.len() && forall|i: int|
                0 <= i < keys.len() ==> registry.genomes@.contains_key(#[trigger] keys[i])
                    && result@[i]@ == registry.genomes@[keys[i]].record@,
{
    registry.genomes.lemma_finite();
    list_laws::keys_are_listed(registry.genomes@);
    let keys = ordered::ordered_keys(registry.genomes@);
    assert forall|i: int| 0 <= i < keys.len() implies registry.genomes@.contains_key(
        #[trigger] keys[i],
    ) by {
        assert(keys.contains(keys[i]));
    }
    assert(keys.contains(id));
    let at = choose|at: int| 0 <= at < keys.len() && keys[at] == id;
    assert(result@[at]@ == registry.genomes@[id].record@);
}

/// The Worlds that are listed are the registered ones, all of them, in the order of their
/// identities.
pub proof fn worlds_are_listed_in_order(
    registry: Registry,
    result: Vec<WorldRecord>,
    id: Seq<char>,
)
    requires
        registry.wf(),
        call_ensures(api::world_list, (&registry,), result),
        registry.worlds@.contains_key(id),
    ensures
        exists|at: int|
            0 <= at < result@.len() && #[trigger] result@[at] == registry.worlds@[id].record,
        exists|keys: Seq<Seq<char>>| #[trigger]
            ordered::ascending(keys) && keys.len() == result@.len() && forall|i: int|
                0 <= i < keys.len() ==> registry.worlds@.contains_key(#[trigger] keys[i])
                    && result@[i] == registry.worlds@[keys[i]].record,
{
    registry.worlds.lemma_finite();
    list_laws::keys_are_listed(registry.worlds@);
    let keys = ordered::ordered_keys(registry.worlds@);
    assert forall|i: int| 0 <= i < keys.len() implies registry.worlds@.contains_key(
        #[trigger] keys[i],
    ) by {
        assert(keys.contains(keys[i]));
    }
    assert(keys.contains(id));
    let at = choose|at: int| 0 <= at < keys.len() && keys[at] == id;
    assert(result@[at] == registry.worlds@[id].record);
}

/// A recorded proposal or assessment is shown as its own event records it, and shows no
/// promotion.
pub proof fn records_are_shown_with_their_event(
    proposal: ForgeProposalPayload,
    assessment: ForgeAssessmentPayload,
    event: StoredEvent,
    proposed: ForgeProposalRecord,
    assessed: ForgeAssessmentRecord,
)
    requires
        call_ensures(forge::forge_proposal_record, (proposal, &event), proposed),
        call_ensures(assess::forge_assessment_record, (assessment, &event), assessed),
    ensures
        proposed.payload == proposal && !proposed.promotion_eligible,
        proposed.event.sequence == event.sequence && proposed.event.event_id == event.event_id,
        proposed.event.aggregate_id == event.aggregate_id && proposed.event.event_hash@
            == hex::hex(event.hash@),
        assessed.payload == assessment,
        assessed.event.sequence == event.sequence && assessed.event.event_id == event.event_id,
        assessed.event.aggregate_id == event.aggregate_id && assessed.event.event_hash@
            == hex::hex(event.hash@),
{
}

/// The baseline of a Genome is another Genome of its World, the first by identity; it is missing
/// only where the World has no other.
pub proof fn baselines_are_other_genomes_of_the_world(
    registry: Registry,
    world_id: &str,
    genome_id: &str,
    result: Option<String>,
    key: Seq<char>,
)
    requires
        registry.wf(),
        call_ensures(evolution::baseline_genome, (&registry, world_id, genome_id), result),
    ensures
        result matches Some(baseline) ==> baseline@ != genome_id@ && exists|found: Seq<char>|
            #[trigger] registry.genomes@.contains_key(found)
                && registry.genomes@[found].record.genome_id@ == baseline@
                && registry.genomes@[found].record.world_id@ == world_id@,
        registry.genomes@.contains_key(key) && registry.genomes@[key].record.world_id@
            == world_id@ && registry.genomes@[key].record.genome_id@ != genome_id@ ==> result
            is Some && !text::precedes(registry.genomes@[key].record.genome_id@, result->0@),
{
}

/// Two states show the same only where they agree on what is frozen, active, complete and on
/// record, and how far they have come.
pub proof fn equal_snapshots_agree(a: ControlState, b: ControlState, result: bool)
    requires
        a.wf(),
        b.wf(),
        call_ensures(snapshot::is_same_snapshot, (&a, &b), result),
    ensures
        result ==> a.frozen == b.frozen && a.event_count == b.event_count && a@.active_runs
            == b@.active_runs && a@.completed_runs == b@.completed_runs,
        result ==> a@.jobs.dom() == b@.jobs.dom() && a@.arena_jobs.dom() == b@.arena_jobs.dom()
            && a@.run_results.dom() == b@.run_results.dom() && a.registered.genomes@.dom()
            == b.registered.genomes@.dom(),
        a@ == b@ && a.registered == b.registered ==> result,
{
    if a@ == b@ && a.registered == b.registered {
        snapshot::replays_show_the_same(b, a);
    }
}

/// What was written in hexadecimal reads back, and two secrets are equal only where all their
/// bytes are.
pub proof fn written_bytes_read_back(
    bytes: [u8; 32],
    written: String,
    shown: &str,
    read: Result<[u8; 32], ControlError>,
    left: &[u8],
    right: &[u8],
    equal: bool,
)
    requires
        call_ensures(hex::hex_encode, (&bytes,), written),
        shown@ == written@,
        call_ensures(hex::hex_decode, (shown,), read),
        call_ensures(hex::constant_time_equal, (left, right), equal),
    ensures
        read is Ok && read->Ok_0@ == bytes@,
        equal <==> left@ == right@,
{
    hex::encoded_bytes_decode(bytes@);
    if read is Ok {
        assert(read->Ok_0@ =~= bytes@);
    }
}

/// What was written as a number reads back.
pub proof fn written_numbers_read_back(n: u64, written: String, text: &str, read: Option<u64>)
    requires
        call_ensures(text::decimal_text, (n,), written),
        text@ == written@,
        call_ensures(text::parse_u64, (text,), read),
    ensures
        read == Some(n),
{
    text::written_numbers_parse(n);
}

/// The two runs of one lineage, and those of different lineages, have names that differ.
pub proof fn lineages_have_runs_of_their_own(
    meta_run_id: &str,
    strategy_b: bool,
    other_strategy_b: bool,
    index: usize,
    other: usize,
    run_id: String,
    other_id: String,
)
    requires
        call_ensures(ids::meta_lineage_run_id, (meta_run_id, strategy_b, index), run_id),
        call_ensures(ids::meta_lineage_run_id, (meta_run_id, other_strategy_b, other), other_id),
        strategy_b != other_strategy_b || index != other,
    ensures
        run_id@ != other_id@,
{
    reveal_strlit("-a-");
    reveal_strlit("-b-");
    reveal_strlit("meta-");
    assert("-a-"@.len() == 3 && "-b-"@.len() == 3);
    if run_id@ == other_id@ {
        let length = meta_run_id@.len() as int + 5;
        assert(run_id@[length + 1] == (if strategy_b {
            'b'
        } else {
            'a'
        }));
        assert(other_id@[length + 1] == (if other_strategy_b {
            'b'
        } else {
            'a'
        }));
        assert(run_id@.skip(length + 3) =~= text::decimal(index as nat));
        assert(other_id@.skip(length + 3) =~= text::decimal(other as nat));
        ids::decimal_is_injective(index as nat, other as nat);
    }
}

} // verus!
