//! When two states show the same.

use crate::json;
use crate::ordered::OrderedMap;
use crate::protocol::{EvaluationEventRecord, EvaluationRecord, JobRecord};
use crate::records::{ArenaJobRecord, GenomeRecord, RunResultReceipt, WorldRecord};
use crate::registry::{GenomeEntry, WorldEntry};
use crate::state::{ControlState, TraceProgress};
use crate::text;
use vstd::prelude::*;

verus! {

/// What can be told to be the same.
pub trait Comparable: Sized {
    /// Whether two values are the same.
    spec fn same(self, other: Self) -> bool;

    /// Every value is the same as itself.
    proof fn same_as_itself(self)
        ensures
            self.same(self),
    ;

    /// Tells whether two values are the same.
    fn is_same(&self, other: &Self) -> (result: bool)
        ensures
            result == self.same(*other),
    ;
}

/// Tells whether two optional texts are the same.
fn is_same_text(a: &Option<String>, b: &Option<String>) -> (result: bool)
    ensures
        result == (json::held(*a) == json::held(*b)),
{
    match (a, b) {
        (None, None) => true,
        (Some(a), Some(b)) => text::text_eq(a.as_str(), b.as_str()),
        _ => false,
    }
}

impl Comparable for () {
    open spec fn same(self, other: Self) -> bool {
        true
    }

    proof fn same_as_itself(self) {
    }

    fn is_same(&self, other: &Self) -> (result: bool) {
        true
    }
}

impl Comparable for u64 {
    open spec fn same(self, other: Self) -> bool {
        self == other
    }

    proof fn same_as_itself(self) {
    }

    fn is_same(&self, other: &Self) -> (result: bool) {
        *self == *other
    }
}

impl Comparable for TraceProgress {
    open spec fn same(self, other: Self) -> bool {
        self == other
    }

    proof fn same_as_itself(self) {
    }

    fn is_same(&self, other: &Self) -> (result: bool) {
        *self == *other
    }
}

impl Comparable for GenomeRecord {
    open spec fn same(self, other: Self) -> bool {
        self@ == other@
    }

    proof fn same_as_itself(self) {
    }

    fn is_same(&self, other: &Self) -> (result: bool) {
        text::text_eq(self.genome_id.as_str(), other.genome_id.as_str())
            && text::text_eq(self.name.as_str(), other.name.as_str())
            && text::text_eq(self.world_id.as_str(), other.world_id.as_str())
            && text::text_eq(self.artifact_id.as_str(), other.artifact_id.as_str())
            && text::texts_eq(&self.parent_ids, &other.parent_ids)
    }
}

impl Comparable for WorldRecord {
    open spec fn same(self, other: Self) -> bool {
        &&& self.world_id@ == other.world_id@
        &&& self.name@ == other.name@
        &&& self.artifact_id@ == other.artifact_id@
    }

    proof fn same_as_itself(self) {
    }

    fn is_same(&self, other: &Self) -> (result: bool) {
        text::text_eq(self.world_id.as_str(), other.world_id.as_str())
            && text::text_eq(self.name.as_str(), other.name.as_str())
            && text::text_eq(self.artifact_id.as_str(), other.artifact_id.as_str())
    }
}

impl Comparable for GenomeEntry {
    open spec fn same(self, other: Self) -> bool {
        self.record.same(other.record)
    }

    proof fn same_as_itself(self) {
        self.record.same_as_itself();
    }

    fn is_same(&self, other: &Self) -> (result: bool) {
        self.record.is_same(&other.record)
    }
}

impl Comparable for WorldEntry {
    open spec fn same(self, other: Self) -> bool {
        self.record.same(other.record)
    }

    proof fn same_as_itself(self) {
        self.record.same_as_itself();
    }

    fn is_same(&self, other: &Self) -> (result: bool) {
        self.record.is_same(&other.record)
    }
}

impl Comparable for EvaluationEventRecord {
    open spec fn same(self, other: Self) -> bool {
        &&& self.sequence == other.sequence
        &&& self.event_id@ == other.event_id@
        &&& self.aggregate_id@ == other.aggregate_id@
        &&& self.event_type@ == other.event_type@
        &&& self.actor@ == other.actor@
        &&& self.timestamp_millis == other.timestamp_millis
    }

    proof fn same_as_itself(self) {
    }

    fn is_same(&self, other: &Self) -> (result: bool) {
        self.sequence == other.sequence
            && text::text_eq(self.event_id.as_str(), other.event_id.as_str())
            && text::text_eq(self.aggregate_id.as_str(), other.aggregate_id.as_str())
            && text::text_eq(self.event_type.as_str(), other.event_type.as_str())
            && text::text_eq(self.actor.as_str(), other.actor.as_str())
            && self.timestamp_millis == other.timestamp_millis
    }
}

impl Comparable for EvaluationRecord {
    open spec fn same(self, other: Self) -> bool {
        &&& self.evaluation_id@ == other.evaluation_id@
        &&& self.world_id@ == other.world_id@
        &&& self.parent_genome_id@ == other.parent_genome_id@
        &&& self.candidate_genome_id@ == other.candidate_genome_id@
        &&& self.parent_visible_correct == other.parent_visible_correct
        &&& self.candidate_visible_correct == other.candidate_visible_correct
        &&& self.visible_total == other.visible_total
        &&& self.event.same(other.event)
    }

    proof fn same_as_itself(self) {
    }

    fn is_same(&self, other: &Self) -> (result: bool) {
        text::text_eq(self.evaluation_id.as_str(), other.evaluation_id.as_str())
            && text::text_eq(self.world_id.as_str(), other.world_id.as_str())
            && text::text_eq(self.parent_genome_id.as_str(), other.parent_genome_id.as_str())
            && text::text_eq(self.candidate_genome_id.as_str(), other.candidate_genome_id.as_str())
            && self.parent_visible_correct == other.parent_visible_correct
            && self.candidate_visible_correct == other.candidate_visible_correct
            && self.visible_total == other.visible_total
            && self.event.is_same(&other.event)
    }
}

/// Whether two optional evaluations are the same.
pub open spec fn same_evaluation(a: Option<EvaluationRecord>, b: Option<EvaluationRecord>) -> bool {
    match (a, b) {
        (None, None) => true,
        (Some(a), Some(b)) => a.same(b),
        _ => false,
    }
}

/// Tells whether two optional evaluations are the same.
fn is_same_evaluation(a: &Option<EvaluationRecord>, b: &Option<EvaluationRecord>) -> (result: bool)
    ensures
        result == same_evaluation(*a, *b),
{
    match (a, b) {
        (None, None) => true,
        (Some(a), Some(b)) => a.is_same(b),
        _ => false,
    }
}

impl Comparable for JobRecord {
    open spec fn same(self, other: Self) -> bool {
        &&& self.job_id@ == other.job_id@
        &&& self.genome_id@ == other.genome_id@
        &&& self.run_id@ == other.run_id@
        &&& self.source_revision@ == other.source_revision@
        &&& self.world_id@ == other.world_id@
        &&& self.task_id@ == other.task_id@
        &&& self.input_commitment@ == other.input_commitment@
        &&& self.seed == other.seed
        &&& self.environment_id@ == other.environment_id@
        &&& self.budget == other.budget
        &&& self.state == other.state
        &&& self.terminal == other.terminal
    }

    proof fn same_as_itself(self) {
    }

    fn is_same(&self, other: &Self) -> (result: bool) {
        text::text_eq(self.job_id.as_str(), other.job_id.as_str())
            && text::text_eq(self.genome_id.as_str(), other.genome_id.as_str())
            && text::text_eq(self.run_id.as_str(), other.run_id.as_str())
            && text::text_eq(self.source_revision.as_str(), other.source_revision.as_str())
            && text::text_eq(self.world_id.as_str(), other.world_id.as_str())
            && text::text_eq(self.task_id.as_str(), other.task_id.as_str())
            && text::text_eq(self.input_commitment.as_str(), other.input_commitment.as_str())
            && self.seed == other.seed
            && text::text_eq(self.environment_id.as_str(), other.environment_id.as_str())
            && self.budget == other.budget
            && self.state == other.state
            && self.terminal == other.terminal
    }
}

impl Comparable for ArenaJobRecord {
    open spec fn same(self, other: Self) -> bool {
        &&& self.job_id@ == other.job_id@
        &&& self.evaluation_id@ == other.evaluation_id@
        &&& self.parent_genome_id@ == other.parent_genome_id@
        &&& self.candidate_genome_id@ == other.candidate_genome_id@
        &&& self.world_id@ == other.world_id@
        &&& self.visible_manifest_id@ == other.visible_manifest_id@
        &&& self.sealed_manifest_id@ == other.sealed_manifest_id@
        &&& self.evaluator_id@ == other.evaluator_id@
        &&& self.source_revision@ == other.source_revision@
        &&& self.worker_digest@ == other.worker_digest@
        &&& self.environment_id@ == other.environment_id@
        &&& json::held(self.candidate_environment_id) == json::held(other.candidate_environment_id)
        &&& self.seed == other.seed
        &&& self.trial_budget == other.trial_budget
        &&& self.overall_budget == other.overall_budget
        &&& text::texts(self.ordered_trial_run_ids@) == text::texts(other.ordered_trial_run_ids@)
        &&& self.parent_trial_count == other.parent_trial_count
        &&& self.total_trials == other.total_trials
        &&& self.plan_commitment@ == other.plan_commitment@
        &&& self.caller_id@ == other.caller_id@
        &&& self.receipt_timestamp_millis == other.receipt_timestamp_millis
        &&& self.completed_trials == other.completed_trials
        &&& self.phase == other.phase
        &&& self.state == other.state
        &&& self.terminal == other.terminal
        &&& same_evaluation(self.evaluation, other.evaluation)
        &&& self.remote == other.remote
    }

    proof fn same_as_itself(self) {
    }

    fn is_same(&self, other: &Self) -> (result: bool) {
        text::text_eq(self.job_id.as_str(), other.job_id.as_str())
            && text::text_eq(self.evaluation_id.as_str(), other.evaluation_id.as_str())
            && text::text_eq(self.parent_genome_id.as_str(), other.parent_genome_id.as_str())
            && text::text_eq(self.candidate_genome_id.as_str(), other.candidate_genome_id.as_str())
            && text::text_eq(self.world_id.as_str(), other.world_id.as_str())
            && text::text_eq(self.visible_manifest_id.as_str(), other.visible_manifest_id.as_str())
            && text::text_eq(self.sealed_manifest_id.as_str(), other.sealed_manifest_id.as_str())
            && text::text_eq(self.evaluator_id.as_str(), other.evaluator_id.as_str())
            && text::text_eq(self.source_revision.as_str(), other.source_revision.as_str())
            && text::text_eq(self.worker_digest.as_str(), other.worker_digest.as_str())
            && text::text_eq(self.environment_id.as_str(), other.environment_id.as_str())
            && is_same_text(&self.candidate_environment_id, &other.candidate_environment_id)
            && self.seed == other.seed
            && self.trial_budget == other.trial_budget
            && self.overall_budget == other.overall_budget
            && text::texts_eq(&self.ordered_trial_run_ids, &other.ordered_trial_run_ids)
            && self.parent_trial_count == other.parent_trial_count
            && self.total_trials == other.total_trials
            && text::text_eq(self.plan_commitment.as_str(), other.plan_commitment.as_str())
            && text::text_eq(self.caller_id.as_str(), other.caller_id.as_str())
            && self.receipt_timestamp_millis == other.receipt_timestamp_millis
            && self.completed_trials == other.completed_trials
            && self.phase == other.phase
            && self.state == other.state
            && self.terminal == other.terminal
            && is_same_evaluation(&self.evaluation, &other.evaluation)
            && self.remote == other.remote
    }
}

impl Comparable for RunResultReceipt {
    open spec fn same(self, other: Self) -> bool {
        &&& self.run_id@ == other.run_id@
        &&& self.genome_id@ == other.genome_id@
        &&& self.world_id@ == other.world_id@
        &&& self.source_revision@ == other.source_revision@
        &&& self.task_id@ == other.task_id@
        &&& self.input_commitment@ == other.input_commitment@
        &&& self.seed == other.seed
        &&& self.environment_id@ == other.environment_id@
        &&& self.budget == other.budget
        &&& self.completion_reason == other.completion_reason
        &&& self.latency_millis == other.latency_millis
        &&& self.actual_cost_microusd == other.actual_cost_microusd
        &&& self.stdout_artifact_id@ == other.stdout_artifact_id@
        &&& self.stderr_artifact_id@ == other.stderr_artifact_id@
        &&& text::texts(self.trace_artifact_ids@) == text::texts(other.trace_artifact_ids@)
    }

    proof fn same_as_itself(self) {
    }

    fn is_same(&self, other: &Self) -> (result: bool) {
        text::text_eq(self.run_id.as_str(), other.run_id.as_str())
            && text::text_eq(self.genome_id.as_str(), other.genome_id.as_str())
            && text::text_eq(self.world_id.as_str(), other.world_id.as_str())
            && text::text_eq(self.source_revision.as_str(), other.source_revision.as_str())
            && text::text_eq(self.task_id.as_str(), other.task_id.as_str())
            && text::text_eq(self.input_commitment.as_str(), other.input_commitment.as_str())
            && self.seed == other.seed
            && text::text_eq(self.environment_id.as_str(), other.environment_id.as_str())
            && self.budget == other.budget
            && self.completion_reason == other.completion_reason
            && self.latency_millis == other.latency_millis
            && self.actual_cost_microusd == other.actual_cost_microusd
            && text::text_eq(self.stdout_artifact_id.as_str(), other.stdout_artifact_id.as_str())
            && text::text_eq(self.stderr_artifact_id.as_str(), other.stderr_artifact_id.as_str())
            && text::texts_eq(&self.trace_artifact_ids, &other.trace_artifact_ids)
    }
}

/// Whether two maps bind the same keys to the same values.
pub open spec fn same_maps<V: Comparable>(a: Map<Seq<char>, V>, b: Map<Seq<char>, V>) -> bool {
    &&& a.dom() == b.dom()
    &&& forall|key: Seq<char>| #[trigger] a.contains_key(key) ==> a[key].same(b[key])
}

/// Tells whether two maps bind the same keys to the same values.
pub fn is_same_map<V: Comparable>(a: &OrderedMap<V>, b: &OrderedMap<V>) -> (result: bool)
    requires
        a.wf(),
        b.wf(),
    ensures
        result == same_maps(a@, b@),
{
    let count: usize = a.len();
    proof {
        if same_maps(a@, b@) {
            a.lemma_same_order(*b);
        }
    }
    if count != b.len() {
        return false;
    }
    for i in 0..count
        invariant
            a.wf(),
            b.wf(),
            count == a.keys().len(),
            count == b.keys().len(),
            same_maps(a@, b@) ==> a.keys() == b.keys(),
            forall|j: int| 0 <= j < i ==> #[trigger] a.keys()[j] == b.keys()[j],
            forall|j: int| 0 <= j < i ==> (#[trigger] a.values()[j]).same(b.values()[j]),
    {
        proof {
            a.lemma_bound_at(i as int);
            b.lemma_bound_at(i as int);
        }
        let key: &String = a.key_at(i);
        let other_key: &String = b.key_at(i);
        if !text::text_eq(key.as_str(), other_key.as_str()) {
            return false;
        }
        assert(a.keys()[i as int] == b.keys()[i as int]);
        let value: &V = a.value_at(i);
        let other: &V = b.value_at(i);
        let same: bool = value.is_same(other);
        assert(same == a.values()[i as int].same(b.values()[i as int]));
        if !same {
            return false;
        }
    }
    proof {
        assert(a.keys() =~= b.keys());
        assert forall|key: Seq<char>| a@.contains_key(key) <==> b@.contains_key(key) by {
            if a@.contains_key(key) {
                a.lemma_place(key);
                b.lemma_bound_at(a.place(key));
            }
            if b@.contains_key(key) {
                b.lemma_place(key);
                a.lemma_bound_at(b.place(key));
            }
        }
        assert(a@.dom() =~= b@.dom());
        assert forall|key: Seq<char>| #[trigger] a@.contains_key(key) implies a@[key].same(
            b@[key],
        ) by {
            a.lemma_place(key);
            b.lemma_bound_at(a.place(key));
            assert(a.keys()[a.place(key)] == b.keys()[a.place(key)]);
        }
    }
    true
}

/// Whether two states show the same: the freeze, the runs, the registered Genomes and Worlds,
/// the jobs, the paired evaluations, the progress, the receipts, the results and how far the
/// ledger was applied. Worker credentials and remote jobs are not part of what a state shows.
pub open spec fn same_snapshot(a: ControlState, b: ControlState) -> bool {
    &&& a@.frozen == b@.frozen
    &&& a@.active_runs == b@.active_runs
    &&& same_maps(a.registered.genomes@, b.registered.genomes@)
    &&& same_maps(a.registered.worlds@, b.registered.worlds@)
    &&& same_maps(a@.jobs, b@.jobs)
    &&& same_maps(a@.arena_jobs, b@.arena_jobs)
    &&& same_maps(a@.job_progress, b@.job_progress)
    &&& same_maps(a@.evaluation_events, b@.evaluation_events)
    &&& same_maps(a@.run_results, b@.run_results)
    &&& a@.completed_runs == b@.completed_runs
    &&& a@.event_count == b@.event_count
}

/// Tells whether two states show the same.
pub fn is_same_snapshot(a: &ControlState, b: &ControlState) -> (result: bool)
    requires
        a.wf(),
        b.wf(),
    ensures
        result == same_snapshot(*a, *b),
{
    a.frozen == b.frozen && is_same_map(&a.active_runs, &b.active_runs) && is_same_map(
        &a.registered.genomes,
        &b.registered.genomes,
    ) && is_same_map(&a.registered.worlds, &b.registered.worlds) && is_same_map(&a.jobs, &b.jobs)
        && is_same_map(&a.arena_jobs, &b.arena_jobs) && is_same_map(
        &a.job_progress,
        &b.job_progress,
    ) && is_same_map(&a.evaluation_events, &b.evaluation_events) && is_same_map(
        &a.run_results,
        &b.run_results,
    ) && is_same_map(&a.completed_runs, &b.completed_runs) && a.event_count == b.event_count
}

/// A map is the same as itself.
proof fn maps_are_the_same_as_themselves<V: Comparable>(map: Map<Seq<char>, V>)
    ensures
        same_maps(map, map),
{
    assert forall|key: Seq<char>| #[trigger] map.contains_key(key) implies map[key].same(
        map[key],
    ) by {
        map[key].same_as_itself();
    }
}

/// A replay of the history that led to a state shows the same as the state: states with the
/// same projection and the same registered Genomes and Worlds show the same.
pub proof fn replays_show_the_same(live: ControlState, replayed: ControlState)
    requires
        replayed@ == live@,
        replayed.registered == live.registered,
    ensures
        same_snapshot(replayed, live),
{
    maps_are_the_same_as_themselves(live.registered.genomes@);
    maps_are_the_same_as_themselves(live.registered.worlds@);
    maps_are_the_same_as_themselves(live@.jobs);
    maps_are_the_same_as_themselves(live@.arena_jobs);
    maps_are_the_same_as_themselves(live@.job_progress);
    maps_are_the_same_as_themselves(live@.evaluation_events);
    maps_are_the_same_as_themselves(live@.run_results);
}

} // verus!
