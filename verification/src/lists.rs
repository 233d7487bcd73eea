//! Bounded lists of what the ledger records, newest first.

use crate::arena_jobs;
use crate::commands;
use crate::error;
use crate::error::{ExecuteError, Refusal};
use crate::json;
use crate::ordered;
use crate::ordered::OrderedMap;
use crate::protocol::{
    Command, DenialEntry, DenialKind, EvaluationForgeSummary, EvaluationInvariantSummary,
    EvaluationListEntry, EvaluationRecord, EvaluationSelectionSummary, JobRecord, JobState,
    McpDecision, RunListEntry, MAX_LIST_LIMIT,
};
use crate::records::{
    InvariantReceipt, RunCompletionReason, RunResultReceipt, SelectionReceipt, TraceKind,
};
use crate::registry::Registry;
use crate::state;
use crate::state::{ControlState, EventPayload, RecordedEvent};
use crate::text;
use vstd::prelude::*;

verus! {

/// An entry with the ledger sequence that dates it.
pub struct Dated<T> {
    /// Ledger sequence.
    pub sequence: u64,
    /// The entry.
    pub entry: T,
}

/// The sequences of some entries.
pub open spec fn sequences<T>(entries: Seq<Dated<T>>) -> Seq<u64> {
    Seq::new(entries.len(), |i: int| entries[i].sequence)
}

/// Where an entry goes that is dated `sequence`: behind all that are not older.
pub open spec fn place_of(dates: Seq<u64>, order: Seq<int>, sequence: u64) -> int
    decreases order.len(),
{
    if order.len() == 0 {
        0
    } else if dates[order.last()] < sequence {
        place_of(dates, order.drop_last(), sequence)
    } else {
        order.len() as int
    }
}

/// The places of some entries from the newest to the oldest; of entries of one date the
/// earlier comes first.
pub open spec fn newest_order(dates: Seq<u64>) -> Seq<int>
    decreases dates.len(),
{
    if dates.len() == 0 {
        Seq::empty()
    } else {
        let order = newest_order(dates.drop_last());
        order.insert(place_of(dates, order, dates.last()), dates.len() - 1)
    }
}

/// A place lies within the order it is for, with newer or equal entries before it and older
/// ones from it on.
proof fn place_splits(dates: Seq<u64>, order: Seq<int>, sequence: u64)
    requires
        forall|i: int, j: int|
            0 <= i < j < order.len() ==> dates[#[trigger] order[i]] >= dates[#[trigger] order[j]],
    ensures
        0 <= place_of(dates, order, sequence) <= order.len(),
        forall|i: int|
            0 <= i < place_of(dates, order, sequence) ==> dates[#[trigger] order[i]] >= sequence,
        forall|i: int|
            place_of(dates, order, sequence) <= i < order.len() ==> dates[#[trigger] order[i]]
                < sequence,
    decreases order.len(),
{
    if order.len() > 0 {
        let shorter = order.drop_last();
        assert(forall|i: int| 0 <= i < shorter.len() ==> shorter[i] == order[i]);
        place_splits(dates, shorter, sequence);
    }
}

/// The order from newest to oldest descends, keeps entries of one date in their own order,
/// and holds every place exactly once.
pub proof fn newest_order_descends(dates: Seq<u64>)
    ensures
        newest_order(dates).len() == dates.len(),
        forall|i: int|
            0 <= i < dates.len() ==> 0 <= #[trigger] newest_order(dates)[i] < dates.len(),
        forall|i: int, j: int|
            0 <= i < j < dates.len() ==> {
                let a = #[trigger] newest_order(dates)[i];
                let b = #[trigger] newest_order(dates)[j];
                dates[a] > dates[b] || (dates[a] == dates[b] && a < b)
            },
        forall|k: int| 0 <= k < dates.len() ==> newest_order(dates).contains(k),
    decreases dates.len(),
{
    if dates.len() > 0 {
        let shorter = dates.drop_last();
        newest_order_descends(shorter);
        let order = newest_order(shorter);
        assert(forall|i: int| 0 <= i < shorter.len() ==> shorter[i] == dates[i]);
        place_splits(dates, order, dates.last());
        let place = place_of(dates, order, dates.last());
        let whole = newest_order(dates);
        assert forall|i: int, j: int| 0 <= i < j < dates.len() implies {
            let a = #[trigger] whole[i];
            let b = #[trigger] whole[j];
            dates[a] > dates[b] || (dates[a] == dates[b] && a < b)
        } by {
            let oi = if i < place {
                i
            } else {
                i - 1
            };
            let oj = if j < place {
                j
            } else {
                j - 1
            };
            if i != place {
                assert(whole[i] == order[oi]);
            }
            if j != place {
                assert(whole[j] == order[oj]);
            }
        }
        assert forall|k: int| 0 <= k < dates.len() implies whole.contains(k) by {
            if k == dates.len() - 1 {
                assert(whole[place] == k);
            } else {
                assert(order.contains(k));
                let i = choose|i: int| 0 <= i < order.len() && order[i] == k;
                assert(whole[if i < place {
                    i
                } else {
                    i + 1
                }] == k);
            }
        }
    }
}

/// How many entries a list command shows.
pub open spec fn shown(limit: u32, available: nat) -> nat {
    let bound = if limit < MAX_LIST_LIMIT {
        limit as nat
    } else {
        MAX_LIST_LIMIT as nat
    };
    if available < bound {
        available
    } else {
        bound
    }
}

/// Orders entries from newest to oldest and keeps as many as a list command shows.
pub fn newest_first<T>(entries: Vec<Dated<T>>, limit: u32) -> (result: Vec<T>)
    ensures
        result@.len() == shown(limit, entries@.len()),
        forall|i: int|
            0 <= i < result@.len() ==> #[trigger] result@[i]
                == entries@[newest_order(sequences(entries@))[i]].entry,
{
    let ghost all = entries@;
    let ghost dates = sequences(all);
    let mut sorted: Vec<Dated<T>> = Vec::new();
    assert(dates.take(0) == Seq::<u64>::empty());
    for entry in iter: entries
        invariant
            iter.seq() == all,
            dates == sequences(all),
            sorted@.len() == iter.index(),
            newest_order(dates.take(iter.index())).len() == iter.index(),
            forall|i: int|
                0 <= i < iter.index() ==> #[trigger] sorted@[i] == all[newest_order(
                    dates.take(iter.index()),
                )[i]],
    {
        let ghost at = iter.index();
        let ghost before = dates.take(at);
        let ghost after = dates.take(at + 1);
        let ghost order = newest_order(before);
        proof {
            assert(after.drop_last() == before);
            newest_order_descends(before);
            assert(forall|i: int| 0 <= i < at ==> before[i] == dates[i] && after[i] == dates[i]);
            assert(after.last() == entry.sequence);
            place_splits(after, order, entry.sequence);
            newest_order_descends(after);
        }
        let mut place: usize = sorted.len();
        assert(order.take(place as int) == order);
        while place > 0 && sorted[place - 1].sequence < entry.sequence
            invariant
                place <= sorted.len(),
                sorted@.len() == at,
                order == newest_order(before),
                order.len() == at,
                before == dates.take(at),
                after == dates.take(at + 1),
                dates == sequences(all),
                at < all.len(),
                forall|i: int| 0 <= i < at ==> 0 <= #[trigger] order[i] < at,
                forall|i: int| 0 <= i < at ==> #[trigger] sorted@[i] == all[order[i]],
                place_of(after, order, entry.sequence) == place_of(
                    after,
                    order.take(place as int),
                    entry.sequence,
                ),
            decreases place,
        {
            proof {
                let head = order.take(place as int);
                assert(head.last() == order[place - 1]);
                assert(sorted@[place - 1] == all[order[place - 1]]);
                assert(after[order[place - 1]] == all[order[place - 1]].sequence);
                assert(head.drop_last() == order.take(place - 1));
            }
            place = place - 1;
        }
        proof {
            let head = order.take(place as int);
            if place > 0 {
                assert(head.last() == order[place - 1]);
                assert(sorted@[place - 1] == all[order[place - 1]]);
                assert(after[order[place - 1]] == all[order[place - 1]].sequence);
            }
            assert(place_of(after, order, entry.sequence) == place);
            assert(newest_order(after) == order.insert(place as int, at));
        }
        let ghost kept = sorted@;
        sorted.insert(place, entry);
        proof {
            assert forall|i: int| 0 <= i < at + 1 implies #[trigger] sorted@[i] == all[newest_order(
                after,
            )[i]] by {
                if i < place {
                    assert(sorted@[i] == kept[i]);
                } else if i > place {
                    assert(sorted@[i] == kept[i - 1]);
                }
            }
        }
    }
    proof {
        assert(dates.take(all.len() as int) == dates);
        newest_order_descends(dates);
    }
    let bound: usize = if limit < MAX_LIST_LIMIT {
        limit as usize
    } else {
        MAX_LIST_LIMIT as usize
    };
    sorted.truncate(bound);
    let ghost kept = sorted@;
    let mut result: Vec<T> = Vec::new();
    for entry in iter: sorted
        invariant
            iter.seq() == kept,
            result@.len() == iter.index(),
            forall|i: int| 0 <= i < iter.index() ==> #[trigger] result@[i] == kept[i].entry,
    {
        result.push(entry.entry);
    }
    result
}

/// The job record that an event holds.
pub open spec fn job_of(recorded: RecordedEvent) -> Option<JobRecord> {
    match recorded.payload {
        EventPayload::Job(record, _) => if state::job_event_type(recorded.event.event_type@) {
            Some(record)
        } else {
            None
        },
        _ => None,
    }
}

/// The run result that an event holds.
pub open spec fn result_of(recorded: RecordedEvent) -> Option<RunResultReceipt> {
    match recorded.payload {
        EventPayload::RunResult(receipt) => if recorded.event.event_type@ == "run.result_recorded"@ {
            Some(receipt)
        } else {
            None
        },
        _ => None,
    }
}

/// For each job the place of the latest event that records it.
pub open spec fn latest_jobs(history: Seq<RecordedEvent>) -> Map<Seq<char>, usize>
    decreases history.len(),
{
    if history.len() == 0 {
        Map::empty()
    } else {
        let earlier = latest_jobs(history.drop_last());
        match job_of(history.last()) {
            Some(record) => earlier.insert(record.job_id@, (history.len() - 1) as usize),
            None => earlier,
        }
    }
}

/// For each run the place of the latest event that records its result.
pub open spec fn latest_results(history: Seq<RecordedEvent>) -> Map<Seq<char>, usize>
    decreases history.len(),
{
    if history.len() == 0 {
        Map::empty()
    } else {
        let earlier = latest_results(history.drop_last());
        match result_of(history.last()) {
            Some(receipt) => earlier.insert(receipt.run_id@, (history.len() - 1) as usize),
            None => earlier,
        }
    }
}

/// The place that is recorded for each job holds a record of that job.
proof fn latest_jobs_are_recorded(history: Seq<RecordedEvent>, job_id: Seq<char>)
    requires
        history.len() <= usize::MAX,
        latest_jobs(history).contains_key(job_id),
    ensures
        latest_jobs(history)[job_id] < history.len(),
        job_of(history[latest_jobs(history)[job_id] as int]) is Some,
        job_of(history[latest_jobs(history)[job_id] as int])->0.job_id@ == job_id,
    decreases history.len(),
{
    if history.len() > 0 {
        let earlier = history.drop_last();
        if job_of(history.last()) is Some && job_of(history.last())->0.job_id@ == job_id {
        } else {
            latest_jobs_are_recorded(earlier, job_id);
        }
    }
}

/// The place that is recorded for each run holds a result of that run.
proof fn latest_results_are_recorded(history: Seq<RecordedEvent>, run_id: Seq<char>)
    requires
        history.len() <= usize::MAX,
        latest_results(history).contains_key(run_id),
    ensures
        latest_results(history)[run_id] < history.len(),
        result_of(history[latest_results(history)[run_id] as int]) is Some,
        result_of(history[latest_results(history)[run_id] as int])->0.run_id@ == run_id,
    decreases history.len(),
{
    if history.len() > 0 {
        let earlier = history.drop_last();
        if result_of(history.last()) is Some && result_of(history.last())->0.run_id@ == run_id {
        } else {
            latest_results_are_recorded(earlier, run_id);
        }
    }
}

/// The list entry of the job whose latest record stands at `at`.
pub open spec fn job_entry(history: Seq<RecordedEvent>, at: int) -> Dated<RunListEntry> {
    let job = job_of(history[at])->0;
    let results = latest_results(history);
    let sequence = history[at].event.sequence;
    let done = results.contains_key(job.run_id@);
    let place = results[job.run_id@] as int;
    let receipt = result_of(history[place])->0;
    Dated {
        sequence: if done && history[place].event.sequence > sequence {
            history[place].event.sequence
        } else {
            sequence
        },
        entry: RunListEntry {
            run_id: job.run_id,
            job_id: Some(job.job_id),
            genome_id: job.genome_id,
            world_id: Some(job.world_id),
            state: job.state,
            completion_reason: if done {
                Some(receipt.completion_reason)
            } else {
                None
            },
            latency_millis: if done {
                Some(receipt.latency_millis)
            } else {
                None
            },
            actual_cost_microusd: if done {
                Some(receipt.actual_cost_microusd)
            } else {
                None
            },
        },
    }
}

/// The state that a run without a job ended in.
pub open spec fn direct_state(reason: RunCompletionReason) -> JobState {
    match reason {
        RunCompletionReason::Success => JobState::Succeeded,
        RunCompletionReason::OperatorInterrupt => JobState::Interrupted,
        _ => JobState::Failed,
    }
}

/// The list entry of the run without a job whose latest result stands at `at`.
pub open spec fn direct_entry(history: Seq<RecordedEvent>, at: int) -> Dated<RunListEntry> {
    let receipt = result_of(history[at])->0;
    Dated {
        sequence: history[at].event.sequence,
        entry: RunListEntry {
            run_id: receipt.run_id,
            job_id: None,
            genome_id: receipt.genome_id,
            world_id: Some(receipt.world_id),
            state: direct_state(receipt.completion_reason),
            completion_reason: Some(receipt.completion_reason),
            latency_millis: Some(receipt.latency_millis),
            actual_cost_microusd: Some(receipt.actual_cost_microusd),
        },
    }
}

/// Whether the latest record of some job runs as `run_id`.
pub open spec fn taken(history: Seq<RecordedEvent>, run_id: Seq<char>) -> bool {
    exists|job_id: Seq<char>| #[trigger]
        latest_jobs(history).contains_key(job_id) && job_of(
            history[latest_jobs(history)[job_id] as int],
        )->0.run_id@ == run_id
}

/// The entries of those among some runs that no job took.
pub open spec fn direct_entries(history: Seq<RecordedEvent>, run_ids: Seq<Seq<char>>) -> Seq<
    Dated<RunListEntry>,
>
    decreases run_ids.len(),
{
    if run_ids.len() == 0 {
        Seq::empty()
    } else {
        let earlier = direct_entries(history, run_ids.drop_last());
        if taken(history, run_ids.last()) {
            earlier
        } else {
            earlier.push(direct_entry(history, latest_results(history)[run_ids.last()] as int))
        }
    }
}

/// The entries of the jobs, in the order of their identities.
pub open spec fn job_entries(history: Seq<RecordedEvent>) -> Seq<Dated<RunListEntry>> {
    let jobs = latest_jobs(history);
    Seq::new(
        ordered::ordered_keys(jobs).len(),
        |i: int| job_entry(history, jobs[ordered::ordered_keys(jobs)[i]] as int),
    )
}

/// Every listed run: the jobs, then the runs without one, each in the order of identities.
pub open spec fn listed_runs(history: Seq<RecordedEvent>) -> Seq<Dated<RunListEntry>> {
    job_entries(history) + direct_entries(
        history,
        ordered::ordered_keys(latest_results(history)),
    )
}

/// Finds the place of the latest event for each job.
fn index_jobs(history: &Vec<RecordedEvent>) -> (result: OrderedMap<usize>)
    ensures
        result.wf(),
        result@ == latest_jobs(history@),
{
    let mut jobs: OrderedMap<usize> = OrderedMap::new();
    for at in 0..history.len()
        invariant
            jobs.wf(),
            jobs@ == latest_jobs(history@.take(at as int)),
    {
        proof {
            assert(history@.take(at + 1).drop_last() == history@.take(at as int));
        }
        match &history[at].payload {
            EventPayload::Job(record, _) => {
                if state::is_job_event(history[at].event.event_type.as_str()) {
                    jobs.insert(record.job_id.clone(), at);
                }
            },
            _ => {},
        }
    }
    proof {
        assert(history@.take(history@.len() as int) == history@);
    }
    jobs
}

/// Finds the place of the latest result of each run.
fn index_results(history: &Vec<RecordedEvent>) -> (result: OrderedMap<usize>)
    ensures
        result.wf(),
        result@ == latest_results(history@),
{
    let mut results: OrderedMap<usize> = OrderedMap::new();
    for at in 0..history.len()
        invariant
            results.wf(),
            results@ == latest_results(history@.take(at as int)),
    {
        proof {
            assert(history@.take(at + 1).drop_last() == history@.take(at as int));
        }
        match &history[at].payload {
            EventPayload::RunResult(receipt) => {
                if text::text_eq(history[at].event.event_type.as_str(), "run.result_recorded") {
                    results.insert(receipt.run_id.clone(), at);
                }
            },
            _ => {},
        }
    }
    proof {
        assert(history@.take(history@.len() as int) == history@);
    }
    results
}

/// Writes the list entry of the job whose latest record stands at `at`.
fn list_job(history: &Vec<RecordedEvent>, results: &OrderedMap<usize>, at: usize) -> (result: Option<
    Dated<RunListEntry>,
>)
    requires
        results.wf(),
        results@ == latest_results(history@),
        at < history@.len(),
        job_of(history@[at as int]) is Some,
    ensures
        result == Some(job_entry(history@, at as int)),
{
    let total: usize = history.len();
    assert(total == history@.len());
    match &history[at].payload {
        EventPayload::Job(job, _) => {
            let mut sequence: u64 = history[at].event.sequence;
            let mut completion_reason: Option<RunCompletionReason> = None;
            let mut latency_millis: Option<u64> = None;
            let mut actual_cost_microusd: Option<u64> = None;
            if let Some(place) = results.get(job.run_id.as_str()) {
                proof {
                    latest_results_are_recorded(history@, job.run_id@);
                }
                if history[*place].event.sequence > sequence {
                    sequence = history[*place].event.sequence;
                }
                if let EventPayload::RunResult(receipt) = &history[*place].payload {
                    completion_reason = Some(receipt.completion_reason);
                    latency_millis = Some(receipt.latency_millis);
                    actual_cost_microusd = Some(receipt.actual_cost_microusd);
                }
            }
            Some(
                Dated {
                    sequence,
                    entry: RunListEntry {
                        run_id: job.run_id.clone(),
                        job_id: Some(job.job_id.clone()),
                        genome_id: job.genome_id.clone(),
                        world_id: Some(job.world_id.clone()),
                        state: job.state,
                        completion_reason,
                        latency_millis,
                        actual_cost_microusd,
                    },
                },
            )
        },
        _ => None,
    }
}

/// Lists the recent jobs and runs without a job, newest first.
pub fn run_list(history: &Vec<RecordedEvent>, limit: u32) -> (result: Vec<RunListEntry>)
    ensures
        result@.len() == shown(limit, listed_runs(history@).len()),
        forall|i: int|
            0 <= i < result@.len() ==> #[trigger] result@[i] == listed_runs(
                history@,
            )[newest_order(sequences(listed_runs(history@)))[i]].entry,
{
    let jobs: OrderedMap<usize> = index_jobs(history);
    let results: OrderedMap<usize> = index_results(history);
    proof {
        jobs.lemma_keys_are_ordered();
        results.lemma_keys_are_ordered();
    }
    let mut entries: Vec<Dated<RunListEntry>> = Vec::new();
    let mut consumed: OrderedMap<()> = OrderedMap::new();
    let total: usize = history.len();
    let count: usize = jobs.len();
    for i in 0..count
        invariant
            total == history@.len(),
            count == jobs.keys().len(),
            jobs.wf(),
            results.wf(),
            consumed.wf(),
            jobs@ == latest_jobs(history@),
            results@ == latest_results(history@),
            jobs.keys() == ordered::ordered_keys(jobs@),
            entries@ == job_entries(history@).take(i as int),
            forall|run_id: Seq<char>| #[trigger]
                consumed@.contains_key(run_id) <==> exists|k: int|
                    0 <= k < i && job_of(
                        history@[latest_jobs(history@)[#[trigger] jobs.keys()[k]] as int],
                    )->0.run_id@ == run_id,
    {
        let key: &String = jobs.key_at(i);
        let at: usize = *jobs.value_at(i);
        proof {
            latest_jobs_are_recorded(history@, key@);
        }
        let ghost before = consumed@;
        if let EventPayload::Job(job, _) = &history[at].payload {
            consumed.insert(job.run_id.clone(), ());
            proof {
                assert forall|run_id: Seq<char>| #[trigger]
                    consumed@.contains_key(run_id) <==> exists|k: int|
                        0 <= k < i + 1 && job_of(
                            history@[latest_jobs(history@)[#[trigger] jobs.keys()[k]] as int],
                        )->0.run_id@ == run_id by {
                    assert(consumed@.contains_key(run_id) <==> before.contains_key(run_id)
                        || run_id == job.run_id@);
                    assert(job_of(history@[latest_jobs(history@)[jobs.keys()[i as int]] as int])->0
                        == *job);
                }
            }
        }
        if let Some(entry) = list_job(history, &results, at) {
            entries.push(entry);
        }
        proof {
            assert(job_entries(history@).take(i + 1) == job_entries(history@).take(i as int).push(
                job_entries(history@)[i as int],
            ));
        }
    }
    proof {
        assert(job_entries(history@).take(count as int) == job_entries(history@));
        assert forall|run_id: Seq<char>| #[trigger]
            consumed@.contains_key(run_id) <==> taken(history@, run_id) by {
            if taken(history@, run_id) {
                let job_id = choose|job_id: Seq<char>| #[trigger]
                    latest_jobs(history@).contains_key(job_id) && job_of(
                        history@[latest_jobs(history@)[job_id] as int],
                    )->0.run_id@ == run_id;
                jobs.lemma_place(job_id);
                assert(jobs.keys()[jobs.place(job_id)] == job_id);
            }
            if consumed@.contains_key(run_id) {
                let k = choose|k: int|
                    0 <= k < count && job_of(
                        history@[latest_jobs(history@)[#[trigger] jobs.keys()[k]] as int],
                    )->0.run_id@ == run_id;
                jobs.lemma_bound_at(k);
                assert(latest_jobs(history@).contains_key(jobs.keys()[k]));
            }
        }
        assert(entries@ == job_entries(history@) + direct_entries(
            history@,
            results.keys().take(0),
        ));
    }
    let count: usize = results.len();
    for i in 0..count
        invariant
            total == history@.len(),
            count == results.keys().len(),
            results.wf(),
            consumed.wf(),
            results@ == latest_results(history@),
            forall|run_id: Seq<char>| #[trigger]
                consumed@.contains_key(run_id) <==> taken(history@, run_id),
            entries@ == job_entries(history@) + direct_entries(
                history@,
                results.keys().take(i as int),
            ),
    {
        let run_id: &String = results.key_at(i);
        let at: usize = *results.value_at(i);
        proof {
            latest_results_are_recorded(history@, run_id@);
            assert(results.keys().take(i + 1).drop_last() == results.keys().take(i as int));
            assert(results.keys().take(i + 1).last() == run_id@);
        }
        if !consumed.contains_key(run_id.as_str()) {
            if let EventPayload::RunResult(receipt) = &history[at].payload {
                let state: JobState = match receipt.completion_reason {
                    RunCompletionReason::Success => JobState::Succeeded,
                    RunCompletionReason::OperatorInterrupt => JobState::Interrupted,
                    _ => JobState::Failed,
                };
                let ghost before = entries@;
                entries.push(
                    Dated {
                        sequence: history[at].event.sequence,
                        entry: RunListEntry {
                            run_id: receipt.run_id.clone(),
                            job_id: None,
                            genome_id: receipt.genome_id.clone(),
                            world_id: Some(receipt.world_id.clone()),
                            state,
                            completion_reason: Some(receipt.completion_reason),
                            latency_millis: Some(receipt.latency_millis),
                            actual_cost_microusd: Some(receipt.actual_cost_microusd),
                        },
                    },
                );
                assert(entries@ == before.push(direct_entry(history@, at as int)));
            }
        }
    }
    proof {
        assert(results.keys().take(count as int) == results.keys());
    }
    newest_first(entries, limit)
}

/// What a [`DenialEntry`] says.
pub struct Denial {
    pub kind: DenialKind,
    pub timestamp_millis: i64,
    pub request_id: Option<Seq<char>>,
    pub command: Option<Seq<char>>,
    pub run_id: Option<Seq<char>>,
    pub genome_id: Option<Seq<char>>,
    pub world_id: Option<Seq<char>>,
    pub client_id: Option<Seq<char>>,
}

impl View for DenialEntry {
    type V = Denial;

    open spec fn view(&self) -> Denial {
        Denial {
            kind: self.kind,
            timestamp_millis: self.timestamp_millis,
            request_id: json::held(self.request_id),
            command: json::held(self.command),
            run_id: json::held(self.run_id),
            genome_id: json::held(self.genome_id),
            world_id: json::held(self.world_id),
            client_id: json::held(self.client_id),
        }
    }
}

/// A command as a denial names it: its audit type without the common prefix.
pub open spec fn command_label(command: Command) -> Seq<char> {
    let kind = commands::audit_type(command)@;
    if text::begins_with(kind, "control."@) {
        kind.skip("control."@.len() as int)
    } else {
        "unknown"@
    }
}

/// The denial that an event records.
pub open spec fn denial_of(recorded: RecordedEvent) -> Option<Denial> {
    let kind = recorded.event.event_type@;
    let plain = Denial {
        kind: DenialKind::RequestRejected,
        timestamp_millis: recorded.event.timestamp_millis,
        request_id: None,
        command: None,
        run_id: None,
        genome_id: None,
        world_id: None,
        client_id: None,
    };
    match recorded.payload {
        EventPayload::Command(audited) => if kind == "control.request_rejected"@ {
            Some(
                Denial {
                    request_id: Some(audited.request_id@),
                    command: Some(command_label(audited.command)),
                    ..plain
                },
            )
        } else if kind == "mcp.call"@ {
            match audited.command {
                Command::McpCall { client_id, decision, .. } => match decision {
                    McpDecision::Denied { .. } => Some(
                        Denial {
                            kind: DenialKind::McpCallDenied,
                            client_id: Some(client_id@),
                            ..plain
                        },
                    ),
                    McpDecision::Allowed { .. } => None,
                },
                _ => None,
            }
        } else {
            None
        },
        EventPayload::Trace(receipt, _) => if kind == "trace.recorded"@ && receipt.kind
            == TraceKind::CapabilityDenied {
            Some(
                Denial {
                    kind: DenialKind::RuntimeCapabilityDenied,
                    run_id: Some(receipt.run_id@),
                    genome_id: Some(receipt.genome_id@),
                    world_id: Some(receipt.world_id@),
                    ..plain
                },
            )
        } else {
            None
        },
        _ => None,
    }
}

/// Every recorded denial, in ledger order.
pub open spec fn denials(history: Seq<RecordedEvent>) -> Seq<Dated<Denial>>
    decreases history.len(),
{
    if history.len() == 0 {
        Seq::empty()
    } else {
        let earlier = denials(history.drop_last());
        match denial_of(history.last()) {
            Some(entry) => earlier.push(Dated { sequence: history.last().event.sequence, entry }),
            None => earlier,
        }
    }
}

/// A denial names a request and its command only where the request was rejected, a run with
/// its Genome and World only where a capability was denied, and a client only where its call
/// was denied.
pub proof fn denials_name_what_their_kind_has(recorded: RecordedEvent)
    ensures
        denial_of(recorded) matches Some(denial) ==> {
            &&& (denial.request_id is Some || denial.command is Some) ==> denial.kind
                == DenialKind::RequestRejected
            &&& (denial.run_id is Some || denial.genome_id is Some || denial.world_id is Some)
                ==> denial.kind == DenialKind::RuntimeCapabilityDenied
            &&& denial.client_id is Some ==> denial.kind == DenialKind::McpCallDenied
        },
{
}

/// A denial of the given kind that names nothing.
fn plain_denial(kind: DenialKind, timestamp_millis: i64) -> (result: DenialEntry)
    ensures
        result == (DenialEntry {
            kind,
            timestamp_millis,
            request_id: None,
            command: None,
            run_id: None,
            genome_id: None,
            world_id: None,
            client_id: None,
        }),
{
    DenialEntry {
        kind,
        timestamp_millis,
        request_id: None,
        command: None,
        run_id: None,
        genome_id: None,
        world_id: None,
        client_id: None,
    }
}

/// Reads the denial that an event records, if any.
pub fn recorded_denial(recorded: &RecordedEvent) -> (result: Option<DenialEntry>)
    ensures
        match result {
            Some(entry) => denial_of(*recorded) == Some(entry@),
            None => denial_of(*recorded) is None,
        },
{
    let kind: &str = recorded.event.event_type.as_str();
    let dated: i64 = recorded.event.timestamp_millis;
    match &recorded.payload {
        EventPayload::Command(audited) => {
            if text::text_eq(kind, "control.request_rejected") {
                let label: String = match text::strip_prefix(
                    commands::event_type(&audited.command),
                    "control.",
                ) {
                    Some(rest) => rest,
                    None => "unknown".to_owned(),
                };
                let mut entry: DenialEntry = plain_denial(DenialKind::RequestRejected, dated);
                entry.request_id = Some(audited.request_id.clone());
                entry.command = Some(label);
                return Some(entry);
            }
            if !text::text_eq(kind, "mcp.call") {
                return None;
            }
            match &audited.command {
                Command::McpCall { client_id, decision, .. } => match decision {
                    McpDecision::Denied { .. } => {
                        let mut entry: DenialEntry = plain_denial(DenialKind::McpCallDenied, dated);
                        entry.client_id = Some(client_id.clone());
                        Some(entry)
                    },
                    McpDecision::Allowed { .. } => None,
                },
                _ => None,
            }
        },
        EventPayload::Trace(receipt, _) => {
            if text::text_eq(kind, "trace.recorded") && receipt.kind == TraceKind::CapabilityDenied {
                let mut entry: DenialEntry = plain_denial(
                    DenialKind::RuntimeCapabilityDenied,
                    dated,
                );
                entry.run_id = Some(receipt.run_id.clone());
                entry.genome_id = Some(receipt.genome_id.clone());
                entry.world_id = Some(receipt.world_id.clone());
                Some(entry)
            } else {
                None
            }
        },
        _ => None,
    }
}

/// Lists the recent denials, newest first.
pub fn denial_list(history: &Vec<RecordedEvent>, limit: u32) -> (result: Vec<DenialEntry>)
    ensures
        result@.len() == shown(limit, denials(history@).len()),
        forall|i: int|
            0 <= i < result@.len() ==> (#[trigger] result@[i])@ == denials(
                history@,
            )[newest_order(sequences(denials(history@)))[i]].entry,
{
    let mut entries: Vec<Dated<DenialEntry>> = Vec::new();
    for at in 0..history.len()
        invariant
            entries@.len() == denials(history@.take(at as int)).len(),
            forall|i: int|
                0 <= i < entries@.len() ==> (#[trigger] entries@[i]).sequence == denials(
                    history@.take(at as int),
                )[i].sequence && entries@[i].entry@ == denials(history@.take(at as int))[i].entry,
    {
        proof {
            assert(history@.take(at + 1).drop_last() == history@.take(at as int));
            assert(history@.take(at + 1).last() == history@[at as int]);
        }
        if let Some(entry) = recorded_denial(&history[at]) {
            entries.push(Dated { sequence: history[at].event.sequence, entry });
        }
    }
    proof {
        assert(history@.take(history@.len() as int) == history@);
        assert(sequences(entries@) == sequences(denials(history@)));
        newest_order_descends(sequences(entries@));
    }
    newest_first(entries, limit)
}

/// Whether a search for the receipt of an evaluation ends at an event: at its reference, or
/// where none can be read.
pub open spec fn ends_search(recorded: RecordedEvent, kind: Seq<char>, evaluation_id: Seq<char>) -> bool {
    recorded.event.event_type@ == kind && match recorded.payload {
        EventPayload::Reference(reference) => reference.evaluation_id@ == evaluation_id,
        _ => true,
    }
}

/// Where a search for the receipt of an evaluation ends.
pub open spec fn search_end(
    history: Seq<RecordedEvent>,
    kind: Seq<char>,
    evaluation_id: Seq<char>,
) -> Option<int>
    decreases history.len(),
{
    if history.len() == 0 {
        None
    } else {
        match search_end(history.drop_last(), kind, evaluation_id) {
            Some(at) => Some(at),
            None => if ends_search(history.last(), kind, evaluation_id) {
                Some(history.len() - 1)
            } else {
                None
            },
        }
    }
}

/// The first receipt of a kind for an evaluation under a registered World.
pub open spec fn summarized(
    registry: Registry,
    history: Seq<RecordedEvent>,
    kind: Seq<char>,
    evaluation_id: Seq<char>,
) -> Result<Option<int>, Refusal> {
    match search_end(history, kind, evaluation_id) {
        None => Ok(None),
        Some(at) => match history[at].payload {
            EventPayload::Reference(reference) => if registry.worlds@.contains_key(
                reference.world_id@,
            ) {
                Ok(Some(at))
            } else {
                Err(Refusal::Internal)
            },
            _ => Err(Refusal::Internal),
        },
    }
}

/// A search that ended does not go on.
proof fn search_end_is_first(
    history: Seq<RecordedEvent>,
    length: int,
    kind: Seq<char>,
    evaluation_id: Seq<char>,
)
    requires
        0 <= length <= history.len(),
        search_end(history.take(length), kind, evaluation_id) is Some,
    ensures
        search_end(history, kind, evaluation_id) == search_end(
            history.take(length),
            kind,
            evaluation_id,
        ),
    decreases history.len() - length,
{
    if length == history.len() {
        assert(history.take(length) == history);
    } else {
        assert(history.take(length + 1).drop_last() == history.take(length));
        search_end_is_first(history, length + 1, kind, evaluation_id);
    }
}

/// Finds the first receipt of a kind for an evaluation, which a list summarizes.
pub fn find_summarized(
    registry: &Registry,
    history: &Vec<RecordedEvent>,
    kind: &str,
    evaluation_id: &str,
) -> (result: Result<Option<usize>, ExecuteError>)
    requires
        registry.wf(),
    ensures
        (match result {
            Ok(Some(at)) => Ok(Some(at as int)),
            Ok(None) => Ok(None),
            Err(error) => Err(error@),
        }) == summarized(*registry, history@, kind@, evaluation_id@),
        match result {
            Ok(Some(at)) => at < history@.len(),
            _ => true,
        },
{
    for at in 0..history.len()
        invariant
            registry.wf(),
            search_end(history@.take(at as int), kind@, evaluation_id@) is None,
    {
        proof {
            assert(history@.take(at + 1).drop_last() == history@.take(at as int));
            assert(history@.take(at + 1).last() == history@[at as int]);
            if search_end(history@.take(at + 1), kind@, evaluation_id@) is Some {
                search_end_is_first(history@, at + 1, kind@, evaluation_id@);
            }
        }
        if text::text_eq(history[at].event.event_type.as_str(), kind) {
            match &history[at].payload {
                EventPayload::Reference(reference) => {
                    if text::text_eq(reference.evaluation_id.as_str(), evaluation_id) {
                        if registry.worlds.contains_key(reference.world_id.as_str()) {
                            return Ok(Some(at));
                        }
                        return Err(ExecuteError::Internal);
                    }
                },
                _ => {
                    return Err(ExecuteError::Internal);
                },
            }
        }
    }
    proof {
        assert(history@.take(history@.len() as int) == history@);
    }
    Ok(None)
}

/// Summarizes a verified selection.
pub fn evaluation_selection_summary(receipt: &SelectionReceipt) -> (result: EvaluationSelectionSummary)
    ensures
        result == (EvaluationSelectionSummary {
            metrics_eligible: receipt.metrics_eligible,
            estimate_bps: receipt.estimate_bps,
            lower_bps: receipt.lower_bps,
            upper_bps: receipt.upper_bps,
            parent_cost_microusd: receipt.parent_cost_microusd,
            candidate_cost_microusd: receipt.candidate_cost_microusd,
            parent_latency_millis: receipt.parent_latency_millis,
            candidate_latency_millis: receipt.candidate_latency_millis,
            invariant_gate_verified: receipt.invariant_gate_verified,
            promotion_eligible: receipt.promotion_eligible,
        }),
{
    EvaluationSelectionSummary {
        metrics_eligible: receipt.metrics_eligible,
        estimate_bps: receipt.estimate_bps,
        lower_bps: receipt.lower_bps,
        upper_bps: receipt.upper_bps,
        parent_cost_microusd: receipt.parent_cost_microusd,
        candidate_cost_microusd: receipt.candidate_cost_microusd,
        parent_latency_millis: receipt.parent_latency_millis,
        candidate_latency_millis: receipt.candidate_latency_millis,
        invariant_gate_verified: receipt.invariant_gate_verified,
        promotion_eligible: receipt.promotion_eligible,
    }
}

/// Summarizes a verified invariant check.
pub fn evaluation_invariant_summary(receipt: &InvariantReceipt) -> (result: EvaluationInvariantSummary)
    ensures
        result == (EvaluationInvariantSummary {
            total_checks: receipt.total_checks,
            total_candidate_violations: receipt.total_candidate_violations,
            total_paired_regressions: receipt.total_paired_regressions,
            maximum_regressions: receipt.maximum_regressions,
            regressions_within_budget: receipt.regressions_within_budget,
            candidate_contract_satisfied: receipt.candidate_contract_satisfied,
        }),
{
    EvaluationInvariantSummary {
        total_checks: receipt.total_checks,
        total_candidate_violations: receipt.total_candidate_violations,
        total_paired_regressions: receipt.total_paired_regressions,
        maximum_regressions: receipt.maximum_regressions,
        regressions_within_budget: receipt.regressions_within_budget,
        candidate_contract_satisfied: receipt.candidate_contract_satisfied,
    }
}

/// The assessment of an evaluation that an event holds.
pub open spec fn assessment_of(recorded: RecordedEvent, evaluation_id: Seq<char>) -> Option<
    EvaluationForgeSummary,
> {
    match recorded.payload {
        EventPayload::ForgeAssessment(payload, canonical) => if recorded.event.event_type@
            == "forge.assessed"@ && canonical@ == recorded.event.payload@
            && payload.evaluation_id@ == evaluation_id {
            Some(
                EvaluationForgeSummary {
                    assessment_id: payload.assessment_id,
                    outcome: payload.outcome,
                },
            )
        } else {
            None
        },
        _ => None,
    }
}

/// The first assessment of an evaluation.
pub open spec fn first_assessment(history: Seq<RecordedEvent>, evaluation_id: Seq<char>) -> Option<
    EvaluationForgeSummary,
>
    decreases history.len(),
{
    if history.len() == 0 {
        None
    } else {
        error::first(
            first_assessment(history.drop_last(), evaluation_id),
            assessment_of(history.last(), evaluation_id),
        )
    }
}

/// An assessment that was found stays the first.
proof fn first_assessment_stays(history: Seq<RecordedEvent>, length: int, evaluation_id: Seq<char>)
    requires
        0 <= length <= history.len(),
        first_assessment(history.take(length), evaluation_id) is Some,
    ensures
        first_assessment(history, evaluation_id) == first_assessment(
            history.take(length),
            evaluation_id,
        ),
    decreases history.len() - length,
{
    if length == history.len() {
        assert(history.take(length) == history);
    } else {
        assert(history.take(length + 1).drop_last() == history.take(length));
        first_assessment_stays(history, length + 1, evaluation_id);
    }
}

/// Finds the first assessment of an evaluation.
pub fn forge_assessment_summary(history: &Vec<RecordedEvent>, evaluation_id: &str) -> (result: Option<
    EvaluationForgeSummary,
>)
    ensures
        result == first_assessment(history@, evaluation_id@),
{
    for at in 0..history.len()
        invariant
            first_assessment(history@.take(at as int), evaluation_id@) is None,
    {
        proof {
            assert(history@.take(at + 1).drop_last() == history@.take(at as int));
            assert(history@.take(at + 1).last() == history@[at as int]);
            if first_assessment(history@.take(at + 1), evaluation_id@) is Some {
                first_assessment_stays(history@, at + 1, evaluation_id@);
            }
        }
        if let EventPayload::ForgeAssessment(payload, canonical) = &history[at].payload {
            if text::text_eq(history[at].event.event_type.as_str(), "forge.assessed")
                && arena_jobs::bytes_equal(canonical, &history[at].event.payload) && text::text_eq(payload.evaluation_id.as_str(), evaluation_id) {
                return Some(
                    EvaluationForgeSummary {
                        assessment_id: payload.assessment_id.clone(),
                        outcome: payload.outcome,
                    },
                );
            }
        }
    }
    proof {
        assert(history@.take(history@.len() as int) == history@);
    }
    None
}

/// Whether an event promotes a Champion on the evidence of an evaluation.
pub open spec fn promotes_on(recorded: RecordedEvent, evaluation_id: Seq<char>) -> bool {
    match recorded.payload {
        EventPayload::ChampionTransition(payload) => match payload.promotion {
            Some(promotion) => promotion.evaluation_id@ == evaluation_id,
            None => false,
        },
        _ => false,
    }
}

/// The Champion transitions that rest on an evaluation, in ledger order.
pub open spec fn transitions_on(history: Seq<RecordedEvent>, evaluation_id: Seq<char>) -> Seq<Seq<char>>
    decreases history.len(),
{
    if history.len() == 0 {
        Seq::empty()
    } else {
        let earlier = transitions_on(history.drop_last(), evaluation_id);
        match history.last().payload {
            EventPayload::ChampionTransition(payload) => if promotes_on(
                history.last(),
                evaluation_id,
            ) {
                earlier.push(payload.transition_id@)
            } else {
                earlier
            },
            _ => earlier,
        }
    }
}

/// Lists the Champion transitions that rest on an evaluation.
pub fn champion_transition_ids_for(history: &Vec<RecordedEvent>, evaluation_id: &str) -> (result: Vec<
    String,
>)
    ensures
        text::texts(result@) == transitions_on(history@, evaluation_id@),
{
    let mut result: Vec<String> = Vec::new();
    assert(text::texts(result@) == Seq::<Seq<char>>::empty());
    for at in 0..history.len()
        invariant
            text::texts(result@) == transitions_on(history@.take(at as int), evaluation_id@),
    {
        proof {
            assert(history@.take(at + 1).drop_last() == history@.take(at as int));
            assert(history@.take(at + 1).last() == history@[at as int]);
        }
        if let EventPayload::ChampionTransition(payload) = &history[at].payload {
            if let Some(promotion) = &payload.promotion {
                if text::text_eq(promotion.evaluation_id.as_str(), evaluation_id) {
                    let ghost before = result@;
                    result.push(payload.transition_id.clone());
                    assert(text::texts(result@) == text::texts(before).push(payload.transition_id@));
                }
            }
        }
    }
    proof {
        assert(history@.take(history@.len() as int) == history@);
    }
    result
}

/// The recorded evaluations in the order of their identities, each with the sequence of its
/// receipt.
pub open spec fn dated_evaluations(evaluations: Map<Seq<char>, u64>) -> Seq<Dated<Seq<char>>> {
    let keys = ordered::ordered_keys(evaluations);
    Seq::new(keys.len(), |i: int| Dated { sequence: evaluations[keys[i]], entry: keys[i] })
}

/// Lists the recent evaluations, newest first.
pub fn recent_evaluations(state: &ControlState, limit: u32) -> (result: Vec<String>)
    requires
        state.wf(),
    ensures
        result@.len() == shown(limit, dated_evaluations(state@.evaluation_events).len()),
        forall|i: int|
            0 <= i < result@.len() ==> (#[trigger] result@[i])@ == dated_evaluations(
                state@.evaluation_events,
            )[newest_order(sequences(dated_evaluations(state@.evaluation_events)))[i]].entry,
{
    let recorded: &OrderedMap<u64> = &state.evaluation_events;
    let ghost all = dated_evaluations(recorded@);
    proof {
        recorded.lemma_keys_are_ordered();
    }
    let mut entries: Vec<Dated<String>> = Vec::new();
    let count: usize = recorded.len();
    for i in 0..count
        invariant
            count == recorded.keys().len(),
            recorded.wf(),
            recorded.keys() == ordered::ordered_keys(recorded@),
            all == dated_evaluations(recorded@),
            entries@.len() == i,
            forall|k: int|
                0 <= k < i ==> (#[trigger] entries@[k]).sequence == all[k].sequence
                    && entries@[k].entry@ == all[k].entry,
    {
        let sequence: u64 = *recorded.value_at(i);
        entries.push(Dated { sequence, entry: recorded.key_at(i).clone() });
    }
    proof {
        assert(sequences(entries@) == sequences(all));
        newest_order_descends(sequences(entries@));
    }
    newest_first(entries, limit)
}

/// Whether an entry lists an evaluation with what came of it.
pub open spec fn lists_evaluation(
    entry: EvaluationListEntry,
    history: Seq<RecordedEvent>,
    evaluation: EvaluationRecord,
    selection: Option<SelectionReceipt>,
    invariants: Option<InvariantReceipt>,
) -> bool {
    &&& entry.evaluation == evaluation
    &&& match selection {
        None => entry.selection is None,
        Some(receipt) => entry.selection == Some(
            EvaluationSelectionSummary {
                metrics_eligible: receipt.metrics_eligible,
                estimate_bps: receipt.estimate_bps,
                lower_bps: receipt.lower_bps,
                upper_bps: receipt.upper_bps,
                parent_cost_microusd: receipt.parent_cost_microusd,
                candidate_cost_microusd: receipt.candidate_cost_microusd,
                parent_latency_millis: receipt.parent_latency_millis,
                candidate_latency_millis: receipt.candidate_latency_millis,
                invariant_gate_verified: receipt.invariant_gate_verified,
                promotion_eligible: receipt.promotion_eligible,
            },
        ),
    }
    &&& match invariants {
        None => entry.invariants is None,
        Some(receipt) => entry.invariants == Some(
            EvaluationInvariantSummary {
                total_checks: receipt.total_checks,
                total_candidate_violations: receipt.total_candidate_violations,
                total_paired_regressions: receipt.total_paired_regressions,
                maximum_regressions: receipt.maximum_regressions,
                regressions_within_budget: receipt.regressions_within_budget,
                candidate_contract_satisfied: receipt.candidate_contract_satisfied,
            },
        ),
    }
    &&& entry.forge_assessment == first_assessment(history, evaluation.evaluation_id@)
    &&& text::texts(entry.champion_transition_ids@) == transitions_on(
        history,
        evaluation.evaluation_id@,
    )
}

/// Puts the entry of one evaluation together.
pub fn evaluation_entry(
    history: &Vec<RecordedEvent>,
    evaluation: EvaluationRecord,
    selection: Option<&SelectionReceipt>,
    invariants: Option<&InvariantReceipt>,
) -> (result: EvaluationListEntry)
    ensures
        lists_evaluation(
            result,
            history@,
            evaluation,
            ordered::found(selection),
            ordered::found(invariants),
        ),
{
    let selection: Option<EvaluationSelectionSummary> = match selection {
        Some(receipt) => Some(evaluation_selection_summary(receipt)),
        None => None,
    };
    let invariants: Option<EvaluationInvariantSummary> = match invariants {
        Some(receipt) => Some(evaluation_invariant_summary(receipt)),
        None => None,
    };
    let forge_assessment: Option<EvaluationForgeSummary> = forge_assessment_summary(
        history,
        evaluation.evaluation_id.as_str(),
    );
    let champion_transition_ids: Vec<String> = champion_transition_ids_for(
        history,
        evaluation.evaluation_id.as_str(),
    );
    EvaluationListEntry {
        evaluation,
        selection,
        invariants,
        forge_assessment,
        champion_transition_ids,
    }
}

/// What is known of an evaluation that is to be listed.
pub struct ListedEvaluation {
    /// The evaluation, where its receipt could be verified.
    pub evaluation: Option<EvaluationRecord>,
    /// What was selected over it.
    pub selection: Result<Option<SelectionReceipt>, ExecuteError>,
    /// What its invariant check found.
    pub invariants: Result<Option<InvariantReceipt>, ExecuteError>,
}

/// Why an evaluation cannot be listed.
pub open spec fn listing_fault(listed: ListedEvaluation) -> Option<ExecuteError> {
    if listed.evaluation is None {
        Some(ExecuteError::Internal)
    } else if listed.selection is Err {
        Some(listed.selection->Err_0)
    } else if listed.invariants is Err {
        Some(listed.invariants->Err_0)
    } else {
        None
    }
}

/// Whether `at` is the first evaluation that cannot be listed.
pub open spec fn first_unlisted(listed: Seq<ListedEvaluation>, at: int) -> bool {
    &&& 0 <= at < listed.len()
    &&& listing_fault(listed[at]) is Some
    &&& forall|i: int| 0 <= i < at ==> listing_fault(#[trigger] listed[i]) is None
}

/// Lists evaluations in the order given, or fails as the first that cannot be listed does.
pub fn evaluation_list(history: &Vec<RecordedEvent>, listed: Vec<ListedEvaluation>) -> (result: Result<
    Vec<EvaluationListEntry>,
    ExecuteError,
>)
    ensures
        match result {
            Ok(entries) => entries@.len() == listed@.len() && forall|i: int|
                0 <= i < listed@.len() ==> listing_fault(#[trigger] listed@[i]) is None
                    && lists_evaluation(
                    entries@[i],
                    history@,
                    listed@[i].evaluation->0,
                    listed@[i].selection->Ok_0,
                    listed@[i].invariants->Ok_0,
                ),
            Err(error) => exists|at: int| #[trigger]
                first_unlisted(listed@, at) && listing_fault(listed@[at]) == Some(error),
        },
{
    let mut entries: Vec<EvaluationListEntry> = Vec::new();
    let ghost all = listed@;
    for next in iter: listed
        invariant
            iter.seq() == all,
            entries@.len() == iter.index(),
            forall|i: int|
                0 <= i < iter.index() ==> listing_fault(#[trigger] all[i]) is None
                    && lists_evaluation(
                    entries@[i],
                    history@,
                    all[i].evaluation->0,
                    all[i].selection->Ok_0,
                    all[i].invariants->Ok_0,
                ),
    {
        let ghost at = entries@.len() as int;
        assert(next == all[at]);
        let evaluation: EvaluationRecord = match next.evaluation {
            Some(evaluation) => evaluation,
            None => {
                assert(first_unlisted(all, at));
                return Err(ExecuteError::Internal);
            },
        };
        let selection: Option<SelectionReceipt> = match next.selection {
            Ok(selection) => selection,
            Err(error) => {
                assert(first_unlisted(all, at));
                return Err(error);
            },
        };
        let invariants: Option<InvariantReceipt> = match next.invariants {
            Ok(invariants) => invariants,
            Err(error) => {
                assert(first_unlisted(all, at));
                return Err(error);
            },
        };
        entries.push(
            evaluation_entry(history, evaluation, selection.as_ref(), invariants.as_ref()),
        );
    }
    Ok(entries)
}

/// A list never shows more than the common ceiling, and never an older entry before a newer
/// one.
pub proof fn lists_are_bounded_and_descend<T>(entries: Seq<Dated<T>>, limit: u32)
    ensures
        shown(limit, entries.len()) <= MAX_LIST_LIMIT,
        shown(limit, entries.len()) <= limit,
        forall|i: int, j: int|
            0 <= i < j < shown(limit, entries.len()) ==> entries[#[trigger] newest_order(
                sequences(entries),
            )[i]].sequence >= entries[#[trigger] newest_order(sequences(entries))[j]].sequence,
        forall|i: int, k: int|
            0 <= i < shown(limit, entries.len()) <= k < entries.len() ==> entries[#[trigger] newest_order(
                sequences(entries),
            )[i]].sequence >= entries[#[trigger] newest_order(sequences(entries))[k]].sequence,
{
    newest_order_descends(sequences(entries));
}

} // verus!
