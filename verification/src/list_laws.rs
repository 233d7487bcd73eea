//! What lists show, said of the histories that they are read from and of their entries alone.

use crate::error::ExecuteError;
use crate::lists;
use crate::lists::{Dated, ListedEvaluation};
use crate::ordered;
use crate::protocol::{
    DenialEntry, DenialKind, EvaluationForgeSummary, EvaluationInvariantSummary,
    EvaluationListEntry, EvaluationRecord, EvaluationSelectionSummary, JobState, RunListEntry,
};
use crate::records::{
    InvariantReceipt, RunCompletionReason, SelectionReceipt, TraceKind,
};
use crate::registry::Registry;
use crate::state::{ControlState, EventPayload, RecordedEvent};
use crate::text;
use vstd::prelude::*;

verus! {

/// One of finitely many texts precedes all others.
pub proof fn some_text_is_least(texts: Set<Seq<char>>)
    requires
        texts.finite(),
        texts.len() > 0,
    ensures
        exists|least: Seq<char>| #[trigger]
            texts.contains(least) && forall|other: Seq<char>| #[trigger]
                texts.contains(other) ==> !text::precedes(other, least),
    decreases texts.len(),
{
    let one = texts.choose();
    text::precedes_irreflexive(one);
    let rest = texts.remove(one);
    if rest.len() == 0 {
        assert forall|other: Seq<char>| #[trigger] texts.contains(other) implies other == one by {
            if other != one {
                assert(rest.contains(other));
            }
        }
        assert(texts.contains(one));
    } else {
        some_text_is_least(rest);
        let least = choose|least: Seq<char>| #[trigger]
            rest.contains(least) && forall|other: Seq<char>| #[trigger]
                rest.contains(other) ==> !text::precedes(other, least);
        let first = if text::precedes(one, least) {
            one
        } else {
            least
        };
        assert forall|other: Seq<char>| #[trigger] texts.contains(other) implies !text::precedes(
            other,
            first,
        ) by {
            if other != one {
                assert(rest.contains(other));
                if first == one && text::precedes(other, one) {
                    text::precedes_transitive(other, one, least);
                }
            }
        }
        assert(texts.contains(first));
    }
}

/// Finitely many texts can be listed in ascending order.
proof fn texts_can_be_listed(texts: Set<Seq<char>>) -> (listed: Seq<Seq<char>>)
    requires
        texts.finite(),
    ensures
        ordered::ascending(listed),
        forall|id: Seq<char>| #[trigger] listed.contains(id) <==> texts.contains(id),
    decreases texts.len(),
{
    if texts.len() == 0 {
        Seq::empty()
    } else {
        some_text_is_least(texts);
        let least = choose|least: Seq<char>| #[trigger]
            texts.contains(least) && forall|other: Seq<char>| #[trigger]
                texts.contains(other) ==> !text::precedes(other, least);
        let rest = texts_can_be_listed(texts.remove(least));
        let listed = seq![least] + rest;
        assert forall|id: Seq<char>| #[trigger] listed.contains(id) <==> texts.contains(id) by {
            if texts.contains(id) && id != least {
                assert(texts.remove(least).contains(id));
                assert(rest.contains(id));
                let at = choose|at: int| 0 <= at < rest.len() && rest[at] == id;
                assert(listed[at + 1] == id);
            }
            if id == least {
                assert(listed[0] == least);
            }
            if listed.contains(id) && id != least {
                let at = choose|at: int| 0 <= at < listed.len() && listed[at] == id;
                assert(rest[at - 1] == id);
                assert(rest.contains(id));
            }
        }
        assert forall|i: int, j: int| 0 <= i < j < listed.len() implies text::precedes(
            #[trigger] listed[i],
            #[trigger] listed[j],
        ) by {
            assert(listed[j] == rest[j - 1]);
            assert(rest.contains(listed[j]));
            if i == 0 {
                text::precedes_total(least, listed[j]);
            } else {
                assert(listed[i] == rest[i - 1]);
            }
        }
        listed
    }
}

/// The keys of a finite map are listed in ascending order, all of them.
pub proof fn keys_are_listed<V>(map: Map<Seq<char>, V>)
    requires
        map.dom().finite(),
    ensures
        ordered::lists_keys(map, ordered::ordered_keys(map)),
{
    let listed = texts_can_be_listed(map.dom());
    assert forall|id: Seq<char>| #[trigger] listed.contains(id) <==> map.contains_key(id) by {
        assert(map.dom().contains(id) == map.contains_key(id));
    }
    assert(ordered::lists_keys(map, listed));
}

/// A list shows the newest entries, at most as many as are asked for and never more than two
/// hundred, newest first: there is an order of all entries by their dates, the newer before the
/// older, and the list is the beginning of it.
pub proof fn lists_show_the_newest<T>(entries: Vec<Dated<T>>, limit: u32, result: Vec<T>)
    requires
        call_ensures(lists::newest_first::<T>, (entries, limit), result),
    ensures
        result@.len() <= limit && result@.len() <= 200 && result@.len() <= entries@.len(),
        result@.len() == limit || result@.len() == 200 || result@.len() == entries@.len(),
        exists|order: Seq<int>|
            {
                &&& order.len() == entries@.len() && #[trigger] order.no_duplicates()
                &&& forall|i: int|
                    0 <= i < order.len() ==> 0 <= #[trigger] order[i] < entries@.len()
                &&& forall|i: int, j: int|
                    0 <= i < j < order.len() ==> entries@[#[trigger] order[i]].sequence
                        >= entries@[#[trigger] order[j]].sequence
                &&& forall|i: int|
                    0 <= i < result@.len() ==> #[trigger] result@[i] == entries@[order[i]].entry
            },
{
    let dates = lists::sequences(entries@);
    lists::newest_order_descends(dates);
    let order = lists::newest_order(dates);
    assert(order.no_duplicates());
}

/// Whether an event records a job.
pub open spec fn records_job(recorded: RecordedEvent) -> bool {
    &&& recorded.payload is Job
    &&& {
        ||| recorded.event.event_type@ == "job.admitted"@
        ||| recorded.event.event_type@ == "job.running"@
        ||| recorded.event.event_type@ == "job.cancellation_requested"@
        ||| recorded.event.event_type@ == "job.terminal"@
    }
}

/// The place of the latest record of a job is where it was recorded last.
proof fn latest_jobs_are_last(history: Seq<RecordedEvent>, job_id: Seq<char>, later: int)
    requires
        history.len() <= usize::MAX,
        lists::latest_jobs(history).contains_key(job_id),
    ensures
        ({
            let at = lists::latest_jobs(history)[job_id] as int;
            &&& 0 <= at < history.len() && records_job(history[at])
            &&& (history[at].payload->Job_0).job_id@ == job_id
            &&& at < later < history.len() && records_job(history[later]) ==> (
            history[later].payload->Job_0).job_id@ != job_id
        }),
    decreases history.len(),
{
    let earlier = history.drop_last();
    if lists::latest_jobs(earlier).contains_key(job_id) {
        latest_jobs_are_last(earlier, job_id, later);
    }
}

/// Only finitely many jobs and results are recorded.
proof fn records_are_finite(history: Seq<RecordedEvent>)
    ensures
        lists::latest_jobs(history).dom().finite(),
        lists::latest_results(history).dom().finite(),
    decreases history.len(),
{
    if history.len() > 0 {
        records_are_finite(history.drop_last());
    }
}

/// The place of the latest result of a run holds a result of that run.
proof fn latest_results_are_of_their_run(history: Seq<RecordedEvent>, run_id: Seq<char>)
    requires
        history.len() <= usize::MAX,
        lists::latest_results(history).contains_key(run_id),
    ensures
        ({
            let at = lists::latest_results(history)[run_id] as int;
            &&& 0 <= at < history.len() && history[at].payload is RunResult
            &&& history[at].event.event_type@ == "run.result_recorded"@
            &&& (history[at].payload->RunResult_0).run_id@ == run_id
        }),
    decreases history.len(),
{
    let earlier = history.drop_last();
    if lists::latest_results(earlier).contains_key(run_id) {
        latest_results_are_of_their_run(earlier, run_id);
    }
}

/// A direct entry is of a result that is recorded.
proof fn direct_entries_are_recorded(
    history: Seq<RecordedEvent>,
    run_ids: Seq<Seq<char>>,
    place: int,
)
    requires
        0 <= place < lists::direct_entries(history, run_ids).len(),
    ensures
        exists|k: int|
            0 <= k < run_ids.len() && !lists::taken(history, #[trigger] run_ids[k])
                && lists::direct_entries(history, run_ids)[place] == lists::direct_entry(
                history,
                lists::latest_results(history)[run_ids[k]] as int,
            ),
    decreases run_ids.len(),
{
    let earlier = run_ids.drop_last();
    let end = run_ids.len() - 1;
    if place < lists::direct_entries(history, earlier).len() {
        direct_entries_are_recorded(history, earlier, place);
        let k = choose|k: int|
            0 <= k < earlier.len() && !lists::taken(history, #[trigger] earlier[k])
                && lists::direct_entries(history, earlier)[place] == lists::direct_entry(
                history,
                lists::latest_results(history)[earlier[k]] as int,
            );
        assert(run_ids[k] == earlier[k]);
    } else {
        assert(run_ids[end] == run_ids.last());
    }
}

/// Whether an entry shows a job as an event of a history records it.
pub open spec fn shows_job(entry: RunListEntry, history: Seq<RecordedEvent>, at: int) -> bool {
    let job = history[at].payload->Job_0;
    &&& 0 <= at < history.len() && records_job(history[at])
    &&& entry.job_id matches Some(job_id) && job_id == job.job_id
    &&& entry.run_id == job.run_id && entry.genome_id == job.genome_id
    &&& entry.world_id == Some(job.world_id)
    &&& entry.state == job.state
    &&& forall|later: int|
        at < later < history.len() && #[trigger] records_job(history[later]) ==> (
        history[later].payload->Job_0).job_id@ != job.job_id@
}

/// Whether an entry shows a run that no job owns as its result says.
pub open spec fn shows_result(entry: RunListEntry, history: Seq<RecordedEvent>, at: int) -> bool {
    let receipt = history[at].payload->RunResult_0;
    &&& 0 <= at < history.len() && history[at].payload is RunResult
    &&& entry.job_id is None
    &&& entry.run_id == receipt.run_id && entry.genome_id == receipt.genome_id
    &&& entry.world_id == Some(receipt.world_id)
    &&& entry.completion_reason == Some(receipt.completion_reason)
    &&& entry.latency_millis == Some(receipt.latency_millis)
    &&& entry.actual_cost_microusd == Some(receipt.actual_cost_microusd)
    &&& entry.state == JobState::Succeeded <==> receipt.completion_reason
        == RunCompletionReason::Success
    &&& entry.state == JobState::Interrupted <==> receipt.completion_reason
        == RunCompletionReason::OperatorInterrupt
}

/// The runs that are listed are those of recorded jobs, each as its latest record says, and
/// those that only a result is recorded of, each as that result says. Where a job's run has a
/// result, the entry shows the reason, the time and the cost of that run's own result.
pub proof fn listed_runs_are_recorded(
    history: Vec<RecordedEvent>,
    limit: u32,
    result: Vec<RunListEntry>,
    place: int,
)
    requires
        history@.len() <= usize::MAX,
        call_ensures(lists::run_list, (&history, limit), result),
        0 <= place < result@.len(),
    ensures
        result@.len() <= limit && result@.len() <= 200,
        (exists|at: int| #[trigger] shows_job(result@[place], history@, at)) || (exists|at: int|
         #[trigger] shows_result(result@[place], history@, at)),
        result@[place].job_id is Some && result@[place].completion_reason is Some ==> exists|at: int|
            0 <= at < history@.len() && (#[trigger] history@[at]).payload is RunResult && (
            history@[at].payload->RunResult_0).run_id@ == result@[place].run_id@ && Some((
            history@[at].payload->RunResult_0).completion_reason)
                == result@[place].completion_reason && Some((
            history@[at].payload->RunResult_0).latency_millis) == result@[place].latency_millis
                && Some((history@[at].payload->RunResult_0).actual_cost_microusd)
                == result@[place].actual_cost_microusd,
{
    let events = history@;
    let entry = result@[place];
    records_are_finite(events);
    let jobs = lists::latest_jobs(events);
    let results = lists::latest_results(events);
    keys_are_listed(jobs);
    keys_are_listed(results);
    let keys = ordered::ordered_keys(jobs);
    let run_ids = ordered::ordered_keys(results);
    let listed = lists::listed_runs(events);
    lists::newest_order_descends(lists::sequences(listed));
    let spot = lists::newest_order(lists::sequences(listed))[place];
    assert(entry == listed[spot].entry);
    if spot < keys.len() {
        let id = keys[spot];
        assert(keys.contains(id));
        let at = jobs[id] as int;
        latest_jobs_are_last(events, id, events.len() as int);
        assert(entry == lists::job_entry(events, at).entry);
        assert forall|later: int|
            at < later < events.len() && #[trigger] records_job(events[later]) implies (
        events[later].payload->Job_0).job_id@ != id by {
            latest_jobs_are_last(events, id, later);
        }
        assert(shows_job(entry, events, at));
        let run_id = entry.run_id@;
        if results.contains_key(run_id) {
            latest_results_are_of_their_run(events, run_id);
            let found = results[run_id] as int;
            assert(events[found].payload is RunResult);
        }
    } else {
        let direct = spot - keys.len();
        direct_entries_are_recorded(events, run_ids, direct);
        let k = choose|k: int|
            0 <= k < run_ids.len() && !lists::taken(events, #[trigger] run_ids[k])
                && lists::direct_entries(events, run_ids)[direct] == lists::direct_entry(
                events,
                results[run_ids[k]] as int,
            );
        assert(run_ids.contains(run_ids[k]));
        latest_results_are_of_their_run(events, run_ids[k]);
        assert(shows_result(entry, events, results[run_ids[k]] as int));
    }
}

/// Whether an event is the latest record of its job.
pub open spec fn latest_of_its_job(history: Seq<RecordedEvent>, at: int) -> bool {
    &&& 0 <= at < history.len() && records_job(history[at])
    &&& forall|later: int|
        at < later < history.len() && #[trigger] records_job(history[later]) ==> (
        history[later].payload->Job_0).job_id@ != (history[at].payload->Job_0).job_id@
}

/// The latest record of a job is found under its identity.
proof fn latest_records_are_found(history: Seq<RecordedEvent>, at: int)
    requires
        history.len() <= usize::MAX,
        latest_of_its_job(history, at),
    ensures
        lists::latest_jobs(history).contains_key((history[at].payload->Job_0).job_id@),
        lists::latest_jobs(history)[(history[at].payload->Job_0).job_id@] == at,
    decreases history.len(),
{
    let earlier = history.drop_last();
    if at < history.len() - 1 {
        assert forall|later: int|
            at < later < earlier.len() && #[trigger] records_job(earlier[later]) implies (
        earlier[later].payload->Job_0).job_id@ != (earlier[at].payload->Job_0).job_id@ by {
            assert(records_job(history[later]));
        }
        latest_records_are_found(earlier, at);
        if lists::job_of(history.last()) is Some {
            assert(records_job(history[history.len() - 1]));
        }
    }
}

/// A list that is not cut off shows every job, and a run that it shows without a job is the run
/// of none.
pub proof fn lists_that_are_not_cut_off_show_every_job(
    history: Vec<RecordedEvent>,
    limit: u32,
    result: Vec<RunListEntry>,
    at: int,
    place: int,
)
    requires
        history@.len() <= usize::MAX,
        call_ensures(lists::run_list, (&history, limit), result),
        latest_of_its_job(history@, at),
    ensures
        result@.len() < limit && result@.len() < 200 ==> exists|shown: int|
            0 <= shown < result@.len() && (#[trigger] result@[shown]).run_id == (
            history@[at].payload->Job_0).run_id && result@[shown].job_id == Some(
                (history@[at].payload->Job_0).job_id,
            ) && result@[shown].state == (history@[at].payload->Job_0).state,
        0 <= place < result@.len() && result@[place].job_id is None ==> result@[place].run_id@ != (
        history@[at].payload->Job_0).run_id@,
{
    let events = history@;
    let job = events[at].payload->Job_0;
    records_are_finite(events);
    latest_records_are_found(events, at);
    let jobs = lists::latest_jobs(events);
    let results = lists::latest_results(events);
    keys_are_listed(jobs);
    keys_are_listed(results);
    let keys = ordered::ordered_keys(jobs);
    let run_ids = ordered::ordered_keys(results);
    let listed = lists::listed_runs(events);
    let order = lists::newest_order(lists::sequences(listed));
    lists::newest_order_descends(lists::sequences(listed));
    assert(keys.contains(job.job_id@));
    let spot = choose|spot: int| 0 <= spot < keys.len() && keys[spot] == job.job_id@;
    assert(listed[spot] == lists::job_entry(events, at));
    assert(order.contains(spot));
    let shown = choose|shown: int| 0 <= shown < order.len() && order[shown] == spot;
    if result@.len() < limit && result@.len() < 200 {
        assert(result@[shown] == listed[spot].entry);
    }
    if 0 <= place < result@.len() && result@[place].job_id is None {
        let other = order[place];
        assert(result@[place] == listed[other].entry);
        if other < keys.len() {
            assert(listed[other] == lists::job_entry(events, jobs[keys[other]] as int));
        }
        let direct = other - keys.len();
        direct_entries_are_recorded(events, run_ids, direct);
        let k = choose|k: int|
            0 <= k < run_ids.len() && !lists::taken(events, #[trigger] run_ids[k])
                && lists::direct_entries(events, run_ids)[direct] == lists::direct_entry(
                events,
                results[run_ids[k]] as int,
            );
        assert(run_ids.contains(run_ids[k]));
        latest_results_are_of_their_run(events, run_ids[k]);
        assert(jobs.contains_key(job.job_id@));
    }
}

/// Whether an event is the latest result of its run.
pub open spec fn latest_of_its_run(history: Seq<RecordedEvent>, at: int) -> bool {
    &&& 0 <= at < history.len() && history[at].payload is RunResult
    &&& history[at].event.event_type@ == "run.result_recorded"@
    &&& forall|later: int|
        at < later < history.len() && (#[trigger] history[later]).payload is RunResult
            && history[later].event.event_type@ == "run.result_recorded"@ ==> (
        history[later].payload->RunResult_0).run_id@ != (history[at].payload->RunResult_0).run_id@
}

/// The place of the latest result of a run is where it was recorded last, and a run without one
/// has none.
proof fn latest_results_are_last(history: Seq<RecordedEvent>, run_id: Seq<char>)
    requires
        history.len() <= usize::MAX,
    ensures
        lists::latest_results(history).contains_key(run_id) ==> latest_of_its_run(
            history,
            lists::latest_results(history)[run_id] as int,
        ) && (history[lists::latest_results(history)[run_id] as int].payload->RunResult_0).run_id@
            == run_id,
        !lists::latest_results(history).contains_key(run_id) ==> forall|at: int|
            0 <= at < history.len() && (#[trigger] history[at]).payload is RunResult
                && history[at].event.event_type@ == "run.result_recorded"@ ==> (
            history[at].payload->RunResult_0).run_id@ != run_id,
    decreases history.len(),
{
    if history.len() > 0 {
        let earlier = history.drop_last();
        let end = history.len() - 1;
        latest_results_are_last(earlier, run_id);
        assert(history[end] == history.last());
        if lists::latest_results(earlier).contains_key(run_id) {
            let at = lists::latest_results(earlier)[run_id] as int;
            if lists::latest_results(history)[run_id] == at {
                assert forall|later: int|
                    at < later < history.len() && (#[trigger] history[later]).payload is RunResult
                        && history[later].event.event_type@ == "run.result_recorded"@ implies (
                history[later].payload->RunResult_0).run_id@ != run_id by {
                    if later < end {
                        assert(earlier[later] == history[later]);
                    }
                }
            }
        }
        if !lists::latest_results(history).contains_key(run_id) {
            assert forall|at: int|
                0 <= at < history.len() && (#[trigger] history[at]).payload is RunResult
                    && history[at].event.event_type@ == "run.result_recorded"@ implies (
            history[at].payload->RunResult_0).run_id@ != run_id by {
                if at < end {
                    assert(earlier[at] == history[at]);
                }
            }
        }
    }
}

/// Whether an entry is dated by the event that was recorded last of its job or of its run.
pub open spec fn dated_by(
    entry: RunListEntry,
    history: Seq<RecordedEvent>,
    job: Option<int>,
    result: Option<int>,
    date: u64,
) -> bool {
    &&& entry.job_id is Some <==> job is Some
    &&& job matches Some(at) ==> shows_job(entry, history, at) && date
        >= history[at].event.sequence
    &&& result matches Some(at) ==> latest_of_its_run(history, at) && (
    history[at].payload->RunResult_0).run_id@ == entry.run_id@ && date
        >= history[at].event.sequence
    &&& result is None ==> entry.completion_reason is None
    &&& (job is Some && date == history[job->0].event.sequence) || (result is Some && date
        == history[result->0].event.sequence)
}

/// The date of a listed run is that of its latest event.
proof fn listed_runs_are_dated(history: Seq<RecordedEvent>, spot: int)
    requires
        history.len() <= usize::MAX,
        0 <= spot < lists::listed_runs(history).len(),
    ensures
        exists|job: Option<int>, result: Option<int>| #[trigger]
            dated_by(
                lists::listed_runs(history)[spot].entry,
                history,
                job,
                result,
                lists::listed_runs(history)[spot].sequence,
            ),
{
    records_are_finite(history);
    let jobs = lists::latest_jobs(history);
    let results = lists::latest_results(history);
    keys_are_listed(jobs);
    keys_are_listed(results);
    let keys = ordered::ordered_keys(jobs);
    let run_ids = ordered::ordered_keys(results);
    let dated = lists::listed_runs(history)[spot];
    if spot < keys.len() {
        let id = keys[spot];
        assert(keys.contains(id));
        let at = jobs[id] as int;
        latest_jobs_are_last(history, id, history.len() as int);
        assert forall|later: int|
            at < later < history.len() && #[trigger] records_job(history[later]) implies (
        history[later].payload->Job_0).job_id@ != id by {
            latest_jobs_are_last(history, id, later);
        }
        assert(dated == lists::job_entry(history, at));
        let run_id = dated.entry.run_id@;
        latest_results_are_last(history, run_id);
        let result = if results.contains_key(run_id) {
            Some(results[run_id] as int)
        } else {
            None
        };
        assert(dated_by(dated.entry, history, Some(at), result, dated.sequence));
    } else {
        let direct = spot - keys.len();
        direct_entries_are_recorded(history, run_ids, direct);
        let k = choose|k: int|
            0 <= k < run_ids.len() && !lists::taken(history, #[trigger] run_ids[k])
                && lists::direct_entries(history, run_ids)[direct] == lists::direct_entry(
                history,
                results[run_ids[k]] as int,
            );
        assert(run_ids.contains(run_ids[k]));
        latest_results_are_last(history, run_ids[k]);
        let at = results[run_ids[k]] as int;
        assert(dated_by(dated.entry, history, None, Some(at), dated.sequence));
    }
}

/// Runs are listed in the order of their latest events, the newest first.
pub proof fn runs_are_listed_newest_first(
    history: Vec<RecordedEvent>,
    limit: u32,
    result: Vec<RunListEntry>,
    earlier: int,
    later: int,
)
    requires
        history@.len() <= usize::MAX,
        call_ensures(lists::run_list, (&history, limit), result),
        0 <= earlier < later < result@.len(),
    ensures
        exists|newer: u64, older: u64|
            newer >= older && #[trigger] dated(result@[earlier], history@, newer)
                && #[trigger] dated(result@[later], history@, older),
{
    let listed = lists::listed_runs(history@);
    let dates = lists::sequences(listed);
    lists::newest_order_descends(dates);
    let a = lists::newest_order(dates)[earlier];
    let b = lists::newest_order(dates)[later];
    listed_runs_are_dated(history@, a);
    listed_runs_are_dated(history@, b);
    assert(result@[earlier] == listed[a].entry && result@[later] == listed[b].entry);
    assert(dates[a] >= dates[b]);
    assert(dated(result@[earlier], history@, listed[a].sequence));
    assert(dated(result@[later], history@, listed[b].sequence));
}

/// Whether a date is that of the latest event of a listed run.
pub open spec fn dated(entry: RunListEntry, history: Seq<RecordedEvent>, date: u64) -> bool {
    exists|job: Option<int>, result: Option<int>| #[trigger]
        dated_by(entry, history, job, result, date)
}

/// Denials are listed in the order of their events, the newest first.
pub proof fn denials_are_listed_newest_first(
    history: Vec<RecordedEvent>,
    limit: u32,
    result: Vec<DenialEntry>,
    earlier: int,
    later: int,
)
    requires
        call_ensures(lists::denial_list, (&history, limit), result),
        0 <= earlier < later < result@.len(),
    ensures
        exists|newer: int, older: int|
            {
                &&& 0 <= newer < history@.len() && 0 <= older < history@.len()
                &&& (#[trigger] history@[newer]).event.sequence >= (
                #[trigger] history@[older]).event.sequence
                &&& history@[newer].event.timestamp_millis == result@[earlier].timestamp_millis
                &&& history@[older].event.timestamp_millis == result@[later].timestamp_millis
            },
{
    let kept = lists::denials(history@);
    let dates = lists::sequences(kept);
    lists::newest_order_descends(dates);
    let a = lists::newest_order(dates)[earlier];
    let b = lists::newest_order(dates)[later];
    denials_stand_in_history(history@, a);
    denials_stand_in_history(history@, b);
    assert(result@[earlier]@ == kept[a].entry && result@[later]@ == kept[b].entry);
    assert(dates[a] >= dates[b]);
    let newer = choose|at: int|
        0 <= at < history@.len() && lists::denial_of(#[trigger] history@[at]) == Some(
            kept[a].entry,
        ) && kept[a].sequence == history@[at].event.sequence;
    let older = choose|at: int|
        0 <= at < history@.len() && lists::denial_of(#[trigger] history@[at]) == Some(
            kept[b].entry,
        ) && kept[b].sequence == history@[at].event.sequence;
    assert(history@[newer].event.sequence >= history@[older].event.sequence);
}

/// A denial is a request that was rejected, a call that was denied or a capability that a run
/// was denied, and nothing else is one. It tells who was denied.
pub proof fn denials_are_what_was_denied(recorded: RecordedEvent, result: Option<DenialEntry>)
    requires
        call_ensures(lists::recorded_denial, (&recorded,), result),
    ensures
        result matches Some(entry) ==> entry.timestamp_millis == recorded.event.timestamp_millis,
        result is Some && result->0.kind == DenialKind::RequestRejected <==> recorded.payload
            is Command && recorded.event.event_type@ == "control.request_rejected"@,
        result is Some && result->0.kind == DenialKind::RuntimeCapabilityDenied
            <==> recorded.payload is Trace && recorded.event.event_type@ == "trace.recorded"@ && (
        recorded.payload->Trace_0).kind == TraceKind::CapabilityDenied,
        result is Some && result->0.kind == DenialKind::McpCallDenied ==> recorded.payload
            is Command && (recorded.payload->Command_0).command is McpCall && (
        (recorded.payload->Command_0).command->McpCall_decision is Denied),
        recorded.event.event_type@ == "mcp.call"@ && recorded.payload is Command && (
        recorded.payload->Command_0).command is McpCall && ((
        recorded.payload->Command_0).command->McpCall_decision is Denied) ==> result is Some
            && result->0.kind == DenialKind::McpCallDenied && result->0.client_id is Some
            && result->0.client_id->0@ == (recorded.payload->Command_0).command->client_id@,
        result is Some && result->0.kind == DenialKind::RuntimeCapabilityDenied ==> {
            let receipt = recorded.payload->Trace_0;
            &&& result->0.run_id is Some && result->0.run_id->0@ == receipt.run_id@
            &&& result->0.genome_id is Some && result->0.genome_id->0@ == receipt.genome_id@
            &&& result->0.world_id is Some && result->0.world_id->0@ == receipt.world_id@
        },
        result is Some && result->0.kind == DenialKind::RequestRejected ==> result->0.request_id
            is Some && result->0.request_id->0@ == (recorded.payload->Command_0).request_id@,
{
    reveal_strlit("mcp.call");
    reveal_strlit("control.request_rejected");
    assert("mcp.call"@.len() != "control.request_rejected"@.len());
}

/// Every denial that is kept stands in the history.
proof fn denials_stand_in_history(history: Seq<RecordedEvent>, place: int)
    requires
        0 <= place < lists::denials(history).len(),
    ensures
        exists|at: int|
            0 <= at < history.len() && lists::denial_of(#[trigger] history[at]) == Some(
                lists::denials(history)[place].entry,
            ) && lists::denials(history)[place].sequence == history[at].event.sequence,
    decreases history.len(),
{
    let earlier = history.drop_last();
    let end = history.len() - 1;
    if place < lists::denials(earlier).len() {
        denials_stand_in_history(earlier, place);
        let at = choose|at: int|
            0 <= at < earlier.len() && lists::denial_of(#[trigger] earlier[at]) == Some(
                lists::denials(earlier)[place].entry,
            ) && lists::denials(earlier)[place].sequence == earlier[at].event.sequence;
        assert(history[at] == earlier[at]);
    } else {
        assert(history[end] == history.last());
    }
}

/// The denials that are listed are of recorded events, each of them: at the time of its event.
pub proof fn listed_denials_are_recorded(
    history: Vec<RecordedEvent>,
    limit: u32,
    result: Vec<DenialEntry>,
    place: int,
)
    requires
        call_ensures(lists::denial_list, (&history, limit), result),
        0 <= place < result@.len(),
    ensures
        result@.len() <= limit && result@.len() <= 200,
        exists|at: int|
            0 <= at < history@.len() && (#[trigger] history@[at]).event.timestamp_millis
                == result@[place].timestamp_millis && (result@[place].kind
                == DenialKind::RequestRejected ==> history@[at].event.event_type@
                == "control.request_rejected"@) && (result@[place].kind
                == DenialKind::McpCallDenied ==> history@[at].event.event_type@ == "mcp.call"@) && (
            result@[place].kind == DenialKind::RuntimeCapabilityDenied ==> history@[at].payload
                is Trace && (history@[at].payload->Trace_0).kind == TraceKind::CapabilityDenied),
{
    let dated = lists::denials(history@);
    lists::newest_order_descends(lists::sequences(dated));
    let spot = lists::newest_order(lists::sequences(dated))[place];
    denials_stand_in_history(history@, spot);
    assert(result@[place]@ == dated[spot].entry);
    let at = choose|at: int|
        0 <= at < history@.len() && lists::denial_of(#[trigger] history@[at]) == Some(
            dated[spot].entry,
        ) && dated[spot].sequence == history@[at].event.sequence;
    assert(history@[at].event.timestamp_millis == result@[place].timestamp_millis);
}

/// A selection is summarised by its own figures.
pub proof fn selection_summaries_keep_their_figures(
    receipt: SelectionReceipt,
    summary: EvaluationSelectionSummary,
)
    requires
        call_ensures(lists::evaluation_selection_summary, (&receipt,), summary),
    ensures
        summary.metrics_eligible == receipt.metrics_eligible,
        summary.estimate_bps == receipt.estimate_bps && summary.lower_bps == receipt.lower_bps
            && summary.upper_bps == receipt.upper_bps,
        summary.parent_cost_microusd == receipt.parent_cost_microusd
            && summary.candidate_cost_microusd == receipt.candidate_cost_microusd,
        summary.parent_latency_millis == receipt.parent_latency_millis
            && summary.candidate_latency_millis == receipt.candidate_latency_millis,
        summary.invariant_gate_verified == receipt.invariant_gate_verified
            && summary.promotion_eligible == receipt.promotion_eligible,
{
}

/// A check of invariants is summarised by its own figures.
pub proof fn invariant_summaries_keep_their_figures(
    receipt: InvariantReceipt,
    summary: EvaluationInvariantSummary,
)
    requires
        call_ensures(lists::evaluation_invariant_summary, (&receipt,), summary),
    ensures
        summary.total_checks == receipt.total_checks,
        summary.total_candidate_violations == receipt.total_candidate_violations,
        summary.total_paired_regressions == receipt.total_paired_regressions,
        summary.maximum_regressions == receipt.maximum_regressions,
        summary.regressions_within_budget == receipt.regressions_within_budget,
        summary.candidate_contract_satisfied == receipt.candidate_contract_satisfied,
{
}

/// Whether an event records an assessment of an evaluation.
pub open spec fn assesses(recorded: RecordedEvent, evaluation_id: Seq<char>) -> bool {
    &&& recorded.event.event_type@ == "forge.assessed"@
    &&& recorded.payload matches EventPayload::ForgeAssessment(payload, canonical)
        && payload.evaluation_id@ == evaluation_id && canonical@ == recorded.event.payload@
}

/// The first assessment is the first that stands in the history.
proof fn first_assessments_stand_first(
    history: Seq<RecordedEvent>,
    evaluation_id: Seq<char>,
)
    ensures
        lists::first_assessment(history, evaluation_id) is None ==> forall|at: int|
            0 <= at < history.len() ==> !#[trigger] assesses(history[at], evaluation_id),
        lists::first_assessment(history, evaluation_id) matches Some(summary) ==> exists|at: int|
            0 <= at < history.len() && #[trigger] assesses(history[at], evaluation_id) && (
            history[at].payload->ForgeAssessment_0).assessment_id == summary.assessment_id && (
            history[at].payload->ForgeAssessment_0).outcome == summary.outcome && forall|i: int|
                0 <= i < at ==> !#[trigger] assesses(history[i], evaluation_id),
    decreases history.len(),
{
    if history.len() > 0 {
        let earlier = history.drop_last();
        let end = history.len() - 1;
        first_assessments_stand_first(earlier, evaluation_id);
        if lists::first_assessment(earlier, evaluation_id) is Some {
            let summary = lists::first_assessment(earlier, evaluation_id)->0;
            let at = choose|at: int|
                0 <= at < earlier.len() && #[trigger] assesses(earlier[at], evaluation_id) && (
                earlier[at].payload->ForgeAssessment_0).assessment_id == summary.assessment_id && (
                earlier[at].payload->ForgeAssessment_0).outcome == summary.outcome && forall|i: int|
                    0 <= i < at ==> !#[trigger] assesses(earlier[i], evaluation_id);
            assert(assesses(history[at], evaluation_id));
            assert forall|i: int| 0 <= i < at implies !#[trigger] assesses(
                history[i],
                evaluation_id,
            ) by {
                assert(!assesses(earlier[i], evaluation_id));
            }
        } else {
            assert forall|i: int| 0 <= i < end implies !#[trigger] assesses(
                history[i],
                evaluation_id,
            ) by {
                assert(!assesses(earlier[i], evaluation_id));
            }
            if assesses(history[end], evaluation_id) {
                assert(lists::assessment_of(history[end], evaluation_id) is Some);
            }
        }
    }
}

/// An evaluation is shown with the outcome of its own first assessment, if it was assessed.
pub proof fn assessments_are_shown_of_their_evaluation(
    history: Vec<RecordedEvent>,
    evaluation_id: &str,
    result: Option<EvaluationForgeSummary>,
    place: int,
)
    requires
        call_ensures(lists::forge_assessment_summary, (&history, evaluation_id), result),
    ensures
        result is None && 0 <= place < history@.len() ==> !assesses(
            history@[place],
            evaluation_id@,
        ),
        result matches Some(summary) ==> exists|at: int|
            0 <= at < history@.len() && #[trigger] assesses(history@[at], evaluation_id@) && (
            history@[at].payload->ForgeAssessment_0).assessment_id == summary.assessment_id && (
            history@[at].payload->ForgeAssessment_0).outcome == summary.outcome && forall|i: int|
                0 <= i < at ==> !#[trigger] assesses(history@[i], evaluation_id@),
{
    first_assessments_stand_first(history@, evaluation_id@);
}

/// Whether an event promotes by an evaluation.
pub open spec fn promotes_by(
    recorded: RecordedEvent,
    evaluation_id: Seq<char>,
    transition_id: Seq<char>,
) -> bool {
    recorded.payload matches EventPayload::ChampionTransition(payload) && payload.transition_id@
        == transition_id && (payload.promotion matches Some(promotion) && promotion.evaluation_id@
        == evaluation_id)
}

/// The transitions on an evaluation are those that stand in the history.
proof fn transitions_stand_in_history(
    history: Seq<RecordedEvent>,
    evaluation_id: Seq<char>,
    transition_id: Seq<char>,
)
    ensures
        lists::transitions_on(history, evaluation_id).contains(transition_id) <==> exists|at: int|
            0 <= at < history.len() && #[trigger] promotes_by(
                history[at],
                evaluation_id,
                transition_id,
            ),
    decreases history.len(),
{
    if history.len() > 0 {
        let earlier = history.drop_last();
        let end = history.len() - 1;
        transitions_stand_in_history(earlier, evaluation_id, transition_id);
        let before = lists::transitions_on(earlier, evaluation_id);
        let found = lists::transitions_on(history, evaluation_id);
        if found.contains(transition_id) {
            let at = choose|at: int| 0 <= at < found.len() && found[at] == transition_id;
            if at < before.len() {
                assert(before[at] == transition_id);
                let place = choose|place: int|
                    0 <= place < earlier.len() && #[trigger] promotes_by(
                        earlier[place],
                        evaluation_id,
                        transition_id,
                    );
                assert(promotes_by(history[place], evaluation_id, transition_id));
            } else {
                assert(promotes_by(history[end], evaluation_id, transition_id));
            }
        }
        if exists|at: int|
            0 <= at < history.len() && #[trigger] promotes_by(
                history[at],
                evaluation_id,
                transition_id,
            ) {
            let at = choose|at: int|
                0 <= at < history.len() && #[trigger] promotes_by(
                    history[at],
                    evaluation_id,
                    transition_id,
                );
            if at < end {
                assert(promotes_by(earlier[at], evaluation_id, transition_id));
                let place = choose|place: int|
                    0 <= place < before.len() && before[place] == transition_id;
                assert(found[place] == transition_id);
            } else {
                assert(found[before.len() as int] == transition_id);
            }
        }
    }
}

/// The transitions that are shown of an evaluation are the promotions by it, all of them and no
/// others.
pub proof fn promotions_are_shown_of_their_evaluation(
    history: Vec<RecordedEvent>,
    evaluation_id: &str,
    result: Vec<String>,
    transition_id: Seq<char>,
)
    requires
        call_ensures(lists::champion_transition_ids_for, (&history, evaluation_id), result),
    ensures
        text::texts(result@).contains(transition_id) <==> exists|at: int|
            0 <= at < history@.len() && #[trigger] promotes_by(
                history@[at],
                evaluation_id@,
                transition_id,
            ),
{
    transitions_stand_in_history(history@, evaluation_id@, transition_id);
}

/// An evaluation is listed with its own record, its own selection and its own invariants.
pub proof fn entries_belong_to_their_evaluation(
    history: Vec<RecordedEvent>,
    evaluation: EvaluationRecord,
    selection: Option<&SelectionReceipt>,
    invariants: Option<&InvariantReceipt>,
    entry: EvaluationListEntry,
)
    requires
        call_ensures(
            lists::evaluation_entry,
            (&history, evaluation, selection, invariants),
            entry,
        ),
    ensures
        entry.evaluation == evaluation,
        entry.selection is Some <==> selection is Some,
        selection is Some ==> entry.selection->0.metrics_eligible == selection->0.metrics_eligible
            && entry.selection->0.promotion_eligible == selection->0.promotion_eligible
            && entry.selection->0.estimate_bps == selection->0.estimate_bps,
        entry.invariants is Some <==> invariants is Some,
        invariants is Some ==> entry.invariants->0.total_paired_regressions
            == invariants->0.total_paired_regressions
            && entry.invariants->0.candidate_contract_satisfied
            == invariants->0.candidate_contract_satisfied,
        entry.forge_assessment matches Some(summary) ==> exists|at: int|
            0 <= at < history@.len() && #[trigger] assesses(
                history@[at],
                evaluation.evaluation_id@,
            ) && (history@[at].payload->ForgeAssessment_0).outcome == summary.outcome,
{
    first_assessments_stand_first(history@, evaluation.evaluation_id@);
}

/// All evaluations are listed, in the order that they were given, or none of them where one
/// cannot be read.
pub proof fn evaluations_are_listed_whole(
    history: Vec<RecordedEvent>,
    listed: Vec<ListedEvaluation>,
    entries: Vec<EvaluationListEntry>,
    place: int,
)
    requires
        call_ensures(
            lists::evaluation_list,
            (&history, listed),
            Ok::<Vec<EvaluationListEntry>, ExecuteError>(entries),
        ),
        0 <= place < listed@.len(),
    ensures
        entries@.len() == listed@.len(),
        listed@[place].evaluation == Some(entries@[place].evaluation),
        listed@[place].selection is Ok && listed@[place].invariants is Ok,
        entries@[place].selection is Some <==> listed@[place].selection->Ok_0 is Some,
        entries@[place].selection is Some ==> entries@[place].selection->0.metrics_eligible
            == (listed@[place].selection->Ok_0)->0.metrics_eligible,
{
    assert(lists::listing_fault(listed@[place]) is None);
}

/// The event that an evaluation is summarised by is of the wanted type and of that evaluation,
/// in a registered World.
pub proof fn summaries_rest_on_their_event(
    registry: Registry,
    history: Vec<RecordedEvent>,
    kind: &str,
    evaluation_id: &str,
    at: usize,
)
    requires
        registry.wf(),
        call_ensures(
            lists::find_summarized,
            (&registry, &history, kind, evaluation_id),
            Ok::<Option<usize>, ExecuteError>(Some(at)),
        ),
    ensures
        at < history@.len(),
        history@[at as int].event.event_type@ == kind@,
        history@[at as int].payload matches EventPayload::Reference(reference)
            && reference.evaluation_id@ == evaluation_id@ && registry.worlds@.contains_key(
            reference.world_id@,
        ),
{
    searches_end_where_they_should(history@, kind@, evaluation_id@);
}

/// A search ends at an event of the wanted type.
proof fn searches_end_where_they_should(
    history: Seq<RecordedEvent>,
    kind: Seq<char>,
    evaluation_id: Seq<char>,
)
    ensures
        lists::search_end(history, kind, evaluation_id) matches Some(at) ==> 0 <= at
            < history.len() && lists::ends_search(history[at], kind, evaluation_id),
    decreases history.len(),
{
    if history.len() > 0 {
        searches_end_where_they_should(history.drop_last(), kind, evaluation_id);
    }
}

/// The recent evaluations are recorded ones, the newest first.
pub proof fn recent_evaluations_are_recorded(
    state: ControlState,
    limit: u32,
    result: Vec<String>,
    earlier: int,
    later: int,
)
    requires
        state.wf(),
        call_ensures(lists::recent_evaluations, (&state, limit), result),
        0 <= earlier < later < result@.len(),
    ensures
        result@.len() <= limit && result@.len() <= 200,
        state@.evaluation_events.contains_key(result@[earlier]@)
            && state@.evaluation_events.contains_key(result@[later]@),
        state@.evaluation_events[result@[earlier]@] >= state@.evaluation_events[result@[later]@],
{
    let events = state@.evaluation_events;
    state.evaluation_events.lemma_finite();
    keys_are_listed(events);
    let dated = lists::dated_evaluations(events);
    let dates = lists::sequences(dated);
    lists::newest_order_descends(dates);
    let a = lists::newest_order(dates)[earlier];
    let b = lists::newest_order(dates)[later];
    let keys = ordered::ordered_keys(events);
    assert(keys.contains(keys[a]) && keys.contains(keys[b]));
    assert(result@[earlier]@ == dated[a].entry && result@[later]@ == dated[b].entry);
    assert(dates[a] >= dates[b]);
}

} // verus!
