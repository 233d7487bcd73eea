//! Decisions while a paired evaluation runs: trials arrive in order, scoring follows, and the
//! evaluation ends.

use crate::arena_jobs;
use crate::error;
use crate::error::{projection, ControlError, Fault};
use crate::jobs;
use crate::protocol::{ArenaJobPhase, EvaluationRecord, JobState, JobTerminal};
use crate::records::ArenaJobRecord;
use crate::text;
use vstd::prelude::*;

verus! {

/// The paired evaluation that runs.
pub struct ActiveArena {
    /// Its record.
    pub record: ArenaJobRecord,
    /// Whether its workers were signalled to stop.
    pub cancel: bool,
    /// Whether it ran past its overall deadline.
    pub overall_timed_out: bool,
}

/// How a paired evaluation ends.
pub enum ArenaEnd {
    /// It failed.
    Failed,
    /// It was cancelled.
    Cancelled,
    /// It was cut off.
    Interrupted,
    /// It succeeded with this evaluation.
    Succeeded(EvaluationRecord),
}

/// The state that an end leads to.
pub open spec fn end_state(end: ArenaEnd) -> JobState {
    match end {
        ArenaEnd::Failed => JobState::Failed,
        ArenaEnd::Cancelled | ArenaEnd::Interrupted => JobState::Interrupted,
        ArenaEnd::Succeeded(_) => JobState::Succeeded,
    }
}

/// The terminal outcome that an end leads to.
pub open spec fn end_terminal(end: ArenaEnd) -> JobTerminal {
    match end {
        ArenaEnd::Failed => JobTerminal::Failed,
        ArenaEnd::Cancelled => JobTerminal::Cancelled,
        ArenaEnd::Interrupted => JobTerminal::Interrupted,
        ArenaEnd::Succeeded(_) => JobTerminal::Succeeded,
    }
}

/// A paired evaluation after its end.
pub open spec fn ended(record: ArenaJobRecord, end: ArenaEnd) -> ArenaJobRecord {
    ArenaJobRecord {
        state: end_state(end),
        phase: ArenaJobPhase::Terminal,
        terminal: Some(end_terminal(end)),
        evaluation: match end {
            ArenaEnd::Succeeded(evaluation) => Some(evaluation),
            _ => record.evaluation,
        },
        ..record
    }
}

/// Ends a paired evaluation.
pub fn end_evaluation(record: &mut ArenaJobRecord, end: ArenaEnd)
    ensures
        *final(record) == ended(*old(record), end),
{
    record.phase = ArenaJobPhase::Terminal;
    match end {
        ArenaEnd::Failed => {
            record.state = JobState::Failed;
            record.terminal = Some(JobTerminal::Failed);
        },
        ArenaEnd::Cancelled => {
            record.state = JobState::Interrupted;
            record.terminal = Some(JobTerminal::Cancelled);
        },
        ArenaEnd::Interrupted => {
            record.state = JobState::Interrupted;
            record.terminal = Some(JobTerminal::Interrupted);
        },
        ArenaEnd::Succeeded(evaluation) => {
            record.state = JobState::Succeeded;
            record.terminal = Some(JobTerminal::Succeeded);
            record.evaluation = Some(evaluation);
        },
    }
}

/// Whether the overall deadline cuts a running evaluation off now.
pub fn deadline_is_due(active: &ActiveArena, now_millis: u64, deadline_millis: u64) -> (result: bool)
    ensures
        result == (!active.overall_timed_out && active.record.state == JobState::Running && now_millis
            >= deadline_millis),
{
    !active.overall_timed_out && active.record.state == JobState::Running && now_millis
        >= deadline_millis
}

/// Signals a running evaluation to stop and asks for its cancellation at its deadline. The
/// timeout itself is noted with [`note_timeout`], once the request is recorded.
pub fn stop_at_deadline(active: &mut ActiveArena)
    ensures
        *final(active) == (ActiveArena {
            cancel: true,
            record: ArenaJobRecord {
                state: JobState::CancellationRequested,
                ..old(active).record
            },
            ..*old(active)
        }),
{
    active.cancel = true;
    active.record.state = JobState::CancellationRequested;
}

/// Notes that the overall deadline was recorded.
pub fn note_timeout(active: &mut ActiveArena)
    ensures
        *final(active) == (ActiveArena { overall_timed_out: true, ..*old(active) }),
{
    active.overall_timed_out = true;
}

/// What an arrived trial leads to.
#[derive(Clone, Copy, Debug, PartialEq, Eq, Structural)]
pub enum TrialStep {
    /// No evaluation runs; the trial is refused.
    NotActive,
    /// The trial is not the next one; it is refused and the evaluation is signalled to stop.
    OutOfOrder,
    /// The trial is persisted and its result signed.
    Persist,
}

/// Decides over an arrived trial: it has to be the next trial of the evaluation that runs.
pub fn receive_trial(active: Option<&ActiveArena>, job_id: &str, index: usize) -> (result: Result<
    TrialStep,
    ControlError,
>)
    ensures
        error::verdict(result) == (match active {
            None => Ok(TrialStep::NotActive),
            Some(active) => if active.record.evaluation_id@ != job_id@ || active.record.completed_trials
                != index {
                Ok(TrialStep::OutOfOrder)
            } else if index < active.record.ordered_trial_run_ids@.len() {
                Ok(TrialStep::Persist)
            } else {
                Err(Fault::Projection("paired trial index is invalid"@))
            },
        }),
{
    match active {
        None => Ok(TrialStep::NotActive),
        Some(active) => {
            if !text::text_eq(active.record.evaluation_id.as_str(), job_id)
                || active.record.completed_trials as u64 != index as u64 {
                return Ok(TrialStep::OutOfOrder);
            }
            if index >= active.record.ordered_trial_run_ids.len() {
                return Err(projection("paired trial index is invalid"));
            }
            Ok(TrialStep::Persist)
        },
    }
}

/// Takes over how many trials the projection counts after a signed result.
pub fn count_trials(active: &mut ActiveArena, projected_trials: Option<u32>)
    ensures
        ({
            let completed = match projected_trials {
                Some(count) => count,
                None => old(active).record.completed_trials,
            };
            *final(active) == (ActiveArena {
                record: ArenaJobRecord {
                    completed_trials: completed,
                    phase: if completed >= old(active).record.parent_trial_count {
                        ArenaJobPhase::CandidateTrials
                    } else {
                        old(active).record.phase
                    },
                    ..old(active).record
                },
                ..*old(active)
            })
        }),
{
    if let Some(count) = projected_trials {
        active.record.completed_trials = count;
    }
    if active.record.completed_trials >= active.record.parent_trial_count {
        active.record.phase = ArenaJobPhase::CandidateTrials;
    }
}

/// What the end of the trials leads to.
pub enum TrialsStep {
    /// No evaluation runs; nothing is done.
    Ignore,
    /// The evaluation ends.
    End(ArenaEnd),
    /// The trials are scored.
    Score,
}

/// How an evaluation ends that is not scored: failed, unless it was asked to stop before its
/// deadline.
pub open spec fn unscored_end(active: ActiveArena) -> ArenaEnd {
    if active.record.state == JobState::CancellationRequested && !active.overall_timed_out {
        ArenaEnd::Cancelled
    } else {
        ArenaEnd::Failed
    }
}

/// Decides over the end of the trials. They are scored only when nothing failed and nobody
/// asked to stop.
pub fn finish_trials(active: Option<&ActiveArena>, job_id: &str, succeeded: bool) -> (result: Result<
    TrialsStep,
    ControlError,
>)
    ensures
        error::verdict(result) == (match active {
            None => Ok(TrialsStep::Ignore),
            Some(active) => if active.record.evaluation_id@ != job_id@ {
                Err(Fault::Projection("paired completion crossed evaluation identity"@))
            } else if active.cancel || active.record.state == JobState::CancellationRequested
                || !succeeded {
                Ok(TrialsStep::End(unscored_end(*active)))
            } else {
                Ok(TrialsStep::Score)
            },
        }),
{
    let active = match active {
        None => {
            return Ok(TrialsStep::Ignore);
        },
        Some(active) => active,
    };
    if !text::text_eq(active.record.evaluation_id.as_str(), job_id) {
        return Err(projection("paired completion crossed evaluation identity"));
    }
    if active.cancel || active.record.state == JobState::CancellationRequested || !succeeded {
        let end: ArenaEnd = if active.overall_timed_out {
            ArenaEnd::Failed
        } else if active.record.state == JobState::CancellationRequested {
            ArenaEnd::Cancelled
        } else {
            ArenaEnd::Failed
        };
        return Ok(TrialsStep::End(end));
    }
    Ok(TrialsStep::Score)
}

/// Accepts the running evaluation for scoring, which takes every trial.
pub fn start_arena_scoring(active: Option<&ActiveArena>) -> (result: Result<(), ControlError>)
    ensures
        error::verdict(result) == (match active {
            None => Err(Fault::Projection("Arena scorer lost its active job"@)),
            Some(active) => if active.record.completed_trials == active.record.total_trials {
                Ok(())
            } else {
                Err(Fault::Projection("Arena scorer observed incomplete trials"@))
            },
        }),
{
    match active {
        None => Err(projection("Arena scorer lost its active job")),
        Some(active) => if active.record.completed_trials != active.record.total_trials {
            Err(projection("Arena scorer observed incomplete trials"))
        } else {
            Ok(())
        },
    }
}

/// Starts the scoring of an evaluation.
pub fn start_scoring(record: &mut ArenaJobRecord)
    ensures
        *final(record) == (ArenaJobRecord { phase: ArenaJobPhase::Scoring, ..*old(record) }),
{
    record.phase = ArenaJobPhase::Scoring;
}

/// Starts the commit of a scored evaluation.
pub fn start_commit(record: &mut ArenaJobRecord)
    ensures
        *final(record) == (ArenaJobRecord { phase: ArenaJobPhase::Committing, ..*old(record) }),
{
    record.phase = ArenaJobPhase::Committing;
}

/// What the end of scoring leads to.
pub enum ScoringStep {
    /// The evaluation ends.
    End(ArenaEnd),
    /// The scores are committed.
    Commit,
}

/// Decides over the end of scoring. A passed deadline fails the evaluation, a request to stop
/// cancels it, and a failed scorer fails it; only else are the scores committed.
pub fn finish_arena_scoring(active: Option<&ActiveArena>, job_id: &str, scored: bool) -> (result: Result<
    ScoringStep,
    ControlError,
>)
    ensures
        error::verdict(result) == (match active {
            None => Err(Fault::Projection("Arena scorer completion has no active job"@)),
            Some(active) => if active.record.evaluation_id@ != job_id@ {
                Err(Fault::Projection("Arena scorer completion crossed evaluation identity"@))
            } else if active.overall_timed_out {
                Ok(ScoringStep::End(ArenaEnd::Failed))
            } else if active.record.state == JobState::CancellationRequested || active.cancel {
                Ok(ScoringStep::End(ArenaEnd::Cancelled))
            } else if !scored {
                Ok(ScoringStep::End(ArenaEnd::Failed))
            } else {
                Ok(ScoringStep::Commit)
            },
        }),
{
    let active = match active {
        None => {
            return Err(projection("Arena scorer completion has no active job"));
        },
        Some(active) => active,
    };
    if !text::text_eq(active.record.evaluation_id.as_str(), job_id) {
        return Err(projection("Arena scorer completion crossed evaluation identity"));
    }
    if active.overall_timed_out {
        return Ok(ScoringStep::End(ArenaEnd::Failed));
    }
    if active.record.state == JobState::CancellationRequested || active.cancel {
        return Ok(ScoringStep::End(ArenaEnd::Cancelled));
    }
    if !scored {
        return Ok(ScoringStep::End(ArenaEnd::Failed));
    }
    Ok(ScoringStep::Commit)
}

/// What the workers of a paired evaluation report.
pub enum ArenaMessage {
    /// They are gone.
    Disconnected,
    /// A trial ended.
    Trial {
        /// Evaluation that it is for.
        job_id: String,
        /// Its place in the plan.
        index: usize,
    },
    /// All trials ended.
    Trials {
        /// Evaluation that they are for.
        job_id: String,
        /// Whether none failed.
        succeeded: bool,
    },
    /// Scoring ended.
    Scoring {
        /// Evaluation that it is for.
        job_id: String,
        /// Whether there are scores.
        scored: bool,
    },
}

/// What a report leads to.
pub enum ArenaStep {
    /// Nothing is done.
    Ignore,
    /// The trial is refused.
    RefuseTrial {
        /// What the worker is told.
        reason: &'static str,
        /// Whether the evaluation is signalled to stop.
        stop: bool,
    },
    /// The trial is persisted and its result signed.
    Persist,
    /// The evaluation ends.
    End {
        /// How.
        end: ArenaEnd,
        /// What is wrong where that cannot be recorded.
        unrecorded: &'static str,
    },
    /// The trials are scored.
    Score,
    /// The scores are committed.
    Commit,
}

/// What is wrong where the end of a scored evaluation cannot be recorded.
pub open spec fn unrecorded_scoring(active: ActiveArena) -> &'static str {
    if active.overall_timed_out {
        "timed out Arena terminal could not be recorded"
    } else if active.record.state == JobState::CancellationRequested || active.cancel {
        "cancelled Arena terminal state could not be recorded"
    } else {
        "failed Arena terminal state could not be recorded"
    }
}

/// What a report of the workers leads to, or why it is a fault.
pub open spec fn arena_step(active: Option<ActiveArena>, message: ArenaMessage) -> Result<
    ArenaStep,
    Fault,
> {
    match (message, active) {
        (ArenaMessage::Disconnected, None) => Ok(ArenaStep::Ignore),
        (ArenaMessage::Disconnected, Some(_)) => Ok(
            ArenaStep::End {
                end: ArenaEnd::Interrupted,
                unrecorded: "interrupted Arena job could not be recorded",
            },
        ),
        (ArenaMessage::Trial { .. }, None) => Ok(
            ArenaStep::RefuseTrial { reason: "paired job is no longer active", stop: false },
        ),
        (ArenaMessage::Trial { job_id, index }, Some(running)) => if running.record.evaluation_id@
            != job_id@ || running.record.completed_trials != index {
            Ok(
                ArenaStep::RefuseTrial {
                    reason: "paired trial arrived outside admitted order",
                    stop: true,
                },
            )
        } else if index < running.record.ordered_trial_run_ids@.len() {
            Ok(ArenaStep::Persist)
        } else {
            Err(Fault::Projection("paired trial index is invalid"@))
        },
        (ArenaMessage::Trials { .. }, None) => Ok(ArenaStep::Ignore),
        (ArenaMessage::Trials { job_id, succeeded }, Some(running)) => if running.record.evaluation_id@
            != job_id@ {
            Err(Fault::Projection("paired completion crossed evaluation identity"@))
        } else if running.cancel || running.record.state == JobState::CancellationRequested
            || !succeeded {
            Ok(
                ArenaStep::End {
                    end: unscored_end(running),
                    unrecorded: "Arena terminal state could not be recorded",
                },
            )
        } else if running.record.completed_trials != running.record.total_trials {
            Err(Fault::Projection("Arena scorer observed incomplete trials"@))
        } else {
            Ok(ArenaStep::Score)
        },
        (ArenaMessage::Scoring { .. }, None) => Err(
            Fault::Projection("Arena scorer completion has no active job"@),
        ),
        (ArenaMessage::Scoring { job_id, scored }, Some(running)) => if running.record.evaluation_id@
            != job_id@ {
            Err(Fault::Projection("Arena scorer completion crossed evaluation identity"@))
        } else if running.overall_timed_out {
            Ok(
                ArenaStep::End {
                    end: ArenaEnd::Failed,
                    unrecorded: unrecorded_scoring(running),
                },
            )
        } else if running.record.state == JobState::CancellationRequested || running.cancel {
            Ok(
                ArenaStep::End {
                    end: ArenaEnd::Cancelled,
                    unrecorded: unrecorded_scoring(running),
                },
            )
        } else if !scored {
            Ok(
                ArenaStep::End {
                    end: ArenaEnd::Failed,
                    unrecorded: unrecorded_scoring(running),
                },
            )
        } else {
            Ok(ArenaStep::Commit)
        },
    }
}

/// What an optional borrow of an evaluation holds.
pub open spec fn running_of(active: Option<&ActiveArena>) -> Option<ActiveArena> {
    match active {
        Some(active) => Some(*active),
        None => None,
    }
}

/// Decides over a report of the workers of a paired evaluation.
pub fn service_arena_message(active: Option<&ActiveArena>, message: ArenaMessage) -> (result: Result<
    ArenaStep,
    ControlError,
>)
    ensures
        error::verdict(result) == arena_step(running_of(active), message),
{
    match message {
        ArenaMessage::Disconnected => match active {
            None => Ok(ArenaStep::Ignore),
            Some(_) => Ok(
                ArenaStep::End {
                    end: ArenaEnd::Interrupted,
                    unrecorded: "interrupted Arena job could not be recorded",
                },
            ),
        },
        ArenaMessage::Trial { job_id, index } => match receive_trial(active, job_id.as_str(), index) {
            Err(error) => Err(error),
            Ok(TrialStep::NotActive) => Ok(
                ArenaStep::RefuseTrial { reason: "paired job is no longer active", stop: false },
            ),
            Ok(TrialStep::OutOfOrder) => Ok(
                ArenaStep::RefuseTrial {
                    reason: "paired trial arrived outside admitted order",
                    stop: true,
                },
            ),
            Ok(TrialStep::Persist) => Ok(ArenaStep::Persist),
        },
        ArenaMessage::Trials { job_id, succeeded } => match finish_trials(
            active,
            job_id.as_str(),
            succeeded,
        ) {
            Err(error) => Err(error),
            Ok(TrialsStep::Ignore) => Ok(ArenaStep::Ignore),
            Ok(TrialsStep::End(end)) => Ok(
                ArenaStep::End { end, unrecorded: "Arena terminal state could not be recorded" },
            ),
            Ok(TrialsStep::Score) => match start_arena_scoring(active) {
                Err(error) => Err(error),
                Ok(()) => Ok(ArenaStep::Score),
            },
        },
        ArenaMessage::Scoring { job_id, scored } => match finish_arena_scoring(
            active,
            job_id.as_str(),
            scored,
        ) {
            Err(error) => Err(error),
            Ok(ScoringStep::Commit) => Ok(ArenaStep::Commit),
            Ok(ScoringStep::End(end)) => {
                let unrecorded: &'static str = match active {
                    None => "failed Arena terminal state could not be recorded",
                    Some(running) => if running.overall_timed_out {
                        "timed out Arena terminal could not be recorded"
                    } else if running.record.state == JobState::CancellationRequested
                        || running.cancel {
                        "cancelled Arena terminal state could not be recorded"
                    } else {
                        "failed Arena terminal state could not be recorded"
                    },
                };
                Ok(ArenaStep::End { end, unrecorded })
            },
        },
    }
}

/// Scores are committed only for the evaluation that runs, while nobody asked it to stop and
/// its deadline was not reached; and it is scored only once every trial is in.
pub proof fn scores_are_committed_only_when_due(active: Option<ActiveArena>, message: ArenaMessage)
    ensures
        arena_step(active, message) == Ok::<ArenaStep, Fault>(ArenaStep::Commit) ==> {
            &&& active is Some
            &&& !active->0.cancel
            &&& !active->0.overall_timed_out
            &&& active->0.record.state != JobState::CancellationRequested
            &&& message is Scoring
            &&& message->Scoring_job_id@ == active->0.record.evaluation_id@
        },
        arena_step(active, message) == Ok::<ArenaStep, Fault>(ArenaStep::Score) ==> {
            &&& active is Some
            &&& active->0.record.completed_trials == active->0.record.total_trials
            &&& !active->0.cancel
            &&& message is Trials
        },
{
}

/// How a committed evaluation ends: with its evaluation, or failed where the commit failed.
pub fn finish_commit(evaluation: Option<EvaluationRecord>) -> (result: ArenaEnd)
    ensures
        result == (match evaluation {
            Some(evaluation) => ArenaEnd::Succeeded(evaluation),
            None => ArenaEnd::Failed,
        }),
{
    match evaluation {
        Some(evaluation) => ArenaEnd::Succeeded(evaluation),
        None => ArenaEnd::Failed,
    }
}

/// The event types of a paired evaluation are all different.
pub proof fn arena_event_types_differ()
    ensures
        "arena.job.terminal"@ != "arena.job.admitted"@,
        "arena.job.terminal"@ != "arena.job.running"@,
        "arena.job.terminal"@ != "arena.job.cancellation_requested"@,
        "arena.job.terminal"@ != "arena.job.scoring"@,
        "arena.job.terminal"@ != "arena.job.committing"@,
        "arena.job.scoring"@ != "arena.job.admitted"@,
        "arena.job.scoring"@ != "arena.job.running"@,
        "arena.job.scoring"@ != "arena.job.cancellation_requested"@,
        "arena.job.committing"@ != "arena.job.admitted"@,
        "arena.job.committing"@ != "arena.job.running"@,
        "arena.job.committing"@ != "arena.job.cancellation_requested"@,
        "arena.job.committing"@ != "arena.job.scoring"@,
        "arena.job.cancellation_requested"@ != "arena.job.admitted"@,
        "arena.job.cancellation_requested"@ != "arena.job.running"@,
{
    reveal_strlit("arena.job.admitted");
    reveal_strlit("arena.job.running");
    reveal_strlit("arena.job.cancellation_requested");
    reveal_strlit("arena.job.scoring");
    reveal_strlit("arena.job.committing");
    reveal_strlit("arena.job.terminal");
    assert("arena.job.admitted"@[10] == 'a');
    assert("arena.job.running"@[10] == 'r');
    assert("arena.job.cancellation_requested"@[10] == 'c');
    assert("arena.job.cancellation_requested"@[11] == 'a');
    assert("arena.job.scoring"@[10] == 's');
    assert("arena.job.committing"@[10] == 'c');
    assert("arena.job.committing"@[11] == 'o');
    assert("arena.job.terminal"@[10] == 't');
}

/// Every end that is no success is a valid transition of an active evaluation.
pub proof fn unsuccessful_ends_replay(record: ArenaJobRecord, end: ArenaEnd, evaluated: bool)
    requires
        jobs::active(record.state),
        record.evaluation is None,
        !(end is Succeeded),
    ensures
        arena_jobs::arena_transition("arena.job.terminal"@, Some(record), ended(record, end), evaluated),
{
    arena_event_types_differ();
}

/// A scored evaluation reaches its success over valid transitions, once every trial is in and
/// the evaluation receipt of its own pair is recorded.
pub proof fn success_replays(record: ArenaJobRecord, evaluation: EvaluationRecord)
    requires
        record.state == JobState::Running,
        record.terminal is None,
        record.completed_trials == record.total_trials,
        evaluation.evaluation_id@ == record.evaluation_id@,
        evaluation.world_id@ == record.world_id@,
        evaluation.parent_genome_id@ == record.parent_genome_id@,
        evaluation.candidate_genome_id@ == record.candidate_genome_id@,
    ensures
        ({
            let scoring = ArenaJobRecord { phase: ArenaJobPhase::Scoring, ..record };
            let committing = ArenaJobRecord { phase: ArenaJobPhase::Committing, ..scoring };
            &&& arena_jobs::arena_transition("arena.job.scoring"@, Some(record), scoring, false)
            &&& arena_jobs::arena_transition(
                "arena.job.committing"@,
                Some(scoring),
                committing,
                false,
            )
            &&& arena_jobs::arena_transition(
                "arena.job.terminal"@,
                Some(committing),
                ended(committing, ArenaEnd::Succeeded(evaluation)),
                true,
            )
        }),
{
    arena_event_types_differ();
}

/// A request to stop at the deadline is a valid transition, and the evaluation then fails.
pub proof fn deadline_fails_the_evaluation(active: ActiveArena, job_id: Seq<char>)
    requires
        active.record.state == JobState::Running,
        active.record.terminal is None,
    ensures
        ({
            let stopped = ActiveArena {
                cancel: true,
                overall_timed_out: true,
                record: ArenaJobRecord { state: JobState::CancellationRequested, ..active.record },
            };
            &&& arena_jobs::arena_transition(
                "arena.job.cancellation_requested"@,
                Some(active.record),
                stopped.record,
                false,
            )
            &&& unscored_end(stopped) is Failed
        }),
{
    arena_event_types_differ();
}

/// What a run is admitted as.
pub struct RunIdentity {
    /// Run identity.
    pub run_id: String,
    /// Genome.
    pub genome_id: String,
    /// World.
    pub world_id: String,
}

/// Whether a run is the trial of a paired evaluation at a place: the parent's trials come
/// first, then the candidate's, all in the World of the evaluation.
pub open spec fn is_trial_run(run: RunIdentity, record: ArenaJobRecord, place: int) -> bool {
    &&& run.run_id@ == record.ordered_trial_run_ids@[place]@
    &&& run.genome_id@ == (if place < record.parent_trial_count {
        record.parent_genome_id@
    } else {
        record.candidate_genome_id@
    })
    &&& run.world_id@ == record.world_id@
}

/// Tells what the trials of a paired evaluation are admitted as.
pub fn trial_runs(record: &ArenaJobRecord) -> (result: Vec<RunIdentity>)
    ensures
        result@.len() == record.ordered_trial_run_ids@.len(),
        forall|i: int|
            0 <= i < result@.len() ==> is_trial_run(#[trigger] result@[i], *record, i),
{
    let mut runs: Vec<RunIdentity> = Vec::new();
    for i in 0..record.ordered_trial_run_ids.len()
        invariant
            runs@.len() == i,
            forall|j: int| 0 <= j < i ==> is_trial_run(#[trigger] runs@[j], *record, j),
    {
        let genome_id: String = if (i as u64) < (record.parent_trial_count as u64) {
            record.parent_genome_id.clone()
        } else {
            record.candidate_genome_id.clone()
        };
        runs.push(
            RunIdentity {
                run_id: record.ordered_trial_run_ids[i].clone(),
                genome_id,
                world_id: record.world_id.clone(),
            },
        );
    }
    runs
}

/// Evidence that a worker hands in: the run it names, and where it says it comes from.
pub struct EvidenceClaim {
    /// Run that the evidence is for.
    pub run_id: String,
    /// Origin that the evidence states, if any.
    pub provenance: Option<RunIdentity>,
}

/// Whether evidence belongs to an admitted run.
pub open spec fn belongs(claim: EvidenceClaim, admitted: RunIdentity) -> bool {
    &&& claim.run_id@ == admitted.run_id@
    &&& match claim.provenance {
        None => true,
        Some(origin) => origin.genome_id@ == admitted.genome_id@ && origin.world_id@
            == admitted.world_id@ && origin.run_id@ == admitted.run_id@,
    }
}

/// Tests whether evidence belongs to an admitted run.
fn is_claim_for(claim: &EvidenceClaim, admitted: &RunIdentity) -> (result: bool)
    ensures
        result == belongs(*claim, *admitted),
{
    if claim.run_id != admitted.run_id {
        return false;
    }
    match &claim.provenance {
        None => true,
        Some(origin) => origin.genome_id == admitted.genome_id && origin.world_id
            == admitted.world_id && origin.run_id == admitted.run_id,
    }
}

/// Whether evidence belongs to the running job or to a trial of the running evaluation.
pub open spec fn admitted(claim: EvidenceClaim, job: Option<&RunIdentity>, trials: Seq<RunIdentity>) -> bool {
    (job matches Some(run) && belongs(claim, *run)) || exists|i: int|
        0 <= i < trials.len() && #[trigger] belongs(claim, trials[i])
}

/// Whether evidence is accepted: it has to belong to the running job or to a trial of the
/// running evaluation.
pub fn evidence_is_admitted(claim: &EvidenceClaim, job: Option<&RunIdentity>, trials: &Vec<RunIdentity>) -> (result:
    bool)
    ensures
        result == admitted(*claim, job, trials@),
{
    if let Some(admitted) = job {
        if is_claim_for(claim, admitted) {
            return true;
        }
    }
    for i in 0..trials.len()
        invariant
            forall|j: int| 0 <= j < i ==> !#[trigger] belongs(*claim, trials@[j]),
    {
        if is_claim_for(claim, &trials[i]) {
            return true;
        }
    }
    false
}

/// What evidence leads to.
#[derive(Debug, PartialEq, Eq)]
pub enum EvidenceStep {
    /// It is rejected, and whatever runs is signalled to stop.
    Reject(&'static str),
    /// It is persisted.
    Persist,
}

/// Decides over evidence that a worker hands in. `writer` says whether the canonical writer
/// is there.
pub fn service_evidence(
    claim: &EvidenceClaim,
    job: Option<&RunIdentity>,
    trials: &Vec<RunIdentity>,
    writer: bool,
) -> (result: EvidenceStep)
    ensures
        result == (if !admitted(*claim, job, trials@) {
            EvidenceStep::Reject("writer rejected evidence outside the admitted run")
        } else if !writer {
            EvidenceStep::Reject("canonical writer is unavailable")
        } else {
            EvidenceStep::Persist
        }),
{
    if !evidence_is_admitted(claim, job, trials) {
        EvidenceStep::Reject("writer rejected evidence outside the admitted run")
    } else if !writer {
        EvidenceStep::Reject("canonical writer is unavailable")
    } else {
        EvidenceStep::Persist
    }
}

/// Who carries a trial out.
#[derive(Clone, Copy, Debug, PartialEq, Eq, Structural)]
pub enum TrialRunner {
    /// The external provider at a place.
    Provider(usize),
    /// A remote worker that leases it.
    Lease,
    /// The pinned reference worker.
    Worker,
}

/// What carries a trial out, or why nothing does.
pub open spec fn runner_of(cancelled: bool, provider: Option<usize>, providers: usize, remote: bool) -> Result<
    TrialRunner,
    &'static str,
> {
    if cancelled {
        Err("paired evaluation was cancelled")
    } else {
        match provider {
            Some(place) => if place < providers {
                Ok(TrialRunner::Provider(place))
            } else {
                Err("paired trial has an invalid provider binding")
            },
            None => if remote {
                Ok(TrialRunner::Lease)
            } else {
                Ok(TrialRunner::Worker)
            },
        }
    }
}

/// Decides who carries the next trial out. `provider` is the place of the external provider
/// that the trial is bound to, of `providers` that there are.
pub fn execute_trial(cancelled: bool, provider: Option<usize>, providers: usize, remote: bool) -> (result: Result<
    TrialRunner,
    &'static str,
>)
    ensures
        result == runner_of(cancelled, provider, providers, remote),
{
    if cancelled {
        return Err("paired evaluation was cancelled");
    }
    match provider {
        Some(place) => if place < providers {
            Ok(TrialRunner::Provider(place))
        } else {
            Err("paired trial has an invalid provider binding")
        },
        None => if remote {
            Ok(TrialRunner::Lease)
        } else {
            Ok(TrialRunner::Worker)
        },
    }
}

/// Takes the writer's acknowledgement of a trial: the sequence that the next trial starts
/// from, or why no more trials are run.
pub fn acknowledge_trial(sent: bool, reply: Option<Result<u64, String>>) -> (result: Result<
    u64,
    String,
>)
    ensures
        match (sent, reply) {
            (false, _) => result matches Err(reason) && reason@
                == "canonical writer is unavailable"@,
            (true, None) => result matches Err(reason) && reason@
                == "canonical writer did not acknowledge the trial"@,
            (true, Some(answer)) => result == answer,
        },
{
    if !sent {
        return Err("canonical writer is unavailable".to_owned());
    }
    match reply {
        None => Err("canonical writer did not acknowledge the trial".to_owned()),
        Some(answer) => answer,
    }
}

} // verus!
