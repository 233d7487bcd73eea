//! Carrying out runs: what their supervisors report and what is made of it.

use crate::arena_driver;
use crate::arena_driver::TrialRunner;
use crate::error::ExecuteError;
use crate::records::RunCompletionReason;
use crate::runs::ReferenceExecution;
use vstd::prelude::*;

verus! {

/// What carries a run out.
#[derive(Clone, Copy, Debug, PartialEq, Eq, Structural)]
pub enum Executor {
    /// The pinned reference worker.
    Worker,
    /// An external provider.
    Provider,
}

/// What is needed before a run can start. Each is only asked for once all before it held.
pub struct Preparation {
    /// Whether the pinned worker is what it was; of no account to a provider.
    pub worker_intact: bool,
    /// Whether the sandboxes could be opened.
    pub sandbox_opened: bool,
    /// Whether a sandbox could be created.
    pub sandbox_created: bool,
    /// Whether the guarded executor could be configured.
    pub configured: bool,
}

/// Why a run cannot start.
pub open spec fn unprepared(executor: Executor, preparation: Preparation) -> Option<&'static str> {
    if executor == Executor::Worker && !preparation.worker_intact {
        Some("reference worker identity check failed")
    } else if !preparation.sandbox_opened {
        Some("sandbox could not be opened")
    } else if !preparation.sandbox_created {
        Some("sandbox could not be created")
    } else if !preparation.configured {
        Some(
            match executor {
                Executor::Worker => "guarded worker could not be configured",
                Executor::Provider => "guarded provider could not be configured",
            },
        )
    } else {
        None
    }
}

/// Decides whether a run can start.
pub fn prepare_run(executor: Executor, preparation: &Preparation) -> (result: Result<
    (),
    &'static str,
>)
    ensures
        result == (match unprepared(executor, *preparation) {
            Some(reason) => Err(reason),
            None => Ok(()),
        }),
{
    if executor == Executor::Worker && !preparation.worker_intact {
        return Err("reference worker identity check failed");
    }
    if !preparation.sandbox_opened {
        return Err("sandbox could not be opened");
    }
    if !preparation.sandbox_created {
        return Err("sandbox could not be created");
    }
    if !preparation.configured {
        return Err(
            match executor {
                Executor::Worker => "guarded worker could not be configured",
                Executor::Provider => "guarded provider could not be configured",
            },
        );
    }
    Ok(())
}

/// What the supervisor of a run reports.
pub struct RunSnapshot {
    /// Whether the run goes on.
    pub running: bool,
    /// How it ended, where it says so.
    pub completion_reason: Option<RunCompletionReason>,
    /// How long it took.
    pub elapsed_millis: u128,
    /// What it answered, where that could be read.
    pub stdout: Option<Vec<u8>>,
    /// What it reported besides, where that could be read.
    pub stderr: Option<Vec<u8>>,
    /// The traces that it left.
    pub trace_artifact_ids: Vec<String>,
    /// What it cost.
    pub actual_cost_microusd: u64,
}

/// What a look at a run comes to.
#[derive(Debug, PartialEq, Eq)]
pub enum Watch {
    /// It goes on.
    Again,
    /// It ended.
    Ended(ReferenceExecution),
    /// It cannot be followed any longer and is interrupted.
    Failed(&'static str),
}

/// What an ended run leaves, where all of it can be had.
pub open spec fn execution_of(snapshot: RunSnapshot) -> Option<ReferenceExecution> {
    match (snapshot.completion_reason, snapshot.stdout, snapshot.stderr) {
        (Some(completion_reason), Some(stdout), Some(stderr)) => if snapshot.elapsed_millis
            <= u64::MAX {
            Some(
                ReferenceExecution {
                    completion_reason,
                    latency_millis: snapshot.elapsed_millis as u64,
                    stdout,
                    stderr,
                    trace_artifact_ids: snapshot.trace_artifact_ids,
                    actual_cost_microusd: snapshot.actual_cost_microusd,
                },
            )
        } else {
            None
        },
        _ => None,
    }
}

/// What a look at a run comes to: `interrupted` says whether a wanted interruption was
/// confirmed, and `snapshot` is what the supervisor reports, where it does.
pub open spec fn watched(
    executor: Executor,
    cancelled: bool,
    interrupted: bool,
    snapshot: Option<RunSnapshot>,
) -> Watch {
    let worker = executor == Executor::Worker;
    if cancelled && !interrupted {
        Watch::Failed(
            if worker {
                "guarded worker did not confirm cancellation"
            } else {
                "guarded provider did not confirm cancellation"
            },
        )
    } else if snapshot is None {
        Watch::Failed(
            if worker {
                "guarded worker status failed"
            } else {
                "guarded provider status failed"
            },
        )
    } else {
        let seen = snapshot->0;
        if seen.running {
            Watch::Again
        } else if seen.completion_reason is None {
            Watch::Failed(
                if worker {
                    "terminal worker omitted completion reason"
                } else {
                    "terminal provider omitted completion reason"
                },
            )
        } else if seen.stdout is None {
            Watch::Failed(
                if worker {
                    "worker output could not be read"
                } else {
                    "provider output could not be read"
                },
            )
        } else if seen.stderr is None {
            Watch::Failed(
                if worker {
                    "worker diagnostics could not be read"
                } else {
                    "provider diagnostics could not be read"
                },
            )
        } else {
            match execution_of(seen) {
                Some(execution) => Watch::Ended(execution),
                None => Watch::Failed(
                    if worker {
                        "worker latency is invalid"
                    } else {
                        "provider latency is invalid"
                    },
                ),
            }
        }
    }
}

/// Looks at a run that goes on beside the daemon.
pub fn watch_run(
    executor: Executor,
    cancelled: bool,
    interrupted: bool,
    snapshot: Option<RunSnapshot>,
) -> (result: Watch)
    ensures
        result == watched(executor, cancelled, interrupted, snapshot),
{
    let worker: bool = executor == Executor::Worker;
    if cancelled && !interrupted {
        return Watch::Failed(
            if worker {
                "guarded worker did not confirm cancellation"
            } else {
                "guarded provider did not confirm cancellation"
            },
        );
    }
    let seen: RunSnapshot = match snapshot {
        Some(seen) => seen,
        None => {
            return Watch::Failed(
                if worker {
                    "guarded worker status failed"
                } else {
                    "guarded provider status failed"
                },
            );
        },
    };
    if seen.running {
        return Watch::Again;
    }
    let completion_reason: RunCompletionReason = match seen.completion_reason {
        Some(reason) => reason,
        None => {
            return Watch::Failed(
                if worker {
                    "terminal worker omitted completion reason"
                } else {
                    "terminal provider omitted completion reason"
                },
            );
        },
    };
    let stdout: Vec<u8> = match seen.stdout {
        Some(stdout) => stdout,
        None => {
            return Watch::Failed(
                if worker {
                    "worker output could not be read"
                } else {
                    "provider output could not be read"
                },
            );
        },
    };
    let stderr: Vec<u8> = match seen.stderr {
        Some(stderr) => stderr,
        None => {
            return Watch::Failed(
                if worker {
                    "worker diagnostics could not be read"
                } else {
                    "provider diagnostics could not be read"
                },
            );
        },
    };
    if seen.elapsed_millis > u64::MAX as u128 {
        return Watch::Failed(
            if worker {
                "worker latency is invalid"
            } else {
                "provider latency is invalid"
            },
        );
    }
    Watch::Ended(
        ReferenceExecution {
            completion_reason,
            latency_millis: seen.elapsed_millis as u64,
            stdout,
            stderr,
            trace_artifact_ids: seen.trace_artifact_ids,
            actual_cost_microusd: seen.actual_cost_microusd,
        },
    )
}

/// Settles a run beside the daemon once it ended: its sandbox must be gone and, where the
/// pinned worker carried it out, that must be what it was.
pub fn settle_watched_run(
    executor: Executor,
    cleaned: bool,
    worker_intact: bool,
    execution: Result<ReferenceExecution, &'static str>,
) -> (result: Result<ReferenceExecution, &'static str>)
    ensures
        result == (if !cleaned {
            Err("sandbox cleanup failed")
        } else if executor == Executor::Worker && !worker_intact {
            Err("reference worker identity changed")
        } else {
            execution
        }),
{
    if !cleaned {
        return Err("sandbox cleanup failed");
    }
    if executor == Executor::Worker && !worker_intact {
        return Err("reference worker identity changed");
    }
    execution
}

/// Looks at a run that the daemon itself waits for. One that ends within its start is not
/// waited for: `waits` is then not set. `traces` are those recorded of the run.
pub fn watch_direct_run(
    waits: bool,
    snapshot: Option<RunSnapshot>,
    traces: Result<Vec<String>, ExecuteError>,
) -> (result: Result<Option<ReferenceExecution>, ExecuteError>)
    ensures
        result == (match snapshot {
            None => Err(ExecuteError::Internal),
            Some(seen) => if seen.running {
                if waits {
                    Ok(None)
                } else {
                    Err(ExecuteError::Internal)
                }
            } else {
                match (execution_of(seen), traces) {
                    (None, _) => Err(ExecuteError::Internal),
                    (Some(_), Err(error)) => Err(error),
                    (Some(execution), Ok(trace_artifact_ids)) => Ok(
                        Some(ReferenceExecution { trace_artifact_ids, ..execution }),
                    ),
                }
            },
        }),
{
    let seen: RunSnapshot = match snapshot {
        Some(seen) => seen,
        None => {
            return Err(ExecuteError::Internal);
        },
    };
    if seen.running {
        return if waits {
            Ok(None)
        } else {
            Err(ExecuteError::Internal)
        };
    }
    match watch_run(Executor::Worker, false, false, Some(seen)) {
        Watch::Ended(execution) => match traces {
            Err(error) => Err(error),
            Ok(trace_artifact_ids) => {
                let mut execution = execution;
                execution.trace_artifact_ids = trace_artifact_ids;
                Ok(Some(execution))
            },
        },
        _ => Err(ExecuteError::Internal),
    }
}

/// The trials of a paired evaluation on their way.
#[derive(Debug, PartialEq, Eq)]
pub struct TrialLoop {
    /// The next trial.
    pub next: usize,
    /// How many there are.
    pub total: usize,
    /// Where the traces of the next trial begin.
    pub sequence: u64,
}

impl TrialLoop {
    /// At most all trials are behind.
    pub open spec fn wf(self) -> bool {
        self.next <= self.total
    }
}

/// What the executor of the trials does next.
#[derive(Debug, PartialEq, Eq)]
pub enum TrialLoopStep {
    /// Carry a trial out and hand its output to the canonical writer.
    Run {
        /// The trial.
        index: usize,
        /// What carries it out.
        runner: TrialRunner,
    },
    /// Report how the trials ended.
    Finish(Result<(), &'static str>),
}

/// Decides what the executor of the trials does next. `provider` is the place of the external
/// provider that the next trial is bound to, if it is.
pub fn execute_async_arena_trials(
    trials: &TrialLoop,
    cancelled: bool,
    provider: Option<usize>,
    providers: usize,
    remote: bool,
) -> (result: TrialLoopStep)
    requires
        trials.wf(),
    ensures
        result == (if trials.next == trials.total {
            TrialLoopStep::Finish(Ok(()))
        } else {
            match arena_driver::runner_of(cancelled, provider, providers, remote) {
                Ok(runner) => TrialLoopStep::Run { index: trials.next, runner },
                Err(reason) => TrialLoopStep::Finish(Err(reason)),
            }
        }),
{
    if trials.next == trials.total {
        return TrialLoopStep::Finish(Ok(()));
    }
    match arena_driver::execute_trial(cancelled, provider, providers, remote) {
        Ok(runner) => TrialLoopStep::Run { index: trials.next, runner },
        Err(reason) => TrialLoopStep::Finish(Err(reason)),
    }
}

/// Takes the canonical writer's reply to a trial in. Only an acknowledged trial lets the next
/// one begin, and its traces begin where the writer says.
pub fn take_acknowledgement(
    trials: &mut TrialLoop,
    sent: bool,
    reply: Option<Result<u64, String>>,
) -> (result: Result<(), String>)
    requires
        old(trials).wf(),
        old(trials).next < old(trials).total,
    ensures
        final(trials).wf(),
        match (sent, reply) {
            (false, _) => (result matches Err(reason) && reason@
                == "canonical writer is unavailable"@) && *final(trials) == *old(trials),
            (true, None) => (result matches Err(reason) && reason@
                == "canonical writer did not acknowledge the trial"@) && *final(trials)
                == *old(trials),
            (true, Some(Err(reason))) => result == Err::<(), String>(reason) && *final(trials)
                == *old(trials),
            (true, Some(Ok(sequence))) => result == Ok::<(), String>(()) && *final(trials) == (
            TrialLoop {
                next: (old(trials).next + 1) as usize,
                total: old(trials).total,
                sequence,
            }),
        },
{
    match arena_driver::acknowledge_trial(sent, reply) {
        Ok(sequence) => {
            trials.next = trials.next + 1;
            trials.sequence = sequence;
            Ok(())
        },
        Err(reason) => Err(reason),
    }
}

/// Puts the frame of a trial together that a remote worker is to carry out: it needs an
/// instruction, and the two must fit.
pub fn execute_arena_trial_remotely(has_instruction: bool, frame: Option<Vec<u8>>) -> (result: Result<
    Vec<u8>,
    &'static str,
>)
    ensures
        result == (if !has_instruction {
            Err("remote Arena trial has no reference instruction")
        } else {
            match frame {
                Some(frame) => Ok(frame),
                None => Err("remote Arena trial frame could not be built"),
            }
        }),
{
    if !has_instruction {
        return Err("remote Arena trial has no reference instruction");
    }
    match frame {
        Some(frame) => Ok(frame),
        None => Err("remote Arena trial frame could not be built"),
    }
}

} // verus!
