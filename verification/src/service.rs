//! One round of the daemon over its asynchronous work: the deadline of a paired evaluation,
//! waiting evidence, the messages of the executors, and the work that advances by itself.

use crate::arena_driver;
use crate::arena_driver::{ActiveArena, EvidenceClaim, EvidenceStep, RunIdentity};
use crate::error;
use crate::error::{projection, ControlError, Fault};
use crate::protocol::JobState;
use vstd::prelude::*;

verus! {

/// How much evidence one round takes at most.
pub const EVIDENCE_PER_ROUND: u8 = 8;

/// What a round does next.
#[derive(Clone, Copy, Debug, PartialEq, Eq)]
pub enum ServiceTurn {
    /// Signal the running evaluation to stop and record that it is past its deadline.
    Deadline,
    /// Take the next evidence, of so much that the round may still take.
    Evidence {
        /// How much.
        left: u8,
    },
    /// Refuse the evidence and signal whatever runs to stop.
    Refuse {
        /// How much evidence the round may still take.
        left: u8,
        /// Why it is refused.
        reason: &'static str,
    },
    /// Persist the evidence.
    Persist {
        /// How much evidence the round may still take.
        left: u8,
    },
    /// Signal whatever runs to stop.
    Halt {
        /// How much evidence the round may still take.
        left: u8,
    },
    /// Bring the projection up to date.
    Refresh {
        /// How much evidence the round may still take.
        left: u8,
    },
    /// Serve the executor of the running job.
    Job,
    /// Serve the executor of the running evaluation.
    Arena,
    /// Advance the evolution run.
    Evolution,
    /// Advance the adaptations.
    Adaptations,
    /// Nothing more.
    Rest,
}

/// Evidence that waits, and what it is held against.
pub struct Offer {
    /// The evidence.
    pub claim: EvidenceClaim,
    /// The run of the running job.
    pub job: Option<RunIdentity>,
    /// The trials of the running evaluation.
    pub trials: Vec<RunIdentity>,
    /// Whether the canonical writer is there.
    pub writer: bool,
}

/// What a turn came to.
pub enum ServiceReply {
    /// It was done, or there was nothing to do.
    Done,
    /// It failed.
    Failed(ControlError),
    /// Evidence waits.
    Offered(Offer),
}

/// Whether a running evaluation is past its deadline and was not stopped for it yet.
pub open spec fn past_deadline(active: Option<&ActiveArena>, now_millis: u64, deadline_millis: u64) -> bool {
    active matches Some(running) && !running.overall_timed_out && running.record.state
        == JobState::Running && now_millis >= deadline_millis
}

/// Begins a round: with the deadline of the running evaluation where it has passed, else with
/// the waiting evidence.
pub fn enforce_arena_deadline(active: Option<&ActiveArena>, now_millis: u64, deadline_millis: u64) -> (result:
    ServiceTurn)
    ensures
        result == (if past_deadline(active, now_millis, deadline_millis) {
            ServiceTurn::Deadline
        } else {
            ServiceTurn::Evidence { left: EVIDENCE_PER_ROUND }
        }),
{
    let due: bool = match active {
        Some(running) => arena_driver::deadline_is_due(running, now_millis, deadline_millis),
        None => false,
    };
    if due {
        ServiceTurn::Deadline
    } else {
        ServiceTurn::Evidence { left: EVIDENCE_PER_ROUND }
    }
}

/// Where a round goes on once it is through with some evidence.
pub open spec fn after_evidence(left: u8) -> ServiceTurn {
    if left == 0 {
        ServiceTurn::Job
    } else {
        ServiceTurn::Evidence { left }
    }
}

/// Goes on once a round is through with some evidence.
fn go_on(left: u8) -> (result: ServiceTurn)
    ensures
        result == after_evidence(left),
{
    if left == 0 {
        ServiceTurn::Job
    } else {
        ServiceTurn::Evidence { left }
    }
}

/// What waiting evidence leads to.
pub open spec fn offered(left: u8, offer: Offer) -> ServiceTurn {
    let left = (left - 1) as u8;
    let job = match offer.job {
        Some(run) => Some(&run),
        None => None,
    };
    if !arena_driver::admitted(offer.claim, job, offer.trials@) {
        ServiceTurn::Refuse { left, reason: "writer rejected evidence outside the admitted run" }
    } else if !offer.writer {
        ServiceTurn::Refuse { left, reason: "canonical writer is unavailable" }
    } else {
        ServiceTurn::Persist { left }
    }
}

/// What a turn leads to.
pub open spec fn served(turn: ServiceTurn, reply: ServiceReply) -> Result<ServiceTurn, Fault> {
    match (turn, reply) {
        (ServiceTurn::Deadline, ServiceReply::Failed(_)) => Err(
            Fault::Projection("Arena deadline could not be persisted"@),
        ),
        (ServiceTurn::Deadline, _) => Ok(ServiceTurn::Evidence { left: EVIDENCE_PER_ROUND }),
        (ServiceTurn::Evidence { left }, ServiceReply::Offered(offer)) => if left == 0 {
            Ok(ServiceTurn::Job)
        } else {
            Ok(offered(left, offer))
        },
        (ServiceTurn::Evidence { .. }, _) => Ok(ServiceTurn::Job),
        (ServiceTurn::Refuse { left, .. }, _) => Ok(after_evidence(left)),
        (ServiceTurn::Persist { left }, ServiceReply::Failed(_)) => Ok(ServiceTurn::Halt { left }),
        (ServiceTurn::Persist { left }, _) => Ok(ServiceTurn::Refresh { left }),
        (ServiceTurn::Halt { left }, _) => Ok(after_evidence(left)),
        (ServiceTurn::Refresh { .. }, ServiceReply::Failed(_)) => Err(
            Fault::Projection("evidence projection failed"@),
        ),
        (ServiceTurn::Refresh { left }, _) => Ok(after_evidence(left)),
        (ServiceTurn::Job, ServiceReply::Failed(error)) => Err(error@),
        (ServiceTurn::Job, _) => Ok(ServiceTurn::Arena),
        (ServiceTurn::Arena, ServiceReply::Failed(error)) => Err(error@),
        (ServiceTurn::Arena, _) => Ok(ServiceTurn::Evolution),
        (ServiceTurn::Evolution, _) => Ok(ServiceTurn::Adaptations),
        (ServiceTurn::Adaptations, _) => Ok(ServiceTurn::Rest),
        (ServiceTurn::Rest, _) => Ok(ServiceTurn::Rest),
    }
}

/// Decides what a round does after a turn. Failures of the evolution run and of the
/// adaptations are theirs alone; the other failures end the daemon, but for evidence that
/// could not be persisted, which stops whatever runs.
pub fn service_async_messages(turn: ServiceTurn, reply: ServiceReply) -> (result: Result<
    ServiceTurn,
    ControlError,
>)
    ensures
        error::verdict(result) == served(turn, reply),
{
    match (turn, reply) {
        (ServiceTurn::Deadline, ServiceReply::Failed(_)) => Err(
            projection("Arena deadline could not be persisted"),
        ),
        (ServiceTurn::Deadline, _) => Ok(ServiceTurn::Evidence { left: EVIDENCE_PER_ROUND }),
        (ServiceTurn::Evidence { left }, ServiceReply::Offered(offer)) => if left == 0 {
            Ok(ServiceTurn::Job)
        } else {
            let left: u8 = left - 1;
            match arena_driver::service_evidence(
                &offer.claim,
                offer.job.as_ref(),
                &offer.trials,
                offer.writer,
            ) {
                EvidenceStep::Reject(reason) => Ok(ServiceTurn::Refuse { left, reason }),
                EvidenceStep::Persist => Ok(ServiceTurn::Persist { left }),
            }
        },
        (ServiceTurn::Evidence { .. }, _) => Ok(ServiceTurn::Job),
        (ServiceTurn::Refuse { left, .. }, _) => Ok(go_on(left)),
        (ServiceTurn::Persist { left }, ServiceReply::Failed(_)) => Ok(ServiceTurn::Halt { left }),
        (ServiceTurn::Persist { left }, _) => Ok(ServiceTurn::Refresh { left }),
        (ServiceTurn::Halt { left }, _) => Ok(go_on(left)),
        (ServiceTurn::Refresh { .. }, ServiceReply::Failed(_)) => Err(
            projection("evidence projection failed"),
        ),
        (ServiceTurn::Refresh { left }, _) => Ok(go_on(left)),
        (ServiceTurn::Job, ServiceReply::Failed(error)) => Err(error),
        (ServiceTurn::Job, _) => Ok(ServiceTurn::Arena),
        (ServiceTurn::Arena, ServiceReply::Failed(error)) => Err(error),
        (ServiceTurn::Arena, _) => Ok(ServiceTurn::Evolution),
        (ServiceTurn::Evolution, _) => Ok(ServiceTurn::Adaptations),
        (ServiceTurn::Adaptations, _) => Ok(ServiceTurn::Rest),
        (ServiceTurn::Rest, _) => Ok(ServiceTurn::Rest),
    }
}

/// How many turns a round may still take.
pub open spec fn turns_left(turn: ServiceTurn) -> nat {
    match turn {
        ServiceTurn::Deadline => (6 + 3 * EVIDENCE_PER_ROUND) as nat,
        ServiceTurn::Evidence { left } => (5 + 3 * left) as nat,
        ServiceTurn::Persist { left } => (7 + 3 * left) as nat,
        ServiceTurn::Refuse { left, .. } | ServiceTurn::Halt { left } | ServiceTurn::Refresh {
            left,
        } => (6 + 3 * left) as nat,
        ServiceTurn::Job => 4,
        ServiceTurn::Arena => 3,
        ServiceTurn::Evolution => 2,
        ServiceTurn::Adaptations => 1,
        ServiceTurn::Rest => 0,
    }
}

/// A round comes to its end, whatever its turns come to: every turn brings it nearer.
pub proof fn rounds_end(turn: ServiceTurn, reply: ServiceReply)
    requires
        turn !is Rest,
    ensures
        served(turn, reply) matches Ok(next) ==> turns_left(next) < turns_left(turn),
{
}

/// Evidence is persisted only where it belongs to the running job or to a trial of the running
/// evaluation, and where there is a writer.
pub proof fn persisted_evidence_is_admitted(left: u8, offer: Offer)
    requires
        served(ServiceTurn::Evidence { left }, ServiceReply::Offered(offer)) matches Ok(next)
            && next is Persist,
    ensures
        offer.writer,
        (offer.job matches Some(run) && arena_driver::belongs(offer.claim, run)) || exists|i: int|
            0 <= i < offer.trials@.len() && #[trigger] arena_driver::belongs(
                offer.claim,
                offer.trials@[i],
            ),
{
}

} // verus!
