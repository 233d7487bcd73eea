//! Remote workers: their credentials, the leases they hold, and the results they return.

use crate::arena_submit;
use crate::digest;
use crate::environment;
use crate::environment::Platform;
use crate::error;
use crate::error::{rejected, ExecuteError, Refusal};
use crate::hex;
use crate::ids;
use crate::ordered;
use crate::ordered::OrderedMap;
use crate::protocol::{
    RemoteCompletion, RemoteJobState, ResponseData, WorkerReply, WorkerRequest, WorkerScope,
};
use crate::records::{
    EventEnvelope, GenomeRecord, RemoteJobRecord, RunBudgetReceipt, RunCompletionReason,
    RunResultReceipt, WorkerCredentialRecord,
};
use crate::state;
use crate::state::{ControlState, Projected};
use crate::text;
use vstd::prelude::*;
use vstd::string::*;
use vstd::utf8::*;

verus! {

/// How long a lease lasts in milliseconds.
pub const REMOTE_LEASE_TIMEOUT_MILLIS: u64 = 60_000;

/// Most bytes that a remote result holds.
pub const MAX_REMOTE_OUTPUT_BYTES: usize = 1_048_576;

/// Whether a lease granted at `leased_at` still holds.
pub open spec fn lease_holds(leased_at: u64, now: u64) -> bool {
    now - leased_at < REMOTE_LEASE_TIMEOUT_MILLIS
}

/// The leases that still hold.
pub open spec fn holding(leased: Map<Seq<char>, u64>, now: u64) -> Map<Seq<char>, u64> {
    Map::new(
        |id: Seq<char>| leased.contains_key(id) && lease_holds(leased[id], now),
        |id: Seq<char>| leased[id],
    )
}

/// Drops the leases that no longer hold.
fn expire_leases(leased: &mut OrderedMap<u64>, now: u64)
    requires
        old(leased).wf(),
    ensures
        final(leased).wf(),
        final(leased)@ == holding(old(leased)@, now),
{
    let mut kept: OrderedMap<u64> = OrderedMap::new();
    let count: usize = leased.len();
    let ghost before = *leased;
    for i in 0..count
        invariant
            *leased == before,
            before.wf(),
            kept.wf(),
            count == before.keys().len(),
            forall|id: Seq<char>| #[trigger]
                kept@.contains_key(id) ==> before@.contains_key(id) && lease_holds(before@[id], now)
                    && kept@[id] == before@[id],
            forall|j: int|
                0 <= j < i && lease_holds(before.values()[j], now) ==> kept@.contains_key(
                    #[trigger] before.keys()[j],
                ),
    {
        let at: u64 = *leased.value_at(i);
        if now < at || now - at < REMOTE_LEASE_TIMEOUT_MILLIS {
            let ghost earlier = kept@;
            kept.insert(leased.key_at(i).clone(), at);
            proof {
                before.lemma_bound_at(i as int);
                assert forall|j: int|
                    0 <= j < i + 1 && lease_holds(before.values()[j], now) implies kept@.contains_key(
                    #[trigger] before.keys()[j],
                ) by {
                    if j < i {
                        assert(earlier.contains_key(before.keys()[j]));
                    }
                }
            }
        }
    }
    proof {
        assert forall|id: Seq<char>| #[trigger]
            kept@.contains_key(id) == holding(before@, now).contains_key(id) by {
            if before@.contains_key(id) && lease_holds(before@[id], now) {
                before.lemma_place(id);
                assert(kept@.contains_key(before.keys()[before.place(id)]));
            }
        }
        assert(kept@ =~= holding(before@, now));
    }
    *leased = kept;
}

/// A trial that waits for a remote worker.
pub struct PendingArenaTrialJob {
    /// Genome of the trial.
    pub genome_id: String,
    /// The framed request that the worker executes.
    pub frame: Vec<u8>,
}

/// A remote worker's result for a leased trial.
#[derive(Debug, PartialEq, Eq)]
pub struct RemoteArenaTrialOutcome {
    /// Output bytes.
    pub output: Vec<u8>,
    /// Outcome that the worker observed.
    pub completion: RemoteCompletion,
    /// Time since the lease in milliseconds.
    pub latency_millis: u64,
}

/// Trials of a paired evaluation that remote workers may lease. At most one worker holds a
/// trial at a time; a result is taken once and a repeated one is accepted without effect.
pub struct RemoteArenaLeaseQueue {
    pending: OrderedMap<PendingArenaTrialJob>,
    order: Vec<String>,
    leased: OrderedMap<u64>,
    completed: OrderedMap<()>,
}

/// What the wait for a trial observes in one poll.
pub enum WaitPoll {
    /// The evaluation was cancelled.
    Cancelled,
    /// The deadline has passed.
    Expired,
    /// A worker's result arrived.
    Received(RemoteArenaTrialOutcome),
    /// The queue was dropped.
    Dropped,
    /// Nothing happened.
    Idle,
}

/// What came from the queue while a wait listened.
pub enum Arrival {
    /// A worker's result.
    Outcome(RemoteArenaTrialOutcome),
    /// Nothing.
    Nothing,
    /// The queue was dropped.
    Dropped,
}

/// Tells what the wait for a trial observes. A cancellation counts before the deadline, and
/// both count before what arrived.
pub fn observe_wait(cancelled: bool, now: u64, deadline: u64, arrival: Arrival) -> (result: WaitPoll)
    ensures
        result == (if cancelled {
            WaitPoll::Cancelled
        } else if now >= deadline {
            WaitPoll::Expired
        } else {
            match arrival {
                Arrival::Outcome(outcome) => WaitPoll::Received(outcome),
                Arrival::Nothing => WaitPoll::Idle,
                Arrival::Dropped => WaitPoll::Dropped,
            }
        }),
{
    if cancelled {
        return WaitPoll::Cancelled;
    }
    if now >= deadline {
        return WaitPoll::Expired;
    }
    match arrival {
        Arrival::Outcome(outcome) => WaitPoll::Received(outcome),
        Arrival::Nothing => WaitPoll::Idle,
        Arrival::Dropped => WaitPoll::Dropped,
    }
}

/// A list of trials without one of them.
pub open spec fn without(order: Seq<Seq<char>>, id: Seq<char>) -> Seq<Seq<char>> {
    if order.contains(id) {
        order.remove(order.index_of(id))
    } else {
        order
    }
}

/// The first trial of a list that nobody holds.
pub open spec fn first_free(order: Seq<Seq<char>>, held: Map<Seq<char>, u64>) -> Option<Seq<char>>
    decreases order.len(),
{
    if order.len() == 0 {
        None
    } else if !held.contains_key(order.first()) {
        Some(order.first())
    } else {
        first_free(order.drop_first(), held)
    }
}

/// The first free trial of a list is free, and the trials before it are held. Where there is
/// none, all are held.
proof fn first_free_holds(order: Seq<Seq<char>>, held: Map<Seq<char>, u64>)
    ensures
        match first_free(order, held) {
            Some(id) => exists|at: int|
                0 <= at < order.len() && #[trigger] order[at] == id && !held.contains_key(id)
                    && forall|j: int| 0 <= j < at ==> held.contains_key(#[trigger] order[j]),
            None => forall|j: int| 0 <= j < order.len() ==> held.contains_key(#[trigger] order[j]),
        },
    decreases order.len(),
{
    if order.len() > 0 {
        if !held.contains_key(order.first()) {
            assert(order[0] == order.first());
        } else {
            let rest = order.drop_first();
            first_free_holds(rest, held);
            match first_free(rest, held) {
                Some(id) => {
                    let at = choose|at: int|
                        0 <= at < rest.len() && #[trigger] rest[at] == id && !held.contains_key(id)
                            && forall|j: int| 0 <= j < at ==> held.contains_key(#[trigger] rest[j]);
                    assert(order[at + 1] == id);
                    assert forall|j: int| 0 <= j < at + 1 implies held.contains_key(
                        #[trigger] order[j],
                    ) by {
                        if j > 0 {
                            assert(order[j] == rest[j - 1]);
                        }
                    }
                },
                None => {
                    assert forall|j: int| 0 <= j < order.len() implies held.contains_key(
                        #[trigger] order[j],
                    ) by {
                        if j > 0 {
                            assert(order[j] == rest[j - 1]);
                        }
                    }
                },
            }
        }
    }
}

/// Taking a text off a list without repetitions leaves the others, still without repetitions.
proof fn without_keeps(order: Seq<Seq<char>>, id: Seq<char>)
    requires
        order.no_duplicates(),
    ensures
        without(order, id).no_duplicates(),
        !without(order, id).contains(id),
        forall|other: Seq<char>|
            other != id ==> (#[trigger] without(order, id).contains(other) == order.contains(other)),
{
    if order.contains(id) {
        let at = order.index_of(id);
        let rest = order.remove(at);
        assert(forall|j: int| 0 <= j < rest.len() ==> #[trigger] rest[j] == order[if j < at {
            j
        } else {
            j + 1
        }]);
        assert forall|other: Seq<char>| other != id implies (#[trigger] rest.contains(other)
            == order.contains(other)) by {
            if order.contains(other) {
                let place = order.index_of(other);
                assert(rest[if place < at {
                    place
                } else {
                    place - 1
                }] == other);
            }
        }
    }
}

impl RemoteArenaLeaseQueue {
    /// The trials that wait.
    pub closed spec fn pending(self) -> Map<Seq<char>, PendingArenaTrialJob> {
        self.pending@
    }

    /// The trials that wait, from the one that was offered first to the one that was offered
    /// last.
    pub closed spec fn order(self) -> Seq<Seq<char>> {
        text::texts(self.order@)
    }

    /// When each lease was granted, in milliseconds.
    pub closed spec fn leased(self) -> Map<Seq<char>, u64> {
        self.leased@
    }

    /// The trials that have a result.
    pub closed spec fn completed(self) -> Set<Seq<char>> {
        self.completed@.dom()
    }

    /// Every map is well formed.
    pub closed spec fn maps_wf(self) -> bool {
        self.pending.wf() && self.leased.wf() && self.completed.wf()
    }

    /// Every map is well formed, and the order holds every waiting trial once.
    pub open spec fn wf(self) -> bool {
        &&& self.maps_wf()
        &&& self.order().no_duplicates()
        &&& forall|id: Seq<char>| #[trigger]
            self.order().contains(id) <==> self.pending().contains_key(id)
    }

    /// The oldest waiting trial that no holding lease covers.
    pub open spec fn next(self, now: u64) -> Option<Seq<char>> {
        first_free(self.order(), holding(self.leased(), now))
    }

    /// Takes a trial off the order.
    fn drop_place(&mut self, job_id: &str)
        requires
            old(self).maps_wf(),
            old(self).order().no_duplicates(),
        ensures
            final(self).maps_wf(),
            final(self).order() == without(old(self).order(), job_id@),
            final(self).pending() == old(self).pending(),
            final(self).leased() == old(self).leased(),
            final(self).completed() == old(self).completed(),
    {
        let ghost before = self.order();
        let count: usize = self.order.len();
        for i in 0..count
            invariant
                *self == *old(self),
                count == self.order@.len(),
                before == self.order(),
                before.no_duplicates(),
                self.maps_wf(),
                forall|j: int| 0 <= j < i ==> #[trigger] before[j] != job_id@,
        {
            if text::text_eq(self.order[i].as_str(), job_id) {
                assert(before[i as int] == job_id@);
                assert(before.index_of(job_id@) == i);
                let _ = self.order.remove(i);
                assert(self.order() =~= before.remove(i as int));
                return ;
            }
        }
        assert(!before.contains(job_id@));
    }

    /// A queue without trials.
    pub fn new() -> (result: Self)
        ensures
            result.wf(),
            result.pending() == Map::<Seq<char>, PendingArenaTrialJob>::empty(),
            result.order() == Seq::<Seq<char>>::empty(),
            result.leased() == Map::<Seq<char>, u64>::empty(),
            result.completed() == Set::<Seq<char>>::empty(),
    {
        let result = RemoteArenaLeaseQueue {
            pending: OrderedMap::new(),
            order: Vec::new(),
            leased: OrderedMap::new(),
            completed: OrderedMap::new(),
        };
        assert(result.order() =~= Seq::<Seq<char>>::empty());
        assert(result.completed() =~= Set::<Seq<char>>::empty());
        result
    }

    /// Offers one trial to the workers. It waits behind all that were offered before; one that
    /// waited already is offered anew.
    pub fn offer(&mut self, job_id: &str, genome_id: &str, frame: Vec<u8>)
        requires
            old(self).wf(),
        ensures
            final(self).wf(),
            final(self).leased() == old(self).leased(),
            final(self).completed() == old(self).completed(),
            final(self).order() == without(old(self).order(), job_id@).push(job_id@),
            final(self).pending().dom() == old(self).pending().dom().insert(job_id@),
            final(self).pending()[job_id@].genome_id@ == genome_id@,
            final(self).pending()[job_id@].frame == frame,
            forall|id: Seq<char>|
                id != job_id@ && old(self).pending().contains_key(id)
                    ==> #[trigger] final(self).pending()[id] == old(self).pending()[id],
    {
        let ghost before = self.pending();
        let ghost listed = self.order();
        self.drop_place(job_id);
        let ghost rest = self.order();
        self.order.push(job_id.to_owned());
        assert(self.order() =~= rest.push(job_id@));
        self.pending.insert(
            job_id.to_owned(),
            PendingArenaTrialJob { genome_id: genome_id.to_owned(), frame },
        );
        assert(self.pending().dom() =~= before.dom().insert(job_id@));
        proof {
            without_keeps(listed, job_id@);
            let order = self.order();
            assert forall|id: Seq<char>| #[trigger]
                order.contains(id) <==> self.pending().contains_key(id) by {
                if id == job_id@ {
                    assert(order[rest.len() as int] == id);
                } else {
                    if rest.contains(id) {
                        assert(order[rest.index_of(id)] == id);
                    }
                    if order.contains(id) {
                        assert(rest[order.index_of(id)] == id);
                    }
                    assert(rest.contains(id) == listed.contains(id));
                }
            }
        }
    }

    /// Takes one poll of the wait for an offered trial. Where the wait is over, the trial and
    /// its lease are withdrawn, so that a late result is refused rather than accepted.
    pub fn submit_and_wait(&mut self, job_id: &str, poll: WaitPoll) -> (result: Option<
        Result<RemoteArenaTrialOutcome, &'static str>,
    >)
        requires
            old(self).wf(),
        ensures
            final(self).wf(),
            final(self).completed() == old(self).completed(),
            result == (match poll {
                WaitPoll::Cancelled => Some(Err("paired evaluation was cancelled")),
                WaitPoll::Expired => Some(Err("remote Arena trial lease deadline expired")),
                WaitPoll::Received(outcome) => Some(Ok(outcome)),
                WaitPoll::Dropped => Some(Err("remote Arena trial lease queue was dropped")),
                WaitPoll::Idle => None,
            }),
            final(self).pending() == (if poll is Idle {
                old(self).pending()
            } else {
                old(self).pending().remove(job_id@)
            }),
            final(self).order() == (if poll is Idle {
                old(self).order()
            } else {
                without(old(self).order(), job_id@)
            }),
            final(self).leased() == (if poll is Idle {
                old(self).leased()
            } else {
                old(self).leased().remove(job_id@)
            }),
    {
        let outcome: Result<RemoteArenaTrialOutcome, &'static str> = match poll {
            WaitPoll::Idle => {
                return None;
            },
            WaitPoll::Cancelled => Err("paired evaluation was cancelled"),
            WaitPoll::Expired => Err("remote Arena trial lease deadline expired"),
            WaitPoll::Dropped => Err("remote Arena trial lease queue was dropped"),
            WaitPoll::Received(outcome) => Ok(outcome),
        };
        proof {
            without_keeps(self.order(), job_id@);
        }
        self.drop_place(job_id);
        let _ = self.pending.remove(job_id);
        let _ = self.leased.remove(job_id);
        Some(outcome)
    }

    /// Leases the oldest waiting trial that nobody holds: its identity, Genome and frame.
    pub fn lease(&mut self, now: u64) -> (result: Option<(String, String, Vec<u8>)>)
        requires
            old(self).wf(),
        ensures
            final(self).wf(),
            final(self).pending() == old(self).pending(),
            final(self).order() == old(self).order(),
            final(self).completed() == old(self).completed(),
            match result {
                Some((job_id, genome_id, frame)) => {
                    &&& old(self).next(now) == Some(job_id@)
                    &&& old(self).pending().contains_key(job_id@)
                    &&& genome_id == old(self).pending()[job_id@].genome_id
                    &&& frame@ == old(self).pending()[job_id@].frame@
                    &&& final(self).leased() == holding(old(self).leased(), now).insert(job_id@, now)
                },
                None => old(self).next(now) is None && final(self).leased() == holding(
                    old(self).leased(),
                    now,
                ),
            },
    {
        let ghost before = *self;
        expire_leases(&mut self.leased, now);
        let ghost held = holding(before.leased(), now);
        let ghost listed = before.order();
        let count: usize = self.order.len();
        assert(listed.skip(0) =~= listed);
        for i in 0..count
            invariant
                self.maps_wf(),
                before.wf(),
                before == *old(self),
                self.pending == before.pending,
                self.order == before.order,
                self.completed == before.completed,
                self.leased@ == held,
                held == holding(before.leased(), now),
                listed == before.order(),
                count == listed.len(),
                first_free(listed, held) == first_free(listed.skip(i as int), held),
        {
            let ghost rest = listed.skip(i as int);
            assert(rest.first() == listed[i as int]);
            assert(rest.drop_first() =~= listed.skip(i + 1));
            if !self.leased.contains_key(self.order[i].as_str()) {
                let job_id: String = self.order[i].clone();
                assert(job_id@ == listed[i as int]);
                assert(listed.contains(job_id@));
                match self.pending.get(job_id.as_str()) {
                    Some(trial) => {
                        let genome_id: String = trial.genome_id.clone();
                        let frame: Vec<u8> = text::copy_bytes(&trial.frame);
                        self.leased.insert(job_id.clone(), now);
                        return Some((job_id, genome_id, frame));
                    },
                    None => {},
                }
            }
        }
        assert(listed.skip(count as int).len() == 0);
        None
    }

    /// Whether this queue knows a trial, waiting or completed.
    pub fn owns(&self, job_id: &str) -> (result: bool)
        requires
            self.wf(),
        ensures
            result == (self.pending().contains_key(job_id@) || self.completed().contains(job_id@)),
    {
        self.pending.contains_key(job_id) || self.completed.contains_key(job_id)
    }

    /// Takes a worker's result. The first result of a waiting trial is handed on to the wait,
    /// with the time since its lease; a repeated one is accepted and dropped; any other is
    /// refused.
    pub fn submit_result(
        &mut self,
        job_id: &str,
        output: Vec<u8>,
        completion: RemoteCompletion,
        now: u64,
    ) -> (result: Result<Option<RemoteArenaTrialOutcome>, &'static str>)
        requires
            old(self).wf(),
        ensures
            final(self).wf(),
            final(self).pending() == old(self).pending(),
            final(self).order() == old(self).order(),
            final(self).leased() == old(self).leased(),
            final(self).completed() == (if result is Ok {
                old(self).completed().insert(job_id@)
            } else {
                old(self).completed()
            }),
            result == (if old(self).completed().contains(job_id@) {
                Ok(None)
            } else if !old(self).pending().contains_key(job_id@) {
                Err("job_id is not recognized")
            } else {
                Ok(
                    Some(
                        RemoteArenaTrialOutcome {
                            output,
                            completion,
                            latency_millis: lease_age(old(self).leased(), job_id@, now),
                        },
                    ),
                )
            }),
    {
        let ghost before = self.completed();
        if self.completed.contains_key(job_id) {
            assert(before.insert(job_id@) =~= before);
            return Ok(None);
        }
        if !self.pending.contains_key(job_id) {
            return Err("job_id is not recognized");
        }
        let latency_millis: u64 = age_of_lease(&self.leased, job_id, now);
        self.completed.insert(job_id.to_owned(), ());
        assert(self.completed() =~= before.insert(job_id@));
        Ok(Some(RemoteArenaTrialOutcome { output, completion, latency_millis }))
    }
}

/// The time since a lease in milliseconds; none where there is no lease.
pub open spec fn lease_age(leased: Map<Seq<char>, u64>, job_id: Seq<char>, now: u64) -> u64 {
    if leased.contains_key(job_id) && leased[job_id] <= now {
        (now - leased[job_id]) as u64
    } else {
        0
    }
}

/// Measures the time since a lease.
fn age_of_lease(leased: &OrderedMap<u64>, job_id: &str, now: u64) -> (result: u64)
    requires
        leased.wf(),
    ensures
        result == lease_age(leased@, job_id@, now),
{
    match leased.get(job_id) {
        Some(at) => if *at <= now {
            now - *at
        } else {
            0
        },
        None => 0,
    }
}

/// A trial that was just leased is not leased again while its lease holds.
pub proof fn leases_are_exclusive(
    queue: RemoteArenaLeaseQueue,
    later: RemoteArenaLeaseQueue,
    granted_at: u64,
    now: u64,
)
    requires
        queue.next(granted_at) is Some,
        later.order() == queue.order(),
        later.leased() == holding(queue.leased(), granted_at).insert(
            queue.next(granted_at)->0,
            granted_at,
        ),
        now - granted_at < REMOTE_LEASE_TIMEOUT_MILLIS,
    ensures
        later.next(now) != queue.next(granted_at),
{
    first_free_holds(later.order(), holding(later.leased(), now));
    assert(holding(later.leased(), now).contains_key(queue.next(granted_at)->0));
}

/// Trials are leased in the order in which they were offered: the trial that is leased next is
/// held by nobody, and every trial that was offered before it is held.
pub proof fn oldest_trials_go_first(queue: RemoteArenaLeaseQueue, place: int, now: u64)
    requires
        0 <= place < queue.order().len(),
    ensures
        queue.next(now) == Some(queue.order()[place]) ==> !holding(queue.leased(), now).contains_key(
            queue.order()[place],
        ),
        !holding(queue.leased(), now).contains_key(queue.order()[place]) ==> exists|at: int|
            0 <= at <= place && queue.next(now) == Some(#[trigger] queue.order()[at]),
{
    let held = holding(queue.leased(), now);
    first_free_holds(queue.order(), held);
    if !held.contains_key(queue.order()[place]) {
        let id = queue.next(now)->0;
        let at = choose|at: int|
            0 <= at < queue.order().len() && #[trigger] queue.order()[at] == id
                && !held.contains_key(id) && forall|j: int|
                0 <= j < at ==> held.contains_key(#[trigger] queue.order()[j]);
        assert(at <= place);
    }
}

/// An expired lease frees its trial: a waiting trial is never lost.
pub proof fn expired_leases_free_their_trials(queue: RemoteArenaLeaseQueue, job_id: Seq<char>, now: u64)
    requires
        queue.pending().contains_key(job_id),
        !queue.leased().contains_key(job_id) || !lease_holds(queue.leased()[job_id], now),
        queue.wf(),
    ensures
        queue.next(now) is Some,
{
    first_free_holds(queue.order(), holding(queue.leased(), now));
    assert(queue.order().contains(job_id));
    let at = queue.order().index_of(job_id);
    assert(queue.order()[at] == job_id);
}

/// The identity of the credential with a given secret.
pub open spec fn credential_of(secret: Seq<u8>) -> Seq<char> {
    hex::hex(digest::blake3_hash(secret)).take(32)
}

/// Derives the identity of the credential with a given secret.
pub fn credential_id(secret: &[u8; 32]) -> (result: String)
    ensures
        result@ == credential_of(secret@),
{
    let whole: String = digest::blake3_hex(secret.as_slice());
    let id: String = text::char_range(whole.as_str(), 0, 32);
    assert(id@ == credential_of(secret@));
    id
}

/// When a credential minted now expires, where that is a representable time.
pub open spec fn expiry(now: i64, ttl_seconds: u64) -> Option<i64> {
    if ttl_seconds * 1000 <= i64::MAX && now + ttl_seconds * 1000 <= i64::MAX {
        Some((now + ttl_seconds * 1000) as i64)
    } else {
        None
    }
}

/// Mints a credential from a fresh secret: the record to keep, and the answer, which is the
/// only place that the secret is told.
pub fn worker_credential_mint(secret: &[u8; 32], worker_id: &str, ttl_seconds: u64, now: i64) -> (result:
    Result<(WorkerCredentialRecord, ResponseData), ExecuteError>)
    ensures
        match expiry(now, ttl_seconds) {
            None => result matches Err(error) && error == ExecuteError::Internal,
            Some(expires) => {
                &&& result matches Ok((record, response))
                &&& record.schema_version == 1
                &&& record.credential_id@ == credential_of(secret@)
                &&& record.worker_id@ == worker_id@
                &&& record.scope == WorkerScope::RemoteReferenceRun
                &&& record.expires_at_millis == expires
                &&& !record.revoked
                &&& response matches ResponseData::WorkerCredential {
                    credential_id,
                    token,
                    worker_id: worker,
                    expires_at_millis,
                    scope,
                }
                &&& credential_id == record.credential_id
                &&& token@ == hex::hex(secret@)
                &&& worker@ == worker_id@
                &&& expires_at_millis == expires
                &&& scope == WorkerScope::RemoteReferenceRun
            },
        },
{
    let token: String = hex::hex_encode(secret);
    let id: String = credential_id(secret);
    if ttl_seconds > 9_223_372_036_854_775u64 {
        return Err(ExecuteError::Internal);
    }
    let ttl_millis: i64 = (ttl_seconds * 1000) as i64;
    let expires_at_millis: i64 = match now.checked_add(ttl_millis) {
        Some(expires) => expires,
        None => {
            return Err(ExecuteError::Internal);
        },
    };
    let record = WorkerCredentialRecord {
        schema_version: 1,
        credential_id: id.clone(),
        worker_id: worker_id.to_owned(),
        scope: WorkerScope::RemoteReferenceRun,
        expires_at_millis,
        revoked: false,
    };
    let response = ResponseData::WorkerCredential {
        credential_id: id,
        token,
        worker_id: worker_id.to_owned(),
        expires_at_millis,
        scope: WorkerScope::RemoteReferenceRun,
    };
    Ok((record, response))
}

/// Addresses the event that records a minted credential.
pub fn mint_envelope(credential_id: &str) -> (result: EventEnvelope)
    ensures
        result.event_id@ == "worker-credential:"@ + credential_id@,
        result.aggregate_id@ == "worker-credential:"@ + credential_id@,
        result.event_type@ == "worker.credential_minted"@,
        result.actor@ == state::OPERATOR_ACTOR@,
{
    let mut event_id: String = "worker-credential:".to_owned();
    event_id.append(credential_id);
    EventEnvelope {
        aggregate_id: event_id.clone(),
        event_id,
        event_type: "worker.credential_minted".to_owned(),
        actor: state::OPERATOR_ACTOR.to_owned(),
    }
}

/// What revoking a credential takes.
pub enum RevokeStep {
    /// It is revoked already; this is the answer.
    Acknowledged(ResponseData),
    /// Record the revocation under this envelope.
    Record(EventEnvelope),
}

/// Decides over revoking a credential.
pub fn worker_credential_revoke(state: &ControlState, credential_id: &str) -> (result: Result<
    RevokeStep,
    ExecuteError,
>)
    requires
        state.wf(),
    ensures
        if !state@.worker_credentials.contains_key(credential_id@) {
            result matches Err(error) && error == ExecuteError::NotFound
        } else if state@.worker_credentials[credential_id@].revoked {
            result matches Ok(RevokeStep::Acknowledged(response)) && response
                == (ResponseData::Acknowledged { frozen: state@.frozen, killed_runs: 0 })
        } else {
            &&& result matches Ok(RevokeStep::Record(envelope))
            &&& envelope.event_id@ == "worker-credential-revoke:"@ + credential_id@
            &&& envelope.aggregate_id@ == "worker-credential:"@ + credential_id@
            &&& envelope.event_type@ == "worker.credential_revoked"@
            &&& envelope.actor@ == state::OPERATOR_ACTOR@
        },
{
    let existing = match state.worker_credentials.get(credential_id) {
        None => {
            return Err(ExecuteError::NotFound);
        },
        Some(existing) => existing,
    };
    if existing.revoked {
        return Ok(
            RevokeStep::Acknowledged(
                ResponseData::Acknowledged { frozen: state.frozen, killed_runs: 0 },
            ),
        );
    }
    let mut event_id: String = "worker-credential-revoke:".to_owned();
    event_id.append(credential_id);
    let mut aggregate_id: String = "worker-credential:".to_owned();
    aggregate_id.append(credential_id);
    Ok(
        RevokeStep::Record(
            EventEnvelope {
                event_id,
                aggregate_id,
                event_type: "worker.credential_revoked".to_owned(),
                actor: state::OPERATOR_ACTOR.to_owned(),
            },
        ),
    )
}

/// Whether the credential with an identity is good for a worker, and else why not. `now` is
/// nothing where the clock failed.
pub open spec fn credential_standing(
    credentials: Map<Seq<char>, WorkerCredentialRecord>,
    id: Seq<char>,
    worker_id: Seq<char>,
    now: Option<i64>,
) -> Result<(), &'static str> {
    if !credentials.contains_key(id) {
        Err("credential is not recognized")
    } else if credentials[id].revoked {
        Err("credential has been revoked")
    } else if credentials[id].worker_id@ != worker_id {
        Err("credential does not match worker_id")
    } else {
        match now {
            None => Err("clock error"),
            Some(now) => if now >= credentials[id].expires_at_millis {
                Err("credential has expired")
            } else {
                Ok(())
            },
        }
    }
}

/// Checks the credential with an identity for a worker.
pub fn check_credential(state: &ControlState, id: &str, worker_id: &str, now: Option<i64>) -> (result:
    Result<(), &'static str>)
    requires
        state.wf(),
    ensures
        result == credential_standing(state@.worker_credentials, id@, worker_id@, now),
{
    let record = match state.worker_credentials.get(id) {
        Some(record) => record,
        None => {
            return Err("credential is not recognized");
        },
    };
    if record.revoked {
        return Err("credential has been revoked");
    }
    if !text::text_eq(record.worker_id.as_str(), worker_id) {
        return Err("credential does not match worker_id");
    }
    match now {
        None => Err("clock error"),
        Some(now) => if now >= record.expires_at_millis {
            Err("credential has expired")
        } else {
            Ok(())
        },
    }
}

/// Whether a worker's credential is good, and else why not. `token` holds the bytes of the
/// presented token; `now` is nothing where the clock failed.
pub open spec fn credential_verdict(
    credentials: Map<Seq<char>, WorkerCredentialRecord>,
    worker_id: Seq<char>,
    token: Seq<u8>,
    now: Option<i64>,
) -> Result<(), &'static str> {
    if !hex::lower_hex_of_32(token) {
        Err("credential token is malformed")
    } else {
        credential_standing(credentials, credential_of(hex::unhex(token)), worker_id, now)
    }
}

/// Checks a worker's credential. Whatever is wrong with it, the request is refused.
pub fn verify_worker_credential(state: &ControlState, worker_id: &str, token: &str, now: Option<i64>) -> (result:
    Result<(), &'static str>)
    requires
        state.wf(),
    ensures
        result == credential_verdict(
            state@.worker_credentials,
            worker_id@,
            encode_utf8(token@),
            now,
        ),
{
    let secret: [u8; 32] = match hex::hex_decode(token) {
        Ok(secret) => secret,
        Err(_) => {
            return Err("credential token is malformed");
        },
    };
    proof {
        lower_hex_is_hex(encode_utf8(token@), secret@);
    }
    let id: String = credential_id(&secret);
    check_credential(state, id.as_str(), worker_id, now)
}

/// Lower-case hexadecimal text reads the same in either case.
proof fn lower_hex_is_hex(raw: Seq<u8>, decoded: Seq<u8>)
    requires
        hex::lower_hex_of_32(raw),
        decoded.len() == 32,
        forall|i: int|
            0 <= i < 32 ==> #[trigger] decoded[i] == 16 * hex::lower_value(raw[2 * i])->0
                + hex::lower_value(raw[2 * i + 1])->0,
    ensures
        hex::unhex(raw) == decoded,
{
    assert forall|i: int| 0 <= i < 32 implies hex::unhex(raw)[i] == decoded[i] by {
        assert(hex::lower_value(raw[2 * i]) is Some);
        assert(hex::lower_value(raw[2 * i + 1]) is Some);
    }
    assert(hex::unhex(raw) =~= decoded);
}

/// A minted credential, once recorded, is good for its worker until it expires or is revoked,
/// and for nobody else.
pub proof fn minted_credentials_verify(
    credentials: Map<Seq<char>, WorkerCredentialRecord>,
    secret: Seq<u8>,
    worker_id: Seq<char>,
    now: i64,
)
    requires
        secret.len() == 32,
        credentials.contains_key(credential_of(secret)),
    ensures
        ({
            let record = credentials[credential_of(secret)];
            let verdict = credential_verdict(
                credentials,
                worker_id,
                encode_utf8(hex::hex(secret)),
                Some(now),
            );
            verdict is Ok <==> !record.revoked && record.worker_id@ == worker_id && now
                < record.expires_at_millis
        }),
{
    hex::encoded_bytes_decode(secret);
}

/// What a remote worker's request leads to.
pub enum WorkerStep {
    /// The request is refused.
    Refuse(WorkerReply),
    /// A job is leased.
    Lease,
    /// A result is taken for this job.
    Result {
        /// Job identity.
        job_id: String,
        /// Output in hexadecimal.
        output_hex: String,
        /// Outcome that the worker observed.
        completion: RemoteCompletion,
    },
}

/// The credential that a worker's request presents.
pub open spec fn presented(request: WorkerRequest) -> (Seq<char>, Seq<char>) {
    match request {
        WorkerRequest::Lease { worker_id, token } => (worker_id@, token@),
        WorkerRequest::SubmitResult { worker_id, token, .. } => (worker_id@, token@),
    }
}

/// Admits a worker's request only under a good credential.
pub fn handle_worker_request(state: &ControlState, request: WorkerRequest, now: Option<i64>) -> (result:
    WorkerStep)
    requires
        state.wf(),
    ensures
        match credential_verdict(
            state@.worker_credentials,
            presented(request).0,
            encode_utf8(presented(request).1),
            now,
        ) {
            Err(reason) => result matches WorkerStep::Refuse(WorkerReply::Error { reason: told })
                && told@ == reason@,
            Ok(_) => match request {
                WorkerRequest::Lease { .. } => result is Lease,
                WorkerRequest::SubmitResult { job_id, output_hex, completion, .. } => result == (
                WorkerStep::Result { job_id, output_hex, completion }),
            },
        },
{
    match request {
        WorkerRequest::Lease { worker_id, token } => match verify_worker_credential(
            state,
            worker_id.as_str(),
            token.as_str(),
            now,
        ) {
            Err(reason) => WorkerStep::Refuse(WorkerReply::Error { reason: reason.to_owned() }),
            Ok(_) => WorkerStep::Lease,
        },
        WorkerRequest::SubmitResult { worker_id, token, job_id, output_hex, completion } => {
            match verify_worker_credential(state, worker_id.as_str(), token.as_str(), now) {
                Err(reason) => WorkerStep::Refuse(WorkerReply::Error { reason: reason.to_owned() }),
                Ok(_) => WorkerStep::Result { job_id, output_hex, completion },
            }
        },
    }
}

/// What submitting a remote job takes.
pub enum RemoteSubmitStep {
    /// The job is recorded already; this is its status.
    Existing(ResponseData),
    /// The job is new and its Genome may run.
    Fresh,
}

/// The status of a recorded remote job: pending until a signed result exists.
pub open spec fn remote_status(projected: Projected, job_id: Seq<char>) -> ResponseData {
    let record = projected.remote_jobs[job_id];
    if projected.run_results.contains_key(record.run_id@) {
        let result = projected.run_results[record.run_id@];
        ResponseData::RemoteJob {
            job_id: record.job_id,
            genome_id: record.genome_id,
            state: if result.completion_reason == RunCompletionReason::Success {
                RemoteJobState::Succeeded
            } else {
                RemoteJobState::Failed
            },
            completion_reason: Some(result.completion_reason),
            latency_millis: Some(result.latency_millis),
            stdout_artifact_id: Some(result.stdout_artifact_id),
        }
    } else {
        ResponseData::RemoteJob {
            job_id: record.job_id,
            genome_id: record.genome_id,
            state: RemoteJobState::Pending,
            completion_reason: None,
            latency_millis: None,
            stdout_artifact_id: None,
        }
    }
}

/// Shows a recorded remote job.
pub fn remote_job_status(state: &ControlState, job_id: &str) -> (result: Result<
    ResponseData,
    ExecuteError,
>)
    requires
        state.wf(),
    ensures
        result == (if state@.remote_jobs.contains_key(job_id@) {
            Ok(remote_status(state@, job_id@))
        } else {
            Err(ExecuteError::NotFound)
        }),
{
    let record = match state.remote_jobs.get(job_id) {
        Some(record) => record,
        None => {
            return Err(ExecuteError::NotFound);
        },
    };
    match state.run_results.get(record.run_id.as_str()) {
        Some(result) => Ok(
            ResponseData::RemoteJob {
                job_id: record.job_id.clone(),
                genome_id: record.genome_id.clone(),
                state: if result.completion_reason == RunCompletionReason::Success {
                    RemoteJobState::Succeeded
                } else {
                    RemoteJobState::Failed
                },
                completion_reason: Some(result.completion_reason),
                latency_millis: Some(result.latency_millis),
                stdout_artifact_id: Some(result.stdout_artifact_id.clone()),
            },
        ),
        None => Ok(
            ResponseData::RemoteJob {
                job_id: record.job_id.clone(),
                genome_id: record.genome_id.clone(),
                state: RemoteJobState::Pending,
                completion_reason: None,
                latency_millis: None,
                stdout_artifact_id: None,
            },
        ),
    }
}

/// Opens a submitted remote job. A repeated submission is answered with the job's status.
pub fn open_remote_job(state: &ControlState, job_id: &str, genome_id: &str) -> (result: Result<
    RemoteSubmitStep,
    ExecuteError,
>)
    requires
        state.wf(),
    ensures
        if state@.remote_jobs.contains_key(job_id@) {
            if state@.remote_jobs[job_id@].genome_id@ == genome_id@ {
                result == Ok::<RemoteSubmitStep, ExecuteError>(
                    RemoteSubmitStep::Existing(remote_status(state@, job_id@)),
                )
            } else {
                error::outcome(result) == Err::<RemoteSubmitStep, Refusal>(
                    Refusal::Rejected("job id is already bound to another Genome"@),
                )
            }
        } else {
            match arena_submit::runnable(state@, state.registered, genome_id@) {
                Ok(_) => result == Ok::<RemoteSubmitStep, ExecuteError>(RemoteSubmitStep::Fresh),
                Err(refusal) => error::outcome(result) == Err::<RemoteSubmitStep, Refusal>(refusal),
            }
        },
{
    if let Some(existing) = state.remote_jobs.get(job_id) {
        if !text::text_eq(existing.genome_id.as_str(), genome_id) {
            return Err(rejected("job id is already bound to another Genome"));
        }
        return match remote_job_status(state, job_id) {
            Ok(status) => Ok(RemoteSubmitStep::Existing(status)),
            Err(error) => Err(error),
        };
    }
    match arena_submit::runnable_genome(state, genome_id) {
        Ok(_) => Ok(RemoteSubmitStep::Fresh),
        Err(error) => Err(error),
    }
}

/// Builds the record of a new remote job and the envelope it is recorded under.
/// `has_instruction` says whether the Genome has a reference instruction.
pub fn remote_run_submit(job_id: &str, genome_id: &str, has_instruction: bool) -> (result: Result<
    (RemoteJobRecord, EventEnvelope),
    ExecuteError,
>)
    ensures
        if has_instruction {
            &&& result matches Ok((record, envelope))
            &&& record.schema_version == 1
            &&& record.job_id@ == job_id@
            &&& record.genome_id@ == genome_id@
            &&& record.run_id@ == ids::remote_job_run(job_id@)
            &&& envelope.event_id@ == "remote-job-admit:"@ + job_id@
            &&& envelope.aggregate_id@ == "remote-job:"@ + job_id@
            &&& envelope.event_type@ == "remote_worker.job_admitted"@
            &&& envelope.actor@ == state::OPERATOR_ACTOR@
        } else {
            result matches Err(error) && error@ == Refusal::Rejected(
                "Genome has no reference instruction"@,
            )
        },
{
    if !has_instruction {
        return Err(rejected("Genome has no reference instruction"));
    }
    let record = RemoteJobRecord {
        schema_version: 1,
        job_id: job_id.to_owned(),
        genome_id: genome_id.to_owned(),
        run_id: ids::remote_job_run_id(job_id),
    };
    let mut event_id: String = "remote-job-admit:".to_owned();
    event_id.append(job_id);
    let mut aggregate_id: String = "remote-job:".to_owned();
    aggregate_id.append(job_id);
    let envelope = EventEnvelope {
        event_id,
        aggregate_id,
        event_type: "remote_worker.job_admitted".to_owned(),
        actor: state::OPERATOR_ACTOR.to_owned(),
    };
    Ok((record, envelope))
}

/// Answers with the trial that a worker leased from the queue; without one there is no work.
pub fn lease_arena_trial(leased: Option<(String, String, Vec<u8>)>) -> (result: WorkerReply)
    requires
        leased matches Some((_, _, frame)) ==> 2 * frame@.len() <= usize::MAX,
    ensures
        match leased {
            None => result is NoWork,
            Some((job, genome, frame)) => result matches WorkerReply::Leased {
                job_id,
                genome_id,
                frame_hex,
            } && job_id == job && genome_id == genome && frame_hex@ == hex::hex(frame@),
        },
{
    match leased {
        None => WorkerReply::NoWork,
        Some((job_id, genome_id, frame)) => WorkerReply::Leased {
            job_id,
            genome_id,
            frame_hex: hex::hex_encode_bytes(frame.as_slice()),
        },
    }
}

/// The leases that workers hold on direct remote jobs.
pub struct RemoteLeases {
    leased: OrderedMap<u64>,
}

/// The remote jobs that have no signed result and that nobody holds.
pub open spec fn unclaimed(projected: Projected, leased: Map<Seq<char>, u64>) -> Map<
    Seq<char>,
    RemoteJobRecord,
> {
    Map::new(
        |id: Seq<char>|
            projected.remote_jobs.contains_key(id) && !projected.run_results.contains_key(
                projected.remote_jobs[id].run_id@,
            ) && !leased.contains_key(id),
        |id: Seq<char>| projected.remote_jobs[id],
    )
}

/// Every remote job.
pub open spec fn any_remote_job() -> spec_fn(RemoteJobRecord) -> bool {
    |record: RemoteJobRecord| true
}

impl RemoteLeases {
    /// When each lease was granted, in milliseconds.
    pub closed spec fn view(&self) -> Map<Seq<char>, u64> {
        self.leased@
    }

    /// The leases are well formed.
    pub closed spec fn wf(self) -> bool {
        self.leased.wf()
    }

    /// No leases.
    pub fn new() -> (result: Self)
        ensures
            result.wf(),
            result@ == Map::<Seq<char>, u64>::empty(),
    {
        RemoteLeases { leased: OrderedMap::new() }
    }

    /// Drops expired leases and finds the first remote job without a signed result that nobody
    /// holds: its identity and Genome.
    pub fn next_direct_job(&mut self, state: &ControlState, now: u64) -> (result: Option<
        (String, String),
    >)
        requires
            old(self).wf(),
            state.wf(),
        ensures
            final(self).wf(),
            final(self)@ == holding(old(self)@, now),
            ({
                let free = unclaimed(state@, holding(old(self)@, now));
                match result {
                    Some((job_id, genome_id)) => {
                        &&& ordered::least_where(free, any_remote_job()) == Some(job_id@)
                        &&& state@.remote_jobs.contains_key(job_id@)
                        &&& genome_id == state@.remote_jobs[job_id@].genome_id
                    },
                    None => ordered::least_where(free, any_remote_job()) is None,
                }
            }),
    {
        expire_leases(&mut self.leased, now);
        let ghost held = self.leased@;
        let ghost free = unclaimed(state@, held);
        let count: usize = state.remote_jobs.len();
        for i in 0..count
            invariant
                self.wf(),
                state.wf(),
                self.leased@ == held,
                held == holding(old(self)@, now),
                free == unclaimed(state@, held),
                count == state.remote_jobs.keys().len(),
                forall|j: int| 0 <= j < i ==> !free.contains_key(#[trigger] state.remote_jobs.keys()[j]),
        {
            let record = state.remote_jobs.value_at(i);
            let job_id: &String = state.remote_jobs.key_at(i);
            if !state.run_results.contains_key(record.run_id.as_str()) && !self.leased.contains_key(
                job_id.as_str(),
            ) {
                proof {
                    let key = job_id@;
                    assert(free.contains_key(key));
                    assert forall|other: Seq<char>| #[trigger]
                        free.contains_key(other) && any_remote_job()(free[other]) implies !text::precedes(
                        other,
                        key,
                    ) by {
                        state.remote_jobs.lemma_place(other);
                        let p = state.remote_jobs.place(other);
                        if p == i {
                            text::precedes_irreflexive(key);
                        } else {
                            assert(i < p);
                            if text::precedes(other, key) {
                                text::precedes_transitive(key, other, key);
                                text::precedes_irreflexive(key);
                            }
                        }
                    }
                    ordered::least_is_unique(free, any_remote_job(), key);
                }
                return Some((job_id.clone(), record.genome_id.clone()));
            }
        }
        proof {
            assert forall|key: Seq<char>| !ordered::is_least(free, any_remote_job(), key) by {
                if ordered::is_least(free, any_remote_job(), key) {
                    state.remote_jobs.lemma_place(key);
                }
            }
        }
        None
    }

    /// Leases a direct remote job for which a frame could be built; without one there is no
    /// work.
    pub fn lease_remote_job(&mut self, job_id: String, genome_id: String, frame: Option<Vec<u8>>, now: u64) -> (result:
        WorkerReply)
        requires
            old(self).wf(),
            frame matches Some(bytes) ==> 2 * bytes@.len() <= usize::MAX,
        ensures
            final(self).wf(),
            match frame {
                None => result is NoWork && final(self)@ == old(self)@,
                Some(bytes) => {
                    &&& result matches WorkerReply::Leased { job_id: id, genome_id: genome, frame_hex }
                    &&& id == job_id
                    &&& genome == genome_id
                    &&& frame_hex@ == hex::hex(bytes@)
                    &&& final(self)@ == old(self)@.insert(job_id@, now)
                },
            },
    {
        match frame {
            None => WorkerReply::NoWork,
            Some(bytes) => {
                self.leased.insert(job_id.clone(), now);
                WorkerReply::Leased {
                    job_id,
                    genome_id,
                    frame_hex: hex::hex_encode_bytes(bytes.as_slice()),
                }
            },
        }
    }

    /// Gives up the lease on a job.
    pub fn release(&mut self, job_id: &str)
        requires
            old(self).wf(),
        ensures
            final(self).wf(),
            final(self)@ == old(self)@.remove(job_id@),
    {
        let _ = self.leased.remove(job_id);
    }

    /// Measures the time since the lease on a job.
    pub fn age(&self, job_id: &str, now: u64) -> (result: u64)
        requires
            self.wf(),
        ensures
            result == lease_age(self@, job_id@, now),
    {
        age_of_lease(&self.leased, job_id, now)
    }
}

/// What a remote result leads to.
pub enum RemoteResultStep {
    /// It is the first result of a trial; hand it to the wait.
    Deliver(RemoteArenaTrialOutcome),
    /// A result is recorded already; nothing is done.
    AlreadyKnown,
    /// Store the output and sign a result over it.
    Sign {
        /// Output bytes.
        output: Vec<u8>,
        /// Time since the lease in milliseconds.
        latency_millis: u64,
    },
}

/// The output that a worker hands in, where it is hexadecimal and within the limit.
pub open spec fn remote_output(raw: Seq<u8>) -> Result<Seq<u8>, &'static str> {
    if !hex::hex_text(raw) {
        Err("output is not valid hex")
    } else if hex::unhex(raw).len() > MAX_REMOTE_OUTPUT_BYTES {
        Err("output exceeds the byte limit")
    } else {
        Ok(hex::unhex(raw))
    }
}

/// Reads the output that a worker hands in.
pub fn decode_remote_output(output_hex: &str) -> (result: Result<Vec<u8>, &'static str>)
    ensures
        match remote_output(encode_utf8(output_hex@)) {
            Ok(output) => result matches Ok(bytes) && bytes@ == output,
            Err(reason) => result == Err::<Vec<u8>, &'static str>(reason),
        },
{
    let output: Vec<u8> = match hex::hex_decode_bytes(output_hex) {
        Ok(output) => output,
        Err(_) => {
            return Err("output is not valid hex");
        },
    };
    if output.len() > MAX_REMOTE_OUTPUT_BYTES {
        return Err("output exceeds the byte limit");
    }
    Ok(output)
}

/// Decides over a remote result. A result for a trial goes to its wait. A result for a direct
/// job is signed once; a repeated one only gives up the lease.
pub fn record_remote_job_result(
    state: &ControlState,
    leases: &mut RemoteLeases,
    queue: &mut RemoteArenaLeaseQueue,
    job_id: &str,
    output_hex: &str,
    completion: RemoteCompletion,
    now: u64,
) -> (result: Result<RemoteResultStep, &'static str>)
    requires
        state.wf(),
        old(leases).wf(),
        old(queue).wf(),
    ensures
        final(leases).wf(),
        final(queue).wf(),
        final(queue).pending() == old(queue).pending(),
        final(queue).order() == old(queue).order(),
        ({
            let direct = state@.remote_jobs.contains_key(job_id@);
            let trial = !direct && (old(queue).pending().contains_key(job_id@) || old(
                queue,
            ).completed().contains(job_id@));
            let record = state@.remote_jobs[job_id@];
            let recorded = direct && state@.run_results.contains_key(record.run_id@);
            let output = remote_output(encode_utf8(output_hex@));
            &&& final(leases)@ == (if recorded {
                old(leases)@.remove(job_id@)
            } else {
                old(leases)@
            })
            &&& final(queue).completed() == (if trial && output is Ok {
                old(queue).completed().insert(job_id@)
            } else {
                old(queue).completed()
            })
            &&& if !direct && !trial {
                result matches Err(reason) && reason == "job_id is not recognized"
            } else if recorded {
                result matches Ok(RemoteResultStep::AlreadyKnown)
            } else if output is Err {
                result matches Err(reason) && reason == output->Err_0
            } else if trial {
                if old(queue).completed().contains(job_id@) {
                    result matches Ok(RemoteResultStep::AlreadyKnown)
                } else {
                    &&& result matches Ok(RemoteResultStep::Deliver(outcome))
                    &&& outcome.output@ == output->Ok_0
                    &&& outcome.completion == completion
                    &&& outcome.latency_millis == lease_age(old(queue).leased(), job_id@, now)
                }
            } else if !state.registered.genomes@.contains_key(record.genome_id@) {
                result matches Err(reason) && reason == "Genome is no longer registered"
            } else {
                &&& result matches Ok(RemoteResultStep::Sign { output: bytes, latency_millis })
                &&& bytes@ == output->Ok_0
                &&& latency_millis == lease_age(old(leases)@, job_id@, now)
            }
        }),
{
    if !state.remote_jobs.contains_key(job_id) && queue.owns(job_id) {
        let output: Vec<u8> = match decode_remote_output(output_hex) {
            Ok(output) => output,
            Err(reason) => {
                return Err(reason);
            },
        };
        return match queue.submit_result(job_id, output, completion, now) {
            Ok(Some(outcome)) => Ok(RemoteResultStep::Deliver(outcome)),
            Ok(None) => Ok(RemoteResultStep::AlreadyKnown),
            Err(reason) => Err(reason),
        };
    }
    let record = match state.remote_jobs.get(job_id) {
        Some(record) => record,
        None => {
            return Err("job_id is not recognized");
        },
    };
    if state.run_results.contains_key(record.run_id.as_str()) {
        leases.release(job_id);
        return Ok(RemoteResultStep::AlreadyKnown);
    }
    let output: Vec<u8> = match decode_remote_output(output_hex) {
        Ok(output) => output,
        Err(reason) => {
            return Err(reason);
        },
    };
    if !state.registered.genomes.contains_key(record.genome_id.as_str()) {
        return Err("Genome is no longer registered");
    }
    Ok(RemoteResultStep::Sign { output, latency_millis: leases.age(job_id, now) })
}

/// What a remote result is signed over, besides its job and Genome.
pub struct RemoteEvidence {
    /// Source revision at the time of the result.
    pub source_revision: String,
    /// Commitment to the reference task's input.
    pub input_commitment: String,
    /// Time since the lease in milliseconds.
    pub latency_millis: u64,
    /// Content address of the output.
    pub stdout_artifact_id: String,
    /// Content address of the empty diagnostics.
    pub stderr_artifact_id: String,
}

/// Whether `receipt` makes the claims that a remote result is signed over.
pub open spec fn claims_remote_result(
    receipt: RunResultReceipt,
    record: RemoteJobRecord,
    genome: GenomeRecord,
    evidence: RemoteEvidence,
    completion: RemoteCompletion,
    platform: Platform,
) -> bool {
    &&& receipt.run_id == record.run_id
    &&& receipt.genome_id == genome.genome_id
    &&& receipt.world_id == genome.world_id
    &&& receipt.source_revision == evidence.source_revision
    &&& receipt.task_id@ == "remote-reference-v1"@
    &&& receipt.input_commitment == evidence.input_commitment
    &&& receipt.seed == 0
    &&& receipt.environment_id@ == environment::runtime_identity("deterministic"@, platform)
        + "-remote-worker"@
    &&& receipt.budget == (RunBudgetReceipt {
        wall_millis: 10_000,
        maximum_output_bytes: 1_048_576,
        maximum_cost_microusd: 0,
    })
    &&& receipt.completion_reason == (match completion {
        RemoteCompletion::Success => RunCompletionReason::Success,
        RemoteCompletion::ProviderFailure => RunCompletionReason::ProviderFailure,
    })
    &&& receipt.latency_millis == evidence.latency_millis
    &&& receipt.actual_cost_microusd == 0
    &&& receipt.stdout_artifact_id == evidence.stdout_artifact_id
    &&& receipt.stderr_artifact_id == evidence.stderr_artifact_id
    &&& receipt.trace_artifact_ids@.len() == 0
}

/// Makes the claims that a remote result is signed over. A remote transform costs nothing.
pub fn remote_result_claims(
    record: &RemoteJobRecord,
    genome: &GenomeRecord,
    evidence: RemoteEvidence,
    completion: RemoteCompletion,
    platform: &Platform,
) -> (result: RunResultReceipt)
    ensures
        claims_remote_result(result, *record, *genome, evidence, completion, *platform),
{
    let mut environment_id: String = environment::reference_environment_id(platform);
    environment_id.append("-remote-worker");
    RunResultReceipt {
        run_id: record.run_id.clone(),
        genome_id: genome.genome_id.clone(),
        world_id: genome.world_id.clone(),
        source_revision: evidence.source_revision,
        task_id: "remote-reference-v1".to_owned(),
        input_commitment: evidence.input_commitment,
        seed: 0,
        environment_id,
        budget: RunBudgetReceipt {
            wall_millis: 10_000,
            maximum_output_bytes: 1_048_576,
            maximum_cost_microusd: 0,
        },
        completion_reason: match completion {
            RemoteCompletion::Success => RunCompletionReason::Success,
            RemoteCompletion::ProviderFailure => RunCompletionReason::ProviderFailure,
        },
        latency_millis: evidence.latency_millis,
        actual_cost_microusd: 0,
        stdout_artifact_id: evidence.stdout_artifact_id,
        stderr_artifact_id: evidence.stderr_artifact_id,
        trace_artifact_ids: Vec::new(),
    }
}

} // verus!
