//! Plain-value forms of the evidence that other planes produce: ledger events,
//! receipts, registrations, and the durable job records kept over them.

use crate::protocol::{
    ArenaJobPhase, Command, EvaluationRecord, JobState, JobTerminal, WorkerScope,
};
use crate::text;
use vstd::prelude::*;

verus! {

/// Why a runtime ended a run.
#[derive(Clone, Copy, Debug, PartialEq, Eq, Structural)]
pub enum RunCompletionReason {
    /// The run produced its result.
    Success,
    /// An operator stopped the run.
    OperatorInterrupt,
    /// The worker or provider failed.
    ProviderFailure,
    /// Any other terminal reason of the runtime.
    Other,
}

/// The budget that a run was admitted under.
#[derive(Clone, Copy, Debug, PartialEq, Eq, Structural)]
pub struct RunBudgetReceipt {
    /// Wall-clock ceiling in milliseconds.
    pub wall_millis: u64,
    /// Output ceiling in bytes.
    pub maximum_output_bytes: u64,
    /// Cost ceiling in micro-US dollars.
    pub maximum_cost_microusd: u64,
}

/// One registered immutable Genome.
#[derive(Debug, PartialEq, Eq)]
pub struct GenomeRecord {
    /// Content-derived Genome identity.
    pub genome_id: String,
    /// Name in the Genome source.
    pub name: String,
    /// World that governs the Genome.
    pub world_id: String,
    /// Content address of the canonical source.
    pub artifact_id: String,
    /// Parent Genomes.
    pub parent_ids: Vec<String>,
}

/// One registered immutable World.
#[derive(Debug, PartialEq, Eq)]
pub struct WorldRecord {
    /// Content-derived World identity.
    pub world_id: String,
    /// Name in the World source.
    pub name: String,
    /// Content address of the canonical source.
    pub artifact_id: String,
}

/// What a verified selection measured.
#[derive(Debug, PartialEq, Eq)]
pub struct SelectionReceipt {
    /// Evaluation that was selected over.
    pub evaluation_id: String,
    /// Ledger event that recorded the evaluation.
    pub evaluation_event_id: String,
    /// Hash of that ledger event.
    pub evaluation_event_hash: String,
    /// World whose policy governed the selection.
    pub world_id: String,
    /// Parent Genome of the pair.
    pub parent_genome_id: String,
    /// Candidate Genome of the pair.
    pub candidate_genome_id: String,
    /// Whether the measured dimensions pass their gates.
    pub metrics_eligible: bool,
    /// Mean paired correctness delta in basis points.
    pub estimate_bps: i64,
    /// Lower bound of that delta.
    pub lower_bps: i64,
    /// Upper bound of that delta.
    pub upper_bps: i64,
    /// Parent cost in micro-US dollars.
    pub parent_cost_microusd: u64,
    /// Candidate cost in micro-US dollars.
    pub candidate_cost_microusd: u64,
    /// Parent latency in milliseconds.
    pub parent_latency_millis: u64,
    /// Candidate latency in milliseconds.
    pub candidate_latency_millis: u64,
    /// Whether invariant evidence was supplied.
    pub invariant_gate_verified: bool,
    /// Whether the promotion policy is satisfied.
    pub promotion_eligible: bool,
}

/// What a verified invariant check measured.
#[derive(Debug, PartialEq, Eq)]
pub struct InvariantReceipt {
    /// Evaluation that was checked.
    pub evaluation_id: String,
    /// World whose policy governed the check.
    pub world_id: String,
    /// Number of predicate checks.
    pub total_checks: u32,
    /// Candidate violations over all predicates.
    pub total_candidate_violations: u32,
    /// Paired regressions over all predicates.
    pub total_paired_regressions: u32,
    /// Ceiling on paired regressions.
    pub maximum_regressions: u32,
    /// Whether the regressions stay under the ceiling.
    pub regressions_within_budget: bool,
    /// Whether the candidate violated nothing.
    pub candidate_contract_satisfied: bool,
}

/// Ledger metadata of one invariant check.
#[derive(Debug, PartialEq, Eq)]
pub struct InvariantEvent {
    /// Ledger sequence.
    pub sequence: u64,
    /// Event identity.
    pub event_id: String,
    /// Aggregate identity.
    pub aggregate_id: String,
    /// Event hash in hexadecimal.
    pub event_hash: String,
    /// Content address of the receipt.
    pub receipt_artifact_id: String,
}

/// A mutation that a failure cluster suggests.
#[derive(Debug, PartialEq, Eq)]
pub enum SuggestedMutation {
    /// Exchange the two casing operations.
    ReferenceOperationFlip,
    /// Replace the operation by a named one.
    ReferenceOperation {
        /// Operation to change to.
        operation_after: String,
    },
}

/// One group of failed trials with a common signature.
#[derive(Debug, PartialEq, Eq)]
pub struct FailureCluster {
    /// What the failures have in common.
    pub signature: String,
    /// How many failures there are.
    pub total_count: u32,
    /// Hypothesis that the cluster supports.
    pub hypothesis: String,
    /// Mutation that the cluster suggests, if any.
    pub suggested_mutation: Option<SuggestedMutation>,
}

/// One verified analysis of the failures of a candidate.
#[derive(Debug, PartialEq, Eq)]
pub struct ClusterAnalysis {
    /// Evaluation whose trials were clustered.
    pub evaluation_id: String,
    /// World of that evaluation.
    pub world_id: String,
    /// Candidate whose failures were clustered.
    pub candidate_genome_id: String,
    /// Clusters in signature order.
    pub clusters: Vec<FailureCluster>,
}

/// Ledger metadata of one cluster analysis.
#[derive(Debug, PartialEq, Eq)]
pub struct ClusterEvent {
    /// Ledger sequence.
    pub sequence: u64,
    /// Event identity.
    pub event_id: String,
    /// Aggregate identity.
    pub aggregate_id: String,
    /// Event hash in hexadecimal.
    pub event_hash: String,
    /// Content address of the analysis.
    pub analysis_artifact_id: String,
}

/// One event of the verified ledger.
#[derive(Debug, PartialEq, Eq)]
pub struct StoredEvent {
    /// Position in the ledger.
    pub sequence: u64,
    /// Event identity.
    pub event_id: String,
    /// Aggregate identity.
    pub aggregate_id: String,
    /// Event type.
    pub event_type: String,
    /// Who recorded the event.
    pub actor: String,
    /// Caller-observed Unix timestamp in milliseconds.
    pub timestamp_millis: i64,
    /// Payload bytes.
    pub payload: Vec<u8>,
    /// Chain hash.
    pub hash: [u8; 32],
}

/// A command as the audit trail records it.
#[derive(Debug, PartialEq, Eq)]
pub struct RecordedCommand {
    /// Correlation identifier of the request.
    pub request_id: String,
    /// The command.
    pub command: Command,
}

/// What one trace event reports.
#[derive(Clone, Copy, Debug, PartialEq, Eq, Structural)]
pub enum TraceKind {
    LifecycleStarted,
    LifecycleResumed,
    LifecycleCompleted,
    ToolCalled,
    ToolResult,
    ContextComposed,
    MemoryRetrieved,
    SubagentSpawned,
    FileRead,
    FileChanged,
    TestExecuted,
    CapabilityDenied,
    CostObserved,
    CheckpointCreated,
    Error,
    Retry,
    ModelResponse,
}

/// Receipt of one recorded trace.
#[derive(Debug, PartialEq, Eq)]
pub struct TraceReceipt {
    /// Event identity that the receipt names.
    pub event_id: String,
    /// What the trace reports.
    pub kind: TraceKind,
    /// Run that produced the trace.
    pub run_id: String,
    /// Genome of that run.
    pub genome_id: String,
    /// World of that run.
    pub world_id: String,
    /// Content address of the trace.
    pub artifact_id: String,
}

/// Signed result of one run, after its signature was verified.
#[derive(Debug, PartialEq, Eq)]
pub struct RunResultReceipt {
    /// Run identity.
    pub run_id: String,
    /// Genome that ran.
    pub genome_id: String,
    /// World that governed the run.
    pub world_id: String,
    /// Source revision the run saw.
    pub source_revision: String,
    /// Task identity.
    pub task_id: String,
    /// Commitment to the task input.
    pub input_commitment: String,
    /// Random seed.
    pub seed: u64,
    /// Execution environment.
    pub environment_id: String,
    /// Budget of the run.
    pub budget: RunBudgetReceipt,
    /// Why the run ended.
    pub completion_reason: RunCompletionReason,
    /// Terminal latency in milliseconds.
    pub latency_millis: u64,
    /// Cost in micro-US dollars.
    pub actual_cost_microusd: u64,
    /// Content address of the output.
    pub stdout_artifact_id: String,
    /// Content address of the diagnostics.
    pub stderr_artifact_id: String,
    /// Content addresses of the traces.
    pub trace_artifact_ids: Vec<String>,
}

/// Durable state of one paired Arena evaluation.
#[derive(Clone, Debug, PartialEq, Eq)]
pub struct ArenaJobRecord {
    /// Job identity; equal to the evaluation identity.
    pub job_id: String,
    /// Evaluation identity.
    pub evaluation_id: String,
    /// Parent Genome.
    pub parent_genome_id: String,
    /// Candidate Genome.
    pub candidate_genome_id: String,
    /// World that governs both.
    pub world_id: String,
    /// Manifest of the visible tasks.
    pub visible_manifest_id: String,
    /// Manifest of the sealed tasks.
    pub sealed_manifest_id: String,
    /// Evaluator executable.
    pub evaluator_id: String,
    /// Source revision that every trial sees.
    pub source_revision: String,
    /// Digest of the pinned worker.
    pub worker_digest: String,
    /// Environment of the parent, and of the candidate unless it has its own.
    pub environment_id: String,
    /// Environment of the candidate, where it differs.
    pub candidate_environment_id: Option<String>,
    /// Random seed.
    pub seed: u64,
    /// Budget of each trial.
    pub trial_budget: RunBudgetReceipt,
    /// Budget of the whole evaluation.
    pub overall_budget: RunBudgetReceipt,
    /// Run identities, the parent's first.
    pub ordered_trial_run_ids: Vec<String>,
    /// How many of the trials are the parent's.
    pub parent_trial_count: u32,
    /// How many trials there are.
    pub total_trials: u32,
    /// Digest over the admitted plan.
    pub plan_commitment: String,
    /// Who admitted the evaluation.
    pub caller_id: String,
    /// When the receipt is dated.
    pub receipt_timestamp_millis: i64,
    /// How many trials have signed results.
    pub completed_trials: u32,
    /// Coarse phase.
    pub phase: ArenaJobPhase,
    /// Lifecycle state.
    pub state: JobState,
    /// Terminal outcome, once there is one.
    pub terminal: Option<JobTerminal>,
    /// Visible evaluation, once it succeeded.
    pub evaluation: Option<EvaluationRecord>,
    /// Whether reference trials are leased to remote workers.
    pub remote: bool,
}

/// One minted worker credential. Its secret is not kept.
#[derive(Debug, PartialEq, Eq)]
pub struct WorkerCredentialRecord {
    /// Payload schema.
    pub schema_version: u16,
    /// Identity derived from the secret.
    pub credential_id: String,
    /// Worker that the credential authenticates.
    pub worker_id: String,
    /// Granted scope.
    pub scope: WorkerScope,
    /// Expiry in milliseconds since the Unix epoch.
    pub expires_at_millis: i64,
    /// Whether the credential was revoked.
    pub revoked: bool,
}

/// One admitted remote-worker job.
#[derive(Debug, PartialEq, Eq)]
pub struct RemoteJobRecord {
    /// Payload schema.
    pub schema_version: u16,
    /// Job identity.
    pub job_id: String,
    /// Genome to run.
    pub genome_id: String,
    /// Run identity derived from the job identity.
    pub run_id: String,
}

/// What the ledger is told of a new event besides its payload and time.
#[derive(Debug, PartialEq, Eq)]
pub struct EventEnvelope {
    /// Event identity.
    pub event_id: String,
    /// Aggregate identity.
    pub aggregate_id: String,
    /// Event type.
    pub event_type: String,
    /// Who records the event.
    pub actor: String,
}

/// What a [`GenomeRecord`] says.
#[verifier::ext_equal]
pub struct GenomeFacts {
    pub genome_id: Seq<char>,
    pub name: Seq<char>,
    pub world_id: Seq<char>,
    pub artifact_id: Seq<char>,
    pub parent_ids: Seq<Seq<char>>,
}

impl View for GenomeRecord {
    type V = GenomeFacts;

    open spec fn view(&self) -> GenomeFacts {
        GenomeFacts {
            genome_id: self.genome_id@,
            name: self.name@,
            world_id: self.world_id@,
            artifact_id: self.artifact_id@,
            parent_ids: text::texts(self.parent_ids@),
        }
    }
}

impl Clone for GenomeRecord {
    fn clone(&self) -> (result: Self)
        ensures
            result@ == self@,
    {
        GenomeRecord {
            genome_id: self.genome_id.clone(),
            name: self.name.clone(),
            world_id: self.world_id.clone(),
            artifact_id: self.artifact_id.clone(),
            parent_ids: text::clone_texts(&self.parent_ids),
        }
    }
}

impl Clone for WorldRecord {
    fn clone(&self) -> (result: Self)
        ensures
            result == *self,
    {
        WorldRecord {
            world_id: self.world_id.clone(),
            name: self.name.clone(),
            artifact_id: self.artifact_id.clone(),
        }
    }
}

} // verus!
