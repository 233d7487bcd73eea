//! Direct runs, and the evidence that evaluations are read for.

use crate::arena_submit;
use crate::error;
use crate::error::{rejected, ExecuteError, Refusal};
use crate::hex;
use crate::ids;
use crate::jobs;
use crate::protocol::{
    ForgeAnalysisRecord, InvariantRecord, RemoteCompletion, ResponseData, SelectionEventRecord,
    SelectionRecord,
};
use crate::records::{EventEnvelope, GenomeRecord, RunCompletionReason, SelectionReceipt, WorldRecord};
use crate::registry;
use crate::registry::{GenomeEntry, Registry};
use crate::state;
use crate::state::{ControlState, EventPayload, RecordedEvent};
use crate::text;
use vstd::prelude::*;
use vstd::string::*;
use vstd::utf8::*;

verus! {

/// Ceiling on the bytes of a source file, and of a prompt.
pub const MAX_SOURCE_FILE_BYTES: u64 = 1_048_576;

/// Ceiling on the bytes of a file that is stored as an artifact.
pub const MAX_ARTIFACT_FILE_BYTES: u64 = 67_108_864;

/// What a direct run is started with.
#[derive(Debug, PartialEq, Eq)]
pub struct RunContext {
    /// Genome that runs.
    pub genome_id: String,
    /// World that governs the run.
    pub world_id: String,
    /// Task identity.
    pub task_id: String,
    /// Task input.
    pub prompt: String,
    /// Random seed.
    pub seed: u64,
    /// Wall-clock ceiling in milliseconds.
    pub wall_millis: u64,
    /// Output ceiling in bytes.
    pub maximum_output_bytes: u64,
    /// Cost ceiling in micro-US dollars.
    pub maximum_cost_microusd: u64,
}

/// Finds the external provider that a Genome runs under, by its place among the providers;
/// none where it runs under the reference worker.
pub fn selected_run_provider(registry: &Registry, genome_id: &str) -> (result: Result<
    Option<usize>,
    ExecuteError,
>)
    requires
        registry.wf(),
    ensures
        if !registry.genomes@.contains_key(genome_id@) {
            result == Err::<Option<usize>, ExecuteError>(ExecuteError::NotFound)
        } else {
            result matches Ok(place) && match place {
                Some(i) => i < registry.providers@.len() && registry.providers@[i as int]@
                    == registry.genomes@[genome_id@].model_provider@,
                None => !registry::external_provider(
                    *registry,
                    registry.genomes@[genome_id@].model_provider@,
                ),
            }
        },
{
    match registry.genomes.get(genome_id) {
        None => Err(ExecuteError::NotFound),
        Some(genome) => Ok(registry.provider_index(genome.model_provider.as_str())),
    }
}

/// The cost ceiling of the reference run of a Genome: its World's under an external provider,
/// and nothing otherwise.
pub open spec fn reference_cost(registry: Registry, genome: GenomeEntry) -> Result<u64, Refusal> {
    if !registry::external_provider(registry, genome.model_provider@) {
        Ok(0)
    } else if registry.worlds@.contains_key(genome.record.world_id@) {
        Ok(registry.worlds@[genome.record.world_id@].maximum_cost_microusd)
    } else {
        Err(Refusal::Internal)
    }
}

/// Whether a context is that of the reference run of a Genome.
pub open spec fn is_reference_context(context: RunContext, genome: GenomeEntry, cost: u64) -> bool {
    &&& context.genome_id == genome.record.genome_id
    &&& context.world_id == genome.record.world_id
    &&& context.task_id@ == jobs::REFERENCE_TASK@
    &&& context.prompt@ == jobs::REFERENCE_PROMPT@
    &&& context.seed == 0
    &&& context.wall_millis == jobs::REFERENCE_WALL_MILLIS
    &&& context.maximum_output_bytes == jobs::REFERENCE_OUTPUT_BYTES
    &&& context.maximum_cost_microusd == cost
}

/// Decides with what the reference run of a Genome is started.
pub fn run_reference(state: &ControlState, genome_id: &str) -> (result: Result<
    RunContext,
    ExecuteError,
>)
    requires
        state.wf(),
    ensures
        match arena_submit::runnable(state@, state.registered, genome_id@) {
            Err(refusal) => result matches Err(error) && error@ == refusal,
            Ok(genome) => match reference_cost(state.registered, genome) {
                Err(refusal) => result matches Err(error) && error@ == refusal,
                Ok(cost) => result matches Ok(context) && is_reference_context(
                    context,
                    genome,
                    cost,
                ),
            },
        },
{
    let genome: &GenomeEntry = match arena_submit::runnable_genome(state, genome_id) {
        Ok(genome) => genome,
        Err(error) => {
            return Err(error);
        },
    };
    let mut cost: u64 = 0;
    if state.registered.is_external_provider(genome.model_provider.as_str()) {
        match state.registered.worlds.get(genome.record.world_id.as_str()) {
            Some(world) => {
                cost = world.maximum_cost_microusd;
            },
            None => {
                return Err(ExecuteError::Internal);
            },
        }
    }
    Ok(
        RunContext {
            genome_id: genome.record.genome_id.clone(),
            world_id: genome.record.world_id.clone(),
            task_id: jobs::REFERENCE_TASK.to_owned(),
            prompt: jobs::REFERENCE_PROMPT.to_owned(),
            seed: 0,
            wall_millis: jobs::REFERENCE_WALL_MILLIS,
            maximum_output_bytes: jobs::REFERENCE_OUTPUT_BYTES,
            maximum_cost_microusd: cost,
        },
    )
}

/// What an evaluation run asks for.
pub struct EvaluationRequest {
    /// Task identity.
    pub task_id: String,
    /// Task input.
    pub input: String,
    /// Random seed.
    pub seed: u64,
    /// Wall-clock ceiling in milliseconds.
    pub wall_millis: u64,
    /// Output ceiling in bytes.
    pub maximum_output_bytes: u64,
    /// Cost ceiling in micro-US dollars.
    pub maximum_cost_microusd: u64,
}

/// Decides with what an evaluation run is started: its Genome may run, and its cost stays
/// within the World's ceiling.
pub fn run_evaluation(state: &ControlState, genome_id: &str, request: EvaluationRequest) -> (result: Result<
    RunContext,
    ExecuteError,
>)
    requires
        state.wf(),
    ensures
        match arena_submit::runnable(state@, state.registered, genome_id@) {
            Err(refusal) => result matches Err(error) && error@ == refusal,
            Ok(genome) => if !state.registered.worlds@.contains_key(genome.record.world_id@) {
                result == Err::<RunContext, ExecuteError>(ExecuteError::Internal)
            } else if request.maximum_cost_microusd
                > state.registered.worlds@[genome.record.world_id@].maximum_cost_microusd {
                result == Err::<RunContext, ExecuteError>(
                    ExecuteError::Invalid("evaluation cost exceeds registered World Law"),
                )
            } else {
                result == Ok::<RunContext, ExecuteError>(
                    RunContext {
                        genome_id: genome.record.genome_id,
                        world_id: genome.record.world_id,
                        task_id: request.task_id,
                        prompt: request.input,
                        seed: request.seed,
                        wall_millis: request.wall_millis,
                        maximum_output_bytes: request.maximum_output_bytes,
                        maximum_cost_microusd: request.maximum_cost_microusd,
                    },
                )
            },
        },
{
    let genome: &GenomeEntry = match arena_submit::runnable_genome(state, genome_id) {
        Ok(genome) => genome,
        Err(error) => {
            return Err(error);
        },
    };
    match state.registered.worlds.get(genome.record.world_id.as_str()) {
        None => Err(ExecuteError::Internal),
        Some(world) => {
            if request.maximum_cost_microusd > world.maximum_cost_microusd {
                return Err(ExecuteError::Invalid("evaluation cost exceeds registered World Law"));
            }
            Ok(
                RunContext {
                    genome_id: genome.record.genome_id.clone(),
                    world_id: genome.record.world_id.clone(),
                    task_id: request.task_id,
                    prompt: request.input,
                    seed: request.seed,
                    wall_millis: request.wall_millis,
                    maximum_output_bytes: request.maximum_output_bytes,
                    maximum_cost_microusd: request.maximum_cost_microusd,
                },
            )
        },
    }
}

/// Reads the instruction of a registered prompt, from its bytes as far as they could be read,
/// and from the operation that they parse to.
pub fn reference_instruction(bytes: Option<&Vec<u8>>, operation: Option<&String>) -> (result: Result<
    String,
    ExecuteError,
>)
    ensures
        error::outcome(result) == (if bytes is None {
            Err(Refusal::Internal)
        } else if !valid_utf8(bytes->0@) || operation is None {
            Err(Refusal::Rejected("registered reference instruction is invalid"@))
        } else {
            Ok(*operation->0)
        }),
{
    let bytes: &Vec<u8> = match bytes {
        Some(bytes) => bytes,
        None => {
            return Err(ExecuteError::Internal);
        },
    };
    if text::read_text(bytes).is_none() {
        return Err(rejected("registered reference instruction is invalid"));
    }
    match operation {
        Some(operation) => Ok(operation.clone()),
        None => Err(rejected("registered reference instruction is invalid")),
    }
}

/// What an execution produced.
#[derive(Debug, PartialEq, Eq)]
pub struct ReferenceExecution {
    /// Why it ended.
    pub completion_reason: RunCompletionReason,
    /// Latency in milliseconds.
    pub latency_millis: u64,
    /// Output.
    pub stdout: Vec<u8>,
    /// Diagnostics.
    pub stderr: Vec<u8>,
    /// Content addresses of the traces.
    pub trace_artifact_ids: Vec<String>,
    /// Cost in micro-US dollars.
    pub actual_cost_microusd: u64,
}

/// Takes the result of a leased trial as an execution. It has no diagnostics, no traces and
/// no cost.
pub fn remote_execution(completion: RemoteCompletion, latency_millis: u64, output: Vec<u8>) -> (result: ReferenceExecution)
    ensures
        result.completion_reason == (match completion {
            RemoteCompletion::Success => RunCompletionReason::Success,
            RemoteCompletion::ProviderFailure => RunCompletionReason::ProviderFailure,
        }),
        result.latency_millis == latency_millis,
        result.stdout == output,
        result.stderr@.len() == 0,
        result.trace_artifact_ids@.len() == 0,
        result.actual_cost_microusd == 0,
{
    ReferenceExecution {
        completion_reason: match completion {
            RemoteCompletion::Success => RunCompletionReason::Success,
            RemoteCompletion::ProviderFailure => RunCompletionReason::ProviderFailure,
        },
        latency_millis,
        stdout: output,
        stderr: Vec::new(),
        trace_artifact_ids: Vec::new(),
        actual_cost_microusd: 0,
    }
}

/// Names the lease of a trial of a paired evaluation.
pub fn trial_lease_id(job_id: &str, index: usize) -> (result: String)
    ensures
        result@ == "arena:"@ + job_id@ + ":trial:"@ + text::decimal(index as nat),
{
    let number: String = text::decimal_text(index as u64);
    let mut id: String = ids::wrap("arena:", job_id, ":trial:");
    id.append(number.as_str());
    id
}

/// Answers with an execution whose output and diagnostics were stored.
pub fn persist_reference_output(
    run_id: &str,
    genome: &GenomeRecord,
    source_revision: &str,
    output: ReferenceExecution,
    stdout_artifact_id: String,
    stderr_artifact_id: String,
) -> (result: ResponseData)
    ensures
        result matches ResponseData::Run {
            run_id: run,
            genome_id,
            world_id,
            source_revision: revision,
            completion_reason,
            latency_millis,
            actual_cost_microusd,
            stdout_artifact_id: stdout,
            stderr_artifact_id: stderr,
            trace_artifact_ids,
        } && run@ == run_id@ && genome_id == genome.genome_id && world_id == genome.world_id
            && revision@ == source_revision@ && completion_reason == output.completion_reason
            && latency_millis == output.latency_millis && actual_cost_microusd
            == output.actual_cost_microusd && stdout == stdout_artifact_id && stderr
            == stderr_artifact_id && trace_artifact_ids == output.trace_artifact_ids,
{
    ResponseData::Run {
        run_id: run_id.to_owned(),
        genome_id: genome.genome_id.clone(),
        world_id: genome.world_id.clone(),
        source_revision: source_revision.to_owned(),
        completion_reason: output.completion_reason,
        latency_millis: output.latency_millis,
        actual_cost_microusd: output.actual_cost_microusd,
        stdout_artifact_id,
        stderr_artifact_id,
        trace_artifact_ids: output.trace_artifact_ids,
    }
}

/// Decides what a direct run is answered with: its sandbox has to be gone, its execution to
/// have been stored, and its worker to be what it was. The first failure counts.
pub fn settle_run(
    cleaned: Result<(), ExecuteError>,
    execution: Result<ResponseData, ExecuteError>,
    worker: Result<(), ExecuteError>,
) -> (result: Result<ResponseData, ExecuteError>)
    ensures
        result == (match (cleaned, execution, worker) {
            (Err(error), _, _) => Err(error),
            (Ok(()), Err(error), _) => Err(error),
            (Ok(()), Ok(_), Err(error)) => Err(error),
            (Ok(()), Ok(response), Ok(())) => Ok(response),
        }),
{
    if let Err(error) = cleaned {
        return Err(error);
    }
    match execution {
        Err(error) => Err(error),
        Ok(response) => match worker {
            Err(error) => Err(error),
            Ok(()) => Ok(response),
        },
    }
}

/// What a run was started as.
pub struct RunIdentity<'a> {
    /// Run identity.
    pub run_id: &'a str,
    /// Genome that ran.
    pub genome_id: &'a str,
    /// World that governed the run.
    pub world_id: &'a str,
    /// Source revision the run saw.
    pub source_revision: &'a str,
}

/// Accepts an answer for signing: it has to be of the run that was started.
pub fn append_run_result(identity: &RunIdentity<'_>, response: &ResponseData) -> (result: Result<
    (),
    ExecuteError,
>)
    ensures
        result == (match *response {
            ResponseData::Run { run_id, genome_id, world_id, source_revision, .. } => if run_id@
                == identity.run_id@ && genome_id@ == identity.genome_id@ && world_id@
                == identity.world_id@ && source_revision@ == identity.source_revision@ {
                Ok(())
            } else {
                Err(ExecuteError::Internal)
            },
            _ => Err(ExecuteError::Internal),
        }),
{
    match response {
        ResponseData::Run { run_id, genome_id, world_id, source_revision, .. } => {
            if text::text_eq(run_id.as_str(), identity.run_id) && text::text_eq(
                genome_id.as_str(),
                identity.genome_id,
            ) && text::text_eq(world_id.as_str(), identity.world_id) && text::text_eq(
                source_revision.as_str(),
                identity.source_revision,
            ) {
                Ok(())
            } else {
                Err(ExecuteError::Internal)
            }
        },
        _ => Err(ExecuteError::Internal),
    }
}

/// The traces that a run recorded, or nothing where a trace does not decode.
pub open spec fn traces_of(history: Seq<RecordedEvent>, run_id: Seq<char>) -> Option<Seq<Seq<char>>>
    decreases history.len(),
{
    if history.len() == 0 {
        Some(Seq::empty())
    } else {
        match traces_of(history.drop_last(), run_id) {
            None => None,
            Some(earlier) => if history.last().event.event_type@ != "trace.recorded"@ {
                Some(earlier)
            } else {
                match history.last().payload {
                    EventPayload::Trace(receipt, _) => if receipt.run_id@ == run_id {
                        Some(earlier.push(receipt.artifact_id@))
                    } else {
                        Some(earlier)
                    },
                    _ => None,
                }
            },
        }
    }
}

/// A trace that does not decode spoils every longer history.
proof fn undecoded_traces_stay(history: Seq<RecordedEvent>, length: int, run_id: Seq<char>)
    requires
        0 <= length <= history.len(),
        traces_of(history.take(length), run_id) is None,
    ensures
        traces_of(history, run_id) is None,
    decreases history.len() - length,
{
    if length == history.len() {
        assert(history.take(length) == history);
    } else {
        assert(history.take(length + 1).drop_last() == history.take(length));
        undecoded_traces_stay(history, length + 1, run_id);
    }
}

/// Lists the traces that a run recorded.
pub fn trace_artifacts_for_run(history: &Vec<RecordedEvent>, run_id: &str) -> (result: Result<
    Vec<String>,
    ExecuteError,
>)
    ensures
        match traces_of(history@, run_id@) {
            Some(ids) => result matches Ok(found) && text::texts(found@) == ids,
            None => result == Err::<Vec<String>, ExecuteError>(ExecuteError::Internal),
        },
{
    let mut found: Vec<String> = Vec::new();
    assert(text::texts(found@) == Seq::<Seq<char>>::empty());
    for at in 0..history.len()
        invariant
            traces_of(history@.take(at as int), run_id@) == Some(text::texts(found@)),
    {
        proof {
            assert(history@.take(at + 1).drop_last() == history@.take(at as int));
            assert(history@.take(at + 1).last() == history@[at as int]);
        }
        if text::text_eq(history[at].event.event_type.as_str(), "trace.recorded") {
            match &history[at].payload {
                EventPayload::Trace(receipt, _) => {
                    if text::text_eq(receipt.run_id.as_str(), run_id) {
                        let ghost before = found@;
                        found.push(receipt.artifact_id.clone());
                        assert(text::texts(found@) == text::texts(before).push(
                            receipt.artifact_id@,
                        ));
                    }
                },
                _ => {
                    proof {
                        undecoded_traces_stay(history@, at + 1, run_id@);
                    }
                    return Err(ExecuteError::Internal);
                },
            }
        }
    }
    proof {
        assert(history@.take(history@.len() as int) == history@);
    }
    Ok(found)
}

/// Opens a selection or an invariant check.
pub fn open_evaluation_read(evaluation_id: &str) -> (result: Result<(), ExecuteError>)
    ensures
        result == (if text::blank(evaluation_id@) {
            Err(ExecuteError::Invalid("evaluation_id is required"))
        } else {
            Ok(())
        }),
{
    if text::is_blank(evaluation_id) {
        Err(ExecuteError::Invalid("evaluation_id is required"))
    } else {
        Ok(())
    }
}

/// Opens a failure analysis.
pub fn open_analysis(analysis_id: &str, evaluation_id: &str) -> (result: Result<(), ExecuteError>)
    ensures
        result == (if text::blank(analysis_id@) || text::blank(evaluation_id@) {
            Err(ExecuteError::Invalid("analysis_id and evaluation_id are required"))
        } else {
            Ok(())
        }),
{
    if text::is_blank(analysis_id) || text::is_blank(evaluation_id) {
        Err(ExecuteError::Invalid("analysis_id and evaluation_id are required"))
    } else {
        Ok(())
    }
}

/// Why the Arena refused.
#[derive(Debug, PartialEq, Eq)]
pub enum ArenaFault {
    /// The evaluation is not recorded.
    UnknownEvaluation,
    /// The invariant check is not recorded.
    UnknownInvariantCheck,
    /// The analysis is not recorded.
    UnknownClusterAnalysis,
    /// The World asks for a confidence, in basis points, that selection cannot give.
    UnsupportedSelectionConfidence(u64),
    /// The bootstrap would take too much work.
    BootstrapWorkExceeded,
    /// The World has no manifest of invariants.
    MissingInvariantManifest,
    /// Another invariant check is recorded.
    InvariantConflict(String),
    /// Another analysis is recorded.
    ClusterConflict(String),
    /// An identity is unusable.
    InvalidId,
    /// Anything else.
    Other,
}

/// The refusal that a failed selection is answered with.
pub open spec fn selection_refusal(fault: ArenaFault) -> Refusal {
    match fault {
        ArenaFault::UnknownEvaluation => Refusal::NotFound,
        ArenaFault::UnsupportedSelectionConfidence(confidence) => Refusal::Rejected(
            "registered World confidence "@ + text::decimal(confidence as nat)
                + " bps is unsupported for Arena selection"@,
        ),
        ArenaFault::BootstrapWorkExceeded => Refusal::Rejected(
            "Arena selection exceeds its deterministic bootstrap work limit"@,
        ),
        _ => Refusal::Internal,
    }
}

/// Maps the failure of a selection.
pub fn map_selection_error(fault: &ArenaFault) -> (result: ExecuteError)
    ensures
        result@ == selection_refusal(*fault),
{
    match fault {
        ArenaFault::UnknownEvaluation => ExecuteError::NotFound,
        ArenaFault::UnsupportedSelectionConfidence(confidence) => {
            let number: String = text::decimal_text(*confidence);
            ExecuteError::Rejected(
                ids::wrap(
                    "registered World confidence ",
                    number.as_str(),
                    " bps is unsupported for Arena selection",
                ),
            )
        },
        ArenaFault::BootstrapWorkExceeded => rejected(
            "Arena selection exceeds its deterministic bootstrap work limit",
        ),
        _ => ExecuteError::Internal,
    }
}

/// The refusal that a failed invariant check is answered with.
pub open spec fn invariant_refusal(fault: ArenaFault) -> Refusal {
    match fault {
        ArenaFault::UnknownEvaluation => Refusal::NotFound,
        ArenaFault::UnknownInvariantCheck => Refusal::NotFound,
        ArenaFault::MissingInvariantManifest => Refusal::Rejected(
            "registered World has no reference-output invariant profile"@,
        ),
        ArenaFault::InvariantConflict(message) => Refusal::Rejected(message@),
        _ => Refusal::Internal,
    }
}

/// Maps the failure of an invariant check.
pub fn map_invariant_error(fault: ArenaFault) -> (result: ExecuteError)
    ensures
        result@ == invariant_refusal(fault),
{
    match fault {
        ArenaFault::UnknownEvaluation => ExecuteError::NotFound,
        ArenaFault::UnknownInvariantCheck => ExecuteError::NotFound,
        ArenaFault::MissingInvariantManifest => rejected(
            "registered World has no reference-output invariant profile",
        ),
        ArenaFault::InvariantConflict(message) => ExecuteError::Rejected(message),
        _ => ExecuteError::Internal,
    }
}

/// The refusal that a failed analysis is answered with.
pub open spec fn cluster_refusal(fault: ArenaFault) -> Refusal {
    match fault {
        ArenaFault::UnknownEvaluation => Refusal::NotFound,
        ArenaFault::UnknownClusterAnalysis => Refusal::NotFound,
        ArenaFault::ClusterConflict(message) => Refusal::Rejected(message@),
        ArenaFault::InvalidId => Refusal::Invalid("analysis_id is invalid"@),
        _ => Refusal::Internal,
    }
}

/// Maps the failure of an analysis.
pub fn map_cluster_error(fault: ArenaFault) -> (result: ExecuteError)
    ensures
        result@ == cluster_refusal(fault),
{
    match fault {
        ArenaFault::UnknownEvaluation => ExecuteError::NotFound,
        ArenaFault::UnknownClusterAnalysis => ExecuteError::NotFound,
        ArenaFault::ClusterConflict(message) => ExecuteError::Rejected(message),
        ArenaFault::InvalidId => ExecuteError::Invalid("analysis_id is invalid"),
        _ => ExecuteError::Internal,
    }
}

/// Decides whether an invariant check is made: a recorded one is the answer, an unknown one
/// is made, and any other failure refuses.
pub fn recall_invariants<T>(loaded: Result<T, ArenaFault>) -> (result: Result<Option<T>, ExecuteError>)
    ensures
        error::outcome(result) == (match loaded {
            Ok(check) => Ok(Some(check)),
            Err(ArenaFault::UnknownInvariantCheck) => Ok(None),
            Err(fault) => Err(invariant_refusal(fault)),
        }),
{
    match loaded {
        Ok(check) => Ok(Some(check)),
        Err(ArenaFault::UnknownInvariantCheck) => Ok(None),
        Err(fault) => Err(map_invariant_error(fault)),
    }
}

/// Decides whether an analysis is made: a recorded one is the answer, an unknown one is made,
/// and any other failure refuses.
pub fn recall_analysis<T>(loaded: Result<T, ArenaFault>) -> (result: Result<Option<T>, ExecuteError>)
    ensures
        error::outcome(result) == (match loaded {
            Ok(check) => Ok(Some(check)),
            Err(ArenaFault::UnknownClusterAnalysis) => Ok(None),
            Err(fault) => Err(cluster_refusal(fault)),
        }),
{
    match loaded {
        Ok(check) => Ok(Some(check)),
        Err(ArenaFault::UnknownClusterAnalysis) => Ok(None),
        Err(fault) => Err(map_cluster_error(fault)),
    }
}

/// Shows a recorded selection.
pub fn selection_record(world_id: &str, receipt: SelectionReceipt, event: SelectionEventRecord) -> (result: SelectionRecord)
    ensures
        result.evaluation_id == receipt.evaluation_id,
        result.world_id@ == world_id@,
        result.receipt == receipt,
        result.event == event,
{
    SelectionRecord {
        evaluation_id: receipt.evaluation_id.clone(),
        world_id: world_id.to_owned(),
        receipt,
        event,
    }
}

/// What names the World of an evaluation.
pub struct OperatorEvaluation {
    /// The World.
    pub world_id: String,
}

/// Why an evaluation cannot be worked on: it must be recorded and its World registered.
pub open spec fn policy_refusal(
    registry: Registry,
    operator: Result<OperatorEvaluation, ArenaFault>,
    refused: Refusal,
) -> Option<Refusal> {
    match operator {
        Err(_) => Some(refused),
        Ok(evaluation) => error::need(
            registry.worlds@.contains_key(evaluation.world_id@),
            Refusal::NotFound,
        ),
    }
}

/// What a fault becomes as a refusal of a selection.
pub open spec fn selection_fault<T>(result: Result<T, ArenaFault>) -> Refusal {
    selection_refusal(result->Err_0)
}

/// Selects over an evaluation. The World is the one that the evaluation was recorded under:
/// the command cannot name another. `selected` is what selecting under that World gave, where
/// the time could be told.
pub fn select_arena_evaluation(
    registry: &Registry,
    evaluation_id: &str,
    operator: Result<OperatorEvaluation, ArenaFault>,
    selected: Option<Result<(SelectionReceipt, SelectionEventRecord), ArenaFault>>,
) -> (result: Result<SelectionRecord, ExecuteError>)
    requires
        registry.wf(),
    ensures
        if text::blank(evaluation_id@) {
            result == Err::<SelectionRecord, ExecuteError>(
                ExecuteError::Invalid("evaluation_id is required"),
            )
        } else {
            match policy_refusal(*registry, operator, selection_fault(operator)) {
                Some(refusal) => result matches Err(error) && error@ == refusal,
                None => match selected {
                    None => result == Err::<SelectionRecord, ExecuteError>(ExecuteError::Internal),
                    Some(Err(fault)) => result matches Err(error) && error@ == selection_refusal(
                        fault,
                    ),
                    Some(Ok((receipt, event))) => result matches Ok(record)
                        && record.evaluation_id == receipt.evaluation_id && record.world_id@
                        == operator->Ok_0.world_id@ && record.receipt == receipt && record.event
                        == event,
                },
            }
        },
{
    if let Err(error) = open_evaluation_read(evaluation_id) {
        return Err(error);
    }
    let operator: OperatorEvaluation = match operator {
        Ok(operator) => operator,
        Err(fault) => {
            return Err(map_selection_error(&fault));
        },
    };
    if !registry.worlds.contains_key(operator.world_id.as_str()) {
        return Err(ExecuteError::NotFound);
    }
    match selected {
        None => Err(ExecuteError::Internal),
        Some(Err(fault)) => Err(map_selection_error(&fault)),
        Some(Ok((receipt, event))) => Ok(
            selection_record(operator.world_id.as_str(), receipt, event),
        ),
    }
}

/// What a fault becomes as a refusal of an invariant check.
pub open spec fn invariant_fault<T>(result: Result<T, ArenaFault>) -> Refusal {
    invariant_refusal(result->Err_0)
}

/// What a fault becomes as a refusal of a cluster analysis.
pub open spec fn cluster_fault<T>(result: Result<T, ArenaFault>) -> Refusal {
    cluster_refusal(result->Err_0)
}

/// Checks the invariants of an evaluation. A check that is on record is answered as it was
/// verified (`loaded`); only where there is none is one made (`checked`, where the time could
/// be told).
pub fn check_arena_invariants(
    registry: &Registry,
    evaluation_id: &str,
    operator: Result<OperatorEvaluation, ArenaFault>,
    loaded: Result<InvariantRecord, ArenaFault>,
    checked: Option<Result<InvariantRecord, ArenaFault>>,
) -> (result: Result<InvariantRecord, ExecuteError>)
    requires
        registry.wf(),
    ensures
        if text::blank(evaluation_id@) {
            result == Err::<InvariantRecord, ExecuteError>(
                ExecuteError::Invalid("evaluation_id is required"),
            )
        } else {
            match policy_refusal(*registry, operator, invariant_fault(operator)) {
                Some(refusal) => result matches Err(error) && error@ == refusal,
                None => match (loaded, checked) {
                    (Ok(record), _) => result == Ok::<InvariantRecord, ExecuteError>(record),
                    (Err(ArenaFault::UnknownInvariantCheck), None) => result == Err::<
                        InvariantRecord,
                        ExecuteError,
                    >(ExecuteError::Internal),
                    (Err(ArenaFault::UnknownInvariantCheck), Some(Ok(record))) => result == Ok::<
                        InvariantRecord,
                        ExecuteError,
                    >(record),
                    (Err(ArenaFault::UnknownInvariantCheck), Some(Err(fault))) => result
                        matches Err(error) && error@ == invariant_refusal(fault),
                    (Err(fault), _) => result matches Err(error) && error@ == invariant_refusal(
                        fault,
                    ),
                },
            }
        },
{
    if let Err(error) = open_evaluation_read(evaluation_id) {
        return Err(error);
    }
    match operator {
        Err(fault) => {
            return Err(map_invariant_error(fault));
        },
        Ok(operator) => {
            if !registry.worlds.contains_key(operator.world_id.as_str()) {
                return Err(ExecuteError::NotFound);
            }
        },
    }
    match recall_invariants(loaded) {
        Err(error) => Err(error),
        Ok(Some(record)) => Ok(record),
        Ok(None) => match checked {
            None => Err(ExecuteError::Internal),
            Some(Ok(record)) => Ok(record),
            Some(Err(fault)) => Err(map_invariant_error(fault)),
        },
    }
}

/// Analyses the failures of an evaluation. An analysis that is on record is answered as it was
/// verified (`loaded`); only where there is none is one made (`checked`, where the time could
/// be told).
pub fn analyze_forge_clusters(
    registry: &Registry,
    analysis_id: &str,
    evaluation_id: &str,
    operator: Result<OperatorEvaluation, ArenaFault>,
    loaded: Result<ForgeAnalysisRecord, ArenaFault>,
    checked: Option<Result<ForgeAnalysisRecord, ArenaFault>>,
) -> (result: Result<ForgeAnalysisRecord, ExecuteError>)
    requires
        registry.wf(),
    ensures
        if text::blank(analysis_id@) || text::blank(evaluation_id@) {
            result == Err::<ForgeAnalysisRecord, ExecuteError>(
                ExecuteError::Invalid("analysis_id and evaluation_id are required"),
            )
        } else {
            match policy_refusal(*registry, operator, cluster_fault(operator)) {
                Some(refusal) => result matches Err(error) && error@ == refusal,
                None => match (loaded, checked) {
                    (Ok(record), _) => result == Ok::<ForgeAnalysisRecord, ExecuteError>(record),
                    (Err(ArenaFault::UnknownClusterAnalysis), None) => result == Err::<
                        ForgeAnalysisRecord,
                        ExecuteError,
                    >(ExecuteError::Internal),
                    (Err(ArenaFault::UnknownClusterAnalysis), Some(Ok(record))) => result == Ok::<
                        ForgeAnalysisRecord,
                        ExecuteError,
                    >(record),
                    (Err(ArenaFault::UnknownClusterAnalysis), Some(Err(fault))) => result
                        matches Err(error) && error@ == cluster_refusal(fault),
                    (Err(fault), _) => result matches Err(error) && error@ == cluster_refusal(
                        fault,
                    ),
                },
            }
        },
{
    if let Err(error) = open_analysis(analysis_id, evaluation_id) {
        return Err(error);
    }
    match operator {
        Err(fault) => {
            return Err(map_cluster_error(fault));
        },
        Ok(operator) => {
            if !registry.worlds.contains_key(operator.world_id.as_str()) {
                return Err(ExecuteError::NotFound);
            }
        },
    }
    match recall_analysis(loaded) {
        Err(error) => Err(error),
        Ok(Some(record)) => Ok(record),
        Ok(None) => match checked {
            None => Err(ExecuteError::Internal),
            Some(Ok(record)) => Ok(record),
            Some(Err(fault)) => Err(map_cluster_error(fault)),
        },
    }
}

/// Finds the prompt of a Genome.
pub fn genome_prompt_artifact(registry: &Registry, genome_id: &str) -> (result: Result<
    String,
    ExecuteError,
>)
    requires
        registry.wf(),
    ensures
        result == (if !registry.genomes@.contains_key(genome_id@) {
            Err(ExecuteError::NotFound)
        } else {
            match registry.genomes@[genome_id@].prompt_artifact_id {
                Some(prompt) => Ok(prompt),
                None => Err(ExecuteError::NotFound),
            }
        }),
{
    match registry.genomes.get(genome_id) {
        None => Err(ExecuteError::NotFound),
        Some(genome) => match &genome.prompt_artifact_id {
            Some(prompt) => Ok(prompt.clone()),
            None => Err(ExecuteError::NotFound),
        },
    }
}

/// Shows the prompt of a Genome from its stored bytes: not too many, and text that is not
/// blank.
pub fn genome_prompt(genome_id: &str, bytes: Option<Vec<u8>>) -> (result: Result<
    ResponseData,
    ExecuteError,
>)
    ensures
        if bytes is None || bytes->0@.len() > MAX_SOURCE_FILE_BYTES || !valid_utf8(bytes->0@)
            || text::blank(decode_utf8(bytes->0@)) {
            result == Err::<ResponseData, ExecuteError>(ExecuteError::Internal)
        } else {
            result matches Ok(ResponseData::GenomePrompt { genome_id: shown, prompt }) && shown@
                == genome_id@ && prompt@ == decode_utf8(bytes->0@)
        },
{
    let bytes: Vec<u8> = match bytes {
        Some(bytes) => bytes,
        None => {
            return Err(ExecuteError::Internal);
        },
    };
    if bytes.len() as u64 > MAX_SOURCE_FILE_BYTES {
        return Err(ExecuteError::Internal);
    }
    match text::decode_text(bytes) {
        None => Err(ExecuteError::Internal),
        Some(prompt) => {
            proof {
                encode_utf8_decode_utf8(prompt@);
            }
            if text::is_blank(prompt.as_str()) {
                return Err(ExecuteError::Internal);
            }
            Ok(ResponseData::GenomePrompt { genome_id: genome_id.to_owned(), prompt })
        },
    }
}

/// Refuses something that a source was rejected for.
fn reject_source(what: &str, reason: &str) -> (result: ExecuteError)
    ensures
        result@ == Refusal::Rejected(what@ + reason@),
{
    let message: String = ids::wrap(what, reason, "");
    proof {
        reveal_strlit("");
        assert(message@ == what@ + reason@);
    }
    ExecuteError::Rejected(message)
}

/// Refuses a manifest.
pub fn reject_manifest(reason: &str) -> (result: ExecuteError)
    ensures
        result@ == Refusal::Rejected("manifest rejected: "@ + reason@),
{
    reject_source("manifest rejected: ", reason)
}

/// Refuses the source of a World.
pub fn reject_world(reason: &str) -> (result: ExecuteError)
    ensures
        result@ == Refusal::Rejected("World source rejected: "@ + reason@),
{
    reject_source("World source rejected: ", reason)
}

/// Refuses the source of a Genome.
pub fn reject_genome(reason: &str) -> (result: ExecuteError)
    ensures
        result@ == Refusal::Rejected("Genome source rejected: "@ + reason@),
{
    reject_source("Genome source rejected: ", reason)
}

/// What a registration leads to.
pub enum Registration<T> {
    /// The content is registered already; its record is the answer.
    Existing(T),
    /// The content is stored and recorded.
    Register,
}

/// Decides what the registration of a compiled World leads to. `verifier` holds the stored
/// bytes of the runtime verifier that the World names, if it names one; within that, nothing
/// where they could not be read.
pub fn register_world(
    registry: &Registry,
    world_id: &str,
    verifier: Option<Option<&[u8]>>,
    public_key: &[u8; 32],
) -> (result: Result<Registration<WorldRecord>, ExecuteError>)
    requires
        registry.wf(),
    ensures
        error::outcome(result) == (if registry.worlds@.contains_key(world_id@) {
            Ok(Registration::Existing(registry.worlds@[world_id@].record))
        } else {
            match verifier {
                None => Ok(Registration::Register),
                Some(None) => Err(Refusal::Internal),
                Some(Some(bytes)) => if bytes@ == public_key@ {
                    Ok(Registration::Register)
                } else {
                    Err(
                        Refusal::Rejected(
                            "World arena.runtime_verifier is not this daemon's runtime producer key; run `hephaestus verifier` and reference its artifact"@,
                        ),
                    )
                },
            }
        }),
{
    if let Some(existing) = registry.worlds.get(world_id) {
        return Ok(Registration::Existing(existing.record.clone()));
    }
    match verifier {
        None => Ok(Registration::Register),
        Some(None) => Err(ExecuteError::Internal),
        Some(Some(bytes)) => {
            if hex::constant_time_equal(bytes, public_key.as_slice()) {
                Ok(Registration::Register)
            } else {
                Err(
                    rejected(
                        "World arena.runtime_verifier is not this daemon's runtime producer key; run `hephaestus verifier` and reference its artifact",
                    ),
                )
            }
        },
    }
}

/// Decides what the registration of a compiled Genome leads to. Content belongs to one World.
pub fn register_genome(registry: &Registry, genome_id: &str, world_id: &str) -> (result: Result<
    Registration<GenomeRecord>,
    ExecuteError,
>)
    requires
        registry.wf(),
    ensures
        if !registry.genomes@.contains_key(genome_id@) {
            result == Ok::<Registration<GenomeRecord>, ExecuteError>(Registration::Register)
        } else if registry.genomes@[genome_id@].record.world_id@ != world_id@ {
            error::outcome(result) == Err::<Registration<GenomeRecord>, Refusal>(
                Refusal::Rejected(
                    "Genome content is already registered under World "@
                        + registry.genomes@[genome_id@].record.world_id@,
                ),
            )
        } else {
            result matches Ok(Registration::Existing(record)) && record@
                == registry.genomes@[genome_id@].record@
        },
{
    match registry.genomes.get(genome_id) {
        None => Ok(Registration::Register),
        Some(existing) => {
            if !text::text_eq(existing.record.world_id.as_str(), world_id) {
                return Err(
                    reject_source(
                        "Genome content is already registered under World ",
                        existing.record.world_id.as_str(),
                    ),
                );
            }
            Ok(Registration::Existing(existing.record.clone()))
        },
    }
}

/// Names the event that registers a World.
pub fn world_envelope(world_id: &str) -> (result: EventEnvelope)
    ensures
        result.event_id@ == "world:"@ + world_id@ + ":registered"@,
        result.aggregate_id@ == world_id@,
        result.event_type@ == "world.registered"@,
        result.actor@ == state::OPERATOR_ACTOR@,
{
    EventEnvelope {
        event_id: ids::wrap("world:", world_id, ":registered"),
        aggregate_id: world_id.to_owned(),
        event_type: "world.registered".to_owned(),
        actor: state::OPERATOR_ACTOR.to_owned(),
    }
}

/// Names the event that registers a Genome.
pub fn genome_envelope(genome_id: &str) -> (result: EventEnvelope)
    ensures
        result.event_id@ == "genome:"@ + genome_id@ + ":registered"@,
        result.aggregate_id@ == genome_id@,
        result.event_type@ == "genome.registered"@,
        result.actor@ == state::OPERATOR_ACTOR@,
{
    EventEnvelope {
        event_id: ids::wrap("genome:", genome_id, ":registered"),
        aggregate_id: genome_id.to_owned(),
        event_type: "genome.registered".to_owned(),
        actor: state::OPERATOR_ACTOR.to_owned(),
    }
}

/// Shows the key that this daemon signs run results with.
pub fn verifier_show(artifact_id: String, public_key: &[u8; 32]) -> (result: ResponseData)
    ensures
        result matches ResponseData::Verifier { artifact_id: shown, public_key_hex } && shown
            == artifact_id && public_key_hex@ == hex::hex(public_key@),
{
    ResponseData::Verifier { artifact_id, public_key_hex: hex::hex_encode(public_key) }
}

} // verus!
