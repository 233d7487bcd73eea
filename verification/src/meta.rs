//! Evolver strategies and their paired meta-evaluation.

use crate::commands::TRIALS_PER_GENERATION;
use crate::error;
use crate::error::{rejected, ExecuteError, Refusal};
use crate::evolution;
use crate::ids;
use crate::json;
use crate::protocol::{
    Command, EvolutionGenerationRecord, EvolutionRunRecord, EvolutionRunState,
    EvolverStrategyConfig, MetaBootstrapInterval, MetaEvaluationPayload, MetaLineageOutcome,
    MetaLineageSpec, MetaReceiptRecord, MetaStrategyRecord, MetaStrategyRegisteredPayload,
};
use crate::text;
use crate::transitions::ChampionRequest;
use vstd::prelude::*;
use vstd::string::*;

verus! {

/// The first rule that a strategy breaks by itself.
pub open spec fn strategy_refusal(config: EvolverStrategyConfig) -> Option<Refusal> {
    error::first(
        error::need(
            config.schema_version == 1,
            Refusal::Rejected("strategy schema_version must be 1"@),
        ),
        error::first(
            error::need(
                config.generation_count != 0,
                Refusal::Rejected("strategy generation_count must be positive"@),
            ),
            error::first(
                error::need(
                    config.experiment_allocation >= TRIALS_PER_GENERATION,
                    Refusal::Rejected(
                        "strategy experiment_allocation must allow at least one generation"@,
                    ),
                ),
                error::need(
                    config.candidate_count != 0,
                    Refusal::Rejected("strategy candidate_count must be positive"@),
                ),
            ),
        ),
    )
}

/// Accepts a strategy that keeps every rule by itself.
pub fn validate_strategy(config: &EvolverStrategyConfig) -> (result: Result<(), ExecuteError>)
    ensures
        error::outcome(result) == (match strategy_refusal(*config) {
            Some(refusal) => Err(refusal),
            None => Ok(()),
        }),
{
    if config.schema_version != 1 {
        return Err(rejected("strategy schema_version must be 1"));
    }
    if config.generation_count == 0 {
        return Err(rejected("strategy generation_count must be positive"));
    }
    if config.experiment_allocation < TRIALS_PER_GENERATION {
        return Err(rejected("strategy experiment_allocation must allow at least one generation"));
    }
    if config.candidate_count == 0 {
        return Err(rejected("strategy candidate_count must be positive"));
    }
    Ok(())
}

/// Refuses a strategy source that does not parse.
pub fn reject_strategy_source(reason: &str) -> (result: ExecuteError)
    ensures
        result@ == Refusal::Rejected("strategy source rejected: "@ + reason@),
{
    let message: String = ids::wrap("strategy source rejected: ", reason, "");
    proof {
        reveal_strlit("");
        assert(message@ == "strategy source rejected: "@ + reason@);
    }
    ExecuteError::Rejected(message)
}

/// What a strategy registration leads to.
pub enum StrategyOpening {
    /// The strategy is registered already; it is the answer.
    Existing(MetaStrategyRecord),
    /// This is recorded.
    Register(MetaStrategyRegisteredPayload),
}

/// Decides what the registration of a valid strategy leads to. `existing` is the registered
/// strategy of the same identity; `parent_registered` tells whether the declared parent is
/// registered.
pub fn meta_strategy_register(
    config: EvolverStrategyConfig,
    strategy_id: String,
    existing: Option<MetaStrategyRecord>,
    parent_registered: bool,
) -> (result: Result<StrategyOpening, ExecuteError>)
    ensures
        error::outcome(result) == (match existing {
            Some(record) => Ok(StrategyOpening::Existing(record)),
            None => if json::held(config.parent_strategy_id) == Some(strategy_id@) {
                Err(Refusal::Rejected("strategy cannot declare itself as its own parent"@))
            } else if config.parent_strategy_id is Some && !parent_registered {
                Err(Refusal::NotFound)
            } else {
                Ok(
                    StrategyOpening::Register(
                        MetaStrategyRegisteredPayload { schema_version: 1, strategy_id, config },
                    ),
                )
            },
        }),
{
    if let Some(record) = existing {
        return Ok(StrategyOpening::Existing(record));
    }
    if let Some(parent) = &config.parent_strategy_id {
        if text::text_eq(parent.as_str(), strategy_id.as_str()) {
            return Err(rejected("strategy cannot declare itself as its own parent"));
        }
        if !parent_registered {
            return Err(ExecuteError::NotFound);
        }
    }
    Ok(
        StrategyOpening::Register(
            MetaStrategyRegisteredPayload { schema_version: 1, strategy_id, config },
        ),
    )
}

/// What a requested meta-evaluation leads to.
pub enum MetaOpening {
    /// The evaluation is recorded already; it is the answer.
    Existing(MetaReceiptRecord),
    /// The two strategies are compared.
    Compare {
        /// The first strategy.
        a: MetaStrategyRecord,
        /// The second strategy.
        b: MetaStrategyRecord,
    },
}

/// Decides what a requested meta-evaluation leads to, from what verified history holds of it
/// and of its two strategies.
pub fn open_meta_evaluation(
    existing: Option<MetaReceiptRecord>,
    a: Option<MetaStrategyRecord>,
    b: Option<MetaStrategyRecord>,
) -> (result: Result<MetaOpening, ExecuteError>)
    ensures
        result == (match (existing, a, b) {
            (Some(receipt), _, _) => Ok(MetaOpening::Existing(receipt)),
            (None, Some(a), Some(b)) => Ok(MetaOpening::Compare { a, b }),
            _ => Err(ExecuteError::NotFound),
        }),
{
    match (existing, a, b) {
        (Some(receipt), _, _) => Ok(MetaOpening::Existing(receipt)),
        (None, Some(a), Some(b)) => Ok(MetaOpening::Compare { a, b }),
        _ => Err(ExecuteError::NotFound),
    }
}

/// The side of a strategy in a comparison.
pub open spec fn side(strategy_b: bool) -> Seq<char> {
    if strategy_b {
        "-b-"@
    } else {
        "-a-"@
    }
}

/// Requests the evolution run of one strategy over one lineage.
pub fn lineage_run(
    meta_run_id: &str,
    index: usize,
    strategy_b: bool,
    lineage: &MetaLineageSpec,
    strategy: &MetaStrategyRecord,
) -> (result: Command)
    ensures
        result matches Command::EvolveStart {
            run_id,
            world_id,
            from_genome_id,
            generations,
            budget,
            strategy_id,
        } && run_id@ == ids::meta_lineage_run(meta_run_id@, side(strategy_b), index as nat)
            && world_id == lineage.world_id && from_genome_id == lineage.from_genome_id
            && generations == strategy.config.generation_count && budget
            == strategy.config.experiment_allocation && strategy_id == Some(strategy.strategy_id),
{
    Command::EvolveStart {
        run_id: ids::meta_lineage_run_id(meta_run_id, strategy_b, index),
        world_id: lineage.world_id.clone(),
        from_genome_id: lineage.from_genome_id.clone(),
        generations: strategy.config.generation_count,
        budget: strategy.config.experiment_allocation,
        strategy_id: Some(strategy.strategy_id.clone()),
    }
}

/// What waiting for an evolution run leads to.
pub enum Wait {
    /// The run has finished.
    Finished(EvolutionRunRecord),
    /// The daemon does its other work and looks again.
    Again,
}

/// Decides what waiting for an evolution run leads to. `due` tells whether its deadline has
/// passed.
pub fn drive_evolve_run(run: Option<EvolutionRunRecord>, run_id: &str, due: bool) -> (result: Result<
    Wait,
    ExecuteError,
>)
    ensures
        error::outcome(result) == (match run {
            None => Err(Refusal::Internal),
            Some(run) => if run.state == EvolutionRunState::Finished {
                Ok(Wait::Finished(run))
            } else if due {
                Err(
                    Refusal::Rejected(
                        "meta-evaluation lineage run "@ + run_id@
                            + " did not finish before its deadline"@,
                    ),
                )
            } else {
                Ok(Wait::Again)
            },
        }),
{
    match run {
        None => Err(ExecuteError::Internal),
        Some(run) => if run.state == EvolutionRunState::Finished {
            Ok(Wait::Finished(run))
        } else if due {
            Err(
                ExecuteError::Rejected(
                    ids::wrap(
                        "meta-evaluation lineage run ",
                        run_id,
                        " did not finish before its deadline",
                    ),
                ),
            )
        } else {
            Ok(Wait::Again)
        },
    }
}

/// What returning to a Champion leads to.
pub enum Return {
    /// The Champion is the one to return to.
    Returned,
    /// One promotion is taken back.
    RollBack {
        /// Identity of the transition.
        transition_id: String,
        /// The transition.
        request: ChampionRequest,
    },
}

/// Decides what returning to a Champion leads to at an attempt. At most one promotion more
/// than `max_attempts` is taken back.
pub fn rollback_champion_to(
    prefix: &str,
    world_id: &str,
    target_genome_id: &str,
    champion: Option<&str>,
    attempt: u64,
    max_attempts: u32,
) -> (result: Result<Return, ExecuteError>)
    ensures
        if attempt > max_attempts {
            result == Err::<Return, ExecuteError>(ExecuteError::Internal)
        } else if json::said(champion) == Some(target_genome_id@) {
            result == Ok::<Return, ExecuteError>(Return::Returned)
        } else {
            result matches Ok(Return::RollBack { transition_id, request }) && transition_id@
                == prefix@ + "-rollback-"@ + text::decimal(attempt as nat) && (request matches ChampionRequest::Rollback {
                world_id: world,
                reason,
            } && world@ == world_id@ && reason@
                == "meta-evaluation restoring the held-out lineage's starting Champion"@)
        },
{
    if attempt > max_attempts as u64 {
        return Err(ExecuteError::Internal);
    }
    if let Some(champion) = champion {
        if text::text_eq(champion, target_genome_id) {
            return Ok(Return::Returned);
        }
    }
    let number: String = text::decimal_text(attempt);
    Ok(
        Return::RollBack {
            transition_id: ids::wrap(prefix, "-rollback-", number.as_str()),
            request: ChampionRequest::Rollback {
                world_id: world_id.to_owned(),
                reason: "meta-evaluation restoring the held-out lineage's starting Champion".to_owned(),
            },
        },
    )
}

/// How many generations promoted their child.
pub open spec fn promotions(generations: Seq<EvolutionGenerationRecord>) -> nat
    decreases generations.len(),
{
    if generations.len() == 0 {
        0
    } else {
        promotions(generations.drop_last()) + if generations.last().payload.promoted {
            1nat
        } else {
            0nat
        }
    }
}

/// Counts the generations of a run that promoted their child.
pub fn promotions_of(run: &EvolutionRunRecord) -> (result: u32)
    requires
        run.generations@.len() <= u32::MAX,
    ensures
        result == promotions(run.generations@),
{
    let mut count: u32 = 0;
    for i in 0..run.generations.len()
        invariant
            run.generations@.len() <= u32::MAX,
            count <= i,
            count == promotions(run.generations@.take(i as int)),
    {
        proof {
            assert(run.generations@.take(i + 1).drop_last() == run.generations@.take(i as int));
        }
        if run.generations[i].payload.promoted {
            count = count + 1;
        }
    }
    proof {
        assert(run.generations@.take(run.generations@.len() as int) == run.generations@);
    }
    count
}

/// Whether an outcome is what two runs over a lineage reached.
pub open spec fn outcome_of(
    outcome: MetaLineageOutcome,
    meta_run_id: Seq<char>,
    index: nat,
    lineage: MetaLineageSpec,
    run_a: EvolutionRunRecord,
    run_b: EvolutionRunRecord,
) -> bool {
    &&& outcome.world_id@ == lineage.world_id@
    &&& outcome.from_genome_id@ == lineage.from_genome_id@
    &&& outcome.strategy_a_run_id@ == ids::meta_lineage_run(meta_run_id, "-a-"@, index)
    &&& outcome.strategy_b_run_id@ == ids::meta_lineage_run(meta_run_id, "-b-"@, index)
    &&& outcome.strategy_a_champion_genome_id@ == evolution::champion_of(run_a)
    &&& outcome.strategy_b_champion_genome_id@ == evolution::champion_of(run_b)
    &&& outcome.strategy_a_promotions == promotions(run_a.generations@)
    &&& outcome.strategy_b_promotions == promotions(run_b.generations@)
    &&& outcome.strategy_a_trials_consumed == run_a.trials_consumed
    &&& outcome.strategy_b_trials_consumed == run_b.trials_consumed
}

/// Puts together what two runs over a lineage reached.
pub fn lineage_outcome(
    meta_run_id: &str,
    index: usize,
    lineage: &MetaLineageSpec,
    run_a: &EvolutionRunRecord,
    run_b: &EvolutionRunRecord,
) -> (result: MetaLineageOutcome)
    requires
        run_a.generations@.len() <= u32::MAX,
        run_b.generations@.len() <= u32::MAX,
    ensures
        outcome_of(result, meta_run_id@, index as nat, *lineage, *run_a, *run_b),
{
    MetaLineageOutcome {
        world_id: lineage.world_id.clone(),
        from_genome_id: lineage.from_genome_id.clone(),
        strategy_a_run_id: ids::meta_lineage_run_id(meta_run_id, false, index),
        strategy_b_run_id: ids::meta_lineage_run_id(meta_run_id, true, index),
        strategy_a_champion_genome_id: evolution::champion_after(run_a),
        strategy_b_champion_genome_id: evolution::champion_after(run_b),
        strategy_a_promotions: promotions_of(run_a),
        strategy_b_promotions: promotions_of(run_b),
        strategy_a_trials_consumed: run_a.trials_consumed,
        strategy_b_trials_consumed: run_b.trials_consumed,
    }
}

/// The quality delta of a lineage: the promotions of the second strategy above those of the
/// first.
pub open spec fn quality_delta(outcome: MetaLineageOutcome) -> int {
    outcome.strategy_b_promotions - outcome.strategy_a_promotions
}

/// A count of trials, at most the largest that a signed number holds.
pub open spec fn signed_trials(trials: u64) -> int {
    if trials > i64::MAX {
        i64::MAX as int
    } else {
        trials as int
    }
}

/// The cost delta of a lineage: the trials of the second strategy above those of the first.
pub open spec fn cost_delta(outcome: MetaLineageOutcome) -> int {
    signed_trials(outcome.strategy_b_trials_consumed) - signed_trials(
        outcome.strategy_a_trials_consumed,
    )
}

/// Lists the quality deltas of the lineages.
pub fn quality_deltas(outcomes: &Vec<MetaLineageOutcome>) -> (result: Vec<i64>)
    ensures
        result@.len() == outcomes@.len(),
        forall|i: int|
            0 <= i < result@.len() ==> #[trigger] result@[i] == quality_delta(outcomes@[i]),
{
    let mut result: Vec<i64> = Vec::new();
    for i in 0..outcomes.len()
        invariant
            result@.len() == i,
            forall|k: int| 0 <= k < i ==> #[trigger] result@[k] == quality_delta(outcomes@[k]),
    {
        let b: i64 = outcomes[i].strategy_b_promotions as i64;
        let a: i64 = outcomes[i].strategy_a_promotions as i64;
        result.push(b - a);
    }
    result
}

/// Takes a count of trials as a signed number.
fn to_signed(trials: u64) -> (result: i64)
    ensures
        result == signed_trials(trials),
{
    if trials > i64::MAX as u64 {
        i64::MAX
    } else {
        trials as i64
    }
}

/// Lists the cost deltas of the lineages.
pub fn cost_deltas(outcomes: &Vec<MetaLineageOutcome>) -> (result: Vec<i64>)
    ensures
        result@.len() == outcomes@.len(),
        forall|i: int| 0 <= i < result@.len() ==> #[trigger] result@[i] == cost_delta(outcomes@[i]),
{
    let mut result: Vec<i64> = Vec::new();
    for i in 0..outcomes.len()
        invariant
            result@.len() == i,
            forall|k: int| 0 <= k < i ==> #[trigger] result@[k] == cost_delta(outcomes@[k]),
    {
        let a: i64 = to_signed(outcomes[i].strategy_a_trials_consumed);
        let b: i64 = to_signed(outcomes[i].strategy_b_trials_consumed);
        result.push(b - a);
    }
    result
}

/// Whether a strategy declares another as its parent.
pub open spec fn descends(config: EvolverStrategyConfig, parent_id: Seq<char>) -> bool {
    json::held(config.parent_strategy_id) == Some(parent_id)
}

/// Whether a strategy reached at least the quality of another at a lower cost, given the
/// bounds of its deltas above the other.
pub open spec fn cheaper_at_equal_quality(quality_lower: int, cost_upper: int) -> bool {
    quality_lower >= 0 && cost_upper < 0
}

/// What a comparison says of a strategy and its declared parent: nothing where not exactly
/// one declares the other.
pub open spec fn descendant(
    a_id: Seq<char>,
    a: EvolverStrategyConfig,
    b_id: Seq<char>,
    b: EvolverStrategyConfig,
    quality: MetaBootstrapInterval,
    cost: MetaBootstrapInterval,
) -> Option<bool> {
    if descends(b, a_id) && !descends(a, b_id) {
        Some(cheaper_at_equal_quality(quality.lower_x10000 as int, cost.upper_x10000 as int))
    } else if descends(a, b_id) && !descends(b, a_id) {
        Some(cheaper_at_equal_quality(-quality.upper_x10000, -cost.lower_x10000))
    } else {
        None
    }
}

/// Tests whether a strategy declares another as its parent.
fn declares(config: &EvolverStrategyConfig, parent_id: &str) -> (result: bool)
    ensures
        result == descends(*config, parent_id@),
{
    match &config.parent_strategy_id {
        Some(parent) => text::text_eq(parent.as_str(), parent_id),
        None => false,
    }
}

/// Tells what a comparison says of a strategy and its declared parent. The deltas are those
/// of the second strategy above the first.
pub fn descendant_verdict(
    a_id: &str,
    a: &EvolverStrategyConfig,
    b_id: &str,
    b: &EvolverStrategyConfig,
    quality: &MetaBootstrapInterval,
    cost: &MetaBootstrapInterval,
) -> (result: Option<bool>)
    ensures
        result == descendant(a_id@, *a, b_id@, *b, *quality, *cost),
{
    let b_descends: bool = declares(b, a_id);
    let a_descends: bool = declares(a, b_id);
    if b_descends && !a_descends {
        Some(quality.lower_x10000 >= 0 && cost.upper_x10000 < 0)
    } else if a_descends && !b_descends {
        Some(quality.upper_x10000 <= 0 && cost.lower_x10000 > 0)
    } else {
        None
    }
}

/// Exchanging the two strategies of a comparison, and with them the sign of every delta,
/// leaves what it says of a strategy and its parent as it is.
pub proof fn verdicts_do_not_depend_on_the_order(
    a_id: Seq<char>,
    a: EvolverStrategyConfig,
    b_id: Seq<char>,
    b: EvolverStrategyConfig,
    quality: MetaBootstrapInterval,
    cost: MetaBootstrapInterval,
    back_quality: MetaBootstrapInterval,
    back_cost: MetaBootstrapInterval,
)
    requires
        back_quality.lower_x10000 == -quality.upper_x10000,
        back_quality.upper_x10000 == -quality.lower_x10000,
        back_cost.lower_x10000 == -cost.upper_x10000,
        back_cost.upper_x10000 == -cost.lower_x10000,
    ensures
        descendant(b_id, b, a_id, a, back_quality, back_cost) == descendant(
            a_id,
            a,
            b_id,
            b,
            quality,
            cost,
        ),
{
}

/// What a meta-evaluation was asked for.
pub struct MetaRequest {
    /// Identity of the evaluation.
    pub meta_run_id: String,
    /// Identity of the first strategy.
    pub strategy_a_id: String,
    /// Identity of the second strategy.
    pub strategy_b_id: String,
    /// Confidence in basis points.
    pub confidence_bps: u16,
    /// Seed of the bootstrap.
    pub bootstrap_seed: u64,
}

/// What the bootstrap over the lineages gave.
pub struct MetaBootstrap {
    /// How often it resampled.
    pub resamples: u32,
    /// Its algorithm.
    pub algorithm: String,
    /// Interval of the quality delta.
    pub quality_delta: MetaBootstrapInterval,
    /// Interval of the cost delta.
    pub cost_delta: MetaBootstrapInterval,
}

/// Puts the receipt of a meta-evaluation together.
pub fn meta_payload(
    request: MetaRequest,
    a: &EvolverStrategyConfig,
    b: &EvolverStrategyConfig,
    lineages: Vec<MetaLineageOutcome>,
    bootstrap: MetaBootstrap,
) -> (result: MetaEvaluationPayload)
    ensures
        result == (MetaEvaluationPayload {
            schema_version: 1,
            meta_run_id: request.meta_run_id,
            strategy_a_id: request.strategy_a_id,
            strategy_b_id: request.strategy_b_id,
            confidence_bps: request.confidence_bps,
            bootstrap_seed: request.bootstrap_seed,
            bootstrap_resamples: bootstrap.resamples,
            algorithm: bootstrap.algorithm,
            lineages,
            quality_delta: bootstrap.quality_delta,
            cost_delta: bootstrap.cost_delta,
            descendant_cheaper_at_equal_quality: descendant(
                request.strategy_a_id@,
                *a,
                request.strategy_b_id@,
                *b,
                bootstrap.quality_delta,
                bootstrap.cost_delta,
            ),
        }),
{
    let verdict: Option<bool> = descendant_verdict(
        request.strategy_a_id.as_str(),
        a,
        request.strategy_b_id.as_str(),
        b,
        &bootstrap.quality_delta,
        &bootstrap.cost_delta,
    );
    MetaEvaluationPayload {
        schema_version: 1,
        meta_run_id: request.meta_run_id,
        strategy_a_id: request.strategy_a_id,
        strategy_b_id: request.strategy_b_id,
        confidence_bps: request.confidence_bps,
        bootstrap_seed: request.bootstrap_seed,
        bootstrap_resamples: bootstrap.resamples,
        algorithm: bootstrap.algorithm,
        lineages,
        quality_delta: bootstrap.quality_delta,
        cost_delta: bootstrap.cost_delta,
        descendant_cheaper_at_equal_quality: verdict,
    }
}

/// How far the comparison over one lineage has got. After each run the lineage's starting
/// Champion is restored.
pub enum MetaPhase {
    /// The first strategy runs next.
    RunA,
    /// The first strategy ran.
    ReturnA(EvolutionRunRecord),
    /// The second strategy runs next, after this run of the first.
    RunB(EvolutionRunRecord),
    /// Both strategies ran.
    ReturnB(EvolutionRunRecord, EvolutionRunRecord),
}

/// A comparison of two strategies over held-out lineages.
pub struct MetaComparison {
    /// Identity of the evaluation.
    pub meta_run_id: String,
    /// The first strategy.
    pub a: MetaStrategyRecord,
    /// The second strategy.
    pub b: MetaStrategyRecord,
    /// Lineages to compare over.
    pub lineages: Vec<MetaLineageSpec>,
    /// What was reached over the lineages so far.
    pub outcomes: Vec<MetaLineageOutcome>,
    /// How far the comparison over the next lineage has got.
    pub phase: MetaPhase,
}

/// What a comparison takes next.
pub enum MetaAction {
    /// An evolution run is started and waited for.
    Run(Command),
    /// The Champion is returned to the one that a lineage starts from.
    Return {
        /// Run that moved the Champion.
        run_id: String,
        /// World of the lineage.
        world_id: String,
        /// Champion to return to.
        genome_id: String,
        /// Most promotions that are taken back.
        max_attempts: u32,
    },
    /// The deltas over the lineages are measured.
    Measure {
        /// The quality delta of each lineage.
        quality_deltas: Vec<i64>,
        /// The cost delta of each lineage.
        cost_deltas: Vec<i64>,
    },
}

/// Whether the deltas of the lineages that were compared are measured, in their order.
pub open spec fn measures(action: MetaAction, outcomes: Seq<MetaLineageOutcome>) -> bool {
    action matches MetaAction::Measure { quality_deltas, cost_deltas } && {
        &&& quality_deltas@.len() == outcomes.len()
        &&& cost_deltas@.len() == outcomes.len()
        &&& forall|i: int|
            0 <= i < outcomes.len() ==> #[trigger] quality_deltas@[i] == quality_delta(outcomes[i])
        &&& forall|i: int|
            0 <= i < outcomes.len() ==> #[trigger] cost_deltas@[i] == cost_delta(outcomes[i])
    }
}

/// Whether an outcome is of a lineage and of the runs that are named after it.
pub open spec fn outcome_for(
    outcome: MetaLineageOutcome,
    meta_run_id: Seq<char>,
    index: int,
    lineage: MetaLineageSpec,
) -> bool {
    &&& outcome.world_id@ == lineage.world_id@
    &&& outcome.from_genome_id@ == lineage.from_genome_id@
    &&& outcome.strategy_a_run_id@ == ids::meta_lineage_run(meta_run_id, "-a-"@, index as nat)
    &&& outcome.strategy_b_run_id@ == ids::meta_lineage_run(meta_run_id, "-b-"@, index as nat)
}

impl MetaComparison {
    /// The outcomes so far are those of the first lineages, in order, and the runs in progress
    /// have no more generations than can be counted.
    pub open spec fn wf(self) -> bool {
        &&& self.outcomes@.len() <= self.lineages@.len()
        &&& forall|i: int|
            0 <= i < self.outcomes@.len() ==> outcome_for(
                #[trigger] self.outcomes@[i],
                self.meta_run_id@,
                i,
                self.lineages@[i],
            )
        &&& match self.phase {
            MetaPhase::RunA => true,
            MetaPhase::ReturnA(a) | MetaPhase::RunB(a) => a.generations@.len() <= u32::MAX,
            MetaPhase::ReturnB(a, b) => a.generations@.len() <= u32::MAX && b.generations@.len()
                <= u32::MAX,
        }
    }

    /// Begins a comparison.
    pub fn new(
        meta_run_id: String,
        a: MetaStrategyRecord,
        b: MetaStrategyRecord,
        lineages: Vec<MetaLineageSpec>,
    ) -> (result: Self)
        ensures
            result.wf(),
            result.meta_run_id == meta_run_id,
            result.a == a,
            result.b == b,
            result.lineages == lineages,
            result.outcomes@.len() == 0,
            result.phase is RunA,
    {
        MetaComparison {
            meta_run_id,
            a,
            b,
            lineages,
            outcomes: Vec::new(),
            phase: MetaPhase::RunA,
        }
    }
}

/// Whether a run is started for one strategy over the next lineage.
pub open spec fn starts(action: MetaAction, comparison: MetaComparison, strategy_b: bool) -> bool {
    let index = comparison.outcomes@.len();
    let lineage = comparison.lineages@[index as int];
    let strategy = if strategy_b {
        comparison.b
    } else {
        comparison.a
    };
    action matches MetaAction::Run(
        Command::EvolveStart { run_id, world_id, from_genome_id, generations, budget, strategy_id },
    ) && {
        &&& run_id@ == ids::meta_lineage_run(comparison.meta_run_id@, side(strategy_b), index)
        &&& world_id == lineage.world_id
        &&& from_genome_id == lineage.from_genome_id
        &&& generations == strategy.config.generation_count
        &&& budget == strategy.config.experiment_allocation
        &&& strategy_id == Some(strategy.strategy_id)
    }
}

/// Whether the starting Champion of the next lineage is restored after the run of one
/// strategy.
pub open spec fn restores(action: MetaAction, comparison: MetaComparison, strategy_b: bool) -> bool {
    let index = comparison.outcomes@.len();
    let lineage = comparison.lineages@[index as int];
    action matches MetaAction::Return { run_id, world_id, genome_id, max_attempts } && {
        &&& run_id@ == ids::meta_lineage_run(comparison.meta_run_id@, side(strategy_b), index)
        &&& world_id == lineage.world_id
        &&& genome_id == lineage.from_genome_id
        &&& max_attempts == (if strategy_b {
            comparison.b.config.generation_count
        } else {
            comparison.a.config.generation_count
        })
    }
}

/// Decides what a comparison takes next: over every lineage in order a run of the first
/// strategy and one of the second, each from the same Champion; then the measurement.
pub fn meta_evaluate(comparison: &MetaComparison) -> (result: MetaAction)
    requires
        comparison.wf(),
    ensures
        if comparison.outcomes@.len() == comparison.lineages@.len() {
            measures(result, comparison.outcomes@)
        } else {
            match comparison.phase {
                MetaPhase::RunA => starts(result, *comparison, false),
                MetaPhase::ReturnA(_) => restores(result, *comparison, false),
                MetaPhase::RunB(_) => starts(result, *comparison, true),
                MetaPhase::ReturnB(_, _) => restores(result, *comparison, true),
            }
        },
{
    let index: usize = comparison.outcomes.len();
    if index == comparison.lineages.len() {
        return MetaAction::Measure {
            quality_deltas: quality_deltas(&comparison.outcomes),
            cost_deltas: cost_deltas(&comparison.outcomes),
        };
    }
    let lineage: &MetaLineageSpec = &comparison.lineages[index];
    let meta_run_id: &str = comparison.meta_run_id.as_str();
    match &comparison.phase {
        MetaPhase::RunA => MetaAction::Run(
            lineage_run(meta_run_id, index, false, lineage, &comparison.a),
        ),
        MetaPhase::ReturnA(_) => MetaAction::Return {
            run_id: ids::meta_lineage_run_id(meta_run_id, false, index),
            world_id: lineage.world_id.clone(),
            genome_id: lineage.from_genome_id.clone(),
            max_attempts: comparison.a.config.generation_count,
        },
        MetaPhase::RunB(_) => MetaAction::Run(
            lineage_run(meta_run_id, index, true, lineage, &comparison.b),
        ),
        MetaPhase::ReturnB(_, _) => MetaAction::Return {
            run_id: ids::meta_lineage_run_id(meta_run_id, true, index),
            world_id: lineage.world_id.clone(),
            genome_id: lineage.from_genome_id.clone(),
            max_attempts: comparison.b.config.generation_count,
        },
    }
}

/// Takes a finished run into a comparison.
pub fn take_lineage_run(comparison: MetaComparison, run: EvolutionRunRecord) -> (result: MetaComparison)
    requires
        comparison.wf(),
        run.generations@.len() <= u32::MAX,
    ensures
        result.wf(),
        result == (MetaComparison {
            phase: match comparison.phase {
                MetaPhase::RunA => MetaPhase::ReturnA(run),
                MetaPhase::RunB(a) => MetaPhase::ReturnB(a, run),
                other => other,
            },
            ..comparison
        }),
{
    let mut comparison = comparison;
    comparison.phase = match comparison.phase {
        MetaPhase::RunA => MetaPhase::ReturnA(run),
        MetaPhase::RunB(a) => MetaPhase::ReturnB(a, run),
        other => other,
    };
    comparison
}

/// Goes on with a comparison after the starting Champion was restored. After the run of the
/// second strategy the lineage is done, and its outcome is what the two runs reached.
pub fn leave_lineage(comparison: MetaComparison) -> (result: MetaComparison)
    requires
        comparison.wf(),
        comparison.outcomes@.len() < comparison.lineages@.len(),
    ensures
        result.wf(),
        result.meta_run_id == comparison.meta_run_id,
        result.a == comparison.a,
        result.b == comparison.b,
        result.lineages == comparison.lineages,
        match comparison.phase {
            MetaPhase::ReturnA(run) => result.phase == MetaPhase::RunB(run) && result.outcomes
                == comparison.outcomes,
            MetaPhase::ReturnB(a, b) => {
                &&& result.phase is RunA
                &&& result.outcomes@.len() == comparison.outcomes@.len() + 1
                &&& result.outcomes@.drop_last() == comparison.outcomes@
                &&& outcome_of(
                    result.outcomes@.last(),
                    comparison.meta_run_id@,
                    comparison.outcomes@.len(),
                    comparison.lineages@[comparison.outcomes@.len() as int],
                    a,
                    b,
                )
            },
            _ => result == comparison,
        },
{
    let mut comparison = comparison;
    let index: usize = comparison.outcomes.len();
    match comparison.phase {
        MetaPhase::ReturnA(run) => {
            comparison.phase = MetaPhase::RunB(run);
        },
        MetaPhase::ReturnB(a, b) => {
            let ghost before = comparison.outcomes@;
            let outcome: MetaLineageOutcome = lineage_outcome(
                comparison.meta_run_id.as_str(),
                index,
                &comparison.lineages[index],
                &a,
                &b,
            );
            comparison.outcomes.push(outcome);
            comparison.phase = MetaPhase::RunA;
            assert(comparison.outcomes@.drop_last() == before);
        },
        other => {
            comparison.phase = other;
        },
    }
    comparison
}

/// Puts the receipt of a finished comparison together: its strategies, its outcomes, what the
/// bootstrap over their deltas gave, and what that says of a strategy and its declared parent.
/// A bootstrap that failed is a fault of the daemon.
pub fn meta_receipt(
    comparison: MetaComparison,
    confidence_bps: u16,
    bootstrap_seed: u64,
    bootstrap: Option<MetaBootstrap>,
) -> (result: Result<MetaEvaluationPayload, ExecuteError>)
    requires
        comparison.wf(),
        comparison.outcomes@.len() == comparison.lineages@.len(),
    ensures
        match bootstrap {
            None => result == Err::<MetaEvaluationPayload, ExecuteError>(ExecuteError::Internal),
            Some(bootstrap) => result == Ok::<MetaEvaluationPayload, ExecuteError>(
                MetaEvaluationPayload {
                    schema_version: 1,
                    meta_run_id: comparison.meta_run_id,
                    strategy_a_id: comparison.a.strategy_id,
                    strategy_b_id: comparison.b.strategy_id,
                    confidence_bps,
                    bootstrap_seed,
                    bootstrap_resamples: bootstrap.resamples,
                    algorithm: bootstrap.algorithm,
                    lineages: comparison.outcomes,
                    quality_delta: bootstrap.quality_delta,
                    cost_delta: bootstrap.cost_delta,
                    descendant_cheaper_at_equal_quality: descendant(
                        comparison.a.strategy_id@,
                        comparison.a.config,
                        comparison.b.strategy_id@,
                        comparison.b.config,
                        bootstrap.quality_delta,
                        bootstrap.cost_delta,
                    ),
                },
            ),
        },
{
    let bootstrap: MetaBootstrap = match bootstrap {
        Some(bootstrap) => bootstrap,
        None => {
            return Err(ExecuteError::Internal);
        },
    };
    let request = MetaRequest {
        meta_run_id: comparison.meta_run_id,
        strategy_a_id: comparison.a.strategy_id,
        strategy_b_id: comparison.b.strategy_id,
        confidence_bps,
        bootstrap_seed,
    };
    Ok(
        meta_payload(
            request,
            &comparison.a.config,
            &comparison.b.config,
            comparison.outcomes,
            bootstrap,
        ),
    )
}

/// A comparison is measured only when every lineage has its outcome, in order.
pub proof fn comparisons_measure_every_lineage(comparison: MetaComparison, index: int)
    requires
        comparison.wf(),
        comparison.outcomes@.len() == comparison.lineages@.len(),
        0 <= index < comparison.lineages@.len(),
    ensures
        outcome_for(
            comparison.outcomes@[index],
            comparison.meta_run_id@,
            index,
            comparison.lineages@[index],
        ),
{
}

} // verus!
