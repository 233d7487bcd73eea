//! What meta-evaluations measure and decide, said of their inputs and results alone.

use crate::error::ExecuteError;
use crate::ids;
use crate::meta;
use crate::meta::{
    MetaAction, MetaBootstrap, MetaComparison, MetaOpening, Return, StrategyOpening, Wait,
};
use crate::protocol::{
    Command, EvolutionGenerationRecord, EvolutionRunRecord, EvolutionRunState,
    EvolverStrategyConfig, MetaBootstrapInterval, MetaEvaluationPayload, MetaLineageOutcome,
    MetaReceiptRecord, MetaStrategyRecord,
};
use crate::text;
use crate::transitions::ChampionRequest;
use vstd::prelude::*;

verus! {

/// The cost delta of a lineage is negative exactly where the second strategy took fewer trials
/// than the first and positive exactly where it took more; within the range of a signed number it
/// is by how many.
pub proof fn cost_deltas_tell_the_cheaper_strategy(
    outcomes: Vec<MetaLineageOutcome>,
    deltas: Vec<i64>,
    i: int,
)
    requires
        call_ensures(meta::cost_deltas, (&outcomes,), deltas),
        0 <= i < outcomes@.len(),
    ensures
        deltas@.len() == outcomes@.len(),
        ({
            let a = outcomes@[i].strategy_a_trials_consumed;
            let b = outcomes@[i].strategy_b_trials_consumed;
            &&& deltas@[i] < 0 ==> b < a
            &&& deltas@[i] > 0 ==> b > a
            &&& a <= i64::MAX && b <= i64::MAX ==> deltas@[i] + a == b
            &&& a <= i64::MAX && b > i64::MAX ==> deltas@[i] + a == i64::MAX
            &&& a > i64::MAX && b <= i64::MAX ==> deltas@[i] + i64::MAX == b
        }),
{
}

/// The quality delta of a lineage is by how many promotions the second strategy is ahead of the
/// first.
pub proof fn quality_deltas_tell_the_better_strategy(
    outcomes: Vec<MetaLineageOutcome>,
    deltas: Vec<i64>,
    i: int,
)
    requires
        call_ensures(meta::quality_deltas, (&outcomes,), deltas),
        0 <= i < outcomes@.len(),
    ensures
        deltas@.len() == outcomes@.len(),
        outcomes@[i].strategy_a_promotions + deltas@[i] == outcomes@[i].strategy_b_promotions,
{
}

/// Exchanging the two strategies of every lineage negates every delta.
pub proof fn exchanged_strategies_negate_the_deltas(
    outcomes: Vec<MetaLineageOutcome>,
    exchanged: Vec<MetaLineageOutcome>,
    costs: Vec<i64>,
    exchanged_costs: Vec<i64>,
    qualities: Vec<i64>,
    exchanged_qualities: Vec<i64>,
    i: int,
)
    requires
        call_ensures(meta::cost_deltas, (&outcomes,), costs),
        call_ensures(meta::cost_deltas, (&exchanged,), exchanged_costs),
        call_ensures(meta::quality_deltas, (&outcomes,), qualities),
        call_ensures(meta::quality_deltas, (&exchanged,), exchanged_qualities),
        outcomes@.len() == exchanged@.len(),
        0 <= i < outcomes@.len(),
        exchanged@[i].strategy_a_trials_consumed == outcomes@[i].strategy_b_trials_consumed,
        exchanged@[i].strategy_b_trials_consumed == outcomes@[i].strategy_a_trials_consumed,
        exchanged@[i].strategy_a_promotions == outcomes@[i].strategy_b_promotions,
        exchanged@[i].strategy_b_promotions == outcomes@[i].strategy_a_promotions,
    ensures
        costs@[i] + exchanged_costs@[i] == 0,
        qualities@[i] + exchanged_qualities@[i] == 0,
{
}

/// A comparison is measured by the deltas of its lineages, once every lineage has its outcome
/// and not before.
pub proof fn comparisons_measure_their_lineages(
    comparison: MetaComparison,
    action: MetaAction,
    i: int,
)
    requires
        comparison.wf(),
        call_ensures(meta::meta_evaluate, (&comparison,), action),
    ensures
        action is Measure <==> comparison.outcomes@.len() == comparison.lineages@.len(),
        action matches MetaAction::Measure { quality_deltas, cost_deltas } ==> {
            &&& quality_deltas@.len() == comparison.lineages@.len()
            &&& cost_deltas@.len() == comparison.lineages@.len()
            &&& 0 <= i < comparison.lineages@.len() ==> {
                let a = comparison.outcomes@[i].strategy_a_trials_consumed;
                let b = comparison.outcomes@[i].strategy_b_trials_consumed;
                &&& comparison.outcomes@[i].strategy_a_promotions + quality_deltas@[i]
                    == comparison.outcomes@[i].strategy_b_promotions
                &&& a <= i64::MAX && b <= i64::MAX ==> a + cost_deltas@[i] == b
            }
        },
{
    if 0 <= i < comparison.lineages@.len() && action is Measure {
        assert(action->quality_deltas@[i] == meta::quality_delta(comparison.outcomes@[i]));
        assert(action->cost_deltas@[i] == meta::cost_delta(comparison.outcomes@[i]));
    }
}

/// Over each lineage both strategies run from the same Genome of the same World, each under its
/// own identity, its own limits and its own strategy, and after each run the Genome that the
/// lineage starts from is restored.
pub proof fn lineages_run_both_strategies_alike(
    comparison: MetaComparison,
    action: MetaAction,
)
    requires
        comparison.wf(),
        comparison.outcomes@.len() < comparison.lineages@.len(),
        call_ensures(meta::meta_evaluate, (&comparison,), action),
    ensures
        ({
            let lineage = comparison.lineages@[comparison.outcomes@.len() as int];
            let second = comparison.phase is RunB || comparison.phase is ReturnB;
            let strategy = if second {
                comparison.b
            } else {
                comparison.a
            };
            &&& action is Run <==> (comparison.phase is RunA || comparison.phase is RunB)
            &&& action is Return <==> (comparison.phase is ReturnA || comparison.phase is ReturnB)
            &&& action matches MetaAction::Run(command) ==> (command matches Command::EvolveStart {
                world_id,
                from_genome_id,
                generations,
                budget,
                strategy_id,
                ..
            } && world_id@ == lineage.world_id@ && from_genome_id@ == lineage.from_genome_id@
                && generations == strategy.config.generation_count && budget
                == strategy.config.experiment_allocation && (strategy_id matches Some(id) && id@
                == strategy.strategy_id@))
            &&& action matches MetaAction::Return { world_id, genome_id, max_attempts, .. }
                ==> world_id@ == lineage.world_id@ && genome_id@ == lineage.from_genome_id@
                && max_attempts == strategy.config.generation_count
        }),
{
}

/// What a run of a lineage is started as is what is returned from and what its outcome names.
pub proof fn lineages_return_from_the_runs_they_started(
    before: MetaComparison,
    after: MetaComparison,
    run: EvolutionRunRecord,
    started: MetaAction,
    returned: MetaAction,
)
    requires
        before.wf(),
        before.outcomes@.len() < before.lineages@.len(),
        before.phase is RunA || before.phase is RunB,
        run.generations@.len() <= u32::MAX,
        call_ensures(meta::meta_evaluate, (&before,), started),
        call_ensures(meta::take_lineage_run, (before, run), after),
        call_ensures(meta::meta_evaluate, (&after,), returned),
    ensures
        started matches MetaAction::Run(Command::EvolveStart {
            run_id,
            world_id,
            from_genome_id,
            generations,
            ..
        }) && (returned matches MetaAction::Return {
            run_id: from,
            world_id: world,
            genome_id,
            max_attempts,
        } && from@ == run_id@ && world@ == world_id@ && genome_id@ == from_genome_id@
            && max_attempts == generations),
        after.outcomes == before.outcomes,
        after.lineages == before.lineages,
        after.a == before.a,
        after.b == before.b,
{
}

/// The promotions of a run are the generations that promoted their child.
pub proof fn promotions_are_counted(generations: Seq<EvolutionGenerationRecord>)
    ensures
        meta::promotions(generations) == generations.filter(
            |generation: EvolutionGenerationRecord| generation.payload.promoted,
        ).len(),
        meta::promotions(generations) <= generations.len(),
    decreases generations.len(),
{
    reveal(Seq::filter);
    if generations.len() > 0 {
        promotions_are_counted(generations.drop_last());
    }
}

/// The Champion that a run reached.
pub open spec fn reached(run: EvolutionRunRecord) -> Seq<char> {
    if run.generations@.len() == 0 {
        run.from_genome_id@
    } else {
        run.generations@[run.generations@.len() - 1].payload.champion_after@
    }
}

/// A lineage's outcome says of each strategy what that strategy's own run reached: its Champion,
/// its promotions and its trials; and it stands behind the outcomes of the lineages before.
pub proof fn outcomes_say_what_each_run_reached(
    start: MetaComparison,
    run_a: EvolutionRunRecord,
    run_b: EvolutionRunRecord,
    ran_a: MetaComparison,
    left_a: MetaComparison,
    ran_b: MetaComparison,
    end: MetaComparison,
)
    requires
        start.wf(),
        start.phase is RunA,
        start.outcomes@.len() < start.lineages@.len(),
        run_a.generations@.len() <= u32::MAX,
        run_b.generations@.len() <= u32::MAX,
        call_ensures(meta::take_lineage_run, (start, run_a), ran_a),
        call_ensures(meta::leave_lineage, (ran_a,), left_a),
        call_ensures(meta::take_lineage_run, (left_a, run_b), ran_b),
        call_ensures(meta::leave_lineage, (ran_b,), end),
    ensures
        end.wf(),
        end.phase is RunA,
        end.outcomes@.len() == start.outcomes@.len() + 1,
        end.outcomes@.take(start.outcomes@.len() as int) == start.outcomes@,
        end.lineages == start.lineages,
        end.a == start.a,
        end.b == start.b,
        end.meta_run_id == start.meta_run_id,
        ({
            let outcome = end.outcomes@.last();
            let lineage = start.lineages@[start.outcomes@.len() as int];
            let promoted = |generation: EvolutionGenerationRecord| generation.payload.promoted;
            &&& outcome.world_id@ == lineage.world_id@
            &&& outcome.from_genome_id@ == lineage.from_genome_id@
            &&& outcome.strategy_a_champion_genome_id@ == reached(run_a)
            &&& outcome.strategy_b_champion_genome_id@ == reached(run_b)
            &&& outcome.strategy_a_promotions == run_a.generations@.filter(promoted).len()
            &&& outcome.strategy_b_promotions == run_b.generations@.filter(promoted).len()
            &&& outcome.strategy_a_trials_consumed == run_a.trials_consumed
            &&& outcome.strategy_b_trials_consumed == run_b.trials_consumed
            &&& outcome.strategy_a_run_id@ != outcome.strategy_b_run_id@
        }),
{
    promotions_are_counted(run_a.generations@);
    promotions_are_counted(run_b.generations@);
    assert(end.outcomes@.take(start.outcomes@.len() as int) =~= end.outcomes@.drop_last());
    reveal_strlit("-a-");
    reveal_strlit("-b-");
    reveal_strlit("meta-");
    let index = start.outcomes@.len();
    let a = ids::meta_lineage_run(start.meta_run_id@, "-a-"@, index);
    let b = ids::meta_lineage_run(start.meta_run_id@, "-b-"@, index);
    let place = 5 + start.meta_run_id@.len() + 1;
    assert(a[place as int] == 'a' && b[place as int] == 'b');
}

/// A verdict is given exactly where one of the two strategies declares the other as its parent.
/// It says that the child is cheaper at equal quality exactly where the whole interval of its
/// quality above the parent's is not below nothing and that of its cost is.
pub proof fn verdicts_favour_the_cheaper_child(
    a_id: &str,
    a: EvolverStrategyConfig,
    b_id: &str,
    b: EvolverStrategyConfig,
    quality: MetaBootstrapInterval,
    cost: MetaBootstrapInterval,
    verdict: Option<bool>,
)
    requires
        call_ensures(meta::descendant_verdict, (a_id, &a, b_id, &b, &quality, &cost), verdict),
    ensures
        ({
            let b_is_child = b.parent_strategy_id matches Some(parent) && parent@ == a_id@;
            let a_is_child = a.parent_strategy_id matches Some(parent) && parent@ == b_id@;
            &&& verdict is Some <==> a_is_child != b_is_child
            &&& b_is_child && !a_is_child ==> (verdict == Some(true) <==> quality.lower_x10000 >= 0
                && cost.upper_x10000 < 0)
            &&& a_is_child && !b_is_child ==> (verdict == Some(true) <==> quality.upper_x10000 <= 0
                && cost.lower_x10000 > 0)
        }),
{
}

/// The receipt of a comparison is of its two strategies and their outcomes, with the intervals
/// that were measured, and with the verdict that those intervals give.
pub proof fn receipts_report_the_comparison(
    comparison: MetaComparison,
    confidence_bps: u16,
    seed: u64,
    bootstrap: Option<MetaBootstrap>,
    result: Result<MetaEvaluationPayload, ExecuteError>,
    verdict: Option<bool>,
    a_id: &str,
    b_id: &str,
)
    requires
        comparison.wf(),
        comparison.outcomes@.len() == comparison.lineages@.len(),
        call_ensures(meta::meta_receipt, (comparison, confidence_bps, seed, bootstrap), result),
        a_id@ == comparison.a.strategy_id@,
        b_id@ == comparison.b.strategy_id@,
        bootstrap matches Some(measured) ==> call_ensures(
            meta::descendant_verdict,
            (
                a_id,
                &comparison.a.config,
                b_id,
                &comparison.b.config,
                &measured.quality_delta,
                &measured.cost_delta,
            ),
            verdict,
        ),
    ensures
        bootstrap is None ==> result is Err,
        bootstrap matches Some(measured) ==> (result matches Ok(payload) && {
            &&& payload.meta_run_id@ == comparison.meta_run_id@
            &&& payload.strategy_a_id@ == comparison.a.strategy_id@
            &&& payload.strategy_b_id@ == comparison.b.strategy_id@
            &&& payload.lineages@ == comparison.outcomes@
            &&& payload.confidence_bps == confidence_bps
            &&& payload.bootstrap_seed == seed
            &&& payload.bootstrap_resamples == measured.resamples
            &&& payload.algorithm == measured.algorithm
            &&& payload.quality_delta == measured.quality_delta
            &&& payload.cost_delta == measured.cost_delta
            &&& payload.descendant_cheaper_at_equal_quality == verdict
        }),
{
}

/// Restoring a Champion goes on exactly while another one stands, gives up after as many rollbacks
/// as are allowed, and rolls back nothing but the World that was named.
pub proof fn restoring_ends_at_the_target(
    prefix: &str,
    world_id: &str,
    target: &str,
    champion: Option<&str>,
    attempt: u64,
    max_attempts: u32,
    result: Result<Return, ExecuteError>,
)
    requires
        call_ensures(
            meta::rollback_champion_to,
            (prefix, world_id, target, champion, attempt, max_attempts),
            result,
        ),
    ensures
        result is Err <==> attempt > max_attempts,
        result matches Ok(Return::Returned) ==> (champion matches Some(standing) && standing@
            == target@),
        result matches Ok(Return::RollBack { transition_id, request }) ==> {
            &&& transition_id@ == prefix@ + "-rollback-"@ + text::decimal(attempt as nat)
            &&& !(champion matches Some(standing) && standing@ == target@)
            &&& request matches ChampionRequest::Rollback { world_id: world, .. } && world@
                == world_id@
        },
{
}

/// Waiting for a run ends with that run once it has finished, and with a failure only where it is
/// unknown or overdue.
pub proof fn waiting_ends_with_the_finished_run(
    run: Option<EvolutionRunRecord>,
    run_id: &str,
    due: bool,
    result: Result<Wait, ExecuteError>,
)
    requires
        call_ensures(meta::drive_evolve_run, (run, run_id, due), result),
    ensures
        result matches Ok(Wait::Finished(finished)) ==> run == Some(finished) && finished.state
            == EvolutionRunState::Finished,
        run matches Some(known) && known.state == EvolutionRunState::Finished ==> (
        result matches Ok(Wait::Finished(_))),
        result matches Ok(Wait::Again) ==> run is Some && !due,
        run is None ==> result is Err,
        run matches Some(known) && known.state == EvolutionRunState::Running ==> result is Err
            == due,
{
}

/// A recorded meta-evaluation is answered with its receipt; otherwise the two strategies that were
/// named are compared in the order in which they were named, and neither may be missing.
pub proof fn comparisons_open_with_the_named_strategies(
    existing: Option<MetaReceiptRecord>,
    a: Option<MetaStrategyRecord>,
    b: Option<MetaStrategyRecord>,
    result: Result<MetaOpening, ExecuteError>,
)
    requires
        call_ensures(meta::open_meta_evaluation, (existing, a, b), result),
    ensures
        existing matches Some(receipt) ==> result == Ok::<MetaOpening, ExecuteError>(
            MetaOpening::Existing(receipt),
        ),
        result matches Ok(MetaOpening::Compare { a: first, b: second }) ==> existing is None && a
            == Some(first) && b == Some(second),
        existing is None && a is Some && b is Some ==> result is Ok,
        existing is None && (a is None || b is None) ==> result is Err,
{
}

/// A strategy is registered once, under the identity and the configuration that were given, and
/// only below a registered parent other than itself.
pub proof fn strategies_are_registered_below_known_parents(
    config: EvolverStrategyConfig,
    strategy_id: String,
    existing: Option<MetaStrategyRecord>,
    parent_registered: bool,
    result: Result<StrategyOpening, ExecuteError>,
)
    requires
        call_ensures(
            meta::meta_strategy_register,
            (config, strategy_id, existing, parent_registered),
            result,
        ),
    ensures
        result matches Ok(StrategyOpening::Register(payload)) ==> {
            &&& existing is None
            &&& payload.strategy_id@ == strategy_id@
            &&& payload.config == config
            &&& config.parent_strategy_id matches Some(parent) ==> parent@ != strategy_id@
                && parent_registered
        },
        result matches Ok(StrategyOpening::Existing(record)) ==> existing == Some(record),
        existing is Some ==> result is Ok,
        existing is None && config.parent_strategy_id is None ==> result is Ok,
        existing is None && (config.parent_strategy_id matches Some(parent) && parent@
            != strategy_id@) && parent_registered ==> result is Ok,
{
}

/// A strategy is valid exactly where its schema is the known one and it allows at least one
/// generation, its two trials and one candidate.
pub proof fn valid_strategies_allow_a_generation(
    config: EvolverStrategyConfig,
    result: Result<(), ExecuteError>,
)
    requires
        call_ensures(meta::validate_strategy, (&config,), result),
    ensures
        result is Ok <==> config.schema_version == 1 && config.generation_count >= 1
            && config.experiment_allocation >= 2 && config.candidate_count >= 1,
{
}

} // verus!
