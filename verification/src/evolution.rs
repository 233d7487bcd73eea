//! Autonomous evolution runs.

use crate::commands::TRIALS_PER_GENERATION;
use crate::error;
use crate::error::{rejected, ExecuteError, Refusal};
use crate::ids;
use crate::json;
use crate::ordered::OrderedMap;
use crate::protocol::{Command, EvolutionCancelPayload, EvolutionFinishReason, EvolutionFinishedPayload, EvolutionRunRecord, EvolutionRunState, EvolutionStartedPayload};
use crate::registry::{GenomeEntry, Registry};
use crate::text;
use crate::transitions::ChampionRequest;
use vstd::prelude::*;
use vstd::string::*;

verus! {

/// Whether a Genome belongs to a World and is not a given one.
pub open spec fn is_peer(entry: GenomeEntry, world_id: Seq<char>, genome_id: Seq<char>) -> bool {
    entry.record.world_id@ == world_id && entry.record.genome_id@ != genome_id
}

/// Whether a World has a Genome besides a given one.
pub open spec fn has_peer(registry: Registry, world_id: Seq<char>, genome_id: Seq<char>) -> bool {
    exists|key: Seq<char>| #[trigger]
        registry.genomes@.contains_key(key) && is_peer(
            registry.genomes@[key],
            world_id,
            genome_id,
        )
}

/// Whether an identity is the least among the Genomes of a World besides a given one.
pub open spec fn is_baseline(
    registry: Registry,
    world_id: Seq<char>,
    genome_id: Seq<char>,
    baseline: Seq<char>,
) -> bool {
    &&& exists|key: Seq<char>| #[trigger]
        registry.genomes@.contains_key(key) && is_peer(
            registry.genomes@[key],
            world_id,
            genome_id,
        ) && registry.genomes@[key].record.genome_id@ == baseline
    &&& forall|key: Seq<char>| #[trigger]
        registry.genomes@.contains_key(key) && is_peer(
            registry.genomes@[key],
            world_id,
            genome_id,
        ) ==> !text::precedes(registry.genomes@[key].record.genome_id@, baseline)
}

/// There is at most one least identity.
pub proof fn baseline_is_unique(
    registry: Registry,
    world_id: Seq<char>,
    genome_id: Seq<char>,
    a: Seq<char>,
    b: Seq<char>,
)
    requires
        is_baseline(registry, world_id, genome_id, a),
        is_baseline(registry, world_id, genome_id, b),
    ensures
        a == b,
{
    text::precedes_total(a, b);
}

/// Finds the least identity among the Genomes of a World besides a given one.
pub fn baseline_genome(registry: &Registry, world_id: &str, genome_id: &str) -> (result: Option<String>)
    requires
        registry.wf(),
    ensures
        match result {
            Some(baseline) => is_baseline(*registry, world_id@, genome_id@, baseline@),
            None => !has_peer(*registry, world_id@, genome_id@),
        },
{
    let genomes: &OrderedMap<GenomeEntry> = &registry.genomes;
    let mut best: Option<String> = None;
    let count: usize = genomes.len();
    for i in 0..count
        invariant
            genomes.wf(),
            *genomes == registry.genomes,
            count == genomes.keys().len(),
            match best {
                Some(baseline) => (exists|j: int|
                    0 <= j < i && is_peer(#[trigger] genomes.values()[j], world_id@, genome_id@)
                        && genomes.values()[j].record.genome_id@ == baseline@) && forall|j: int|
                    0 <= j < i && is_peer(#[trigger] genomes.values()[j], world_id@, genome_id@)
                        ==> !text::precedes(genomes.values()[j].record.genome_id@, baseline@),
                None => forall|j: int|
                    0 <= j < i ==> !is_peer(#[trigger] genomes.values()[j], world_id@, genome_id@),
            },
    {
        let entry: &GenomeEntry = genomes.value_at(i);
        if text::text_eq(entry.record.world_id.as_str(), world_id) && !text::text_eq(
            entry.record.genome_id.as_str(),
            genome_id,
        ) {
            let better: bool = match &best {
                Some(baseline) => text::text_less(
                    entry.record.genome_id.as_str(),
                    baseline.as_str(),
                ),
                None => true,
            };
            let ghost before = best;
            if better {
                best = Some(entry.record.genome_id.clone());
                proof {
                    let found = entry.record.genome_id@;
                    text::precedes_irreflexive(found);
                    assert(is_peer(genomes.values()[i as int], world_id@, genome_id@));
                    assert forall|j: int|
                        0 <= j < i + 1 && is_peer(
                            #[trigger] genomes.values()[j],
                            world_id@,
                            genome_id@,
                        ) implies !text::precedes(genomes.values()[j].record.genome_id@, found) by {
                        if j < i && text::precedes(genomes.values()[j].record.genome_id@, found) {
                            text::precedes_transitive(
                                genomes.values()[j].record.genome_id@,
                                found,
                                before->0@,
                            );
                        }
                    }
                }
            }
        }
    }
    proof {
        assert forall|key: Seq<char>| #[trigger]
            registry.genomes@.contains_key(key) implies exists|j: int|
            0 <= j < count && #[trigger] genomes.values()[j] == registry.genomes@[key] by {
            genomes.lemma_place(key);
            assert(genomes.values()[genomes.place(key)] == registry.genomes@[key]);
        }
        if best is Some {
            let j = choose|j: int|
                0 <= j < count && is_peer(#[trigger] genomes.values()[j], world_id@, genome_id@)
                    && genomes.values()[j].record.genome_id@ == best->0@;
            genomes.lemma_bound_at(j);
            assert(registry.genomes@.contains_key(genomes.keys()[j]));
        }
    }
    best
}

/// What verified history says where an evolution run is requested.
pub struct EvolutionFacts {
    /// Whether a job or a paired evaluation runs.
    pub working: bool,
    /// The evolution run that is active, if one is.
    pub active_run: Option<String>,
    /// The run of the requested identity, if it is recorded.
    pub existing: Option<EvolutionRunRecord>,
    /// Whether the requested strategy is registered.
    pub strategy_registered: bool,
    /// The Champion of the requested World, if it has one.
    pub champion: Option<String>,
}

/// What a requested evolution run leads to.
pub enum EvolutionOpening {
    /// The run is recorded already; it is the answer.
    Existing(EvolutionRunRecord),
    /// The run begins.
    Start {
        /// The transition that makes the first Genome the Champion of a World without one,
        /// with its identity.
        seed: Option<(String, ChampionRequest)>,
        /// What is recorded of the run.
        payload: EvolutionStartedPayload,
    },
}

/// Whether a recorded run was started with a configuration.
pub open spec fn configured_as(
    run: EvolutionRunRecord,
    world_id: Seq<char>,
    from_genome_id: Seq<char>,
    generations: u32,
    budget: u64,
    strategy_id: Option<Seq<char>>,
) -> bool {
    &&& run.world_id@ == world_id
    &&& run.from_genome_id@ == from_genome_id
    &&& run.max_generations == generations
    &&& run.max_paired_trials == budget
    &&& json::held(run.strategy_id) == strategy_id
}

/// Why a requested evolution run is not started, its baseline aside.
pub open spec fn evolution_refusal(
    facts: EvolutionFacts,
    registry: Registry,
    run_id: Seq<char>,
    world_id: Seq<char>,
    from_genome_id: Seq<char>,
    strategy_id: Option<Seq<char>>,
) -> Option<Refusal> {
    if strategy_id is Some && !facts.strategy_registered {
        Some(Refusal::NotFound)
    } else if !registry.worlds@.contains_key(world_id) {
        Some(Refusal::NotFound)
    } else if !registry.genomes@.contains_key(from_genome_id) {
        Some(Refusal::NotFound)
    } else if registry.genomes@[from_genome_id].record.world_id@ != world_id {
        Some(
            Refusal::Rejected("from_genome_id is not compiled under the requested World"@),
        )
    } else if !has_peer(registry, world_id, from_genome_id) {
        Some(
            Refusal::Rejected(
                "World needs at least one other registered Genome to serve as the evolve engine's comparison baseline"@,
            ),
        )
    } else {
        match facts.champion {
            Some(champion) => error::need(
                champion@ == from_genome_id,
                Refusal::Rejected("World Champion does not match from_genome_id"@),
            ),
            None => None,
        }
    }
}

/// Whether a seed is the one that a run without a Champion records first.
pub open spec fn seeds(
    seed: Option<(String, ChampionRequest)>,
    champion: Option<String>,
    run_id: Seq<char>,
    world_id: Seq<char>,
    from_genome_id: Seq<char>,
) -> bool {
    match champion {
        Some(_) => seed is None,
        None => seed matches Some((transition_id, ChampionRequest::Seed {
            world_id: world,
            genome_id,
            reason,
        })) && transition_id@ == "evolve-"@ + run_id + "-seed"@ && world@ == world_id && genome_id@
            == from_genome_id && reason@ == "evolve run "@ + run_id
            + " generation-zero genesis seed"@,
    }
}

/// Decides what a requested evolution run leads to.
pub fn evolve_start(facts: EvolutionFacts, registry: &Registry, command: Command) -> (result: Result<
    EvolutionOpening,
    ExecuteError,
>)
    requires
        registry.wf(),
    ensures
        match command {
            Command::EvolveStart {
                run_id,
                world_id,
                from_genome_id,
                generations,
                budget,
                strategy_id,
            } => if facts.working || (facts.active_run is Some && facts.active_run->0@ != run_id@) {
                result == Err::<EvolutionOpening, ExecuteError>(ExecuteError::Busy)
            } else if facts.existing is Some {
                if configured_as(
                    facts.existing->0,
                    world_id@,
                    from_genome_id@,
                    generations,
                    budget,
                    json::held(strategy_id),
                ) {
                    result == Ok::<EvolutionOpening, ExecuteError>(
                        EvolutionOpening::Existing(facts.existing->0),
                    )
                } else {
                    error::outcome(result) == Err::<EvolutionOpening, Refusal>(
                        Refusal::Rejected(
                            "run_id is already bound to a different evolution configuration"@,
                        ),
                    )
                }
            } else {
                match evolution_refusal(
                    facts,
                    *registry,
                    run_id@,
                    world_id@,
                    from_genome_id@,
                    json::held(strategy_id),
                ) {
                    Some(refusal) => result matches Err(error) && error@ == refusal,
                    None => result matches Ok(EvolutionOpening::Start { seed, payload }) && seeds(
                        seed,
                        facts.champion,
                        run_id@,
                        world_id@,
                        from_genome_id@,
                    ) && is_baseline(
                        *registry,
                        world_id@,
                        from_genome_id@,
                        payload.baseline_genome_id@,
                    ) && payload == (EvolutionStartedPayload {
                        schema_version: 1,
                        run_id,
                        world_id,
                        from_genome_id,
                        baseline_genome_id: payload.baseline_genome_id,
                        max_generations: generations,
                        max_paired_trials: budget,
                        strategy_id,
                    }),
                }
            },
            _ => result == Err::<EvolutionOpening, ExecuteError>(ExecuteError::Internal),
        },
{
    match command {
        Command::EvolveStart {
            run_id,
            world_id,
            from_genome_id,
            generations,
            budget,
            strategy_id,
        } => {
            if facts.working {
                return Err(ExecuteError::Busy);
            }
            if let Some(active) = &facts.active_run {
                if !text::text_eq(active.as_str(), run_id.as_str()) {
                    return Err(ExecuteError::Busy);
                }
            }
            if let Some(existing) = facts.existing {
                if !text::text_eq(existing.world_id.as_str(), world_id.as_str())
                    || !text::text_eq(existing.from_genome_id.as_str(), from_genome_id.as_str())
                    || existing.max_generations != generations || existing.max_paired_trials
                    != budget || !crate::forge::same_held(&existing.strategy_id, &strategy_id) {
                    return Err(
                        rejected("run_id is already bound to a different evolution configuration"),
                    );
                }
                return Ok(EvolutionOpening::Existing(existing));
            }
            if strategy_id.is_some() && !facts.strategy_registered {
                return Err(ExecuteError::NotFound);
            }
            if !registry.worlds.contains_key(world_id.as_str()) {
                return Err(ExecuteError::NotFound);
            }
            match registry.genomes.get(from_genome_id.as_str()) {
                None => {
                    return Err(ExecuteError::NotFound);
                },
                Some(entry) => {
                    if !text::text_eq(entry.record.world_id.as_str(), world_id.as_str()) {
                        return Err(
                            rejected("from_genome_id is not compiled under the requested World"),
                        );
                    }
                },
            }
            let baseline_genome_id: String = match baseline_genome(
                registry,
                world_id.as_str(),
                from_genome_id.as_str(),
            ) {
                Some(baseline) => baseline,
                None => {
                    return Err(
                        rejected(
                            "World needs at least one other registered Genome to serve as the evolve engine's comparison baseline",
                        ),
                    );
                },
            };
            let seed: Option<(String, ChampionRequest)> = match &facts.champion {
                Some(current) => {
                    if !text::text_eq(current.as_str(), from_genome_id.as_str()) {
                        return Err(rejected("World Champion does not match from_genome_id"));
                    }
                    None
                },
                None => Some(
                    (
                        ids::wrap("evolve-", run_id.as_str(), "-seed"),
                        ChampionRequest::Seed {
                            world_id: world_id.clone(),
                            genome_id: from_genome_id.clone(),
                            reason: ids::wrap(
                                "evolve run ",
                                run_id.as_str(),
                                " generation-zero genesis seed",
                            ),
                        },
                    ),
                ),
            };
            proof {
                assert(has_peer(*registry, world_id@, from_genome_id@));
            }
            Ok(
                EvolutionOpening::Start {
                    seed,
                    payload: EvolutionStartedPayload {
                        schema_version: 1,
                        run_id,
                        world_id,
                        from_genome_id,
                        baseline_genome_id,
                        max_generations: generations,
                        max_paired_trials: budget,
                        strategy_id,
                    },
                },
            )
        },
        _ => Err(ExecuteError::Internal),
    }
}

/// What a requested cancellation of an evolution run leads to.
pub enum EvolutionCancellation {
    /// The run has finished or is being cancelled; it is the answer.
    Settled(EvolutionRunRecord),
    /// Running work is cancelled, and then this is recorded.
    Cancel(EvolutionCancelPayload),
}

/// Decides what a requested cancellation of an evolution run leads to.
pub fn evolve_cancel(run: Option<EvolutionRunRecord>) -> (result: Result<
    EvolutionCancellation,
    ExecuteError,
>)
    ensures
        result == (match run {
            None => Err(ExecuteError::NotFound),
            Some(run) => if run.state == EvolutionRunState::Finished || run.cancel_requested {
                Ok(EvolutionCancellation::Settled(run))
            } else {
                Ok(
                    EvolutionCancellation::Cancel(
                        EvolutionCancelPayload { schema_version: 1, run_id: run.run_id },
                    ),
                )
            },
        }),
{
    match run {
        None => Err(ExecuteError::NotFound),
        Some(run) => if run.state == EvolutionRunState::Finished || run.cancel_requested {
            Ok(EvolutionCancellation::Settled(run))
        } else {
            Ok(
                EvolutionCancellation::Cancel(
                    EvolutionCancelPayload { schema_version: 1, run_id: run.run_id },
                ),
            )
        },
    }
}

/// What one tick of the daemon does to the active evolution run.
#[derive(Clone, Copy, Debug, PartialEq, Eq, Structural)]
pub enum EvolutionTick {
    /// Nothing.
    Idle,
    /// The run finishes.
    Finish(EvolutionFinishReason),
    /// A generation advances by one step.
    Generation(u32),
}

/// What one tick of the daemon does to the active evolution run.
pub open spec fn evolution_tick(working: bool, frozen: bool, run: Option<EvolutionRunRecord>) -> EvolutionTick {
    if working || frozen || run is None || run->0.state == EvolutionRunState::Finished {
        EvolutionTick::Idle
    } else {
        let run = run->0;
        let completed = run.generations@.len();
        if run.cancel_requested {
            EvolutionTick::Finish(EvolutionFinishReason::Cancelled)
        } else if completed > u32::MAX {
            EvolutionTick::Idle
        } else if completed >= run.max_generations {
            EvolutionTick::Finish(EvolutionFinishReason::GenerationsExhausted)
        } else if over_budget(run) {
            EvolutionTick::Finish(EvolutionFinishReason::BudgetExhausted)
        } else {
            EvolutionTick::Generation(completed as u32)
        }
    }
}

/// Whether one more generation would exceed the trial budget of a run.
pub open spec fn over_budget(run: EvolutionRunRecord) -> bool {
    let needed = run.trials_consumed + TRIALS_PER_GENERATION;
    if needed > u64::MAX {
        u64::MAX > run.max_paired_trials
    } else {
        needed > run.max_paired_trials
    }
}

/// Decides what one tick of the daemon does to the active evolution run. `working` tells
/// whether a job or a paired evaluation runs.
pub fn advance_evolution(working: bool, frozen: bool, run: Option<&EvolutionRunRecord>) -> (result: EvolutionTick)
    ensures
        result == evolution_tick(
            working,
            frozen,
            match run {
                Some(run) => Some(*run),
                None => None,
            },
        ),
{
    if working || frozen {
        return EvolutionTick::Idle;
    }
    let run: &EvolutionRunRecord = match run {
        Some(run) => run,
        None => {
            return EvolutionTick::Idle;
        },
    };
    if run.state == EvolutionRunState::Finished {
        return EvolutionTick::Idle;
    }
    if run.cancel_requested {
        return EvolutionTick::Finish(EvolutionFinishReason::Cancelled);
    }
    let completed: u64 = run.generations.len() as u64;
    if completed > u32::MAX as u64 {
        return EvolutionTick::Idle;
    }
    let generation_index: u32 = completed as u32;
    if generation_index >= run.max_generations {
        return EvolutionTick::Finish(EvolutionFinishReason::GenerationsExhausted);
    }
    if run.trials_consumed.saturating_add(TRIALS_PER_GENERATION) > run.max_paired_trials {
        return EvolutionTick::Finish(EvolutionFinishReason::BudgetExhausted);
    }
    EvolutionTick::Generation(generation_index)
}

/// A generation only begins within the limits of its run: below its generation limit, and,
/// but for a limit that no counter reaches, with its trials within the trial budget.
pub proof fn generations_stay_within_limits(working: bool, frozen: bool, run: EvolutionRunRecord, index: u32)
    requires
        evolution_tick(working, frozen, Some(run)) == EvolutionTick::Generation(index),
    ensures
        index == run.generations@.len(),
        index < run.max_generations,
        run.max_paired_trials < u64::MAX ==> run.trials_consumed + TRIALS_PER_GENERATION
            <= run.max_paired_trials,
        !frozen && !working && !run.cancel_requested && run.state == EvolutionRunState::Running,
{
}

/// Decides what the outcome of a generation step means for its run: a failure other than a
/// busy daemon interrupts it.
pub fn settle_generation(outcome: &Result<(), ExecuteError>) -> (result: Option<EvolutionFinishReason>)
    ensures
        result == (match *outcome {
            Ok(()) => None,
            Err(ExecuteError::Busy) => None,
            Err(_) => Some(EvolutionFinishReason::Interrupted),
        }),
{
    match outcome {
        Ok(()) => None,
        Err(ExecuteError::Busy) => None,
        Err(_) => Some(EvolutionFinishReason::Interrupted),
    }
}

/// What finishing a run records; nothing where it has finished.
pub fn finish_evolution_run(run: &EvolutionRunRecord, reason: EvolutionFinishReason) -> (result: Result<
    Option<EvolutionFinishedPayload>,
    ExecuteError,
>)
    ensures
        if run.state == EvolutionRunState::Finished {
            result == Ok::<Option<EvolutionFinishedPayload>, ExecuteError>(None)
        } else if run.generations@.len() > u32::MAX {
            result == Err::<Option<EvolutionFinishedPayload>, ExecuteError>(ExecuteError::Internal)
        } else {
            result == Ok::<Option<EvolutionFinishedPayload>, ExecuteError>(
                Some(
                    EvolutionFinishedPayload {
                        schema_version: 1,
                        run_id: run.run_id,
                        generations_completed: run.generations@.len() as u32,
                        trials_consumed: run.trials_consumed,
                        reason,
                    },
                ),
            )
        },
{
    if run.state == EvolutionRunState::Finished {
        return Ok(None);
    }
    let completed: u64 = run.generations.len() as u64;
    if completed > u32::MAX as u64 {
        return Err(ExecuteError::Internal);
    }
    Ok(
        Some(
            EvolutionFinishedPayload {
                schema_version: 1,
                run_id: run.run_id.clone(),
                generations_completed: completed as u32,
                trials_consumed: run.trials_consumed,
                reason,
            },
        ),
    )
}

/// The Champion that a run has reached.
pub open spec fn champion_of(run: EvolutionRunRecord) -> Seq<char> {
    if run.generations@.len() == 0 {
        run.from_genome_id@
    } else {
        run.generations@.last().payload.champion_after@
    }
}

/// Finds the Champion that a run has reached.
pub fn champion_after(run: &EvolutionRunRecord) -> (result: String)
    ensures
        result@ == champion_of(*run),
{
    let count: usize = run.generations.len();
    if count == 0 {
        run.from_genome_id.clone()
    } else {
        run.generations[count - 1].payload.champion_after.clone()
    }
}

} // verus!
