//! Registered Worlds and Genomes, as far as decisions read them.

use crate::ordered::OrderedMap;
use crate::records::{GenomeRecord, WorldRecord};
use crate::text;
use vstd::prelude::*;

verus! {

/// One registered World and what its compiled policy says.
pub struct WorldEntry {
    /// Registration record.
    pub record: WorldRecord,
    /// Identity that the compiler derives.
    pub compiled_id: String,
    /// Manifest of the visible Arena tasks, where the World binds one.
    pub visible_manifest: Option<String>,
    /// Manifest of the sealed Arena tasks, where the World binds one.
    pub sealed_manifest: Option<String>,
    /// Arena evaluator, where the World binds one.
    pub evaluator: Option<String>,
    /// Whether parent and candidate may run under different environments.
    pub allow_mixed_environments: bool,
    /// Ceiling on the cost of a run, in micro-US dollars.
    pub maximum_cost_microusd: u64,
    /// Whether the mutation scope authorizes harness mutations.
    pub harness_mutations: bool,
    /// Whether a recorded drift starts a canary by itself.
    pub auto_canary_on_drift: bool,
}

/// One registered Genome and what its compiled form says.
pub struct GenomeEntry {
    /// Registration record.
    pub record: GenomeRecord,
    /// Model provider that the Genome selects.
    pub model_provider: String,
    /// Content address of the reserved prompt, where the Genome has one.
    pub prompt_artifact_id: Option<String>,
    /// Sequence of the event that registered the Genome.
    pub registration_sequence: u64,
    /// Parents that the compiled Genome names.
    pub compiled_parents: Vec<String>,
    /// Canonical source of the compiled Genome.
    pub canonical_json: Vec<u8>,
}

/// Every registered World and Genome, by identity.
pub struct Registry {
    /// Worlds by identity.
    pub worlds: OrderedMap<WorldEntry>,
    /// Genomes by identity.
    pub genomes: OrderedMap<GenomeEntry>,
    /// Names of the model providers that run as external executables.
    pub providers: Vec<String>,
}

impl Registry {
    /// Both maps are well formed, and two providers run as external executables, the first of
    /// them under a fixed name.
    pub open spec fn wf(self) -> bool {
        self.worlds.wf() && self.genomes.wf() && self.providers@.len() == 2
            && self.providers@[0]@ == FIRST_PROVIDER@
    }

    /// A registry that holds no Worlds and no Genomes. `second_provider` names the model provider
    /// that runs as an external executable beside the first.
    pub fn new(second_provider: String) -> (result: Self)
        ensures
            result.wf(),
            result.providers@[1] == second_provider,
            result.worlds@ == Map::<Seq<char>, WorldEntry>::empty(),
            result.genomes@ == Map::<Seq<char>, GenomeEntry>::empty(),
    {
        let mut providers: Vec<String> = Vec::new();
        providers.push(FIRST_PROVIDER.to_owned());
        providers.push(second_provider);
        Registry { worlds: OrderedMap::new(), genomes: OrderedMap::new(), providers }
    }
}

/// The first of the model providers that run as external executables.
pub const FIRST_PROVIDER: &'static str = "codex";

/// Whether a model provider is one of those that run as external executables.
pub open spec fn external_provider(registry: Registry, model_provider: Seq<char>) -> bool {
    text::texts(registry.providers@).contains(model_provider)
}

/// Two model providers run as external executables, and every other text names none.
pub proof fn two_providers_are_external(registry: Registry, model_provider: Seq<char>)
    requires
        registry.wf(),
    ensures
        external_provider(registry, model_provider) <==> (model_provider == FIRST_PROVIDER@
            || model_provider == registry.providers@[1]@),
{
    let names = text::texts(registry.providers@);
    assert(names[0] == FIRST_PROVIDER@ && names[1] == registry.providers@[1]@);
    if names.contains(model_provider) {
        let at = names.index_of(model_provider);
        assert(at == 0 || at == 1);
    }
}

impl Registry {
    /// The place of `model_provider` among the providers that run as external executables.
    pub fn provider_index(&self, model_provider: &str) -> (result: Option<usize>)
        ensures
            match result {
                Some(i) => i < self.providers@.len() && self.providers@[i as int]@ == model_provider@
                    && forall|j: int| 0 <= j < i ==> self.providers@[j]@ != model_provider@,
                None => !external_provider(*self, model_provider@),
            },
    {
        for i in 0..self.providers.len()
            invariant
                forall|j: int| 0 <= j < i ==> self.providers@[j]@ != model_provider@,
        {
            if text::text_eq(self.providers[i].as_str(), model_provider) {
                return Some(i);
            }
        }
        assert(forall|j: int|
            0 <= j < self.providers@.len() ==> text::texts(self.providers@)[j]
                == self.providers@[j]@);
        None
    }

    /// Whether `model_provider` runs as an external executable.
    pub fn is_external_provider(&self, model_provider: &str) -> (result: bool)
        ensures
            result == external_provider(*self, model_provider@),
    {
        match self.provider_index(model_provider) {
            Some(i) => {
                assert(text::texts(self.providers@)[i as int] == model_provider@);
                true
            },
            None => false,
        }
    }
}

} // verus!
