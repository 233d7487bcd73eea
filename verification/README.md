# Hephaestus control

The control plane of Hephaestus decides over commands, jobs, paired evaluations, Forge
proposals, Champions and evolution runs, and keeps a projection of an append-only event ledger.
This project states those decisions in contracts and proves them with Verus.

## Layout

- `src/` is the verified library. It does no I/O: what a decision rests on is handed in as plain
  values, and what is to be done comes back as one.
  - `protocol`, `records`, `registry`, `error`: the types that everything speaks of.
  - `state`, `state_laws`, `jobs`, `arena_jobs`, `projection`, `snapshot`, `evidence`: how history
    replays to a state, when two states show the same, and what holds of every state.
  - `commands`, `api`, `lists`: what requests are admitted, and how they are answered.
  - `admission`, `job_submit`, `arena_submit`, `arena_driver`, `execution`, `service`, `recovery`,
    `runs`: how work is admitted, carried out, served, ended and recovered.
  - `forge`, `forge_history`, `forge_laws`, `proposal`, `assess`, `mutation`, `mutation_laws`:
    proposals and assessments, that what is recorded verifies, and that a mutation can be taken
    back.
  - `transitions`, `evolution`, `generation`, `adaptation`, `genes`, `meta`: Champions, canaries,
    Genes, and the runs that evolve them.
  - `remote`: worker credentials and leases.
  - `files`, `environment`: what paths, keys, executables and revisions have to be.
  - `text`, `hex`, `digest`, `json`, `ids`, `ordered`: the ground it stands on.
- `app/` is the daemon around it: storage, sockets, and the JSON wire format. The ledger and the
  planes that compile, run and measure are given to it as implementations of its traits.
- `tests/` runs the library on concrete values.

Calls into `blake3`, `serde_json` and two functions of the standard library stand behind the
items in `digest`, `json`, `arena_jobs` and `text` whose contracts are taken on trust.
