//! Decision core of the control plane.

pub mod adaptation;
pub mod adaptation_laws;
pub mod admission;
pub mod api;
pub mod apply_laws;
pub mod arena_driver;
pub mod arena_jobs;
pub mod arena_submit;
pub mod assess;
pub mod command_laws;
pub mod commands;
pub mod digest;
pub mod ending_laws;
pub mod environment;
pub mod error;
pub mod evidence;
pub mod evolution;
pub mod evolution_laws;
pub mod execution;
pub mod file_laws;
pub mod files;
pub mod forge;
pub mod forge_history;
pub mod forge_laws;
pub mod generation;
pub mod genes;
pub mod hex;
pub mod history_laws;
pub mod ids;
pub mod job_laws;
pub mod job_submit;
pub mod jobs;
pub mod json;
pub mod list_laws;
pub mod lists;
pub mod match_laws;
pub mod meta;
pub mod meta_laws;
pub mod mutation;
pub mod mutation_laws;
pub mod ordered;
pub mod pair_laws;
pub mod projection;
pub mod proposal;
pub mod proposal_laws;
pub mod protocol;
pub mod record_laws;
pub mod records;
pub mod recovery;
pub mod refusal_laws;
pub mod registry;
pub mod remote;
pub mod remote_laws;
pub mod run_laws;
pub mod runs;
pub mod service;
pub mod snapshot;
pub mod state;
pub mod state_laws;
pub mod text;
pub mod transition_laws;
pub mod transitions;
