//! An in-memory demographic simulation: a world state (tick, population,
//! age-stratified birth/death rates) advanced once per tick by a stepping
//! rule, with random environmental events scaling the rates, and a
//! lock-protected shared handle for concurrent readers.

mod laws;
mod random;
mod rate;
mod shared;
mod step;
mod world;

pub use laws::lemma_group_count_fixed;
pub use laws::lemma_illness_compounds;
pub use laws::lemma_lookup_first_match;
pub use laws::lemma_lookup_inclusive_bounds;
pub use laws::lemma_lookup_no_match;
pub use laws::lemma_population_clamps_at_zero;
pub use laws::lemma_population_never_negative;
pub use laws::lemma_scarcity_compounds;
pub use laws::lemma_tick_increments;
pub use laws::lemma_tick_monotonic;
pub use random::ILLNESS_DEN;
pub use random::ILLNESS_NUM;
pub use random::SCARCITY_DEN;
pub use random::SCARCITY_NUM;
pub use rate::Rate;
pub use shared::SharedWorld;
pub use shared::Snapshot;
pub use shared::WorldPred;
pub use step::StepRecord;
pub use step::spec_adjust_group;
pub use step::spec_adjust_groups;
pub use step::spec_births;
pub use step::spec_deaths;
pub use step::spec_record;
pub use step::spec_run;
pub use step::spec_step;
pub use world::AgeGroup;
pub use world::WorldModel;
pub use world::WorldState;
pub use world::first_match;
pub use world::first_match_from;
pub use world::spec_birth_rate;
pub use world::spec_death_rate;
pub use world::spec_default_groups;
