//! Random draws and the stochastic entry points built on them.
//!
//! The two wrappers below are the only places where the library touches the
//! random number generator; everything downstream of a draw is verified for
//! every value the draw could return.

use vstd::prelude::*;

use rand::Rng;

use crate::step::StepRecord;
use crate::step::spec_record;
use crate::step::spec_step;
use crate::world::AgeGroup;
use crate::world::WorldState;

verus! {

/// Relies on rand's `Rng::gen_ratio`: returns `true` with probability
/// `num / den`. It panics when `den == 0` or `num > den`, so those inputs are
/// excluded; nothing is promised of the outcome itself.
#[verifier::external_body]
fn draw_event(num: u32, den: u32) -> bool
    requires
        1 <= den,
        num <= den,
{
    rand::thread_rng().gen_ratio(num, den)
}

/// Relies on rand's `Rng::gen_range` on an inclusive integer range: returns
/// a value in `[lo, hi]`. It panics on an empty range, so `lo <= hi` is
/// required.
#[verifier::external_body]
fn draw_uniform(lo: u32, hi: u32) -> (r: u32)
    requires
        lo <= hi,
    ensures
        lo <= r <= hi,
{
    rand::thread_rng().gen_range(lo..=hi)
}

/// Scarcity fires with probability 1/20 (5%) on each step.
pub const SCARCITY_NUM: u32 = 1;

pub const SCARCITY_DEN: u32 = 20;

/// Illness fires with probability 1/5 (20%) on each step.
pub const ILLNESS_NUM: u32 = 1;

pub const ILLNESS_DEN: u32 = 5;

impl WorldState {
    /// One full tick as the scheduler drives it: draw the two independent
    /// event flags with their fixed probabilities, then run the deterministic
    /// step rule with them. The contract holds whichever way the draws came
    /// out: the new state and the record are those of one step with some pair
    /// of flags.
    pub fn advance(&mut self) -> (r: StepRecord)
        requires
            old(self).wf(),
        ensures
            final(self).wf(),
            exists|s: bool, ill: bool|
                final(self)@ == spec_step(old(self)@, s, ill) && r == spec_record(
                    old(self)@,
                    s,
                    ill,
                ),
    {
        let scarcity = draw_event(SCARCITY_NUM, SCARCITY_DEN);
        let illness = draw_event(ILLNESS_NUM, ILLNESS_DEN);
        let r = self.step(scarcity, illness);
        proof {
            assert(self@ == spec_step(old(self)@, scarcity, illness) && r == spec_record(
                old(self)@,
                scarcity,
                illness,
            ));
        }
        r
    }

    /// The initialization policy that draws the initial population uniformly
    /// from the inclusive range `[lo, hi]` instead of taking a fixed value.
    pub fn new_with_population_range(lo: u32, hi: u32, age_groups: Vec<AgeGroup>) -> (w: WorldState)
        requires
            lo <= hi,
            forall|i: int| 0 <= i < age_groups@.len() ==> (#[trigger] age_groups@[i]).wf(),
        ensures
            w@.tick == 1,
            lo <= w@.population <= hi,
            w@.age_groups == age_groups@,
            w.wf(),
    {
        let population = draw_uniform(lo, hi);
        WorldState::new(population, age_groups)
    }
}

} // verus!
