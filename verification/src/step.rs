//! The step rule: exactly one tick of the demographic model.
//!
//! A step advances the tick, applies the two event modifiers (scarcity halves
//! every birth rate, illness doubles every death rate — cumulatively and
//! permanently), computes total births and deaths from the modified rates and
//! the start-of-step population, and updates the population with saturating
//! arithmetic (clamped at zero and at the representable maximum, never
//! wrapped).

use vstd::prelude::*;

use crate::world::AgeGroup;
use crate::world::WorldModel;
use crate::world::WorldState;

verus! {

/// What one completed step reports to the logging collaborator: the new tick,
/// the resulting population, the step's birth and death totals, and the two
/// event flags.
#[derive(Clone, Copy, PartialEq, Eq, Structural, Debug)]
pub struct StepRecord {
    pub tick: u32,
    pub population: u32,
    pub births: u32,
    pub deaths: u32,
    pub scarcity: bool,
    pub illness: bool,
}

/// One age group after a step's event modifiers: scarcity halves the birth
/// rate, illness doubles the death rate; the age bounds never change.
pub open spec fn spec_adjust_group(g: AgeGroup, scarcity: bool, illness: bool) -> AgeGroup {
    AgeGroup {
        min_age: g.min_age,
        max_age: g.max_age,
        birth_rate: if scarcity { g.birth_rate.spec_halved() } else { g.birth_rate },
        death_rate: if illness { g.death_rate.spec_doubled() } else { g.death_rate },
    }
}

/// The whole table after a step's event modifiers.
pub open spec fn spec_adjust_groups(groups: Seq<AgeGroup>, scarcity: bool, illness: bool) -> Seq<
    AgeGroup,
> {
    groups.map_values(|g: AgeGroup| spec_adjust_group(g, scarcity, illness))
}

/// Total births for one step: the saturating sum over all groups of the
/// rounded product of the start-of-step population and the group's birth
/// rate.
pub open spec fn spec_births(groups: Seq<AgeGroup>, pop: u32) -> u32
    decreases groups.len(),
{
    if groups.len() == 0 {
        0u32
    } else {
        spec_births(groups.drop_last(), pop).saturating_add(
            groups.last().birth_rate.spec_apply(pop),
        )
    }
}

/// Total deaths for one step, analogously over the death rates.
pub open spec fn spec_deaths(groups: Seq<AgeGroup>, pop: u32) -> u32
    decreases groups.len(),
{
    if groups.len() == 0 {
        0u32
    } else {
        spec_deaths(groups.drop_last(), pop).saturating_add(
            groups.last().death_rate.spec_apply(pop),
        )
    }
}

/// The world after exactly one step with the given event flags. The tick
/// clamps at `u32::MAX` instead of wrapping; the population clamps at both
/// unsigned bounds.
pub open spec fn spec_step(w: WorldModel, scarcity: bool, illness: bool) -> WorldModel {
    let groups = spec_adjust_groups(w.age_groups, scarcity, illness);
    let births = spec_births(groups, w.population);
    let deaths = spec_deaths(groups, w.population);
    WorldModel {
        tick: if w.tick < u32::MAX {
            (w.tick + 1) as u32
        } else {
            u32::MAX
        },
        population: w.population.saturating_add(births).saturating_sub(deaths),
        age_groups: groups,
    }
}

/// The record that one step with the given event flags emits.
pub open spec fn spec_record(w: WorldModel, scarcity: bool, illness: bool) -> StepRecord {
    let after = spec_step(w, scarcity, illness);
    let groups = spec_adjust_groups(w.age_groups, scarcity, illness);
    StepRecord {
        tick: after.tick,
        population: after.population,
        births: spec_births(groups, w.population),
        deaths: spec_deaths(groups, w.population),
        scarcity,
        illness,
    }
}

/// The world after a whole run of steps, one per event pair, in order.
pub open spec fn spec_run(w: WorldModel, events: Seq<(bool, bool)>) -> WorldModel
    decreases events.len(),
{
    if events.len() == 0 {
        w
    } else {
        spec_run(spec_step(w, events[0].0, events[0].1), events.drop_first())
    }
}

/// Saturating sum of the rounded birth contributions of every group.
fn total_births(groups: &Vec<AgeGroup>, pop: u32) -> (t: u32)
    requires
        forall|j: int| 0 <= j < groups@.len() ==> (#[trigger] groups@[j]).wf(),
    ensures
        t == spec_births(groups@, pop),
{
    let n = groups.len();
    let mut t: u32 = 0;
    let mut i: usize = 0;
    while i < n
        invariant
            0 <= i <= n,
            n == groups@.len(),
            forall|j: int| 0 <= j < n ==> (#[trigger] groups@[j]).wf(),
            t == spec_births(groups@.take(i as int), pop),
        decreases n - i,
    {
        let share = groups[i].birth_rate.apply(pop);
        proof {
            assert(groups@.take(i as int + 1).drop_last() =~= groups@.take(i as int));
            assert(groups@.take(i as int + 1).last() == groups@[i as int]);
        }
        t = t.saturating_add(share);
        i = i + 1;
    }
    proof {
        assert(groups@.take(n as int) =~= groups@);
    }
    t
}

/// Saturating sum of the rounded death contributions of every group.
fn total_deaths(groups: &Vec<AgeGroup>, pop: u32) -> (t: u32)
    requires
        forall|j: int| 0 <= j < groups@.len() ==> (#[trigger] groups@[j]).wf(),
    ensures
        t == spec_deaths(groups@, pop),
{
    let n = groups.len();
    let mut t: u32 = 0;
    let mut i: usize = 0;
    while i < n
        invariant
            0 <= i <= n,
            n == groups@.len(),
            forall|j: int| 0 <= j < n ==> (#[trigger] groups@[j]).wf(),
            t == spec_deaths(groups@.take(i as int), pop),
        decreases n - i,
    {
        let share = groups[i].death_rate.apply(pop);
        proof {
            assert(groups@.take(i as int + 1).drop_last() =~= groups@.take(i as int));
            assert(groups@.take(i as int + 1).last() == groups@[i as int]);
        }
        t = t.saturating_add(share);
        i = i + 1;
    }
    proof {
        assert(groups@.take(n as int) =~= groups@);
    }
    t
}

impl WorldState {
    /// Execute exactly one tick of the demographic model, with the two event
    /// flags already drawn. Mutates the state in place; returns the record of
    /// the completed step.
    pub fn step(&mut self, scarcity: bool, illness: bool) -> (r: StepRecord)
        requires
            old(self).wf(),
        ensures
            final(self)@ == spec_step(old(self)@, scarcity, illness),
            final(self).wf(),
            r == spec_record(old(self)@, scarcity, illness),
    {
        let ghost gs0 = self.age_groups@;
        let ghost pop0 = self.population;

        // 1. Advance the tick (clamped at the representable maximum).
        if self.tick < u32::MAX {
            self.tick = self.tick + 1;
        }
        let ghost tick1 = self.tick;
        proof {
            assert forall|j: int| 0 <= j < gs0.len() implies (#[trigger] gs0[j]).wf() by {
                assert(old(self)@.age_groups[j].wf());
            }
        }

        // 2–3. Apply the event modifiers to every group, in place.
        let n = self.age_groups.len();
        let mut i: usize = 0;
        while i < n
            invariant
                0 <= i <= n,
                n == self.age_groups@.len(),
                gs0.len() == n,
                forall|j: int| 0 <= j < n ==> (#[trigger] gs0[j]).wf(),
                forall|j: int|
                    0 <= j < i ==> self.age_groups@[j] == spec_adjust_group(
                        #[trigger] gs0[j],
                        scarcity,
                        illness,
                    ),
                forall|j: int| i <= j < n ==> self.age_groups@[j] == #[trigger] gs0[j],
                self.tick == tick1,
                self.population == pop0,
            decreases n - i,
        {
            let mut g = self.age_groups[i];
            if scarcity {
                g.birth_rate.halve();
            }
            if illness {
                g.death_rate.double();
            }
            self.age_groups[i] = g;
            i = i + 1;
        }
        proof {
            assert(self.age_groups@ =~= spec_adjust_groups(gs0, scarcity, illness));
            assert forall|j: int| 0 <= j < self.age_groups@.len() implies (
            #[trigger] self.age_groups@[j]).wf() by {
                assert(gs0[j].wf());
            }
        }

        // 4–5. Births and deaths from the modified rates and the
        // start-of-step population.
        let births = total_births(&self.age_groups, self.population);
        let deaths = total_deaths(&self.age_groups, self.population);

        // 6. Update the population, clamped at both unsigned bounds.
        self.population = self.population.saturating_add(births).saturating_sub(deaths);

        StepRecord {
            tick: self.tick,
            population: self.population,
            births,
            deaths,
            scarcity,
            illness,
        }
    }
}

} // verus!
