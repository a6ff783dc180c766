//! The library's laws: the general properties of the step rule and the rate
//! lookup, stated over the model and proved once and for all.

use vstd::prelude::*;

use crate::rate::Rate;
use crate::step::spec_adjust_group;
use crate::step::spec_adjust_groups;
use crate::step::spec_births;
use crate::step::spec_deaths;
use crate::step::spec_run;
use crate::step::spec_step;
use crate::world::AgeGroup;
use crate::world::WorldModel;
use crate::world::first_match;
use crate::world::first_match_from;
use crate::world::spec_birth_rate;
use crate::world::spec_death_rate;

verus! {

/// Monotonic tick: one step advances the tick by exactly 1 whenever the
/// counter has room.
pub proof fn lemma_tick_increments(w: WorldModel, scarcity: bool, illness: bool)
    requires
        w.tick < u32::MAX,
    ensures
        spec_step(w, scarcity, illness).tick == w.tick + 1,
{
}

/// Monotonic tick over a whole run: after any sequence of steps — whatever
/// events fired — the tick stands exactly one higher per step, as long as the
/// counter cannot saturate.
pub proof fn lemma_tick_monotonic(w: WorldModel, events: Seq<(bool, bool)>)
    requires
        w.tick + events.len() <= u32::MAX,
    ensures
        spec_run(w, events).tick == w.tick + events.len(),
    decreases events.len(),
{
    if events.len() > 0 {
        lemma_tick_monotonic(spec_step(w, events[0].0, events[0].1), events.drop_first());
    }
}

/// Fixed table cardinality: no run of steps ever changes the number of age
/// groups — steps mutate only the rates inside the table.
pub proof fn lemma_group_count_fixed(w: WorldModel, events: Seq<(bool, bool)>)
    ensures
        spec_run(w, events).age_groups.len() == w.age_groups.len(),
    decreases events.len(),
{
    if events.len() > 0 {
        lemma_group_count_fixed(spec_step(w, events[0].0, events[0].1), events.drop_first());
    }
}

/// Non-negative population: after any run of steps the population is a
/// non-negative count, however large the death total grows — the unsigned
/// representation and the clamped subtraction leave no way below zero.
pub proof fn lemma_population_never_negative(w: WorldModel, events: Seq<(bool, bool)>)
    ensures
        spec_run(w, events).population >= 0,
{
}

/// The clamp itself: when a step's deaths meet or exceed the start-of-step
/// population plus its births, the population lands exactly on zero rather
/// than wrapping past it.
pub proof fn lemma_population_clamps_at_zero(w: WorldModel, scarcity: bool, illness: bool)
    requires
        spec_deaths(spec_adjust_groups(w.age_groups, scarcity, illness), w.population)
            >= w.population.saturating_add(
            spec_births(spec_adjust_groups(w.age_groups, scarcity, illness), w.population),
        ),
    ensures
        spec_step(w, scarcity, illness).population == 0,
{
}

proof fn lemma_first_match_from_reaches(groups: Seq<AgeGroup>, age: u32, k: int, i: int)
    requires
        0 <= k <= i < groups.len(),
        groups[i].contains(age),
        forall|j: int| k <= j < i ==> !(#[trigger] groups[j]).contains(age),
    ensures
        first_match_from(groups, age, k) == Some(groups[i]),
    decreases i - k,
{
    if k < i {
        lemma_first_match_from_reaches(groups, age, k + 1, i);
    }
}

proof fn lemma_first_match_from_misses(groups: Seq<AgeGroup>, age: u32, k: int)
    requires
        0 <= k,
        forall|j: int| k <= j < groups.len() ==> !(#[trigger] groups[j]).contains(age),
    ensures
        first_match_from(groups, age, k) is None,
    decreases groups.len() - k,
{
    if k < groups.len() {
        lemma_first_match_from_misses(groups, age, k + 1);
    }
}

/// Scan order of the lookup: if `groups[i]` is the first band that contains
/// `age`, the lookup yields exactly that band's rates.
pub proof fn lemma_lookup_first_match(groups: Seq<AgeGroup>, age: u32, i: int)
    requires
        0 <= i < groups.len(),
        groups[i].contains(age),
        forall|j: int| 0 <= j < i ==> !(#[trigger] groups[j]).contains(age),
    ensures
        first_match(groups, age) == Some(groups[i]),
        spec_birth_rate(groups, age) == groups[i].birth_rate,
        spec_death_rate(groups, age) == groups[i].death_rate,
{
    lemma_first_match_from_reaches(groups, age, 0, i);
}

/// Inclusive bounds: an age exactly equal to a band's `min_age` or `max_age`
/// belongs to that band, so when no earlier band captures it the lookup
/// returns that band's rates.
pub proof fn lemma_lookup_inclusive_bounds(groups: Seq<AgeGroup>, age: u32, i: int)
    requires
        0 <= i < groups.len(),
        groups[i].min_age <= groups[i].max_age,
        age == groups[i].min_age || age == groups[i].max_age,
        forall|j: int| 0 <= j < i ==> !(#[trigger] groups[j]).contains(age),
    ensures
        spec_birth_rate(groups, age) == groups[i].birth_rate,
        spec_death_rate(groups, age) == groups[i].death_rate,
{
    lemma_lookup_first_match(groups, age, i);
}

/// An age that no band contains looks up to the neutral zero rate.
pub proof fn lemma_lookup_no_match(groups: Seq<AgeGroup>, age: u32)
    requires
        forall|j: int| 0 <= j < groups.len() ==> !(#[trigger] groups[j]).contains(age),
    ensures
        spec_birth_rate(groups, age) == Rate::spec_zero(),
        spec_death_rate(groups, age) == Rate::spec_zero(),
{
    lemma_first_match_from_misses(groups, age, 0);
}

/// Event compounding: a scarcity event on each of two consecutive steps
/// scales a group's birth rate by exactly 1/2 twice — the denominator
/// quadruples while the numerator is untouched, the exact representation of
/// the original rate times 0.25 — so modifications compound rather than
/// reset. (The hypothesis on the denominator keeps both halvings exactly
/// representable.)
pub proof fn lemma_scarcity_compounds(w: WorldModel, e1: (bool, bool), e2: (bool, bool), i: int)
    requires
        e1.0,
        e2.0,
        0 <= i < w.age_groups.len(),
        w.age_groups[i].birth_rate.den <= u64::MAX / 4,
    ensures
        ({
            let orig = w.age_groups[i].birth_rate;
            spec_run(w, seq![e1, e2]).age_groups[i].birth_rate == (Rate {
                num: orig.num,
                den: (orig.den * 4) as u64,
            })
        }),
{
    lemma_two_steps_adjust_twice(w, e1, e2, i);
    let orig = w.age_groups[i].birth_rate;
    assert(spec_run(w, seq![e1, e2]).age_groups[i].birth_rate == orig.spec_halved().spec_halved());
}

/// Event compounding on the death side: an illness event on each of two
/// consecutive steps scales a group's death rate by exactly 2 twice — the
/// numerator quadruples while the denominator is untouched. (The hypothesis
/// on the numerator keeps both doublings exactly representable.)
pub proof fn lemma_illness_compounds(w: WorldModel, e1: (bool, bool), e2: (bool, bool), i: int)
    requires
        e1.1,
        e2.1,
        0 <= i < w.age_groups.len(),
        w.age_groups[i].death_rate.num <= u64::MAX / 4,
    ensures
        ({
            let orig = w.age_groups[i].death_rate;
            spec_run(w, seq![e1, e2]).age_groups[i].death_rate == (Rate {
                num: (orig.num * 4) as u64,
                den: orig.den,
            })
        }),
{
    lemma_two_steps_adjust_twice(w, e1, e2, i);
    let orig = w.age_groups[i].death_rate;
    assert(spec_run(w, seq![e1, e2]).age_groups[i].death_rate == orig.spec_doubled().spec_doubled());
}

/// A run of two steps applies the event modifiers to each group twice over.
proof fn lemma_two_steps_adjust_twice(w: WorldModel, e1: (bool, bool), e2: (bool, bool), i: int)
    requires
        0 <= i < w.age_groups.len(),
    ensures
        spec_run(w, seq![e1, e2]).age_groups[i] == spec_adjust_group(
            spec_adjust_group(w.age_groups[i], e1.0, e1.1),
            e2.0,
            e2.1,
        ),
{
    let s2 = seq![e1, e2];
    let s1 = seq![e2];
    assert(s2.drop_first() =~= s1);
    assert(s1.drop_first() =~= Seq::<(bool, bool)>::empty());
    let w1 = spec_step(w, e1.0, e1.1);
    let w2 = spec_step(w1, e2.0, e2.1);
    assert(s2[0] == e1 && s1[0] == e2);
    assert(spec_run(w, s2) == spec_run(w1, s1));
    assert(spec_run(w1, s1) == spec_run(w2, s1.drop_first()));
    assert(spec_run(w2, Seq::<(bool, bool)>::empty()) == w2);
    assert(w1.age_groups[i] == spec_adjust_group(w.age_groups[i], e1.0, e1.1));
    assert(w2.age_groups[i] == spec_adjust_group(w1.age_groups[i], e2.0, e2.1));
}

} // verus!
