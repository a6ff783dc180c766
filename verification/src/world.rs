//! The world state: current tick, total population, and the age-stratified
//! rate table. The state is constructed once and then mutated in place, one
//! step per tick, by the step rule in `step`.

use vstd::prelude::*;

use crate::rate::Rate;

verus! {

/// One age band: an inclusive age range with its birth and death rates.
#[derive(Clone, Copy, PartialEq, Eq, Structural, Debug)]
pub struct AgeGroup {
    pub min_age: u32,
    pub max_age: u32,
    pub birth_rate: Rate,
    pub death_rate: Rate,
}

impl AgeGroup {
    pub open spec fn wf(self) -> bool {
        self.birth_rate.wf() && self.death_rate.wf()
    }

    /// Band membership is inclusive on both ends.
    pub open spec fn contains(self, age: u32) -> bool {
        self.min_age <= age && age <= self.max_age
    }

    pub fn new(min_age: u32, max_age: u32, birth_rate: Rate, death_rate: Rate) -> (g: AgeGroup)
        ensures
            g == (AgeGroup { min_age, max_age, birth_rate, death_rate }),
    {
        AgeGroup { min_age, max_age, birth_rate, death_rate }
    }
}

/// The mathematical model of a world state: what contracts speak of.
pub ghost struct WorldModel {
    pub tick: u32,
    pub population: u32,
    pub age_groups: Seq<AgeGroup>,
}

impl WorldModel {
    pub open spec fn wf(self) -> bool {
        forall|i: int| 0 <= i < self.age_groups.len() ==> #[trigger] self.age_groups[i].wf()
    }
}

/// The single shared world state: tick index, total population and the age
/// group table. The table's cardinality is fixed at construction; only the
/// rates inside it are ever mutated, and only by the step rule.
pub struct WorldState {
    pub tick: u32,
    pub population: u32,
    pub age_groups: Vec<AgeGroup>,
}

impl View for WorldState {
    type V = WorldModel;

    open spec fn view(&self) -> WorldModel {
        WorldModel { tick: self.tick, population: self.population, age_groups: self.age_groups@ }
    }
}

/// The first group in scan order that contains `age`, starting at index `i`.
pub open spec fn first_match_from(groups: Seq<AgeGroup>, age: u32, i: int) -> Option<AgeGroup>
    decreases groups.len() - i,
{
    if i < 0 || i >= groups.len() {
        None
    } else if groups[i].contains(age) {
        Some(groups[i])
    } else {
        first_match_from(groups, age, i + 1)
    }
}

/// The first group in scan order that contains `age`, if any.
pub open spec fn first_match(groups: Seq<AgeGroup>, age: u32) -> Option<AgeGroup> {
    first_match_from(groups, age, 0)
}

/// The birth rate that a lookup for `age` yields: the first matching band's
/// rate, or the neutral zero rate when no band matches.
pub open spec fn spec_birth_rate(groups: Seq<AgeGroup>, age: u32) -> Rate {
    match first_match(groups, age) {
        Some(g) => g.birth_rate,
        None => Rate::spec_zero(),
    }
}

/// The death rate that a lookup for `age` yields, analogously.
pub open spec fn spec_death_rate(groups: Seq<AgeGroup>, age: u32) -> Rate {
    match first_match(groups, age) {
        Some(g) => g.death_rate,
        None => Rate::spec_zero(),
    }
}

/// The default age band table: four inclusive bands with their baseline
/// birth and death rates (16–21: 0.2/0.1, 21–30: 0.3/0.05, 31–40: 0.25/0.02,
/// 41–60: 0.25/0.02). Ages below 16 match no band; age 21 matches the first
/// band by scan order.
pub open spec fn spec_default_groups() -> Seq<AgeGroup> {
    seq![
        AgeGroup {
            min_age: 16u32,
            max_age: 21u32,
            birth_rate: Rate { num: 2u64, den: 10u64 },
            death_rate: Rate { num: 1u64, den: 10u64 },
        },
        AgeGroup {
            min_age: 21u32,
            max_age: 30u32,
            birth_rate: Rate { num: 3u64, den: 10u64 },
            death_rate: Rate { num: 5u64, den: 100u64 },
        },
        AgeGroup {
            min_age: 31u32,
            max_age: 40u32,
            birth_rate: Rate { num: 25u64, den: 100u64 },
            death_rate: Rate { num: 2u64, den: 100u64 },
        },
        AgeGroup {
            min_age: 41u32,
            max_age: 60u32,
            birth_rate: Rate { num: 25u64, den: 100u64 },
            death_rate: Rate { num: 2u64, den: 100u64 },
        },
    ]
}

impl WorldState {
    pub open spec fn wf(self) -> bool {
        self@.wf()
    }

    /// The default configuration: initial population 100 and the default age
    /// band table, at tick 1.
    pub fn initial() -> (w: WorldState)
        ensures
            w@.tick == 1,
            w@.population == 100,
            w@.age_groups == spec_default_groups(),
            w.wf(),
    {
        let mut groups: Vec<AgeGroup> = Vec::new();
        groups.push(AgeGroup::new(16, 21, Rate::new(2, 10), Rate::new(1, 10)));
        groups.push(AgeGroup::new(21, 30, Rate::new(3, 10), Rate::new(5, 100)));
        groups.push(AgeGroup::new(31, 40, Rate::new(25, 100), Rate::new(2, 100)));
        groups.push(AgeGroup::new(41, 60, Rate::new(25, 100), Rate::new(2, 100)));
        proof {
            assert(groups@ =~= spec_default_groups());
        }
        WorldState::new(100, groups)
    }

    /// A fresh world: the tick index starts at 1.
    pub fn new(population: u32, age_groups: Vec<AgeGroup>) -> (w: WorldState)
        requires
            forall|i: int| 0 <= i < age_groups@.len() ==> (#[trigger] age_groups@[i]).wf(),
        ensures
            w@ == (WorldModel { tick: 1u32, population, age_groups: age_groups@ }),
            w.wf(),
    {
        WorldState { tick: 1, population, age_groups }
    }

    /// The first group that contains `age`, scanning the table in order.
    pub fn find_group(&self, age: u32) -> (r: Option<AgeGroup>)
        ensures
            r == first_match(self.age_groups@, age),
    {
        let groups = &self.age_groups;
        let n = groups.len();
        let mut i: usize = 0;
        while i < n
            invariant
                0 <= i <= n,
                n == groups@.len(),
                groups@ == self.age_groups@,
                first_match(groups@, age) == first_match_from(groups@, age, i as int),
            decreases n - i,
        {
            let g = groups[i];
            if g.min_age <= age && age <= g.max_age {
                proof {
                    assert(first_match_from(groups@, age, i as int) == Some(g));
                }
                return Some(g);
            }
            i = i + 1;
        }
        None
    }

    /// The birth rate for the given age: the first matching band's rate
    /// (bounds inclusive on both ends), or 0 if no band matches.
    pub fn get_birth_rate(&self, age: u32) -> (r: Rate)
        ensures
            r == spec_birth_rate(self.age_groups@, age),
    {
        match self.find_group(age) {
            Some(g) => g.birth_rate,
            None => Rate::zero(),
        }
    }

    /// The death rate for the given age, analogously.
    pub fn get_death_rate(&self, age: u32) -> (r: Rate)
        ensures
            r == spec_death_rate(self.age_groups@, age),
    {
        match self.find_group(age) {
            Some(g) => g.death_rate,
            None => Rate::zero(),
        }
    }
}

} // verus!
