use popsim::AgeGroup;
use popsim::Rate;
use popsim::SharedWorld;
use popsim::WorldState;

fn single_group_world(population: u32, birth: Rate, death: Rate) -> WorldState {
    let groups = vec![AgeGroup::new(0, 100, birth, death)];
    WorldState::new(population, groups)
}

#[test]
fn scenario_a_default_table_no_events() {
    let mut w = WorldState::initial();
    assert_eq!(w.tick, 1);
    assert_eq!(w.population, 100);
    let r = w.step(false, false);
    // births: round(100*0.2) + round(100*0.3) + round(100*0.25) + round(100*0.25)
    assert_eq!(r.births, 20 + 30 + 25 + 25);
    // deaths: round(100*0.1) + round(100*0.05) + round(100*0.02) + round(100*0.02)
    assert_eq!(r.deaths, 10 + 5 + 2 + 2);
    assert_eq!(r.population, 100 + 100 - 19);
    assert_eq!(r.tick, 2);
    assert_eq!(w.population, 181);
    assert_eq!(w.tick, 2);
    assert!(!r.scarcity);
    assert!(!r.illness);
}

#[test]
fn scenario_b_deaths_exactly_drain_population() {
    let mut w = single_group_world(5, Rate::new(0, 1), Rate::new(1, 1));
    let r = w.step(false, false);
    assert_eq!(r.births, 0);
    assert_eq!(r.deaths, 5);
    assert_eq!(r.population, 0);
    assert_eq!(w.population, 0);
}

#[test]
fn scenario_c_deaths_exceed_population_clamp_to_zero() {
    // death rate 2.5, doubled by an illness event to 5.0 during the step
    let mut w = single_group_world(3, Rate::new(0, 1), Rate::new(5, 2));
    let r = w.step(false, true);
    assert_eq!(r.deaths, 15); // round(3 * 5.0), far above the population
    assert_eq!(r.population, 0); // clamped, not negative
    assert_eq!(w.population, 0);
}

#[test]
fn lookup_is_inclusive_on_both_bounds() {
    let w = WorldState::initial();
    assert_eq!(w.get_birth_rate(16), Rate::new(2, 10));
    assert_eq!(w.get_death_rate(16), Rate::new(1, 10));
    assert_eq!(w.get_birth_rate(30), Rate::new(3, 10));
    assert_eq!(w.get_death_rate(60), Rate::new(2, 100));
}

#[test]
fn lookup_takes_first_matching_band_in_scan_order() {
    // age 21 sits on the boundary of the first two bands; the scan returns
    // the first one
    let w = WorldState::initial();
    assert_eq!(w.get_birth_rate(21), Rate::new(2, 10));
    assert_eq!(w.get_death_rate(21), Rate::new(1, 10));
}

#[test]
fn lookup_miss_returns_neutral_zero_rate() {
    let w = WorldState::initial();
    assert_eq!(w.get_birth_rate(10), Rate::new(0, 1));
    assert_eq!(w.get_death_rate(10), Rate::new(0, 1));
    assert_eq!(w.get_birth_rate(61), Rate::new(0, 1));
    assert_eq!(w.get_death_rate(100), Rate::new(0, 1));
}

#[test]
fn scarcity_halves_birth_rates_and_compounds() {
    let mut w = single_group_world(10, Rate::new(2, 10), Rate::new(1, 10));
    w.step(true, false);
    assert_eq!(w.get_birth_rate(50), Rate::new(2, 20));
    w.step(true, false);
    // two consecutive scarcity events: exactly the original rate times 1/4
    assert_eq!(w.get_birth_rate(50), Rate::new(2, 40));
    // death rates untouched by scarcity
    assert_eq!(w.get_death_rate(50), Rate::new(1, 10));
}

#[test]
fn illness_doubles_death_rates_and_compounds() {
    let mut w = single_group_world(10, Rate::new(2, 10), Rate::new(1, 10));
    w.step(false, true);
    assert_eq!(w.get_death_rate(50), Rate::new(2, 10));
    w.step(false, true);
    assert_eq!(w.get_death_rate(50), Rate::new(4, 10));
    assert_eq!(w.get_birth_rate(50), Rate::new(2, 10));
}

#[test]
fn tick_increments_by_one_per_step() {
    let mut w = WorldState::initial();
    assert_eq!(w.tick, 1);
    for expected in 2..=5u32 {
        w.step(false, false);
        assert_eq!(w.tick, expected);
    }
}

#[test]
fn advance_increments_tick_whatever_events_fire() {
    let mut w = WorldState::initial();
    for expected in 2..=10u32 {
        let r = w.advance();
        assert_eq!(w.tick, expected);
        assert_eq!(r.tick, expected);
        assert_eq!(r.population, w.population);
    }
}

#[test]
fn rate_apply_rounds_half_away_from_zero() {
    assert_eq!(Rate::new(1, 2).apply(5), 3); // 2.5 rounds to 3
    assert_eq!(Rate::new(1, 3).apply(1), 0); // 0.33.. rounds to 0
    assert_eq!(Rate::new(2, 3).apply(1), 1); // 0.66.. rounds to 1
    assert_eq!(Rate::new(1, 1).apply(7), 7);
    assert_eq!(Rate::zero().apply(1000), 0);
}

#[test]
fn population_addition_clamps_at_representable_max() {
    let mut w = single_group_world(u32::MAX, Rate::new(1, 1), Rate::new(0, 1));
    let r = w.step(false, false);
    assert_eq!(r.births, u32::MAX);
    assert_eq!(w.population, u32::MAX); // saturated, not wrapped
}

#[test]
fn random_population_range_is_respected() {
    let groups = vec![AgeGroup::new(0, 100, Rate::new(1, 10), Rate::new(1, 10))];
    let w = WorldState::new_with_population_range(5, 5, groups.clone());
    assert_eq!(w.population, 5);
    assert_eq!(w.tick, 1);
    for _ in 0..20 {
        let w = WorldState::new_with_population_range(10, 20, groups.clone());
        assert!(10 <= w.population && w.population <= 20);
    }
}

#[test]
fn snapshot_copies_tick_and_population_together() {
    let mut w = WorldState::initial();
    let s = w.snapshot();
    assert_eq!(s.tick, 1);
    assert_eq!(s.population, 100);
    w.step(false, false);
    let s = w.snapshot();
    assert_eq!(s.tick, 2);
    assert_eq!(s.population, 181);
}

#[test]
fn shared_world_query_sees_whole_steps_only() {
    let shared = SharedWorld::new(WorldState::initial());
    let s0 = shared.query();
    assert_eq!(s0.tick, 1);
    assert_eq!(s0.population, 100);
    let r = shared.step_once();
    assert_eq!(r.tick, 2);
    let s1 = shared.query();
    assert_eq!(s1.tick, 2);
    assert_eq!(s1.population, r.population);
}

#[test]
fn shared_world_ticks_move_forward_across_queries() {
    let shared = SharedWorld::new(WorldState::initial());
    let mut last_tick = 0u32;
    for _ in 0..50 {
        shared.step_once();
        let s = shared.query();
        assert!(s.tick > last_tick);
        last_tick = s.tick;
    }
    assert_eq!(last_tick, 51);
}
