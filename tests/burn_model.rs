use fuel_sim::burn::{calculate_fuel_burn, MAX_BURN_RATE};
use fuel_sim::simulation::{simulate_fuel_burn, simulate_step, SimulationState};

fn state_with_volumes(center: u64, left: u64, right: u64) -> SimulationState {
    let mut s = SimulationState::new();
    s.center_tank_volume = center;
    s.left_wing_tank_volume = left;
    s.right_wing_tank_volume = right;
    s
}

#[test]
fn burn_at_half_power_and_ten_thousand_feet() {
    assert_eq!(calculate_fuel_burn(500_000, 500_000, 10_000, 0), 375_000);
}

#[test]
fn burn_is_largest_at_full_power_sea_level_heaviest_payload() {
    assert_eq!(calculate_fuel_burn(1_000_000, 1_000_000, 0, 319_000), MAX_BURN_RATE);
    assert_eq!(MAX_BURN_RATE, 1_001_067);
}

#[test]
fn burn_is_zero_with_engines_idle_and_no_payload() {
    assert_eq!(calculate_fuel_burn(0, 0, 0, 0), 0);
    assert_eq!(calculate_fuel_burn(1_000_000, 1_000_000, 40_000, 0), 0);
}

#[test]
fn burn_from_payload_alone() {
    // 319 t over the reference figure 149400, times half a liter per second:
    // 1067.6 microliters per second, rounded down.
    assert_eq!(calculate_fuel_burn(0, 0, 40_000, 319_000), 1_067);
    assert_eq!(calculate_fuel_burn(0, 0, 0, 149_400), 500);
}

#[test]
fn burn_from_one_engine() {
    // 1.0 * (1 - 20000/40000) * 0.5 = 0.25 L/s
    assert_eq!(calculate_fuel_burn(1_000_000, 0, 20_000, 0), 250_000);
}

#[test]
fn distribution_takes_exactly_the_rate() {
    let mut s = state_with_volumes(1_000, 1_000, 1_000);
    simulate_fuel_burn(&mut s, 400);
    assert_eq!(s.center_tank_volume, 800);
    assert_eq!(s.left_wing_tank_volume, 900);
    assert_eq!(s.right_wing_tank_volume, 900);
    assert_eq!(3_000 - (s.center_tank_volume + s.left_wing_tank_volume + s.right_wing_tank_volume), 400);
}

#[test]
fn distribution_gives_the_remainder_to_the_center() {
    let mut s = state_with_volumes(1_000, 1_000, 1_000);
    simulate_fuel_burn(&mut s, 11);
    assert_eq!(s.center_tank_volume, 993);
    assert_eq!(s.left_wing_tank_volume, 998);
    assert_eq!(s.right_wing_tank_volume, 998);
}

#[test]
fn distribution_leaves_other_fields_alone() {
    let mut s = SimulationState::new();
    let before = s;
    simulate_fuel_burn(&mut s, 375_000);
    assert_eq!(s.time_elapsed, before.time_elapsed);
    assert_eq!(s.fuel_burn_rate, before.fuel_burn_rate);
    assert_eq!(s.n1_level, before.n1_level);
    assert_eq!(s.payload, before.payload);
}

#[test]
fn distribution_floors_at_zero() {
    let mut s = state_with_volumes(10, 3, 100);
    simulate_fuel_burn(&mut s, 40);
    assert_eq!(s.center_tank_volume, 0);
    assert_eq!(s.left_wing_tank_volume, 0);
    assert_eq!(s.right_wing_tank_volume, 90);
}

#[test]
fn empty_tanks_stay_empty() {
    let mut s = state_with_volumes(0, 0, 0);
    for rate in [0u64, 1, 7, 375_000, MAX_BURN_RATE, u64::MAX] {
        simulate_fuel_burn(&mut s, rate);
        assert_eq!(s.center_tank_volume, 0);
        assert_eq!(s.left_wing_tank_volume, 0);
        assert_eq!(s.right_wing_tank_volume, 0);
    }
}

#[test]
fn one_step_from_the_initial_state() {
    let mut s = SimulationState::new();
    assert_eq!(s.center_tank_volume, 100_000_000_000);
    assert_eq!(s.left_wing_tank_volume, 56_000_000_000);
    simulate_step(&mut s);
    assert_eq!(s.fuel_burn_rate, 375_000);
    assert_eq!(s.center_tank_volume, 99_999_812_500);
    assert_eq!(s.left_wing_tank_volume, 55_999_906_250);
    assert_eq!(s.right_wing_tank_volume, 55_999_906_250);
    assert_eq!(s.time_elapsed, 1);
}

#[test]
fn steps_advance_the_clock_by_one_second_each() {
    let mut s = SimulationState::new();
    s.payload = 319_000;
    for _ in 0..3 {
        simulate_step(&mut s);
    }
    assert_eq!(s.time_elapsed, 3);
    assert_eq!(s.fuel_burn_rate, 376_067);
    assert_eq!(s.center_tank_volume, 100_000_000_000 - 3 * 188_035);
    assert_eq!(s.left_wing_tank_volume, 56_000_000_000 - 3 * 94_016);
}
