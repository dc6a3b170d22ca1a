use vstd::prelude::*;
use crate::burn::{burn_inputs_in_range, calculate_fuel_burn, fuel_burn};

verus! {

/// Capacity of the center tank, in microliters.
pub const CENTER_TANK_CAPACITY: u64 = 100_000_000_000;

/// Capacity of each wing tank, in microliters.
pub const WING_TANK_CAPACITY: u64 = 56_000_000_000;

/// The state of the aggregate simulation: the flight inputs, the three
/// aggregate tanks, the elapsed time and the last burn rate.
///
/// Engine levels are in millionths of full power, altitude in feet, payload
/// in kilograms, volumes in microliters, the burn rate in microliters per
/// second and time in seconds. Volumes are never negative; their upper
/// bounds (`CENTER_TANK_CAPACITY`, `WING_TANK_CAPACITY`) are not enforced.
#[derive(Clone, Copy, Debug, PartialEq, Eq, Structural)]
pub struct SimulationState {
    pub n1_level: u64,
    pub n2_level: u64,
    pub altitude: u64,
    pub center_tank_volume: u64,
    pub left_wing_tank_volume: u64,
    pub right_wing_tank_volume: u64,
    pub time_elapsed: u64,
    pub fuel_burn_rate: u64,
    pub payload: u64,
}

/// The share of a burn rate drawn from each wing tank: a quarter, rounded down.
pub open spec fn wing_share(burn_rate: int) -> int {
    burn_rate / 4
}

/// The share of a burn rate drawn from the center tank: what the two wing
/// shares leave, which is half the rate when the rate is a multiple of four
/// and never more than half the rate plus one microliter.
pub open spec fn center_share(burn_rate: int) -> int {
    burn_rate - 2 * wing_share(burn_rate)
}

/// A volume after `share` is drawn from it, with a floor at zero.
pub open spec fn drained(volume: int, share: int) -> int {
    if volume >= share {
        volume - share
    } else {
        0
    }
}

/// The state after one distribution of `burn_rate` over the three tanks.
pub open spec fn burned(s: SimulationState, burn_rate: int) -> SimulationState {
    SimulationState {
        center_tank_volume: drained(s.center_tank_volume as int, center_share(burn_rate)) as u64,
        left_wing_tank_volume: drained(s.left_wing_tank_volume as int, wing_share(burn_rate)) as u64,
        right_wing_tank_volume: drained(s.right_wing_tank_volume as int, wing_share(burn_rate)) as u64,
        ..s
    }
}

/// The state after one distribution for each rate of `rates`, in order.
pub open spec fn burned_in_turn(s: SimulationState, rates: Seq<u64>) -> SimulationState
    decreases rates.len(),
{
    if rates.len() == 0 {
        s
    } else {
        burned_in_turn(burned(s, rates[0] as int), rates.drop_first())
    }
}

/// Total fuel in the three aggregate tanks.
pub open spec fn total_volume(s: SimulationState) -> int {
    s.center_tank_volume + s.left_wing_tank_volume + s.right_wing_tank_volume
}

/// The state after one simulation step at the state's own inputs.
pub open spec fn stepped(s: SimulationState) -> SimulationState {
    let rate = fuel_burn(s.n1_level as int, s.n2_level as int, s.altitude as int, s.payload as int);
    SimulationState {
        fuel_burn_rate: rate as u64,
        time_elapsed: (s.time_elapsed + 1) as u64,
        ..burned(s, rate)
    }
}

/// Whether a state's inputs are in the burn model's domain.
pub open spec fn inputs_in_range(s: SimulationState) -> bool {
    burn_inputs_in_range(s.n1_level as int, s.n2_level as int, s.altitude as int, s.payload as int)
}

/// Draws `share` from `volume`, with a floor at zero.
fn drain(volume: u64, share: u64) -> (r: u64)
    ensures
        r == drained(volume as int, share as int),
{
    if volume >= share {
        volume - share
    } else {
        0
    }
}

impl SimulationState {
    /// The state at the start of a simulation: both engines at half power at
    /// 10000 ft with no payload, full aggregate tanks, no time elapsed and no
    /// burn rate computed yet.
    pub fn new() -> (s: Self)
        ensures
            s == (SimulationState {
                n1_level: 500_000,
                n2_level: 500_000,
                altitude: 10_000,
                center_tank_volume: CENTER_TANK_CAPACITY,
                left_wing_tank_volume: WING_TANK_CAPACITY,
                right_wing_tank_volume: WING_TANK_CAPACITY,
                time_elapsed: 0,
                fuel_burn_rate: 0,
                payload: 0,
            }),
            inputs_in_range(s),
    {
        SimulationState {
            n1_level: 500_000,
            n2_level: 500_000,
            altitude: 10_000,
            center_tank_volume: CENTER_TANK_CAPACITY,
            left_wing_tank_volume: WING_TANK_CAPACITY,
            right_wing_tank_volume: WING_TANK_CAPACITY,
            time_elapsed: 0,
            fuel_burn_rate: 0,
            payload: 0,
        }
    }
}

/// Distributes a burn rate over the three aggregate tanks: a quarter (rounded
/// down) from each wing tank and the rest from the center tank, each volume
/// with a floor at zero. Nothing else in the state changes.
pub fn simulate_fuel_burn(data: &mut SimulationState, burn_rate: u64)
    ensures
        *final(data) == burned(*old(data), burn_rate as int),
{
    let wing: u64 = burn_rate / 4;
    let center: u64 = burn_rate - 2 * wing;
    data.center_tank_volume = drain(data.center_tank_volume, center);
    data.left_wing_tank_volume = drain(data.left_wing_tank_volume, wing);
    data.right_wing_tank_volume = drain(data.right_wing_tank_volume, wing);
}

/// One simulation step of one second: computes the burn rate from the state's
/// inputs, records it, distributes it over the tanks and advances the clock.
pub fn simulate_step(data: &mut SimulationState)
    requires
        inputs_in_range(*old(data)),
        old(data).time_elapsed < u64::MAX,
    ensures
        *final(data) == stepped(*old(data)),
{
    let burn_rate = calculate_fuel_burn(data.n1_level, data.n2_level, data.altitude, data.payload);
    data.fuel_burn_rate = burn_rate;
    simulate_fuel_burn(data, burn_rate);
    data.time_elapsed = data.time_elapsed + 1;
}

/// The three shares of a burn rate add up to the rate exactly.
pub proof fn lemma_shares_sum_to_rate(burn_rate: int)
    requires
        0 <= burn_rate,
    ensures
        center_share(burn_rate) + wing_share(burn_rate) + wing_share(burn_rate) == burn_rate,
        0 <= wing_share(burn_rate) <= center_share(burn_rate),
{
}

/// Where no tank runs dry, a distribution takes exactly the burn rate out of
/// the three tanks together.
pub proof fn lemma_distribution_takes_rate(s: SimulationState, burn_rate: u64)
    requires
        s.center_tank_volume >= center_share(burn_rate as int),
        s.left_wing_tank_volume >= wing_share(burn_rate as int),
        s.right_wing_tank_volume >= wing_share(burn_rate as int),
    ensures
        total_volume(s) - total_volume(burned(s, burn_rate as int)) == burn_rate,
{
}

/// Tanks that are empty stay empty over any number of distributions, whatever
/// the rates.
pub proof fn lemma_empty_tanks_stay_empty(s: SimulationState, rates: Seq<u64>)
    requires
        s.center_tank_volume == 0,
        s.left_wing_tank_volume == 0,
        s.right_wing_tank_volume == 0,
    ensures
        burned_in_turn(s, rates).center_tank_volume == 0,
        burned_in_turn(s, rates).left_wing_tank_volume == 0,
        burned_in_turn(s, rates).right_wing_tank_volume == 0,
    decreases rates.len(),
{
    if rates.len() > 0 {
        lemma_empty_tanks_stay_empty(burned(s, rates[0] as int), rates.drop_first());
    }
}

} // verus!
