use vstd::prelude::*;
use vstd::arithmetic::div_mod::lemma_div_multiples_vanish_quotient;
use vstd::arithmetic::mul::lemma_mul_nonnegative;

verus! {

/// Full engine power, as an engine level in millionths.
pub const LEVEL_SCALE: u64 = 1_000_000;

/// Service ceiling in feet; the burn from engine power vanishes there.
pub const MAX_ALTITUDE: u64 = 40_000;

/// Maximum takeoff weight in kilograms.
pub const MTOW: u64 = 319_000;

/// Kilograms per tonne.
pub const KG_PER_TONNE: u64 = 1_000;

/// Microliters per liter.
pub const UL_PER_LITER: u64 = 1_000_000;

/// Reference payload figure: the takeoff weight figure 319000 less the weight of
/// full tanks (100000 L center, two 56000 L wings) at a density of 0.8.
/// The payload term of the burn rate is the payload in tonnes over this figure.
pub const MAX_PAYLOAD: u64 = 319_000 - (100_000 * 8 / 10 + 2 * 56_000 * 8 / 10);

/// Largest burn rate, in microliters per second, that the burn model gives
/// on its input domain: full power on both engines at sea level with the
/// heaviest payload.
pub const MAX_BURN_RATE: u64 = 1_001_067;

/// Denominator of the burn rate once the formula is brought over one fraction
/// in lowest terms.
const BURN_DENOM: u64 = 59_760_000;

/// Weight of the engine term over `BURN_DENOM`.
const ENGINE_WEIGHT: u64 = 747;

/// Weight of the payload term over `BURN_DENOM`.
const PAYLOAD_WEIGHT: u64 = 200_000;

/// The inputs that the burn model is defined on.
pub open spec fn burn_inputs_in_range(n1_level: int, n2_level: int, altitude: int, payload: int) -> bool {
    &&& 0 <= n1_level <= LEVEL_SCALE
    &&& 0 <= n2_level <= LEVEL_SCALE
    &&& 0 <= altitude <= MAX_ALTITUDE
    &&& 0 <= payload <= MTOW
}

/// The burn rate in microliters per second, rounded down:
///
///   n1 * (1 - altitude / 40000) * 0.5 + n2 * (1 - altitude / 40000) * 0.5
///     + (payload in tonnes / MAX_PAYLOAD) * 0.5   liters per second,
///
/// with `n1`, `n2` as fractions of full power. Each term is written here over
/// the units of the inputs, and the sum is taken over one common denominator.
pub open spec fn fuel_burn(n1_level: int, n2_level: int, altitude: int, payload: int) -> int {
    let engine_num = (n1_level + n2_level) * (MAX_ALTITUDE - altitude) * UL_PER_LITER;
    let engine_den = LEVEL_SCALE * MAX_ALTITUDE * 2;
    let payload_num = payload * UL_PER_LITER;
    let payload_den = KG_PER_TONNE * MAX_PAYLOAD * 2;
    (engine_num * payload_den + payload_num * engine_den) / (engine_den * payload_den)
}

/// Computes the fuel burn rate, in microliters per second, from the two engine
/// levels (millionths of full power), the altitude (feet) and the payload
/// (kilograms). The weight of the fuel on board plays no part in the rate.
pub fn calculate_fuel_burn(n1_level: u64, n2_level: u64, altitude: u64, payload: u64) -> (r: u64)
    requires
        burn_inputs_in_range(n1_level as int, n2_level as int, altitude as int, payload as int),
    ensures
        r == fuel_burn(n1_level as int, n2_level as int, altitude as int, payload as int),
        r <= MAX_BURN_RATE,
{
    let levels: u64 = n1_level + n2_level;
    let height_left: u64 = MAX_ALTITUDE - altitude;
    assert(levels * height_left <= 2 * LEVEL_SCALE * MAX_ALTITUDE) by (nonlinear_arith)
        requires levels <= 2 * LEVEL_SCALE, height_left <= MAX_ALTITUDE;
    let engine: u64 = levels * height_left * ENGINE_WEIGHT;
    let num: u64 = engine + payload * PAYLOAD_WEIGHT;
    let r: u64 = num / BURN_DENOM;
    proof {
        lemma_fuel_burn_reduced(n1_level as int, n2_level as int, altitude as int, payload as int);
        lemma_fuel_burn_bounded(n1_level as int, n2_level as int, altitude as int, payload as int);
    }
    r
}

proof fn lemma_fuel_burn_reduced(n1_level: int, n2_level: int, altitude: int, payload: int)
    requires
        burn_inputs_in_range(n1_level, n2_level, altitude, payload),
    ensures
        fuel_burn(n1_level, n2_level, altitude, payload)
            == ((n1_level + n2_level) * (MAX_ALTITUDE - altitude) * ENGINE_WEIGHT
                + payload * PAYLOAD_WEIGHT) / (BURN_DENOM as int),
{
    let e = (n1_level + n2_level) * (MAX_ALTITUDE - altitude);
    let factor: int = 400_000_000_000;
    let small = e * ENGINE_WEIGHT + payload * PAYLOAD_WEIGHT;
    let ul = UL_PER_LITER as int;
    let engine_den = LEVEL_SCALE * MAX_ALTITUDE * 2;
    let payload_den = KG_PER_TONNE * MAX_PAYLOAD * 2;
    assert(payload_den == 298_800_000);
    assert(engine_den == 80_000_000_000);
    assert(e * ul * payload_den + payload * ul * engine_den == factor * small) by (nonlinear_arith)
        requires
            ul == 1_000_000,
            payload_den == 298_800_000,
            engine_den == 80_000_000_000,
            factor == 400_000_000_000,
            small == e * 747 + payload * 200_000,
    ;
    assert(engine_den * payload_den == factor * BURN_DENOM) by (nonlinear_arith)
        requires
            payload_den == 298_800_000,
            engine_den == 80_000_000_000,
            factor == 400_000_000_000,
            BURN_DENOM == 59_760_000,
    ;
    lemma_mul_nonnegative(n1_level + n2_level, MAX_ALTITUDE - altitude);
    lemma_div_multiples_vanish_quotient(factor, small, BURN_DENOM as int);
}

/// On its input domain the burn rate is never negative and never exceeds
/// the rate at full power on both engines, at sea level, with the heaviest payload.
pub proof fn lemma_fuel_burn_bounded(n1_level: int, n2_level: int, altitude: int, payload: int)
    requires
        burn_inputs_in_range(n1_level, n2_level, altitude, payload),
    ensures
        0 <= fuel_burn(n1_level, n2_level, altitude, payload),
        fuel_burn(n1_level, n2_level, altitude, payload) <= fuel_burn(
            LEVEL_SCALE as int,
            LEVEL_SCALE as int,
            0,
            MTOW as int,
        ),
        fuel_burn(LEVEL_SCALE as int, LEVEL_SCALE as int, 0, MTOW as int) == MAX_BURN_RATE,
{
    lemma_fuel_burn_reduced(n1_level, n2_level, altitude, payload);
    lemma_fuel_burn_reduced(LEVEL_SCALE as int, LEVEL_SCALE as int, 0, MTOW as int);
    let levels = n1_level + n2_level;
    let height_left = MAX_ALTITUDE - altitude;
    assert(0 <= levels * height_left <= 2 * LEVEL_SCALE * MAX_ALTITUDE) by (nonlinear_arith)
        requires 0 <= levels <= 2 * LEVEL_SCALE, 0 <= height_left <= MAX_ALTITUDE;
    let num = levels * height_left * ENGINE_WEIGHT + payload * PAYLOAD_WEIGHT;
    let top = (2 * LEVEL_SCALE) * MAX_ALTITUDE * ENGINE_WEIGHT + MTOW * PAYLOAD_WEIGHT;
    assert(0 <= num <= top);
    vstd::arithmetic::div_mod::lemma_div_is_ordered(num, top, BURN_DENOM as int);
    vstd::arithmetic::div_mod::lemma_div_pos_is_pos(num, BURN_DENOM as int);
    assert(top / (BURN_DENOM as int) == MAX_BURN_RATE);
}

} // verus!
