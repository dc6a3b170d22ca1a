use vstd::prelude::*;
use crate::actuator::{Pump, Valve};
use crate::tank::{Tank, TankView};

verus! {

/// Capacity of the granular center tank, in microliters.
pub const CENTER_CAPACITY: u64 = 24_000_000_000;

/// Capacity of each inner wing tank, in microliters.
pub const INNER_WING_CAPACITY: u64 = 15_000_000_000;

/// Capacity of each outer wing tank, in microliters.
pub const OUTER_WING_CAPACITY: u64 = 5_000_000_000;

/// Number of pumps in the network.
pub const PUMP_COUNT: usize = 5;

/// The five tanks of the network, in the order of `FuelSystemView::tanks`.
#[derive(Clone, Copy, Debug, PartialEq, Eq, Structural)]
pub enum TankId {
    Center,
    LeftInner,
    LeftOuter,
    RightInner,
    RightOuter,
}

impl TankId {
    /// Position of the tank in `FuelSystemView::tanks`.
    pub open spec fn index(self) -> int {
        match self {
            TankId::Center => 0,
            TankId::LeftInner => 1,
            TankId::LeftOuter => 2,
            TankId::RightInner => 3,
            TankId::RightOuter => 4,
        }
    }
}

/// The network as a whole: its tanks in the order center, left inner,
/// left outer, right inner, right outer; whether the crossfeed valve is open;
/// and whether each pump is running.
pub struct FuelSystemView {
    pub tanks: Seq<TankView>,
    pub crossfeed_open: bool,
    pub pumps: Seq<bool>,
}

/// The granular fuel network: five tanks, one crossfeed valve and five pumps,
/// all owned by value.
pub struct FuelSystem {
    center_tank: Tank,
    left_inner_tank: Tank,
    left_outer_tank: Tank,
    right_inner_tank: Tank,
    right_outer_tank: Tank,
    crossfeed_valve: Valve,
    pumps: Vec<Pump>,
}

impl View for FuelSystem {
    type V = FuelSystemView;

    closed spec fn view(&self) -> FuelSystemView {
        FuelSystemView {
            tanks: seq![
                self.center_tank@,
                self.left_inner_tank@,
                self.left_outer_tank@,
                self.right_inner_tank@,
                self.right_outer_tank@,
            ],
            crossfeed_open: self.crossfeed_valve@,
            pumps: self.pumps@.map_values(|p: Pump| p@),
        }
    }
}

impl FuelSystem {
    #[verifier::type_invariant]
    spec fn has_all_pumps(self) -> bool {
        self.pumps@.len() == PUMP_COUNT
    }

    /// A network with empty tanks of the fixed capacities, a closed crossfeed
    /// valve and five pumps that are not running.
    pub fn new() -> (s: Self)
        ensures
            s@.tanks.len() == 5,
            s@.tanks[0] == (TankView { capacity: CENTER_CAPACITY as nat, volume: 0 }),
            s@.tanks[1] == (TankView { capacity: INNER_WING_CAPACITY as nat, volume: 0 }),
            s@.tanks[2] == (TankView { capacity: OUTER_WING_CAPACITY as nat, volume: 0 }),
            s@.tanks[3] == (TankView { capacity: INNER_WING_CAPACITY as nat, volume: 0 }),
            s@.tanks[4] == (TankView { capacity: OUTER_WING_CAPACITY as nat, volume: 0 }),
            !s@.crossfeed_open,
            s@.pumps == seq![false, false, false, false, false],
    {
        let s = FuelSystem {
            center_tank: Tank::new(CENTER_CAPACITY),
            left_inner_tank: Tank::new(INNER_WING_CAPACITY),
            left_outer_tank: Tank::new(OUTER_WING_CAPACITY),
            right_inner_tank: Tank::new(INNER_WING_CAPACITY),
            right_outer_tank: Tank::new(OUTER_WING_CAPACITY),
            crossfeed_valve: Valve::new(),
            pumps: vec![Pump::new(), Pump::new(), Pump::new(), Pump::new(), Pump::new()],
        };
        assert(s@.pumps =~= seq![false, false, false, false, false]);
        s
    }

    /// Advances the network by `delta_time` milliseconds. No transfer policy
    /// is defined yet, so the network is left as it is.
    pub fn update(&mut self, delta_time: u64)
        ensures
            final(self)@ == old(self)@,
    {
        let _ = delta_time;
    }

    /// One of the five tanks.
    pub fn tank(&self, id: TankId) -> (r: &Tank)
        ensures
            r@ == self@.tanks[id.index()],
    {
        match id {
            TankId::Center => &self.center_tank,
            TankId::LeftInner => &self.left_inner_tank,
            TankId::LeftOuter => &self.left_outer_tank,
            TankId::RightInner => &self.right_inner_tank,
            TankId::RightOuter => &self.right_outer_tank,
        }
    }

    /// The crossfeed valve.
    pub fn crossfeed_valve(&self) -> (r: &Valve)
        ensures
            r@ == self@.crossfeed_open,
    {
        &self.crossfeed_valve
    }

    /// The number of pumps, always five.
    pub fn pump_count(&self) -> (r: usize)
        ensures
            r == self@.pumps.len(),
            r == PUMP_COUNT,
    {
        proof {
            use_type_invariant(self);
        }
        self.pumps.len()
    }

    /// The pump at position `i`.
    pub fn pump(&self, i: usize) -> (r: &Pump)
        requires
            i < self@.pumps.len(),
        ensures
            r@ == self@.pumps[i as int],
    {
        &self.pumps[i]
    }
}

} // verus!
