use vstd::prelude::*;
use crate::simulation::drained;

verus! {

/// What a tank holds, in microliters.
pub struct TankView {
    pub capacity: nat,
    pub volume: nat,
}

/// A volume after `amount` is added to it, with a ceiling at `capacity`.
pub open spec fn filled(volume: int, amount: int, capacity: int) -> int {
    if volume + amount > capacity {
        capacity
    } else {
        volume + amount
    }
}

/// A fuel tank of fixed capacity. Its volume never exceeds its capacity:
/// both mutators clamp silently.
pub struct Tank {
    capacity: u64,
    current_volume: u64,
}

impl View for Tank {
    type V = TankView;

    closed spec fn view(&self) -> TankView {
        TankView { capacity: self.capacity as nat, volume: self.current_volume as nat }
    }
}

impl Tank {
    #[verifier::type_invariant]
    spec fn within_capacity(self) -> bool {
        self.current_volume <= self.capacity
    }

    /// An empty tank of the given capacity, in microliters.
    pub fn new(capacity: u64) -> (t: Self)
        ensures
            t@ == (TankView { capacity: capacity as nat, volume: 0 }),
    {
        Tank { capacity, current_volume: 0 }
    }

    /// The tank's capacity, in microliters.
    pub fn capacity(&self) -> (r: u64)
        ensures
            r == self@.capacity,
    {
        self.capacity
    }

    /// The fuel in the tank, in microliters; never more than its capacity.
    pub fn current_volume(&self) -> (r: u64)
        ensures
            r == self@.volume,
            r <= self@.capacity,
    {
        proof {
            use_type_invariant(self);
        }
        self.current_volume
    }

    /// Adds `volume` microliters; what does not fit is lost.
    pub fn add_fuel(&mut self, volume: u64)
        ensures
            final(self)@.capacity == old(self)@.capacity,
            final(self)@.volume == filled(old(self)@.volume as int, volume as int, old(self)@.capacity as int),
            final(self)@.volume <= final(self)@.capacity,
    {
        proof {
            use_type_invariant(&*self);
        }
        if volume > self.capacity - self.current_volume {
            self.current_volume = self.capacity;
        } else {
            self.current_volume = self.current_volume + volume;
        }
    }

    /// Removes `volume` microliters, with a floor at zero.
    pub fn remove_fuel(&mut self, volume: u64)
        ensures
            final(self)@.capacity == old(self)@.capacity,
            final(self)@.volume == drained(old(self)@.volume as int, volume as int),
            final(self)@.volume <= final(self)@.capacity,
    {
        proof {
            use_type_invariant(&*self);
        }
        if self.current_volume >= volume {
            self.current_volume = self.current_volume - volume;
        } else {
            self.current_volume = 0;
        }
    }
}

} // verus!
