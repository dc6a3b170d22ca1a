use vstd::prelude::*;

verus! {

/// A fuel pump; its view is whether it is running.
pub struct Pump {
    is_active: bool,
}

impl View for Pump {
    type V = bool;

    closed spec fn view(&self) -> bool {
        self.is_active
    }
}

impl Pump {
    /// A pump that is not running.
    pub fn new() -> (p: Self)
        ensures
            !p@,
    {
        Pump { is_active: false }
    }

    /// Whether the pump is running.
    pub fn is_active(&self) -> (r: bool)
        ensures
            r == self@,
    {
        self.is_active
    }

    /// Starts the pump.
    pub fn activate(&mut self)
        ensures
            final(self)@,
    {
        self.is_active = true;
    }

    /// Stops the pump.
    pub fn deactivate(&mut self)
        ensures
            !final(self)@,
    {
        self.is_active = false;
    }
}

/// A valve; its view is whether it is open.
pub struct Valve {
    is_open: bool,
}

impl View for Valve {
    type V = bool;

    closed spec fn view(&self) -> bool {
        self.is_open
    }
}

impl Valve {
    /// A closed valve.
    pub fn new() -> (v: Self)
        ensures
            !v@,
    {
        Valve { is_open: false }
    }

    /// Whether the valve is open.
    pub fn is_open(&self) -> (r: bool)
        ensures
            r == self@,
    {
        self.is_open
    }

    /// Opens the valve.
    pub fn open(&mut self)
        ensures
            final(self)@,
    {
        self.is_open = true;
    }

    /// Closes the valve.
    pub fn close(&mut self)
        ensures
            !final(self)@,
    {
        self.is_open = false;
    }
}

} // verus!
