//! Single-flight admission: one run at a time.

use vstd::prelude::*;

verus! {

/// Whether a run is in flight. A run is admitted only while none is, and
/// no other is admitted until it is over.
pub struct RunGate {
    running: bool,
}

impl View for RunGate {
    type V = bool;

    /// `true` while a run is in flight.
    closed spec fn view(&self) -> bool {
        self.running
    }
}

impl RunGate {
    /// No run in flight.
    pub fn new() -> (gate: Self)
        ensures
            !gate@,
    {
        RunGate { running: false }
    }

    pub fn is_running(&self) -> (running: bool)
        ensures
            running == self@,
    {
        self.running
    }

    /// Asks for a run to be admitted. It is admitted where none is in
    /// flight, and is in flight from then on; otherwise nothing changes.
    pub fn try_acquire(&mut self) -> (admitted: bool)
        ensures
            admitted == !old(self)@,
            final(self)@,
    {
        if self.running {
            false
        } else {
            self.running = true;
            true
        }
    }

    /// Marks the run as over, whether or not one was in flight.
    pub fn release(&mut self)
        ensures
            !final(self)@,
    {
        self.running = false;
    }
}

} // verus!
