//! Two-phase clock line shared between the CPU and the harness driving it.

use vstd::prelude::*;

verus! {

/// A clock line. The CPU acts on the low phase; whoever drives the system
/// toggles the line once per call of `tick`.
#[derive(Clone, Copy, Debug, PartialEq, Eq, Structural, Default)]
pub struct Clock {
    pub state: bool,
}

impl Clock {
    /// Toggle the clock line.
    pub fn tick(&mut self)
        ensures
            final(self).state == !old(self).state,
    {
        self.state = !self.state;
    }
}

} // verus!
