//! The micro-op cycle counter that indexes each instruction's per-cycle table.

use vstd::prelude::*;

verus! {

/// Counts the cycles of the instruction in flight, from 0 to 15. A `reset`
/// parks it at -1 so that the tick that ends the current micro-op leaves it
/// at 0 for the next instruction.
#[derive(Clone, Copy, Debug, PartialEq, Eq, Structural, Default)]
pub struct Counter {
    pub value: i8,
}

/// The counter value after one tick.
pub open spec fn counter_next(c: Counter) -> Counter {
    if c.value >= 0x0F {
        Counter { value: 0 }
    } else {
        Counter { value: (c.value + 1) as i8 }
    }
}

impl Counter {
    /// Advance by one cycle, wrapping to 0 after 15.
    pub fn tick(&mut self)
        ensures
            *final(self) == counter_next(*old(self)),
    {
        if self.value >= 0x0F {
            self.value = 0;
            return;
        }

        self.value = self.value + 1;
    }

    /// Park the counter so the next tick starts a fresh instruction at 0.
    pub fn reset(&mut self)
        ensures
            final(self).value == -1,
    {
        self.value = -1;
    }
}

} // verus!
