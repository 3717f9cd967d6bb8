//! Flat byte memory used as work RAM and by the standalone CPU harness.

use vstd::prelude::*;

verus! {

/// A zero-initialised byte array of `size + 1` cells, so that `size` is the
/// highest valid address.
#[derive(Clone, Debug)]
pub struct Memory {
    pub data: Vec<u8>,
    pub size: u32,
}

impl Memory {
    /// Allocate a memory whose addresses run from 0 through `size`.
    pub fn new(size: u32) -> (m: Memory)
        requires
            size < 0xFFFF_FFFF,
        ensures
            m.size == size,
            m.data@.len() == size + 1,
            forall|j: int| 0 <= j < m.data@.len() ==> m.data@[j] == 0u8,
    {
        let mut data: Vec<u8> = Vec::new();
        let mut i: u32 = 0;
        while i < size + 1
            invariant
                size < 0xFFFF_FFFF,
                i <= size + 1,
                data@.len() == i,
                forall|j: int| 0 <= j < i ==> data@[j] == 0u8,
            decreases size + 1 - i,
        {
            data.push(0);
            i = i + 1;
        }
        Memory { data, size }
    }
}

impl Default for Memory {
    /// Two kibibytes of work RAM, the size of the console's internal memory.
    fn default() -> (m: Memory)
        ensures
            m.size == 2048,
            m.data@.len() == 2049,
            forall|j: int| 0 <= j < m.data@.len() ==> m.data@[j] == 0u8,
    {
        Memory::new(2048)
    }
}

} // verus!
