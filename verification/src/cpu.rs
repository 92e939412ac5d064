//! Processor privilege levels.

use vstd::prelude::*;

verus! {

/// The four protection rings, ring 0 being the most privileged.
#[derive(Clone, Copy, Debug, PartialEq, Eq, Structural)]
pub enum CpuPrivilege {
    Ring0,
    Ring1,
    Ring2,
    Ring3,
}

impl CpuPrivilege {
    /// The number of the ring.
    pub open spec fn ring(self) -> u16 {
        match self {
            CpuPrivilege::Ring0 => 0,
            CpuPrivilege::Ring1 => 1,
            CpuPrivilege::Ring2 => 2,
            CpuPrivilege::Ring3 => 3,
        }
    }

    /// The number of the ring, as the two low bits of a selector hold it.
    pub fn into(self) -> (r: u16)
        ensures
            r == self.ring(),
    {
        match self {
            CpuPrivilege::Ring0 => 0,
            CpuPrivilege::Ring1 => 1,
            CpuPrivilege::Ring2 => 2,
            CpuPrivilege::Ring3 => 3,
        }
    }
}

} // verus!
