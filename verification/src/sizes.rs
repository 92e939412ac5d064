//! Amounts of memory, each in its own unit.

use vstd::prelude::*;

verus! {

pub struct GigaBytes(pub u64);

pub struct MegaBytes(pub u64);

pub struct KiloBytes(pub u64);

pub struct Bytes(pub u64);

impl GigaBytes {
    pub fn new(size: u64) -> (r: Self)
        ensures
            r.0 == size,
    {
        Self(size)
    }
}

} // verus!
