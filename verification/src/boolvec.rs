//! Bits kept in a buffer of bytes.

use crate::error::QuantumError;
use vstd::prelude::*;

verus! {

pub struct BoolVec {
    buffer: Vec<u8>,
}

impl BoolVec {
    /// The bytes that hold the bits.
    pub closed spec fn view(&self) -> Seq<u8> {
        self.buffer@
    }

    pub fn new(buffer: Vec<u8>) -> (r: Self)
        ensures
            r@ == buffer@,
    {
        Self { buffer }
    }

    /// Moves the bits into `buffer`, which must be at least as long as the
    /// buffer in use. The bytes of `buffer` beyond that length stay as
    /// they are.
    pub fn transfer_expand(&mut self, buffer: Vec<u8>) -> (r: Result<(), QuantumError>)
        ensures
            buffer@.len() >= old(self)@.len() ==> r is Ok && final(self)@ == old(self)@
                + buffer@.subrange(old(self)@.len() as int, buffer@.len() as int),
            buffer@.len() < old(self)@.len() ==> r == Err::<(), QuantumError>(
                QuantumError::NoSpaceRemaining,
            ) && final(self)@ == old(self)@,
    {
        let mut buffer = buffer;
        let ghost given = buffer@;
        if buffer.len() >= self.buffer.len() {
            let mut i: usize = 0;
            while i < self.buffer.len()
                invariant
                    i <= self.buffer@.len() <= buffer@.len(),
                    buffer@.len() == given.len(),
                    forall|j: int| 0 <= j < i ==> buffer@[j] == self.buffer@[j],
                    forall|j: int| i <= j < buffer@.len() ==> buffer@[j] == given[j],
                decreases self.buffer@.len() - i,
            {
                buffer.set(i, self.buffer[i]);
                i += 1;
            }
            assert(buffer@ =~= self.buffer@ + given.subrange(
                self.buffer@.len() as int,
                given.len() as int,
            ));
            self.buffer = buffer;
            return Ok(());
        }
        Err(QuantumError::NoSpaceRemaining)
    }

    /// Turns every request away: no bit can be set through this door.
    pub fn set_bit(&mut self, bit_id: usize, value: bool) -> (r: Result<(), QuantumError>)
        requires
            bit_id / 8 <= old(self)@.len(),
        ensures
            r == Err::<(), QuantumError>(QuantumError::IndexOutOfRange),
            final(self)@ == old(self)@,
    {
        Err(QuantumError::IndexOutOfRange)
    }

    /// The number of bits that the buffer has room for.
    pub fn len(&self) -> (r: usize)
        requires
            self@.len() * 8 <= usize::MAX,
        ensures
            r == self@.len() * 8,
    {
        self.buffer.len() * 8
    }
}

} // verus!
