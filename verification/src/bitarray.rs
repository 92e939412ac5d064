//! A fixed number of bits, packed into words.

use crate::bits::bit_is_set;
use crate::bits::with_bit;
use vstd::prelude::*;

verus! {

/// The types that can serve as the words of a [`BitArray`].
pub trait BitInner: Sized {
    /// The word with no bit set.
    spec fn zero() -> Self;

    fn default_word() -> (r: Self)
        ensures
            r == Self::zero(),
    ;
}

impl BitInner for u8 {
    open spec fn zero() -> Self {
        0
    }

    fn default_word() -> (r: Self) {
        0
    }
}

impl BitInner for u16 {
    open spec fn zero() -> Self {
        0
    }

    fn default_word() -> (r: Self) {
        0
    }
}

impl BitInner for u32 {
    open spec fn zero() -> Self {
        0
    }

    fn default_word() -> (r: Self) {
        0
    }
}

impl BitInner for u64 {
    open spec fn zero() -> Self {
        0
    }

    fn default_word() -> (r: Self) {
        0
    }
}

impl BitInner for u128 {
    open spec fn zero() -> Self {
        0
    }

    fn default_word() -> (r: Self) {
        0
    }
}

impl BitInner for usize {
    open spec fn zero() -> Self {
        0
    }

    fn default_word() -> (r: Self) {
        0
    }
}

/// `N` words of bits. Bit `i` is bit `i % 64` of word `i / 64`.
#[derive(Clone, Copy, Debug)]
pub struct BitArray<T: BitInner, const N: usize> {
    pub array: [T; N],
}

impl<T: BitInner + Copy, const N: usize> BitArray<T, N> {
    /// An array whose words are all the word with no bit set.
    pub fn new() -> (r: Self)
        ensures
            r.array@.len() == N,
            forall|i: int| 0 <= i < N ==> r.array@[i] == T::zero(),
    {
        Self { array: [T::default_word(); N] }
    }
}

/// The number of bits in a word.
pub const WORD_BITS: usize = 64;

/// Every bit of the all-zero word is clear and every bit of the all-one
/// word is set.
pub proof fn lemma_uniform_words(bit: u64)
    requires
        bit < 64,
    ensures
        !bit_is_set(0, bit),
        bit_is_set(u64::MAX, bit),
{
    assert(bit < 64 ==> 0u64 & (1u64 << bit) == 0) by (bit_vector);
    assert(bit < 64 ==> 0xffff_ffff_ffff_ffffu64 & (1u64 << bit) != 0) by (bit_vector);
}

impl<const N: usize> BitArray<u64, N> {
    /// The number of bits in the array.
    pub open spec fn bits() -> int {
        N * 64
    }

    /// The value of bit `i`.
    pub open spec fn bit(&self, i: int) -> bool {
        bit_is_set(self.array@[i / 64], (i % 64) as u64)
    }

    /// All the bits, in order.
    pub open spec fn view(&self) -> Seq<bool> {
        Seq::new(Self::bits() as nat, |i: int| self.bit(i))
    }

    /// An array with no bit set.
    pub fn zeroed() -> (r: Self)
        ensures
            r@ == Seq::new(Self::bits() as nat, |i: int| false),
    {
        let r = Self { array: [0u64; N] };
        assert forall|i: int| 0 <= i < Self::bits() implies !r.bit(i) by {
            lemma_uniform_words((i % 64) as u64);
        }
        assert(r@ =~= Seq::new(Self::bits() as nat, |i: int| false));
        r
    }

    /// The value of the bit at `bit_at`.
    pub fn get(&self, bit_at: usize) -> (r: bool)
        requires
            bit_at < Self::bits(),
        ensures
            r == self@[bit_at as int],
    {
        let array_index: usize = bit_at / 64;
        let bit_index: usize = bit_at % 64;
        self.array[array_index] & (1u64 << bit_index as u64) != 0
    }

    /// Gives the bit at `bit_at` the value `bit_of`.
    pub fn set(&mut self, bit_at: usize, bit_of: bool)
        requires
            bit_at < Self::bits(),
        ensures
            final(self)@ == old(self)@.update(bit_at as int, bit_of),
    {
        let array_index: usize = bit_at / 64;
        let bit_index: usize = bit_at % 64;
        let word: u64 = self.array[array_index];
        let ghost before = *self;
        if bit_of {
            self.array[array_index] = word | (1u64 << bit_index as u64);
        } else {
            self.array[array_index] = word & !(1u64 << bit_index as u64);
        }
        assert forall|i: int| 0 <= i < Self::bits() implies self.bit(i) == if i == bit_at {
            bit_of
        } else {
            before.bit(i)
        } by {
            if i / 64 == array_index as int {
                crate::bits::lemma_with_bit(word, bit_index as u64, bit_of, (i % 64) as u64);
            }
        }
        assert(self@ =~= before@.update(bit_at as int, bit_of));
    }

    /// Gives every bit the value `bit_of`.
    pub fn set_all(&mut self, bit_of: bool)
        ensures
            final(self)@ == Seq::new(Self::bits() as nat, |i: int| bit_of),
    {
        let pattern: u64 = if bit_of {
            u64::MAX
        } else {
            0
        };
        let mut i: usize = 0;
        while i < N
            invariant
                i <= N,
                pattern == if bit_of {
                    u64::MAX
                } else {
                    0u64
                },
                forall|j: int| 0 <= j < i ==> #[trigger] self.array@[j] == pattern,
            decreases N - i,
        {
            self.array[i] = pattern;
            i += 1;
        }
        assert forall|k: int| 0 <= k < Self::bits() implies self.bit(k) == bit_of by {
            lemma_uniform_words((k % 64) as u64);
        }
        assert(self@ =~= Seq::new(Self::bits() as nat, |i: int| bit_of));
    }

    /// The first bit with the value `bit_of`.
    pub fn find_first_of(&self, bit_of: bool) -> (r: Option<usize>)
        requires
            Self::bits() <= usize::MAX,
        ensures
            is_first_at_or_after(self@, 0, bit_of, r),
    {
        self.find_first_skipping(0, bit_of)
    }

    /// The first bit at or after `start_index` with the value `bit_of`.
    pub fn find_first_skipping(&self, start_index: usize, bit_of: bool) -> (r: Option<usize>)
        requires
            Self::bits() <= usize::MAX,
        ensures
            is_first_at_or_after(self@, start_index as int, bit_of, r),
    {
        let total: usize = N * 64;
        let mut bit_offset: usize = start_index;
        while bit_offset < total
            invariant
                total == Self::bits(),
                start_index <= bit_offset,
                forall|j: int| start_index <= j < bit_offset && j < total ==> self@[j] != bit_of,
            decreases total - bit_offset,
        {
            let array_index: usize = bit_offset / 64;
            let mut inner_index: usize = bit_offset % 64;
            let array_element: u64 = self.array[array_index];
            if (bit_of && array_element == 0) || (!bit_of && array_element == u64::MAX) {
                assert forall|j: int| bit_offset <= j < 64 * (array_index + 1) implies self@[j]
                    != bit_of by {
                    lemma_uniform_words((j % 64) as u64);
                }
                bit_offset = 64 * (array_index + 1);
                continue ;
            }
            while inner_index < 64
                invariant
                    inner_index <= 64,
                    array_index < N,
                    total == Self::bits(),
                    array_element == self.array@[array_index as int],
                    start_index <= array_index * 64 + inner_index,
                    forall|j: int|
                        start_index <= j < array_index * 64 + inner_index ==> self@[j] != bit_of,
                decreases 64 - inner_index,
            {
                let set = array_element & (1u64 << inner_index as u64) != 0;
                if set == bit_of {
                    return Some(array_index * 64 + inner_index);
                }
                inner_index += 1;
            }
            bit_offset = 64 * (array_index + 1);
        }
        None
    }
}

/// Whether `found` names the first position at or after `start` at which
/// `bits` holds `bit_of`, or names nothing and there is no such position.
pub open spec fn is_first_at_or_after(bits: Seq<bool>, start: int, bit_of: bool, found: Option<usize>) -> bool {
    match found {
        Some(i) => {
            &&& start <= i < bits.len()
            &&& bits[i as int] == bit_of
            &&& forall|j: int| start <= j < i ==> bits[j] != bit_of
        },
        None => forall|j: int| start <= j < bits.len() ==> bits[j] != bit_of,
    }
}

} // verus!
