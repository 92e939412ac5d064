//! A sparse sequence of bits.
//!
//! The bits are grouped into chunks of `STRIDE` words. A chunk in which no
//! bit is set takes no room at all, and a chunk in which every bit is set
//! is a mere marker.

use crate::bitarray::is_first_at_or_after;
use crate::bitarray::BitArray;
use std::collections::BTreeMap;
use vstd::arithmetic::div_mod::lemma_fundamental_div_mod_converse;
use vstd::prelude::*;

verus! {

broadcast use vstd::std_specs::btree::group_btree_axioms;

/// What is known of one chunk.
pub enum BitElementState<const STRIDE: usize> {
    /// Every bit of the chunk is set.
    AllOnes,
    /// No bit of the chunk is set. A chunk in this state is never stored.
    AllZeros,
    /// Some bits are set and some are not; `ones` counts those that are.
    Mixed { map: Box<BitArray<u64, STRIDE>>, ones: u32 },
}

/// The number of positions at which `bits` holds `true`.
pub open spec fn count_true(bits: Seq<bool>) -> nat
    decreases bits.len(),
{
    if bits.len() == 0 {
        0
    } else {
        count_true(bits.drop_last()) + if bits.last() {
            1nat
        } else {
            0nat
        }
    }
}

/// Changing one position changes the count by what that position gains
/// or loses.
pub proof fn lemma_count_true_update(bits: Seq<bool>, at: int, value: bool)
    requires
        0 <= at < bits.len(),
    ensures
        count_true(bits.update(at, value)) + (if bits[at] {
            1int
        } else {
            0int
        }) == count_true(bits) + (if value {
            1int
        } else {
            0int
        }),
    decreases bits.len(),
{
    let after = bits.update(at, value);
    if at == bits.len() - 1 {
        assert(after.drop_last() =~= bits.drop_last());
    } else {
        lemma_count_true_update(bits.drop_last(), at, value);
        assert(after.drop_last() =~= bits.drop_last().update(at, value));
    }
}

/// A sequence that holds one value throughout counts either nothing or
/// everything.
pub proof fn lemma_count_true_uniform(len: nat, value: bool)
    ensures
        count_true(Seq::new(len, |i: int| value)) == if value {
            len
        } else {
            0
        },
    decreases len,
{
    if len > 0 {
        lemma_count_true_uniform((len - 1) as nat, value);
        assert(Seq::new(len, |i: int| value).drop_last() =~= Seq::new(
            (len - 1) as nat,
            |i: int| value,
        ));
    }
}

/// The count is never more than the length.
pub proof fn lemma_count_true_bound(bits: Seq<bool>)
    ensures
        count_true(bits) <= bits.len(),
    decreases bits.len(),
{
    if bits.len() > 0 {
        lemma_count_true_bound(bits.drop_last());
    }
}

/// The least key of `map` that is not below `from`.
///
/// This calls `BTreeMap::range` of the standard library and takes the first
/// item that it yields. The contract relies on what the library documents:
/// a map yields its items in ascending order of key, and `range` yields
/// exactly the items whose keys lie in the range.
#[verifier::external_body]
fn next_chunk_at_or_after<const STRIDE: usize>(
    map: &BTreeMap<usize, BitElementState<STRIDE>>,
    from: usize,
) -> (r: Option<usize>)
    ensures
        match r {
            Some(key) => {
                &&& from <= key
                &&& map@.contains_key(key)
                &&& forall|other: usize| from <= other < key ==> !map@.contains_key(other)
            },
            None => forall|other: usize| from <= other ==> !map@.contains_key(other),
        },
{
    map.range(from..).next().map(|(key, _)| *key)
}

pub struct CompressedBool<const STRIDE: usize> {
    map: BTreeMap<usize, BitElementState<STRIDE>>,
}

/// The largest stride for which the bits of one chunk can still be counted.
pub const MAX_STRIDE: usize = 0x3ff_ffff;

impl<const STRIDE: usize> CompressedBool<STRIDE> {
    /// The number of bits in one chunk.
    pub open spec fn chunk_bits() -> int {
        STRIDE * 64
    }

    /// The value of bit `inner` of chunk `chunk`.
    pub closed spec fn chunk_bit(&self, chunk: int, inner: int) -> bool {
        if 0 <= chunk <= usize::MAX && self.map@.contains_key(chunk as usize) {
            match self.map@[chunk as usize] {
                BitElementState::AllOnes => true,
                BitElementState::AllZeros => false,
                BitElementState::Mixed { map, ones } => map@[inner],
            }
        } else {
            false
        }
    }

    /// The value of the bit at position `at`.
    pub open spec fn bit(&self, at: int) -> bool {
        self.chunk_bit(at / Self::chunk_bits(), at % Self::chunk_bits())
    }

    /// The bits of chunk `chunk`, in order.
    pub open spec fn chunk(&self, chunk: int) -> Seq<bool> {
        Seq::new(Self::chunk_bits() as nat, |inner: int| self.chunk_bit(chunk, inner))
    }

    /// The number of bits that are set in chunk `chunk`.
    pub open spec fn ones_in_chunk(&self, chunk: int) -> nat {
        count_true(self.chunk(chunk))
    }

    /// The stride is usable, no stored chunk is empty or beyond the last
    /// position, and every count is right.
    pub closed spec fn wf(&self) -> bool {
        &&& 1 <= STRIDE <= MAX_STRIDE
        &&& forall|key: usize| #[trigger]
            self.map@.contains_key(key) ==> {
                &&& key * Self::chunk_bits() <= usize::MAX
                &&& match self.map@[key] {
                    BitElementState::AllOnes => true,
                    BitElementState::AllZeros => false,
                    BitElementState::Mixed { map, ones } => {
                        &&& ones == count_true(map@)
                        &&& 1 <= ones < Self::chunk_bits()
                    },
                }
            }
    }

    /// An empty sequence of bits with chunks of `STRIDE` words.
    pub fn new_stride() -> (r: Self)
        requires
            1 <= STRIDE <= MAX_STRIDE,
        ensures
            r.wf(),
            forall|at: int| !r.bit(at),
    {
        Self { map: BTreeMap::new() }
    }

    fn index_cal(bit_at: usize) -> (r: (usize, usize))
        requires
            1 <= STRIDE <= MAX_STRIDE,
        ensures
            r.0 == bit_at as int / Self::chunk_bits(),
            r.1 == bit_at as int % Self::chunk_bits(),
            r.1 < Self::chunk_bits(),
            r.0 * Self::chunk_bits() + r.1 == bit_at,
    {
        let bits_per_element: usize = 64 * STRIDE;
        proof {
            vstd::arithmetic::div_mod::lemma_fundamental_div_mod(
                bit_at as int,
                bits_per_element as int,
            );
            vstd::arithmetic::div_mod::lemma_mod_bound(bit_at as int, bits_per_element as int);
            assert(bits_per_element * (bit_at as int / bits_per_element as int) == (bit_at as int
                / bits_per_element as int) * bits_per_element) by (nonlinear_arith);
        }
        (bit_at / bits_per_element, bit_at % bits_per_element)
    }

    /// The value of the bit at `bit_at`. A bit that was never set is
    /// `false`.
    pub fn get(&self, bit_at: usize) -> (r: bool)
        requires
            self.wf(),
        ensures
            r == self.bit(bit_at as int),
    {
        let (array_index, inner_index) = Self::index_cal(bit_at);
        match self.map.get(&array_index) {
            None => false,
            Some(BitElementState::AllOnes) => true,
            Some(BitElementState::AllZeros) => false,
            Some(BitElementState::Mixed { map, .. }) => map.get(inner_index),
        }
    }
}

impl<const STRIDE: usize> CompressedBool<STRIDE> {
    /// The value of the bit at position `at` after the bit at `bit_at` has
    /// been set to `bit_of`.
    ///
    /// Outside the chunk of `bit_at` nothing changes. Inside it, clearing a
    /// bit of a chunk that holds a single set bit clears the whole chunk,
    /// and setting a bit of a chunk that lacks a single set bit sets the
    /// whole chunk, whichever bit is named. In every other case the named
    /// bit takes its new value and no other bit moves.
    pub open spec fn after_set(&self, bit_at: int, bit_of: bool, at: int) -> bool {
        let chunk = bit_at / Self::chunk_bits();
        if at / Self::chunk_bits() != chunk {
            self.bit(at)
        } else if !bit_of && self.ones_in_chunk(chunk) == 1 {
            false
        } else if bit_of && self.ones_in_chunk(chunk) == Self::chunk_bits() - 1 {
            true
        } else if at == bit_at {
            bit_of
        } else {
            self.bit(at)
        }
    }

    /// Sets the bit at `bit_at` to `bit_of`.
    pub fn set(&mut self, bit_at: usize, bit_of: bool)
        requires
            old(self).wf(),
        ensures
            final(self).wf(),
            forall|at: int| final(self).bit(at) == old(self).after_set(bit_at as int, bit_of, at),
    {
        let map_bits: usize = STRIDE * 64;
        let (array_index, inner_index) = Self::index_cal(bit_at);
        let ghost before = *self;
        let ghost chunk = array_index as int;
        let ghost was = before.chunk(chunk);
        proof {
            lemma_count_true_bound(was);
        }
        let state_change: Option<BitElementState<STRIDE>> = match self.map.get(&array_index) {
            None => {
                proof {
                    assert(was =~= Seq::new(map_bits as nat, |i: int| false));
                    lemma_count_true_uniform(map_bits as nat, false);
                }
                if !bit_of {
                    None
                } else {
                    let mut map = BitArray::<u64, STRIDE>::zeroed();
                    map.set(inner_index, true);
                    proof {
                        lemma_count_true_update(was, inner_index as int, true);
                    }
                    Some(BitElementState::Mixed { map: Box::new(map), ones: 1 })
                }
            },
            Some(BitElementState::AllOnes) => {
                proof {
                    assert(was =~= Seq::new(map_bits as nat, |i: int| true));
                    lemma_count_true_uniform(map_bits as nat, true);
                }
                if bit_of {
                    None
                } else {
                    let mut map = BitArray::<u64, STRIDE>::zeroed();
                    map.set_all(true);
                    map.set(inner_index, false);
                    proof {
                        lemma_count_true_update(was, inner_index as int, false);
                    }
                    Some(BitElementState::Mixed { map: Box::new(map), ones: (map_bits - 1) as u32 })
                }
            },
            Some(BitElementState::AllZeros) => None,
            Some(BitElementState::Mixed { map, ones }) => {
                proof {
                    assert(was =~= map@);
                }
                if *ones == 1 && !bit_of {
                    Some(BitElementState::AllZeros)
                } else if *ones as usize == map_bits - 1 && bit_of {
                    Some(BitElementState::AllOnes)
                } else if map.get(inner_index) == bit_of {
                    None
                } else {
                    let mut changed: BitArray<u64, STRIDE> = **map;
                    changed.set(inner_index, bit_of);
                    proof {
                        lemma_count_true_update(was, inner_index as int, bit_of);
                    }
                    let count: u32 = if bit_of {
                        *ones + 1
                    } else {
                        *ones - 1
                    };
                    Some(BitElementState::Mixed { map: Box::new(changed), ones: count })
                }
            },
        };
        match state_change {
            Some(BitElementState::AllZeros) => {
                self.map.remove(&array_index);
            },
            Some(new_state) => {
                self.map.insert(array_index, new_state);
            },
            None => {},
        }
        proof {
            assert forall|at: int| self.bit(at) == before.after_set(bit_at as int, bit_of, at) by {
                let b = Self::chunk_bits();
                if at / b == chunk {
                    vstd::arithmetic::div_mod::lemma_mod_bound(at, b);
                    let inner = at % b;
                    assert(was[inner] == before.chunk_bit(chunk, inner));
                    assert(before.bit(at) == was[inner]);
                    if at == bit_at {
                        assert(inner == inner_index);
                    } else {
                        assert(inner != inner_index) by {
                            vstd::arithmetic::div_mod::lemma_fundamental_div_mod(at, b);
                            vstd::arithmetic::div_mod::lemma_fundamental_div_mod(bit_at as int, b);
                        }
                    }
                    if !bit_of && count_true(was) == 1 {
                        assert(!self.bit(at));
                    } else if bit_of && count_true(was) == b - 1 {
                        assert(self.bit(at));
                    } else if at == bit_at {
                        assert(self.bit(at) == bit_of);
                    } else {
                        assert(self.bit(at) == before.bit(at));
                    }
                } else {
                    assert(self.bit(at) == before.bit(at));
                }
            }
        }
    }
}

impl<const STRIDE: usize> CompressedBool<STRIDE> {
    /// Whether `found` names the first position at or after `start` whose
    /// bit is `bit_of`, or names nothing and no position up to the last one
    /// has such a bit.
    pub open spec fn is_first_bit(&self, start: int, bit_of: bool, found: Option<usize>) -> bool {
        match found {
            Some(at) => {
                &&& start <= at
                &&& self.bit(at as int) == bit_of
                &&& forall|other: int| start <= other < at ==> self.bit(other) != bit_of
            },
            None => forall|other: int| start <= other <= usize::MAX ==> self.bit(other) != bit_of,
        }
    }

    /// Whether the `max(amount, 1)` bits from `at` on all are `bit_of` and
    /// all lie within the positions that exist.
    pub open spec fn is_run(&self, at: int, bit_of: bool, amount: int) -> bool {
        let len = if amount < 1 {
            1
        } else {
            amount
        };
        &&& at + len - 1 <= usize::MAX
        &&& forall|other: int| at <= other < at + len ==> self.bit(other) == bit_of
    }

    /// Whether `found` names the first position at or after `start` where
    /// a run begins, or names nothing and no run begins at or after
    /// `start`.
    pub open spec fn is_first_run(
        &self,
        start: int,
        bit_of: bool,
        amount: int,
        found: Option<usize>,
    ) -> bool {
        match found {
            Some(at) => {
                &&& start <= at
                &&& self.is_run(at as int, bit_of, amount)
                &&& forall|other: int| start <= other < at ==> !self.is_run(other, bit_of, amount)
            },
            None => forall|other: int| start <= other <= usize::MAX ==> !self.is_run(other, bit_of, amount),
        }
    }

    /// The first position whose bit is `bit_of`.
    pub fn find_first_of(&self, bit_of: bool) -> (r: Option<usize>)
        requires
            self.wf(),
        ensures
            self.is_first_bit(0, bit_of, r),
    {
        self.find_first_skipping(0, bit_of)
    }

    /// The first position at or after `start_index` whose bit is `bit_of`.
    pub fn find_first_skipping(&self, start_index: usize, bit_of: bool) -> (r: Option<usize>)
        requires
            self.wf(),
        ensures
            self.is_first_bit(start_index as int, bit_of, r),
    {
        let map_bits: usize = STRIDE * 64;
        let (first_index, first_bit) = Self::index_cal(start_index);
        let mut array_index: usize = first_index;
        let mut bit_index: usize = first_bit;
        let mut base: usize = start_index - first_bit;
        loop
            invariant
                self.wf(),
                1 <= STRIDE,
                map_bits == Self::chunk_bits(),
                bit_index < map_bits,
                base == array_index * map_bits,
                base + bit_index <= usize::MAX,
                start_index <= base + bit_index,
                forall|other: int| start_index <= other < base + bit_index ==> self.bit(other) != bit_of,
            decreases usize::MAX - array_index,
        {
            let here: usize = base + bit_index;
            let found = match next_chunk_at_or_after(&self.map, array_index) {
                Some(found) => found,
                None => {
                    assert forall|other: int| here <= other <= usize::MAX implies !self.bit(
                        other,
                    ) by {
                        Self::lemma_chunk_order(other, array_index as int);
                    }
                    if bit_of {
                        return None;
                    }
                    return Some(here);
                },
            };
            if found > array_index {
                proof {
                    assert((array_index + 1) * map_bits <= found * map_bits) by (nonlinear_arith)
                        requires
                            array_index + 1 <= found,
                            map_bits >= 0,
                    ;
                    assert((array_index + 1) * map_bits == array_index * map_bits + map_bits)
                        by (nonlinear_arith);
                    assert forall|other: int| here <= other < found * map_bits implies !self.bit(
                        other,
                    ) by {
                        Self::lemma_chunk_order(other, array_index as int);
                        Self::lemma_chunk_order(other, found as int);
                    }
                }
                if !bit_of {
                    return Some(here);
                }
                array_index = found;
                base = found * map_bits;
                bit_index = 0;
            }
            let here: usize = base + bit_index;
            match self.map.get(&found) {
                None => {},
                Some(BitElementState::AllZeros) => {},
                Some(BitElementState::AllOnes) => {
                    proof {
                        assert forall|other: int| here <= other < base + map_bits implies self.bit(
                            other,
                        ) by {
                            Self::lemma_in_chunk(other, found as int);
                        }
                    }
                    if bit_of {
                        return Some(here);
                    }
                },
                Some(BitElementState::Mixed { map, .. }) => {
                    let inner = map.find_first_skipping(bit_index, bit_of);
                    proof {
                        assert forall|other: int|
                            here <= other < base + map_bits implies self.bit(other) == map@[other
                            - base] by {
                            Self::lemma_in_chunk(other, found as int);
                        }
                    }
                    match inner {
                        Some(found_inner_index) => {
                            if found_inner_index > usize::MAX - base {
                                return None;
                            }
                            return Some(base + found_inner_index);
                        },
                        None => {},
                    }
                },
            }
            if base > usize::MAX - map_bits {
                return None;
            }
            assert(found < usize::MAX) by (nonlinear_arith)
                requires
                    found * map_bits + map_bits <= usize::MAX,
                    map_bits >= 1,
                    found >= 0,
            ;
            base = base + map_bits;
            array_index = found + 1;
            bit_index = 0;
            assert(base == array_index * map_bits) by (nonlinear_arith)
                requires
                    base == found * map_bits + map_bits,
                    array_index == found + 1,
            ;
        }
    }

    /// The first position from which on `amount` bits in a row are
    /// `bit_of`. An `amount` of zero asks for one bit.
    pub fn find_first_of_many(&self, bit_of: bool, amount: usize) -> (r: Option<usize>)
        requires
            self.wf(),
        ensures
            self.is_first_run(0, bit_of, amount as int, r),
    {
        self.find_first_of_many_skipping(0, bit_of, amount)
    }

    /// The first position at or after `start_index` from which on `amount`
    /// bits in a row are `bit_of`. An `amount` of zero asks for one bit.
    pub fn find_first_of_many_skipping(&self, start_index: usize, bit_of: bool, amount: usize) -> (r:
        Option<usize>)
        requires
            self.wf(),
        ensures
            self.is_first_run(start_index as int, bit_of, amount as int, r),
    {
        let mut starting_offset_bit: usize = match self.find_first_skipping(start_index, bit_of) {
            Some(first) => first,
            None => {
                assert forall|other: int| start_index <= other <= usize::MAX implies !self.is_run(
                    other,
                    bit_of,
                    amount as int,
                ) by {
                    assert(self.bit(other) != bit_of);
                }
                return None;
            },
        };
        let mut count: usize = 1;
        assert forall|other: int| start_index <= other < starting_offset_bit implies !self.is_run(
            other,
            bit_of,
            amount as int,
        ) by {
            assert(self.bit(other) != bit_of);
        }
        loop
            invariant
                self.wf(),
                start_index <= starting_offset_bit,
                1 <= count,
                starting_offset_bit + count - 1 <= usize::MAX,
                forall|other: int|
                    starting_offset_bit <= other < starting_offset_bit + count ==> self.bit(other)
                        == bit_of,
                forall|other: int|
                    start_index <= other < starting_offset_bit ==> !self.is_run(
                        other,
                        bit_of,
                        amount as int,
                    ),
            decreases usize::MAX - (starting_offset_bit + count - 1),
        {
            if count >= amount {
                return Some(starting_offset_bit);
            }
            if count > usize::MAX - starting_offset_bit {
                assert forall|other: int| start_index <= other <= usize::MAX implies !self.is_run(
                    other,
                    bit_of,
                    amount as int,
                ) by {}
                return None;
            }
            let next: usize = starting_offset_bit + count;
            let inter_bit: usize = match self.find_first_skipping(next, bit_of) {
                Some(inter) => inter,
                None => {
                    assert forall|other: int| start_index <= other <= usize::MAX implies !self.is_run(
                        other,
                        bit_of,
                        amount as int,
                    ) by {
                        if other >= starting_offset_bit {
                            if other <= next {
                                assert(self.bit(next as int) != bit_of);
                            } else {
                                assert(self.bit(other) != bit_of);
                            }
                        }
                    }
                    return None;
                },
            };
            if inter_bit != next {
                assert forall|other: int| start_index <= other < inter_bit implies !self.is_run(
                    other,
                    bit_of,
                    amount as int,
                ) by {
                    if other >= starting_offset_bit {
                        if other <= next {
                            assert(self.bit(next as int) != bit_of);
                        } else {
                            assert(self.bit(other) != bit_of);
                        }
                    }
                }
                starting_offset_bit = inter_bit;
                count = 1;
            } else {
                count += 1;
            }
        }
    }

    /// A position lies in chunk `chunk` or later exactly if it is not
    /// before the first position of that chunk.
    proof fn lemma_chunk_order(at: int, chunk: int)
        requires
            1 <= STRIDE,
            0 <= at,
        ensures
            chunk * Self::chunk_bits() <= at <==> chunk <= at / Self::chunk_bits(),
            0 <= at / Self::chunk_bits() <= at,
    {
        let b = Self::chunk_bits();
        vstd::arithmetic::div_mod::lemma_fundamental_div_mod(at, b);
        vstd::arithmetic::div_mod::lemma_mod_bound(at, b);
        let q = at / b;
        let r = at % b;
        assert(chunk * b <= at <==> chunk <= q) by (nonlinear_arith)
            requires
                b > 0,
                at == b * q + r,
                0 <= r < b,
        ;
        assert(0 <= q <= at) by (nonlinear_arith)
            requires
                b >= 1,
                at >= 0,
                at == b * q + r,
                0 <= r < b,
        ;
    }

    /// A position among the positions of chunk `chunk` has that chunk as
    /// its chunk, and its place in the chunk is its distance from the
    /// chunk's first position.
    proof fn lemma_in_chunk(at: int, chunk: int)
        requires
            1 <= STRIDE,
            chunk * Self::chunk_bits() <= at < chunk * Self::chunk_bits() + Self::chunk_bits(),
        ensures
            at / Self::chunk_bits() == chunk,
            at % Self::chunk_bits() == at - chunk * Self::chunk_bits(),
    {
        lemma_fundamental_div_mod_converse(
            at,
            Self::chunk_bits(),
            chunk,
            at - chunk * Self::chunk_bits(),
        );
    }
}

impl CompressedBool<64> {
    /// An empty sequence of bits with chunks of 64 words.
    pub fn new() -> (r: Self)
        ensures
            r.wf(),
            forall|at: int| !r.bit(at),
    {
        Self { map: BTreeMap::new() }
    }
}

} // verus!
