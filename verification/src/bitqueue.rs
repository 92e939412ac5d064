//! Numbered slots that are handed out lowest number first.

use vstd::prelude::*;

verus! {

/// A row of slots, each empty or holding a value. A value that is queued
/// goes into the lowest empty slot and is known by the number of that slot
/// until it is removed.
pub struct BitQueue<Type> {
    vec: Vec<Option<Type>>,
}

/// The number of slots of `slots` that hold a value.
pub open spec fn count_some<Type>(slots: Seq<Option<Type>>) -> nat
    decreases slots.len(),
{
    if slots.len() == 0 {
        0
    } else {
        count_some(slots.drop_last()) + if slots.last() is Some {
            1nat
        } else {
            0nat
        }
    }
}

/// The lowest empty slot of `slots` from `from` on, or the number of slots
/// where none is empty.
pub open spec fn first_empty<Type>(slots: Seq<Option<Type>>, from: int) -> int
    decreases slots.len() - from,
{
    if from < 0 || from >= slots.len() {
        slots.len() as int
    } else if slots[from] is None {
        from
    } else {
        first_empty(slots, from + 1)
    }
}

impl<Type> BitQueue<Type> {
    /// The slots, in order.
    pub closed spec fn view(&self) -> Seq<Option<Type>> {
        self.vec@
    }

    /// A queue without slots.
    pub fn new() -> (r: Self)
        ensures
            r@ == Seq::<Option<Type>>::empty(),
    {
        Self { vec: Vec::new() }
    }

    /// The number of slots, empty or not.
    pub fn slots(&self) -> (r: usize)
        ensures
            r == self@.len(),
    {
        self.vec.len()
    }

    /// The number of the slot that the next value will get.
    pub fn first_free(&mut self) -> (r: usize)
        ensures
            final(self)@ == old(self)@,
            r == first_empty(old(self)@, 0),
    {
        let mut i: usize = 0;
        while i < self.vec.len()
            invariant
                i <= self@.len(),
                self@ == old(self)@,
                first_empty(self@, i as int) == first_empty(self@, 0),
            decreases self@.len() - i,
        {
            if self.vec[i].is_none() {
                return i;
            }
            i += 1;
        }
        self.vec.len()
    }

    /// Puts `value` into the lowest empty slot, adding a slot where none
    /// is empty, and answers with the number of the slot.
    pub fn queue(&mut self, value: Type) -> (r: usize)
        ensures
            r == first_empty(old(self)@, 0),
            r < old(self)@.len() ==> final(self)@ == old(self)@.update(r as int, Some(value)),
            r >= old(self)@.len() ==> final(self)@ == old(self)@.push(Some(value)),
    {
        let first_free = self.first_free();
        if first_free >= self.vec.len() {
            self.vec.push(Some(value));
        } else {
            self.vec.set(first_free, Some(value));
        }
        first_free
    }

    /// Takes the value out of slot `location`, if the slot holds one.
    pub fn try_remove(&mut self, location: usize) -> (r: Option<Type>)
        ensures
            location < old(self)@.len() ==> r == old(self)@[location as int] && final(self)@ == old(
                self,
            )@.update(location as int, None),
            location >= old(self)@.len() ==> r is None && final(self)@ == old(self)@,
    {
        if location >= self.vec.len() {
            return None;
        }
        let ghost before = self.vec@;
        let mut slot: Option<Type> = None;
        core::mem::swap(&mut slot, &mut self.vec[location]);
        slot
    }

    /// Whether slot `location` holds a value.
    pub fn get_state(&self, location: usize) -> (r: bool)
        ensures
            r == (location < self@.len() && self@[location as int] is Some),
    {
        location < self.vec.len() && self.vec[location].is_some()
    }

    /// Takes the value out of slot `location`, which must hold one.
    pub fn remove(&mut self, location: usize) -> (r: Type)
        requires
            location < old(self)@.len(),
            old(self)@[location as int] is Some,
        ensures
            Some(r) == old(self)@[location as int],
            final(self)@ == old(self)@.update(location as int, None),
    {
        self.try_remove(location).unwrap()
    }

    /// The value in slot `index`, which must hold one.
    pub fn index(&self, index: usize) -> (r: &Type)
        requires
            index < self@.len(),
            self@[index as int] is Some,
        ensures
            Some(*r) == self@[index as int],
    {
        self.vec[index].as_ref().unwrap()
    }

    /// The number of values in the queue.
    pub fn len(&self) -> (r: usize)
        ensures
            r == count_some(self@),
    {
        let mut count: usize = 0;
        let mut i: usize = 0;
        while i < self.vec.len()
            invariant
                i <= self@.len(),
                count == count_some(self@.subrange(0, i as int)),
                count <= i,
            decreases self@.len() - i,
        {
            assert(self@.subrange(0, i + 1).drop_last() =~= self@.subrange(0, i as int));
            if self.vec[i].is_some() {
                count += 1;
            }
            i += 1;
        }
        assert(self@.subrange(0, self@.len() as int) =~= self@);
        count
    }
}

} // verus!
