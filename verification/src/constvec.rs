//! A vector with room for a fixed number of elements.

use vstd::prelude::*;

verus! {

/// At most `N` elements of type `T`, in order.
#[derive(Debug, Clone)]
pub struct ConstVec<const N: usize, T> {
    data: Vec<T>,
}

impl<const N: usize, T> ConstVec<N, T> {
    /// The elements, in order.
    pub closed spec fn view(&self) -> Seq<T> {
        self.data@
    }

    /// The vector holds no more than it has room for.
    pub open spec fn wf(&self) -> bool {
        self@.len() <= N
    }

    /// A vector without elements.
    pub fn new() -> (r: Self)
        ensures
            r.wf(),
            r@ == Seq::<T>::empty(),
    {
        Self { data: Vec::new() }
    }

    /// The elements as a slice.
    pub fn as_slice(&self) -> (r: &[T])
        ensures
            r@ == self@,
    {
        self.data.as_slice()
    }

    /// The number of elements.
    pub fn len(&self) -> (r: usize)
        ensures
            r == self@.len(),
    {
        self.data.len()
    }

    /// Takes out the element at `index` and puts the last element in its
    /// place.
    pub fn swap_remove(&mut self, index: usize) -> (r: T)
        requires
            old(self).wf(),
            index < old(self)@.len(),
        ensures
            final(self).wf(),
            r == old(self)@[index as int],
            final(self)@ == old(self)@.update(index as int, old(self)@.last()).drop_last(),
    {
        self.data.swap_remove(index)
    }

    /// Puts `element` at `index` and moves every element from there on up
    /// by one place.
    pub fn insert(&mut self, index: usize, element: T)
        requires
            old(self).wf(),
            index <= old(self)@.len(),
            old(self)@.len() < N,
        ensures
            final(self).wf(),
            final(self)@ == old(self)@.insert(index as int, element),
    {
        self.data.insert(index, element);
    }

    /// Puts `element` at `index` if there is such a place and room for one
    /// more element; otherwise hands the element back.
    pub fn try_insert(&mut self, index: usize, element: T) -> (r: Result<(), T>)
        requires
            old(self).wf(),
        ensures
            final(self).wf(),
            index <= old(self)@.len() && old(self)@.len() < N ==> r is Ok && final(self)@ == old(
                self,
            )@.insert(index as int, element),
            !(index <= old(self)@.len() && old(self)@.len() < N) ==> r == Err::<(), T>(element)
                && final(self)@ == old(self)@,
    {
        if index > self.data.len() || self.data.len() >= N {
            return Err(element);
        }
        self.data.insert(index, element);
        Ok(())
    }

    /// Takes out the element at `index` and moves every element after it
    /// down by one place.
    pub fn remove(&mut self, index: usize) -> (r: T)
        requires
            old(self).wf(),
            index < old(self)@.len(),
        ensures
            final(self).wf(),
            r == old(self)@[index as int],
            final(self)@ == old(self)@.remove(index as int),
    {
        self.data.remove(index)
    }

    /// Adds `value` at the end.
    pub fn push(&mut self, value: T)
        requires
            old(self).wf(),
            old(self)@.len() < N,
        ensures
            final(self).wf(),
            final(self)@ == old(self)@.push(value),
    {
        self.data.push(value);
    }

    /// Adds `value` at the end if there is room; otherwise hands it back.
    pub fn try_push(&mut self, value: T) -> (r: Result<(), T>)
        requires
            old(self).wf(),
        ensures
            final(self).wf(),
            old(self)@.len() < N ==> r is Ok && final(self)@ == old(self)@.push(value),
            old(self)@.len() >= N ==> r == Err::<(), T>(value) && final(self)@ == old(self)@,
    {
        if self.data.len() >= N {
            return Err(value);
        }
        self.data.push(value);
        Ok(())
    }
}

} // verus!
