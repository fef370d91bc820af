use vstd::prelude::*;
use crate::index::{covers, splice, BufferIndex};

verus! {

/// A growable array that can hand out a mutable slot at any position,
/// growing itself with default values where the position lies past its end.
///
/// Its model is the sequence of the elements it holds, in order. No operation
/// ever shortens that sequence.
#[derive(Debug)]
pub struct ExpandVec<T: Default + Clone> {
    inner: Vec<T>,
}

impl<T: Default + Clone> View for ExpandVec<T> {
    type V = Seq<T>;

    closed spec fn view(&self) -> Seq<T> {
        self.inner@
    }
}

/// Whether every element of `fill` is a duplicate of one and the same value
/// that `T::default()` can return.
pub open spec fn is_default_fill<T: Default + Clone>(fill: Seq<T>) -> bool {
    exists|d: T| #[trigger]
        call_ensures(T::default, (), d) && forall|i: int|
            0 <= i < fill.len() ==> cloned(d, #[trigger] fill[i])
}

/// Whether `after` is what expanding `before` for the position `index` gives:
/// `before` itself where it already reaches past `index`, else `before`
/// followed by just enough default values to make `index` the last position.
pub open spec fn expands_to<T: Default + Clone>(before: Seq<T>, index: usize, after: Seq<T>) -> bool {
    if index < before.len() {
        after == before
    } else {
        &&& after.len() == index + 1
        &&& after.subrange(0, before.len() as int) == before
        &&& is_default_fill(after.subrange(before.len() as int, index + 1))
    }
}

impl<T: Default + Clone> ExpandVec<T> {
    /// Creates an empty buffer.
    pub fn new() -> (r: Self)
        ensures
            r@ == Seq::<T>::empty(),
    {
        Self { inner: Vec::new() }
    }

    /// Appends `value` as the new last element.
    pub fn push(&mut self, value: T)
        ensures
            final(self)@ == old(self)@.push(value),
    {
        self.inner.push(value)
    }

    /// Returns the element at a position, or the slice at a span of positions,
    /// or `None` where `index` reaches past the end. Never grows the buffer.
    pub fn get<I: BufferIndex<T>>(&self, index: I) -> (r: Option<&I::Output>)
        ensures
            r.is_some() <==> covers(index.first(), index.past(), self@.len()),
            r matches Some(out) ==> I::elements(out) == self@.subrange(index.first(), index.past()),
    {
        index.get(&self.inner)
    }

    /// As `get`, but what is returned can be written through. The elements
    /// outside `index` stay as they are, and the length does not change.
    pub fn get_mut<I: BufferIndex<T>>(&mut self, index: I) -> (r: Option<&mut I::Output>)
        ensures
            r.is_some() <==> covers(index.first(), index.past(), old(self)@.len()),
            r.is_none() ==> final(self)@ == old(self)@,
            final(self)@.len() == old(self)@.len(),
            r matches Some(out) ==> I::elements(&*out) == old(self)@.subrange(
                index.first(),
                index.past(),
            ),
            r matches Some(out) ==> I::elements(&*final(out)).len() == index.past()
                - index.first(),
            r matches Some(out) ==> final(self)@ == splice(
                old(self)@,
                index.first(),
                index.past(),
                I::elements(&*final(out)),
            ),
    {
        index.get_mut(&mut self.inner)
    }

    /// Returns the slot at `index`, after growing the buffer with default
    /// values up to and including that position where it was shorter.
    ///
    /// A buffer holds at most `usize::MAX` elements, so its last possible
    /// position is `usize::MAX - 1`.
    ///
    /// `final(self)@.update(index, *slot)` is the buffer as the call leaves it,
    /// before the caller writes through `slot`.
    pub fn expand_get_mut(&mut self, index: usize) -> (slot: &mut T)
        requires
            index < usize::MAX,
        ensures
            final(self)@.len() >= old(self)@.len(),
            final(self)@.len() > index,
            final(self)@[index as int] == *final(slot),
            expands_to(old(self)@, index, final(self)@.update(index as int, *slot)),
    {
        let len = self.inner.len();
        if index >= len {
            let remaining = index - len + 1;
            let first = T::default();
            let mut filler = vec![first; remaining];
            let ghost fill = filler@;
            proof {
                assert(is_default_fill(fill));
            }
            self.inner.append(&mut filler);
            proof {
                assert(self.inner@.subrange(0, len as int) =~= old(self)@);
                assert(self.inner@.subrange(len as int, index + 1) =~= fill);
            }
        }
        let ghost grown = self.inner@;
        let slot = &mut self.inner[index];
        proof {
            assert(grown.update(index as int, *final(slot)).update(index as int, *slot) =~= grown);
        }
        slot
    }

    /// Gives up the buffer for the sequence it holds.
    pub fn raw_vec(self) -> (v: Vec<T>)
        ensures
            v@ == self@,
    {
        self.inner
    }
}

impl<T: Default + Clone> Default for ExpandVec<T> {
    fn default() -> (r: Self)
        ensures
            r@ == Seq::<T>::empty(),
    {
        Self::new()
    }
}

impl<T: Default + Clone> Clone for ExpandVec<T> {
    fn clone(&self) -> (r: Self)
        ensures
            r@.len() == self@.len(),
            forall|i: int| 0 <= i < self@.len() ==> cloned(self@[i], #[trigger] r@[i]),
    {
        Self { inner: self.inner.clone() }
    }
}

} // verus!
