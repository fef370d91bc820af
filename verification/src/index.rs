use vstd::prelude::*;
use core::ops::Range;

verus! {

/// Whether the half-open span `[first, past)` lies within a sequence of
/// length `len`.
pub open spec fn covers(first: int, past: int, len: nat) -> bool {
    0 <= first <= past <= len
}

/// What `before` becomes when the elements at `[first, past)` are replaced by
/// `written`, which has as many elements as the span.
pub open spec fn splice<T>(before: Seq<T>, first: int, past: int, written: Seq<T>) -> Seq<T> {
    before.subrange(0, first) + written + before.subrange(past, before.len() as int)
}

/// `<[T]>::get_mut` with a range of positions: the sub-slice at
/// `[range.start, range.end)` where that span lies within the slice, `None`
/// where it does not. What is written through the sub-slice lands in the slice
/// at those positions; a sub-slice keeps its length, and the rest of the slice
/// stays as it was.
#[verifier::external_body]
fn slice_get_mut_range<T>(slice: &mut [T], range: Range<usize>) -> (r: Option<&mut [T]>)
    ensures
        r.is_some() <==> covers(range.start as int, range.end as int, old(slice)@.len()),
        r.is_none() ==> final(slice)@ == old(slice)@,
        r matches Some(out) ==> out@ == old(slice)@.subrange(range.start as int, range.end as int),
        r matches Some(out) ==> final(out)@.len() == out@.len(),
        r matches Some(out) ==> final(slice)@ == splice(
            old(slice)@,
            range.start as int,
            range.end as int,
            final(out)@,
        ),
{
    slice.get_mut(range)
}

/// The positions that an index covers: those from `first()` up to, and not
/// including, `past()`.
pub trait Span: Sized {
    /// The first position covered.
    spec fn first(&self) -> int;

    /// One past the last position covered.
    spec fn past(&self) -> int;
}

impl Span for usize {
    open spec fn first(&self) -> int {
        *self as int
    }

    open spec fn past(&self) -> int {
        *self + 1
    }
}

impl Span for Range<usize> {
    open spec fn first(&self) -> int {
        self.start as int
    }

    open spec fn past(&self) -> int {
        self.end as int
    }
}

/// A way to address part of a buffer of `T`: one position, or a span of
/// positions.
pub trait BufferIndex<T>: Span {
    /// What the index selects: one element, or a slice of them.
    type Output: ?Sized;

    /// The elements that a selection holds, in order.
    spec fn elements(out: &Self::Output) -> Seq<T>;

    /// The selection within `v`, or `None` where the index does not fit.
    fn get(self, v: &Vec<T>) -> (r: Option<&Self::Output>)
        ensures
            r.is_some() <==> covers(self.first(), self.past(), v@.len()),
            r matches Some(out) ==> Self::elements(out) == v@.subrange(self.first(), self.past()),
    ;

    /// The selection within `v`, open to writing, or `None` where the index
    /// does not fit.
    fn get_mut(self, v: &mut Vec<T>) -> (r: Option<&mut Self::Output>)
        ensures
            r.is_some() <==> covers(self.first(), self.past(), old(v)@.len()),
            r.is_none() ==> final(v)@ == old(v)@,
            final(v)@.len() == old(v)@.len(),
            r matches Some(out) ==> Self::elements(&*out) == old(v)@.subrange(
                self.first(),
                self.past(),
            ),
            r matches Some(out) ==> Self::elements(&*final(out)).len() == self.past()
                - self.first(),
            r matches Some(out) ==> final(v)@ == splice(
                old(v)@,
                self.first(),
                self.past(),
                Self::elements(&*final(out)),
            ),
    ;
}

impl<T> BufferIndex<T> for usize {
    type Output = T;

    open spec fn elements(out: &T) -> Seq<T> {
        seq![*out]
    }

    fn get(self, v: &Vec<T>) -> (r: Option<&T>) {
        if self < v.len() {
            let out = &v[self];
            assert(seq![*out] =~= v@.subrange(self as int, self + 1));
            Some(out)
        } else {
            None
        }
    }

    fn get_mut(self, v: &mut Vec<T>) -> (r: Option<&mut T>) {
        if self < v.len() {
            let out = &mut v[self];
            assert(seq![*out] =~= old(v)@.subrange(self as int, self + 1));
            assert(old(v)@.update(self as int, *final(out)) =~= splice(
                old(v)@,
                self as int,
                self + 1,
                seq![*final(out)],
            ));
            Some(out)
        } else {
            None
        }
    }
}

impl<T> BufferIndex<T> for Range<usize> {
    type Output = [T];

    open spec fn elements(out: &[T]) -> Seq<T> {
        out@
    }

    fn get(self, v: &Vec<T>) -> (r: Option<&[T]>) {
        if self.start <= self.end && self.end <= v.len() {
            Some(&v.as_slice()[self])
        } else {
            None
        }
    }

    fn get_mut(self, v: &mut Vec<T>) -> (r: Option<&mut [T]>) {
        slice_get_mut_range(v.as_mut_slice(), self)
    }
}

} // verus!
