use vstd::prelude::*;
use crate::buffer::{expands_to, is_default_fill, ExpandVec};
use crate::index::{covers, splice, BufferIndex, Span};

verus! {

/// A single position fits a sequence exactly where it lies before the end,
/// and a value is what the position selects exactly where it equals the
/// element stored there.
pub proof fn lemma_position_selects<T>(s: Seq<T>, i: usize, out: T)
    ensures
        covers(i.first(), i.past(), s.len()) <==> i < s.len(),
        i < s.len() ==> (<usize as BufferIndex<T>>::elements(&out) == s.subrange(
            i.first(),
            i.past(),
        ) <==> out == s[i as int]),
{
    if i < s.len() {
        let picked = s.subrange(i.first(), i.past());
        assert(picked[0] == s[i as int]);
        assert(seq![out][0] == out);
        if out == s[i as int] {
            assert(seq![out] =~= picked);
        }
    }
}

/// Writing through a single position changes the element at that position
/// and nothing else.
pub proof fn lemma_position_write<T>(s: Seq<T>, i: usize, written: T)
    requires
        i < s.len(),
    ensures
        splice(s, i.first(), i.past(), <usize as BufferIndex<T>>::elements(&written)) == s.update(
            i as int,
            written,
        ),
{
    assert(splice(s, i.first(), i.past(), seq![written]) =~= s.update(i as int, written));
}

/// Writing through a span keeps the length, leaves every element outside the
/// span as it was, and puts the written elements at the span's positions in
/// order.
pub proof fn lemma_span_write<T>(s: Seq<T>, first: int, past: int, written: Seq<T>)
    requires
        covers(first, past, s.len()),
        written.len() == past - first,
    ensures
        splice(s, first, past, written).len() == s.len(),
        forall|k: int| 0 <= k < first ==> #[trigger] splice(s, first, past, written)[k] == s[k],
        forall|k: int|
            first <= k < past ==> #[trigger] splice(s, first, past, written)[k] == written[k
                - first],
        forall|k: int|
            past <= k < s.len() ==> #[trigger] splice(s, first, past, written)[k] == s[k],
{
}

/// After an element is appended the buffer is one longer, the old end holds
/// the new element, and every earlier position selects what it did before.
pub proof fn lemma_push_extends<T: Default + Clone>(
    before: ExpandVec<T>,
    value: T,
    after: ExpandVec<T>,
)
    requires
        after@ == before@.push(value),
    ensures
        after@.len() == before@.len() + 1,
        after@[before@.len() as int] == value,
        forall|i: int| 0 <= i < before@.len() ==> #[trigger] after@[i] == before@[i],
{
}

/// Expanding for a position that the buffer already holds changes nothing.
pub proof fn lemma_expand_within<T: Default + Clone>(before: Seq<T>, index: usize, after: Seq<T>)
    requires
        expands_to(before, index, after),
        index < before.len(),
    ensures
        after == before,
{
}

/// Expanding for a position past the end makes that position the last one,
/// keeps every element that was there, and fills each new position, the
/// requested one included, with a duplicate of one default value.
pub proof fn lemma_expand_beyond<T: Default + Clone>(before: Seq<T>, index: usize, after: Seq<T>)
    requires
        expands_to(before, index, after),
        index >= before.len(),
    ensures
        after.len() == index + 1,
        forall|i: int| 0 <= i < before.len() ==> #[trigger] after[i] == before[i],
        exists|d: T| #[trigger]
            call_ensures(T::default, (), d) && forall|i: int|
                before.len() <= i <= index ==> cloned(d, #[trigger] after[i]),
{
    let kept = after.subrange(0, before.len() as int);
    assert forall|i: int| 0 <= i < before.len() implies #[trigger] after[i] == before[i] by {
        assert(kept[i] == after[i]);
    }
    let fill = after.subrange(before.len() as int, index + 1);
    assert(is_default_fill(fill));
    let d = choose|d: T| #[trigger]
        call_ensures(T::default, (), d) && forall|i: int|
            0 <= i < fill.len() ==> cloned(d, #[trigger] fill[i]);
    assert forall|i: int| before.len() <= i <= index implies cloned(d, #[trigger] after[i]) by {
        assert(fill[i - before.len()] == after[i]);
    }
}

/// Expanding never shortens the buffer, and afterwards the position is held.
pub proof fn lemma_expand_reaches<T: Default + Clone>(before: Seq<T>, index: usize, after: Seq<T>)
    requires
        expands_to(before, index, after),
    ensures
        after.len() >= before.len(),
        after.len() > index,
{
}

/// Expanding a second time for the same position, with nothing written in
/// between, leaves the buffer as the first expansion left it: the same
/// length, and the same element at the position.
pub proof fn lemma_expand_again<T: Default + Clone>(
    before: Seq<T>,
    index: usize,
    once: Seq<T>,
    twice: Seq<T>,
)
    requires
        expands_to(before, index, once),
        expands_to(once, index, twice),
    ensures
        twice == once,
{
}

/// The sequence that a buffer is given up for holds, at every position that
/// the buffer held, the element that the position selected there.
pub proof fn lemma_raw_vec_keeps<T: Default + Clone>(buf: ExpandVec<T>, raw: Vec<T>, i: usize)
    requires
        raw@ == buf@,
        i < buf@.len(),
    ensures
        raw@.len() == buf@.len(),
        covers(i.first(), i.past(), buf@.len()),
        buf@.subrange(i.first(), i.past()) == <usize as BufferIndex<T>>::elements(&raw@[i as int]),
{
    lemma_position_selects(buf@, i, raw@[i as int]);
}

} // verus!
