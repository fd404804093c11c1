//! A list whose length is part of its type, and the iterator that consumes it.
//!
//! `ConsList<T, Ts>` holds elements of one type `T` side by side, so that they
//! can be viewed as a slice. The second parameter counts them: `Nil` stands
//! for no element, `Cons<T, Tail>` for one more than `Tail`. A list is built
//! by prepending, and taken apart by `Iter`, which hands every element out at
//! most once, from either end.

use std::marker::PhantomData;
use vstd::prelude::*;
use vstd::std_specs::iter::DoubleEndedIteratorSpecImpl;
use vstd::std_specs::iter::IteratorSpecImpl;

verus! {

/// The shape of the empty list.
pub struct Nil;

/// The shape of a list with one element of type `T` in front of a list of
/// shape `Tail`.
pub struct Cons<T, Tail>(PhantomData<T>, PhantomData<Tail>);

/// Shapes of lists whose elements all have type `T`.
pub trait ConsListT<T> {
    /// The number of elements that a list of this shape holds.
    spec fn spec_len() -> nat;
}

impl<T> ConsListT<T> for Nil {
    open spec fn spec_len() -> nat {
        0
    }
}

impl<T, Ts: ConsListT<T>> ConsListT<T> for Cons<T, Ts> {
    open spec fn spec_len() -> nat {
        1 + Ts::spec_len()
    }
}

/// A list of elements of type `T`, of the shape `Ts`.
pub struct ConsList<T, Ts: ConsListT<T>> {
    items: Vec<T>,
    marker: PhantomData<Ts>,
}

impl<T, Ts: ConsListT<T>> View for ConsList<T, Ts> {
    type V = Seq<T>;

    /// The elements, first to last.
    closed spec fn view(&self) -> Seq<T> {
        self.items@
    }
}

impl<T, Ts: ConsListT<T>> ConsList<T, Ts> {
    /// The list holds as many elements as its shape says.
    pub open spec fn well_shaped(&self) -> bool {
        self@.len() == Ts::spec_len()
    }
}

impl<T> ConsList<T, Nil> {
    /// The empty list.
    pub fn nil() -> (list: Self)
        ensures
            list@ == Seq::<T>::empty(),
            list.well_shaped(),
    {
        ConsList { items: Vec::new(), marker: PhantomData }
    }
}

impl<T, Ts: ConsListT<T>> ConsList<T, Cons<T, Ts>> {
    /// The list that holds `head` in front of the elements of `tail`.
    pub fn cons(head: T, tail: ConsList<T, Ts>) -> (list: Self)
        ensures
            list@ == seq![head] + tail@,
            tail.well_shaped() ==> list.well_shaped(),
    {
        let mut items = tail.items;
        items.insert(0, head);
        assert(items@ =~= seq![head] + tail@);
        ConsList { items, marker: PhantomData }
    }
}

impl<T, Ts: ConsListT<T>> ConsList<T, Ts> {
    /// All elements as one slice, first to last.
    pub fn as_slice(&self) -> (slice: &[T])
        ensures
            slice@ == self@,
    {
        self.items.as_slice()
    }

    /// All elements as one mutable slice. What is written through the slice
    /// is what the list holds afterwards.
    pub fn as_mut_slice(&mut self) -> (slice: &mut [T])
        ensures
            slice@ == old(self)@,
            final(self)@ == final(slice)@,
    {
        self.items.as_mut_slice()
    }
}

impl<T, Ts: ConsListT<T>> IntoIterator for ConsList<T, Ts> {
    type Item = T;

    type IntoIter = Iter<T, Ts>;

    /// Hands the elements over to an iterator that has taken none of them.
    fn into_iter(self) -> (it: Iter<T, Ts>)
        ensures
            it.source() == self@,
            it.front() == 0,
            it.back() == self@.len(),
            it@ == self@,
    {
        Iter::new(self)
    }
}

/// The consuming iterator over a `ConsList`.
///
/// Every element sits in a slot of its own. A slot is either present, and
/// then holds its element, or taken, and then holds nothing. The slots that
/// are still present are those from `front` up to, not including, `back`.
pub struct Iter<T, Ts: ConsListT<T>> {
    slots: Vec<Option<T>>,
    front: usize,
    back: usize,
    source: Ghost<Seq<T>>,
    marker: PhantomData<Ts>,
}

/// Moves the element of slot `i` out and leaves the slot empty. The slot must
/// hold its element still: no slot is taken twice.
fn take_slot<T>(slots: &mut Vec<Option<T>>, i: usize) -> (e: Option<T>)
    requires
        i < old(slots).len(),
        old(slots)[i as int] is Some,
    ensures
        e == old(slots)[i as int],
        final(slots)@ == old(slots)@.update(i as int, None),
    no_unwind
{
    let mut e: Option<T> = None;
    core::mem::swap(&mut e, &mut slots[i]);
    e
}

/// Takes the slot at `front` and moves `front` past it.
fn take_front<T>(slots: &mut Vec<Option<T>>, front: &mut usize) -> (e: Option<T>)
    requires
        *old(front) < old(slots).len(),
        old(slots)[*old(front) as int] is Some,
    ensures
        e == old(slots)[*old(front) as int],
        final(slots)@ == old(slots)@.update(*old(front) as int, None),
        *final(front) == *old(front) + 1,
    no_unwind
{
    let i: usize = *front;
    let e = take_slot(slots, i);
    *front = i + 1;
    e
}

/// Takes the slot just before `back` and moves `back` onto it.
fn take_back<T>(slots: &mut Vec<Option<T>>, back: &mut usize) -> (e: Option<T>)
    requires
        0 < *old(back) <= old(slots).len(),
        old(slots)[*old(back) - 1] is Some,
    ensures
        e == old(slots)[*old(back) - 1],
        final(slots)@ == old(slots)@.update(*old(back) - 1, None),
        *final(back) == *old(back) - 1,
    no_unwind
{
    let i: usize = *back - 1;
    let e = take_slot(slots, i);
    *back = i;
    e
}

impl<T, Ts: ConsListT<T>> Iter<T, Ts> {
    /// A slot inside `front..back` holds the element that the list held at
    /// that index; a slot outside holds nothing.
    #[verifier::type_invariant]
    pub closed spec fn wf(self) -> bool {
        &&& self.front <= self.back <= self.slots.len()
        &&& self.source@.len() == self.slots.len()
        &&& forall|i: int|
            0 <= i < self.slots.len() ==> #[trigger] self.slots[i] == (if self.front <= i
                < self.back {
                Some(self.source@[i])
            } else {
                None
            })
    }

    /// The elements of the list that the iterator was made from, taken or
    /// not.
    pub closed spec fn source(&self) -> Seq<T> {
        self.source@
    }

    /// The index of the next slot that a forward step takes.
    pub closed spec fn front(&self) -> nat {
        self.front as nat
    }

    /// One more than the index of the next slot that a backward step takes.
    pub closed spec fn back(&self) -> nat {
        self.back as nat
    }

    /// Slot `i` still holds its element.
    pub closed spec fn present(&self, i: int) -> bool {
        0 <= i < self.slots.len() && self.slots[i] is Some
    }

    /// The elements that have not been taken, first to last.
    pub open spec fn view(&self) -> Seq<T> {
        self.source().subrange(self.front() as int, self.back() as int)
    }

    /// An iterator over all elements of `list`, none of them taken.
    pub fn new(list: ConsList<T, Ts>) -> (it: Self)
        ensures
            it.source() == list@,
            it.front() == 0,
            it.back() == list@.len(),
            it@ == list@,
    {
        let ghost src = list.items@;
        let mut slots: Vec<Option<T>> = Vec::new();
        for x in walk: list.items.into_iter()
            invariant
                walk.seq() == src,
                slots.len() == walk.index(),
                forall|j: int| 0 <= j < slots.len() ==> #[trigger] slots[j] == Some(src[j]),
        {
            slots.push(Some(x));
        }
        let back = slots.len();
        assert(src.subrange(0, back as int) =~= src);
        Iter { slots, front: 0, back, source: Ghost(src), marker: PhantomData }
    }

    /// Takes every element that is still present, in ascending order of its
    /// index, and discards it. Returns how many were taken.
    pub fn drain(&mut self) -> (n: usize)
        ensures
            final(self).wf(),
            final(self).source() == old(self).source(),
            final(self).front() == old(self).back(),
            final(self).back() == old(self).back(),
            final(self)@.len() == 0,
            n == old(self)@.len(),
            forall|i: int| !final(self).present(i),
    {
        proof {
            use_type_invariant(&*self);
        }
        let mut n: usize = 0;
        while self.front < self.back
            invariant
                self.wf(),
                self.source() == old(self).source(),
                self.back() == old(self).back(),
                old(self).front() <= self.front(),
                n == self.front() - old(self).front(),
            decreases self.back - self.front,
        {
            let _taken = take_front(&mut self.slots, &mut self.front);
            n = n + 1;
        }
        n
    }

    /// The slots that are present are those of the range `front..back`, and
    /// the range lies within the list.
    pub proof fn lemma_present_is_alive(self)
        requires
            self.wf(),
        ensures
            self.front() <= self.back() <= self.source().len(),
            forall|i: int| self.present(i) <==> self.front() <= i < self.back(),
    {
    }

    /// Where anything is left, the first element left is the one at `front`,
    /// the last is the one just before `back`, and there are `back - front`
    /// of them.
    pub proof fn lemma_ends(self)
        requires
            self.wf(),
        ensures
            self@.len() == self.back() - self.front(),
            self.front() < self.back() ==> self@.first() == self.source()[self.front() as int],
            self.front() < self.back() ==> self@.last() == self.source()[self.back() - 1],
            self.front() < self.back() ==> self@.drop_first() == self.source().subrange(
                self.front() as int + 1,
                self.back() as int,
            ),
            self.front() < self.back() ==> self@.drop_last() == self.source().subrange(
                self.front() as int,
                self.back() - 1,
            ),
    {
        if self.front() < self.back() {
            assert(self@.drop_first() =~= self.source().subrange(
                self.front() as int + 1,
                self.back() as int,
            ));
            assert(self@.drop_last() =~= self.source().subrange(
                self.front() as int,
                self.back() - 1,
            ));
        }
    }

    /// An iterator that has taken nothing yields the whole list, in the
    /// list's order.
    pub proof fn lemma_fresh_yields_all(self)
        requires
            self.wf(),
            self.front() == 0,
            self.back() == self.source().len(),
        ensures
            self@ == self.source(),
            forall|i: int| 0 <= i < self.source().len() ==> self.present(i),
    {
        assert(self@ =~= self.source());
    }

    /// Every slot is taken exactly once between the making of the iterator
    /// and the end of its teardown, however many elements the consumer took
    /// first.
    ///
    /// `fresh` is the iterator as made, `left` the iterator as the consumer
    /// left it after `k` forward steps, `gone` the iterator after `drain`. A
    /// slot below `k` was present in `fresh` and is taken in `left` and in
    /// `gone`: it went to the consumer. A slot from `k` on is present in
    /// `fresh` and in `left`, and taken in `gone`: it went at teardown.
    pub proof fn lemma_taken_exactly_once(fresh: Self, left: Self, gone: Self, k: nat)
        requires
            fresh.wf(),
            fresh.front() == 0,
            fresh.back() == fresh.source().len(),
            left.wf(),
            left.source() == fresh.source(),
            left.front() == k,
            left.back() == fresh.back(),
            gone.wf(),
            gone.source() == left.source(),
            gone.front() == left.back(),
            gone.back() == left.back(),
        ensures
            k <= fresh.source().len(),
            forall|i: int|
                0 <= i < fresh.source().len() ==> fresh.present(i) && !gone.present(i) && (
                left.present(i) <==> k <= i),
    {
    }
}

/// Prepending puts the new element first and keeps the order of the rest:
/// iterating the longer list yields `head`, then what iterating `tail`
/// yields.
pub proof fn lemma_prepend_order<T>(head: T, tail: Seq<T>)
    ensures
        (seq![head] + tail).len() == tail.len() + 1,
        (seq![head] + tail).first() == head,
        (seq![head] + tail).drop_first() == tail,
{
    assert((seq![head] + tail).drop_first() =~= tail);
}

impl<T, Ts: ConsListT<T>> Iterator for Iter<T, Ts> {
    type Item = T;

    /// Takes the element at `front`, if any is left.
    fn next(&mut self) -> (ret: Option<T>)
        ensures
            final(self).wf(),
            final(self).source() == old(self).source(),
            final(self).back() == old(self).back(),
            old(self).front() < old(self).back() ==> ret == Some(
                old(self).source()[old(self).front() as int],
            ) && final(self).front() == old(self).front() + 1,
            old(self).front() >= old(self).back() ==> ret is None && final(self).front() == old(
                self,
            ).front(),
            forall|i: int|
                final(self).present(i) <==> old(self).present(i) && !(ret is Some && i == old(
                    self,
                ).front()),
    {
        proof {
            use_type_invariant(&*self);
        }
        if self.front < self.back {
            take_front(&mut self.slots, &mut self.front)
        } else {
            None
        }
    }

    /// The number of elements left, as lower and as upper bound.
    fn size_hint(&self) -> (hint: (usize, Option<usize>))
        ensures
            hint.0 == self@.len(),
            hint.1 == Some(hint.0),
    {
        proof {
            use_type_invariant(self);
        }
        let len = self.back - self.front;
        (len, Some(len))
    }

    /// The number of elements left; the iterator is given up.
    fn count(self) -> (n: usize)
        ensures
            n == self@.len(),
    {
        proof {
            use_type_invariant(&self);
        }
        self.back - self.front
    }
}

impl<T, Ts: ConsListT<T>> DoubleEndedIterator for Iter<T, Ts> {
    /// Takes the element just before `back`, if any is left.
    fn next_back(&mut self) -> (ret: Option<T>)
        ensures
            final(self).wf(),
            final(self).source() == old(self).source(),
            final(self).front() == old(self).front(),
            old(self).front() < old(self).back() ==> ret == Some(
                old(self).source()[old(self).back() - 1],
            ) && final(self).back() == old(self).back() - 1,
            old(self).front() >= old(self).back() ==> ret is None && final(self).back() == old(
                self,
            ).back(),
            forall|i: int|
                final(self).present(i) <==> old(self).present(i) && !(ret is Some && i == old(
                    self,
                ).back() - 1),
    {
        proof {
            use_type_invariant(&*self);
        }
        if self.front < self.back {
            take_back(&mut self.slots, &mut self.back)
        } else {
            None
        }
    }
}

impl<T, Ts: ConsListT<T>> ExactSizeIterator for Iter<T, Ts> {
    /// The number of elements that have not been taken.
    fn len(&self) -> (n: usize)
        ensures
            n == self@.len(),
            n == self.back() - self.front(),
    {
        proof {
            use_type_invariant(self);
        }
        self.back - self.front
    }
}

/// Once `next` has returned `None`, it returns `None` ever after.
impl<T, Ts: ConsListT<T>> std::iter::FusedIterator for Iter<T, Ts> {

}

impl<T, Ts: ConsListT<T>> IteratorSpecImpl for Iter<T, Ts> {
    open spec fn obeys_prophetic_iter_laws(&self) -> bool {
        true
    }

    open spec fn remaining(&self) -> Seq<T> {
        self@
    }

    open spec fn will_return_none(&self) -> bool {
        true
    }

    open spec fn decrease(&self) -> Option<nat> {
        Some((self.back() - self.front()) as nat)
    }

    open spec fn initial_value_relation(&self, init: &Self) -> bool {
        init@ == self@
    }

    open spec fn peek(&self, index: int) -> Option<T> {
        if 0 <= index < self@.len() {
            Some(self@[index])
        } else {
            None
        }
    }
}

impl<T, Ts: ConsListT<T>> DoubleEndedIteratorSpecImpl for Iter<T, Ts> {
    open spec fn peek_back(&self, index: int) -> Option<T> {
        if 0 <= index < self@.len() {
            Some(self@[self@.len() - index - 1])
        } else {
            None
        }
    }
}

} // verus!
