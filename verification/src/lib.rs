//! Traversals of frunk's heterogeneous lists with one operation that is
//! invoked on every element in turn, and a uniform list to collect results in.
//!
//! An operation is a value that implements [`Func`] once for every element
//! type it is to meet. It is invoked through `&mut self`, so it can carry
//! state from one element to the next. [`ForEach`] runs it for its effect,
//! [`MapToList`] gathers what it returns in a [`ConsList`]. The module
//! [`par`] holds the traversals that start all invocations at once.

pub mod cons_list;
pub mod par;

pub use self::cons_list::{ConsList, ConsListT};
use vstd::prelude::*;

verus! {

/// `frunk::HNil`, the empty heterogeneous list. It has no fields.
#[verifier::external_type_specification]
pub struct ExHNil(frunk::HNil);

/// `frunk::HCons`, a heterogeneous list of a first element and the list of
/// the others. Its two public fields, `head` and `tail`, are read as they
/// are declared.
#[verifier::external_type_specification]
#[verifier::reject_recursive_types(H)]
#[verifier::reject_recursive_types(T)]
pub struct ExHCons<H, T>(frunk::HCons<H, T>);

/// Marks `F` as an operation to be invoked on every element, where a
/// traversal could otherwise take it for something else.
pub struct Poly<F>(pub F);

/// An operation that can be invoked on an element of type `I`.
///
/// An implementation says in `accepts` on which inputs it may be invoked and
/// in `yields` what an invocation may return; where it says nothing, every
/// input is accepted and every outcome possible.
pub trait Func<I>: Sized {
    type Output;

    /// The inputs on which `call` may be invoked.
    open spec fn accepts(&self, i: I) -> bool {
        true
    }

    /// What an invocation on `i` may return, and in what state it may leave
    /// the operation.
    open spec fn yields(&self, i: I, after: Self, o: Self::Output) -> bool {
        true
    }

    fn call(&mut self, i: I) -> (o: Self::Output)
        requires
            Self::accepts(&*old(self), i),
        ensures
            Self::yields(&*old(self), i, *final(self), o),
    ;
}

impl<F: Func<I>, I> Func<I> for &mut F {
    type Output = F::Output;

    open spec fn accepts(&self, i: I) -> bool {
        (**self).accepts(i)
    }

    open spec fn yields(&self, i: I, after: Self, o: Self::Output) -> bool {
        (**self).yields(i, *after, o)
    }

    fn call(&mut self, i: I) -> (o: Self::Output) {
        (**self).call(i)
    }
}

/// The operation that returns its input.
pub struct Identity;

impl<T> Func<T> for Identity {
    type Output = T;

    open spec fn accepts(&self, i: T) -> bool {
        true
    }

    open spec fn yields(&self, i: T, after: Self, o: T) -> bool {
        o == i
    }

    fn call(&mut self, i: T) -> (o: T) {
        i
    }
}

/// Lists on whose every element the operation `F` returns a `U`.
pub trait MapToList<F, U>: Sized {
    type Output: ConsListT<U>;

    /// The operation accepts the first element, and in whatever state that
    /// invocation leaves it, it accepts the next, and so on to the last.
    spec fn mappable(&self, f: F) -> bool;

    /// `out` is what a run of invocations, first element to last, each
    /// starting in the state that the one before left, can return: `out[i]`
    /// is what the invocation on element `i` returned.
    spec fn maps_to(&self, f: F, out: Seq<U>) -> bool;

    /// Invokes `f` on every element, first to last, and collects the results
    /// in that order.
    fn map_to_list(self, f: F) -> (list: ConsList<U, Self::Output>)
        requires
            self.mappable(f),
        ensures
            self.maps_to(f, list@),
            list.well_shaped(),
    ;

    /// Mapping yields one result for each element.
    proof fn lemma_map_to_list_len(&self, f: F, out: Seq<U>)
        requires
            self.maps_to(f, out),
        ensures
            out.len() == <Self::Output as ConsListT<U>>::spec_len(),
    ;
}

impl<F, U> MapToList<F, U> for frunk::HNil {
    type Output = cons_list::Nil;

    open spec fn mappable(&self, f: F) -> bool {
        true
    }

    open spec fn maps_to(&self, f: F, out: Seq<U>) -> bool {
        out == Seq::<U>::empty()
    }

    fn map_to_list(self, _f: F) -> (list: ConsList<U, Self::Output>) {
        ConsList::nil()
    }

    proof fn lemma_map_to_list_len(&self, f: F, out: Seq<U>) {
    }
}

impl<F: Func<Head, Output = U>, U, Head, Tail: MapToList<F, U>> MapToList<F, U> for frunk::HCons<
    Head,
    Tail,
> {
    type Output = cons_list::Cons<U, <Tail as MapToList<F, U>>::Output>;

    open spec fn mappable(&self, f: F) -> bool {
        &&& f.accepts(self.head)
        &&& forall|after: F, o: U| #[trigger]
            f.yields(self.head, after, o) ==> self.tail.mappable(after)
    }

    open spec fn maps_to(&self, f: F, out: Seq<U>) -> bool {
        &&& out.len() > 0
        &&& exists|after: F| #[trigger]
            f.yields(self.head, after, out[0]) && self.tail.maps_to(after, out.drop_first())
    }

    fn map_to_list(self, f: F) -> (list: ConsList<U, Self::Output>) {
        let mut f = f;
        let ghost before = f;
        let frunk::HCons { head, tail } = self;
        let o = f.call(head);
        let ghost after = f;
        let rest = tail.map_to_list(f);
        let list = ConsList::cons(o, rest);
        proof {
            assert(list@.drop_first() =~= rest@);
            assert(before.yields(self.head, after, list@[0]) && self.tail.maps_to(
                after,
                list@.drop_first(),
            ));
        }
        list
    }

    proof fn lemma_map_to_list_len(&self, f: F, out: Seq<U>) {
        let after = choose|after: F| #[trigger]
            f.yields(self.head, after, out[0]) && self.tail.maps_to(after, out.drop_first());
        self.tail.lemma_map_to_list_len(after, out.drop_first());
    }
}

/// Lists on whose every element the operation `F` can be invoked, whatever it
/// returns there.
pub trait HMap<F>: Sized {
    /// The list of results: of the same length, with each element's result
    /// type in that element's place.
    type Output;

    /// The operation accepts the first element, and in whatever state that
    /// invocation leaves it, it accepts the next, and so on to the last.
    spec fn mappable(&self, f: F) -> bool;

    /// `out` is what a run of invocations, first element to last, each
    /// starting in the state that the one before left, can return: at every
    /// position `out` holds what the invocation on the element at that
    /// position returned.
    spec fn maps_to(&self, f: F, out: Self::Output) -> bool;

    /// Invokes `f` on every element, first to last, and puts each result in
    /// its element's place.
    fn hmap(self, f: F) -> (out: Self::Output)
        requires
            self.mappable(f),
        ensures
            self.maps_to(f, out),
    ;
}

impl<F> HMap<F> for frunk::HNil {
    type Output = frunk::HNil;

    open spec fn mappable(&self, f: F) -> bool {
        true
    }

    open spec fn maps_to(&self, f: F, out: frunk::HNil) -> bool {
        true
    }

    fn hmap(self, _f: F) -> (out: frunk::HNil) {
        frunk::HNil
    }
}

impl<F: Func<Head>, Head, Tail: HMap<F>> HMap<F> for frunk::HCons<Head, Tail> {
    type Output = frunk::HCons<F::Output, Tail::Output>;

    open spec fn mappable(&self, f: F) -> bool {
        &&& f.accepts(self.head)
        &&& forall|after: F, o: F::Output| #[trigger]
            f.yields(self.head, after, o) ==> self.tail.mappable(after)
    }

    open spec fn maps_to(&self, f: F, out: Self::Output) -> bool {
        exists|after: F| #[trigger]
            f.yields(self.head, after, out.head) && self.tail.maps_to(after, out.tail)
    }

    fn hmap(self, f: F) -> (out: Self::Output) {
        let mut f = f;
        let ghost before = f;
        let frunk::HCons { head, tail } = self;
        let o = f.call(head);
        let ghost after = f;
        let rest = tail.hmap(f);
        let out = frunk::HCons { head: o, tail: rest };
        proof {
            assert(before.yields(self.head, after, out.head) && self.tail.maps_to(after, out.tail));
        }
        out
    }
}

/// Lists on whose every element the operation `F` can be invoked for its
/// effect.
pub trait ForEach<F>: Sized {
    /// The operation accepts the first element, and in whatever state that
    /// invocation leaves it, it accepts the next, and so on to the last.
    spec fn visitable(&self, f: F) -> bool;

    /// `end` is a state in which a run of invocations, first element to
    /// last, each starting in the state that the one before left, can leave
    /// the operation.
    spec fn visits(&self, f: F, end: F) -> bool;

    /// Invokes `f` on every element, first to last, and hands the operation
    /// back as the last invocation left it.
    fn for_each(self, f: F) -> (end: F)
        requires
            self.visitable(f),
        ensures
            self.visits(f, end),
    ;
}

impl<F> ForEach<F> for frunk::HNil {
    open spec fn visitable(&self, f: F) -> bool {
        true
    }

    open spec fn visits(&self, f: F, end: F) -> bool {
        end == f
    }

    fn for_each(self, f: F) -> (end: F) {
        f
    }
}

impl<F: Func<Head, Output = ()>, Head, Tail: ForEach<F>> ForEach<F> for frunk::HCons<Head, Tail> {
    open spec fn visitable(&self, f: F) -> bool {
        &&& f.accepts(self.head)
        &&& forall|after: F| #[trigger] f.yields(self.head, after, ()) ==> self.tail.visitable(after)
    }

    open spec fn visits(&self, f: F, end: F) -> bool {
        exists|after: F| #[trigger] f.yields(self.head, after, ()) && self.tail.visits(after, end)
    }

    fn for_each(self, f: F) -> (end: F) {
        let mut f = f;
        let ghost before = f;
        let frunk::HCons { head, tail } = self;
        f.call(head);
        let ghost after = f;
        let end = tail.for_each(f);
        proof {
            assert(before.yields(self.head, after, ()) && self.tail.visits(after, end));
        }
        end
    }
}

} // verus!
