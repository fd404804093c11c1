use super::funcs::{AsyncLocalParFunc, AsyncParFunc};
use crate::cons_list::{Cons, ConsList, ConsListT, Nil};
use crate::Poly;
use std::future::Future;
use vstd::future::FutureAdditionalSpecFns;
use vstd::prelude::*;

verus! {

/// Starts one operation on every element of a list, all of them with the same
/// result type `U`, and keeps each result at its element's position in a
/// uniform list.
pub trait AsyncLocalParMapToList<F, U>: Sized {
    type Output: ConsListT<U>;

    /// The results as the joined future delivers them: right-nested pairs.
    type Done;

    type Future: Future<Output = Self::Done>;

    /// Every element is an input that the operation accepts.
    spec fn mappable(&self, f: &F) -> bool;

    /// `out` has one entry per element, and entry `i` is a result of the
    /// operation on element `i`.
    spec fn maps_to(&self, f: &F, out: Seq<U>) -> bool;

    /// The components of `done`, outermost first.
    spec fn gathered(done: Self::Done) -> Seq<U>;

    fn par_map_to_list_local(self, f: &F) -> (fut: Self::Future)
        requires
            self.mappable(f),
        ensures
            self.maps_to(f, Self::gathered(fut@)),
    ;

    fn gather(done: Self::Done) -> (list: ConsList<U, Self::Output>)
        ensures
            list@ == Self::gathered(done),
            list.well_shaped(),
    ;

    /// The list of results is as long as the list of elements.
    proof fn lemma_gathered_len(done: Self::Done)
        ensures
            Self::gathered(done).len() == <Self::Output as ConsListT<U>>::spec_len(),
    ;
}

impl<F, U> AsyncLocalParMapToList<F, U> for frunk::HNil {
    type Output = Nil;

    type Done = ();

    type Future = futures::future::Ready<()>;

    open spec fn mappable(&self, f: &F) -> bool {
        true
    }

    open spec fn maps_to(&self, f: &F, out: Seq<U>) -> bool {
        out == Seq::<U>::empty()
    }

    open spec fn gathered(done: ()) -> Seq<U> {
        Seq::<U>::empty()
    }

    fn par_map_to_list_local(self, _f: &F) -> (fut: Self::Future) {
        futures::future::ready(())
    }

    fn gather(done: ()) -> (list: ConsList<U, Nil>) {
        ConsList::nil()
    }

    proof fn lemma_gathered_len(done: ()) {
    }
}

impl<
    F: AsyncLocalParFunc<Head, Output = U>,
    U,
    Head,
    Tail: AsyncLocalParMapToList<Poly<F>, U>,
> AsyncLocalParMapToList<Poly<F>, U> for frunk::HCons<Head, Tail> {
    type Output = Cons<U, Tail::Output>;

    type Done = (U, Tail::Done);

    type Future = futures::future::Join<F::Future, Tail::Future>;

    open spec fn mappable(&self, f: &Poly<F>) -> bool {
        f.0.accepts(self.head) && self.tail.mappable(f)
    }

    open spec fn maps_to(&self, f: &Poly<F>, out: Seq<U>) -> bool {
        &&& out.len() > 0
        &&& f.0.yields(self.head, out[0])
        &&& self.tail.maps_to(f, out.drop_first())
    }

    open spec fn gathered(done: (U, Tail::Done)) -> Seq<U> {
        seq![done.0] + Tail::gathered(done.1)
    }

    fn par_map_to_list_local(self, f: &Poly<F>) -> (fut: Self::Future) {
        let frunk::HCons { head, tail } = self;
        let fut = futures::future::join(f.0.call(head), tail.par_map_to_list_local(f));
        proof {
            assert(Self::gathered(fut@).drop_first() =~= Tail::gathered(fut@.1));
        }
        fut
    }

    fn gather(done: (U, Tail::Done)) -> (list: ConsList<U, Self::Output>) {
        let (head, rest) = done;
        let list = ConsList::cons(head, Tail::gather(rest));
        assert(list@ =~= Self::gathered(done));
        list
    }

    proof fn lemma_gathered_len(done: (U, Tail::Done)) {
        Tail::lemma_gathered_len(done.1);
    }
}

/// As [`AsyncLocalParMapToList`], with everything sendable to other threads.
pub trait AsyncParMapToList<F, U>: Send + Sized {
    type Output: ConsListT<U> + Send;

    /// The results as the joined future delivers them: right-nested pairs.
    type Done: Send;

    type Future: Future<Output = Self::Done> + Send;

    /// Every element is an input that the operation accepts.
    spec fn mappable(&self, f: &F) -> bool;

    /// `out` has one entry per element, and entry `i` is a result of the
    /// operation on element `i`.
    spec fn maps_to(&self, f: &F, out: Seq<U>) -> bool;

    /// The components of `done`, outermost first.
    spec fn gathered(done: Self::Done) -> Seq<U>;

    fn par_map_to_list(self, f: &F) -> (fut: Self::Future)
        requires
            self.mappable(f),
        ensures
            self.maps_to(f, Self::gathered(fut@)),
    ;

    fn gather(done: Self::Done) -> (list: ConsList<U, Self::Output>)
        ensures
            list@ == Self::gathered(done),
            list.well_shaped(),
    ;

    /// The list of results is as long as the list of elements.
    proof fn lemma_gathered_len(done: Self::Done)
        ensures
            Self::gathered(done).len() == <Self::Output as ConsListT<U>>::spec_len(),
    ;
}

impl<F: Sync, U> AsyncParMapToList<F, U> for frunk::HNil {
    type Output = Nil;

    type Done = ();

    type Future = futures::future::Ready<()>;

    open spec fn mappable(&self, f: &F) -> bool {
        true
    }

    open spec fn maps_to(&self, f: &F, out: Seq<U>) -> bool {
        out == Seq::<U>::empty()
    }

    open spec fn gathered(done: ()) -> Seq<U> {
        Seq::<U>::empty()
    }

    fn par_map_to_list(self, _f: &F) -> (fut: Self::Future) {
        futures::future::ready(())
    }

    fn gather(done: ()) -> (list: ConsList<U, Nil>) {
        ConsList::nil()
    }

    proof fn lemma_gathered_len(done: ()) {
    }
}

impl<
    F: AsyncParFunc<Head, Output = U>,
    U: Send,
    Head: Send,
    Tail: AsyncParMapToList<Poly<F>, U>,
> AsyncParMapToList<Poly<F>, U> for frunk::HCons<Head, Tail> {
    type Output = Cons<U, Tail::Output>;

    type Done = (U, Tail::Done);

    type Future = futures::future::Join<F::Future, Tail::Future>;

    open spec fn mappable(&self, f: &Poly<F>) -> bool {
        f.0.accepts(self.head) && self.tail.mappable(f)
    }

    open spec fn maps_to(&self, f: &Poly<F>, out: Seq<U>) -> bool {
        &&& out.len() > 0
        &&& f.0.yields(self.head, out[0])
        &&& self.tail.maps_to(f, out.drop_first())
    }

    open spec fn gathered(done: (U, Tail::Done)) -> Seq<U> {
        seq![done.0] + Tail::gathered(done.1)
    }

    fn par_map_to_list(self, f: &Poly<F>) -> (fut: Self::Future) {
        let frunk::HCons { head, tail } = self;
        let fut = futures::future::join(f.0.call(head), tail.par_map_to_list(f));
        proof {
            assert(Self::gathered(fut@).drop_first() =~= Tail::gathered(fut@.1));
        }
        fut
    }

    fn gather(done: (U, Tail::Done)) -> (list: ConsList<U, Self::Output>) {
        let (head, rest) = done;
        let list = ConsList::cons(head, Tail::gather(rest));
        assert(list@ =~= Self::gathered(done));
        list
    }

    proof fn lemma_gathered_len(done: (U, Tail::Done)) {
        Tail::lemma_gathered_len(done.1);
    }
}

} // verus!
