use super::funcs::{AsyncLocalParFunc, AsyncParFunc};
use crate::Poly;
use std::future::Future;
use vstd::future::FutureAdditionalSpecFns;
use vstd::prelude::*;

verus! {

/// Starts one operation on every element of a list and keeps each result at
/// its element's position, in a list of the same shape.
pub trait AsyncLocalParHMappable<Mapper>: Sized {
    /// The list of results.
    type Output;

    /// The results as the joined future delivers them: right-nested pairs.
    type Done;

    type Future: Future<Output = Self::Done>;

    /// Every element is an input that the mapper accepts.
    spec fn mappable(&self, f: &Mapper) -> bool;

    /// At every position, `out` holds a result of the mapper on the element
    /// that `self` holds at that position.
    spec fn maps_to(&self, f: &Mapper, out: Self::Output) -> bool;

    /// The list that holds, position by position, the components of `done`.
    spec fn gathered(done: Self::Done) -> Self::Output;

    fn par_map_local(self, f: &Mapper) -> (fut: Self::Future)
        requires
            self.mappable(f),
        ensures
            self.maps_to(f, Self::gathered(fut@)),
    ;

    fn gather(done: Self::Done) -> (out: Self::Output)
        ensures
            out == Self::gathered(done),
    ;
}

impl<Mapper> AsyncLocalParHMappable<Mapper> for frunk::HNil {
    type Output = frunk::HNil;

    type Done = ();

    type Future = futures::future::Ready<()>;

    open spec fn mappable(&self, f: &Mapper) -> bool {
        true
    }

    open spec fn maps_to(&self, f: &Mapper, out: frunk::HNil) -> bool {
        true
    }

    open spec fn gathered(done: ()) -> frunk::HNil {
        frunk::HNil
    }

    fn par_map_local(self, _f: &Mapper) -> (fut: Self::Future) {
        futures::future::ready(())
    }

    fn gather(done: ()) -> (out: frunk::HNil) {
        frunk::HNil
    }
}

impl<
    F: AsyncLocalParFunc<Head>,
    Head,
    Tail: AsyncLocalParHMappable<Poly<F>>,
> AsyncLocalParHMappable<Poly<F>> for frunk::HCons<Head, Tail> {
    type Output = frunk::HCons<F::Output, Tail::Output>;

    type Done = (F::Output, Tail::Done);

    type Future = futures::future::Join<F::Future, Tail::Future>;

    open spec fn mappable(&self, f: &Poly<F>) -> bool {
        f.0.accepts(self.head) && self.tail.mappable(f)
    }

    open spec fn maps_to(&self, f: &Poly<F>, out: Self::Output) -> bool {
        f.0.yields(self.head, out.head) && self.tail.maps_to(f, out.tail)
    }

    open spec fn gathered(done: (F::Output, Tail::Done)) -> Self::Output {
        frunk::HCons { head: done.0, tail: Tail::gathered(done.1) }
    }

    fn par_map_local(self, f: &Poly<F>) -> (fut: Self::Future) {
        let frunk::HCons { head, tail } = self;
        futures::future::join(f.0.call(head), tail.par_map_local(f))
    }

    fn gather(done: (F::Output, Tail::Done)) -> (out: Self::Output) {
        let (head, rest) = done;
        frunk::HCons { head, tail: Tail::gather(rest) }
    }
}

/// As [`AsyncLocalParHMappable`], with everything sendable to other threads.
pub trait AsyncParHMappable<Mapper>: Send + Sized {
    /// The list of results.
    type Output: Send;

    /// The results as the joined future delivers them: right-nested pairs.
    type Done: Send;

    type Future: Future<Output = Self::Done> + Send;

    /// Every element is an input that the mapper accepts.
    spec fn mappable(&self, f: &Mapper) -> bool;

    /// At every position, `out` holds a result of the mapper on the element
    /// that `self` holds at that position.
    spec fn maps_to(&self, f: &Mapper, out: Self::Output) -> bool;

    /// The list that holds, position by position, the components of `done`.
    spec fn gathered(done: Self::Done) -> Self::Output;

    fn par_map(self, f: &Mapper) -> (fut: Self::Future)
        requires
            self.mappable(f),
        ensures
            self.maps_to(f, Self::gathered(fut@)),
    ;

    fn gather(done: Self::Done) -> (out: Self::Output)
        ensures
            out == Self::gathered(done),
    ;
}

impl<Mapper: Sync> AsyncParHMappable<Mapper> for frunk::HNil {
    type Output = frunk::HNil;

    type Done = ();

    type Future = futures::future::Ready<()>;

    open spec fn mappable(&self, f: &Mapper) -> bool {
        true
    }

    open spec fn maps_to(&self, f: &Mapper, out: frunk::HNil) -> bool {
        true
    }

    open spec fn gathered(done: ()) -> frunk::HNil {
        frunk::HNil
    }

    fn par_map(self, _f: &Mapper) -> (fut: Self::Future) {
        futures::future::ready(())
    }

    fn gather(done: ()) -> (out: frunk::HNil) {
        frunk::HNil
    }
}

impl<F: AsyncParFunc<Head>, Head: Send, Tail: AsyncParHMappable<Poly<F>>> AsyncParHMappable<
    Poly<F>,
> for frunk::HCons<Head, Tail> {
    type Output = frunk::HCons<F::Output, Tail::Output>;

    type Done = (F::Output, Tail::Done);

    type Future = futures::future::Join<F::Future, Tail::Future>;

    open spec fn mappable(&self, f: &Poly<F>) -> bool {
        f.0.accepts(self.head) && self.tail.mappable(f)
    }

    open spec fn maps_to(&self, f: &Poly<F>, out: Self::Output) -> bool {
        f.0.yields(self.head, out.head) && self.tail.maps_to(f, out.tail)
    }

    open spec fn gathered(done: (F::Output, Tail::Done)) -> Self::Output {
        frunk::HCons { head: done.0, tail: Tail::gathered(done.1) }
    }

    fn par_map(self, f: &Poly<F>) -> (fut: Self::Future) {
        let frunk::HCons { head, tail } = self;
        futures::future::join(f.0.call(head), tail.par_map(f))
    }

    fn gather(done: (F::Output, Tail::Done)) -> (out: Self::Output) {
        let (head, rest) = done;
        frunk::HCons { head, tail: Tail::gather(rest) }
    }
}

} // verus!
