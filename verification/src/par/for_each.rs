use super::funcs::{AsyncLocalParFunc, AsyncParFunc};
use crate::Poly;
use std::future::Future;
use vstd::future::FutureAdditionalSpecFns;
use vstd::prelude::*;

verus! {

/// Starts one operation on every element of a list, for its effect alone.
pub trait AsyncLocalParForEach<F>: Sized {
    /// One unit per element, nested as the list is.
    type Done;

    type Future: Future<Output = Self::Done>;

    /// Every element is an input that the operation accepts.
    spec fn visitable(&self, f: &F) -> bool;

    /// Every element's invocation met the operation's own postcondition.
    spec fn visits(&self, f: &F, done: Self::Done) -> bool;

    fn par_for_each_local(self, f: &F) -> (fut: Self::Future)
        requires
            self.visitable(f),
        ensures
            self.visits(f, fut@),
    ;
}

impl<F> AsyncLocalParForEach<F> for frunk::HNil {
    type Done = ();

    type Future = futures::future::Ready<()>;

    open spec fn visitable(&self, f: &F) -> bool {
        true
    }

    open spec fn visits(&self, f: &F, done: ()) -> bool {
        true
    }

    fn par_for_each_local(self, _f: &F) -> (fut: Self::Future) {
        futures::future::ready(())
    }
}

impl<
    F: AsyncLocalParFunc<Head, Output = ()>,
    Head,
    Tail: AsyncLocalParForEach<Poly<F>>,
> AsyncLocalParForEach<Poly<F>> for frunk::HCons<Head, Tail> {
    type Done = ((), Tail::Done);

    type Future = futures::future::Join<F::Future, Tail::Future>;

    open spec fn visitable(&self, f: &Poly<F>) -> bool {
        f.0.accepts(self.head) && self.tail.visitable(f)
    }

    open spec fn visits(&self, f: &Poly<F>, done: ((), Tail::Done)) -> bool {
        f.0.yields(self.head, done.0) && self.tail.visits(f, done.1)
    }

    fn par_for_each_local(self, f: &Poly<F>) -> (fut: Self::Future) {
        let frunk::HCons { head, tail } = self;
        futures::future::join(f.0.call(head), tail.par_for_each_local(f))
    }
}

/// As [`AsyncLocalParForEach`], with everything sendable to other threads.
pub trait AsyncParForEach<F>: Send + Sized {
    /// One unit per element, nested as the list is.
    type Done: Send;

    type Future: Future<Output = Self::Done> + Send;

    /// Every element is an input that the operation accepts.
    spec fn visitable(&self, f: &F) -> bool;

    /// Every element's invocation met the operation's own postcondition.
    spec fn visits(&self, f: &F, done: Self::Done) -> bool;

    fn par_for_each(self, f: &F) -> (fut: Self::Future)
        requires
            self.visitable(f),
        ensures
            self.visits(f, fut@),
    ;
}

impl<F: Sync> AsyncParForEach<F> for frunk::HNil {
    type Done = ();

    type Future = futures::future::Ready<()>;

    open spec fn visitable(&self, f: &F) -> bool {
        true
    }

    open spec fn visits(&self, f: &F, done: ()) -> bool {
        true
    }

    fn par_for_each(self, _f: &F) -> (fut: Self::Future) {
        futures::future::ready(())
    }
}

impl<
    F: AsyncParFunc<Head, Output = ()>,
    Head: Send,
    Tail: AsyncParForEach<Poly<F>>,
> AsyncParForEach<Poly<F>> for frunk::HCons<Head, Tail> {
    type Done = ((), Tail::Done);

    type Future = futures::future::Join<F::Future, Tail::Future>;

    open spec fn visitable(&self, f: &Poly<F>) -> bool {
        f.0.accepts(self.head) && self.tail.visitable(f)
    }

    open spec fn visits(&self, f: &Poly<F>, done: ((), Tail::Done)) -> bool {
        f.0.yields(self.head, done.0) && self.tail.visits(f, done.1)
    }

    fn par_for_each(self, f: &Poly<F>) -> (fut: Self::Future) {
        let frunk::HCons { head, tail } = self;
        futures::future::join(f.0.call(head), tail.par_for_each(f))
    }
}

} // verus!
