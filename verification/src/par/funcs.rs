use std::future::Future;
use vstd::future::FutureAdditionalSpecFns;
use vstd::prelude::*;

verus! {

/// An operation that can be started on an element of type `I` through a shared
/// reference, so that several invocations can be in flight at once on one
/// thread. The future it hands back owns all it needs.
pub trait AsyncLocalParFunc<I> {
    type Output;

    type Future: Future<Output = Self::Output>;

    /// The inputs on which `call` may be invoked.
    open spec fn accepts(&self, i: I) -> bool {
        true
    }

    /// What the started operation may resolve to on input `i`.
    open spec fn yields(&self, i: I, o: Self::Output) -> bool {
        true
    }

    fn call(&self, i: I) -> (fut: Self::Future)
        requires
            self.accepts(i),
        ensures
            self.yields(i, fut@),
    ;
}

impl<F: AsyncLocalParFunc<I>, I> AsyncLocalParFunc<I> for &F {
    type Output = F::Output;

    type Future = F::Future;

    open spec fn accepts(&self, i: I) -> bool {
        (**self).accepts(i)
    }

    open spec fn yields(&self, i: I, o: Self::Output) -> bool {
        (**self).yields(i, o)
    }

    fn call(&self, i: I) -> (fut: Self::Future) {
        F::call(self, i)
    }
}

/// As [`AsyncLocalParFunc`], for operations whose invocations may run on other
/// threads: the operation is shareable, its futures and results can be sent.
pub trait AsyncParFunc<I>: Sync {
    type Output: Send;

    type Future: Future<Output = Self::Output> + Send;

    /// The inputs on which `call` may be invoked.
    open spec fn accepts(&self, i: I) -> bool {
        true
    }

    /// What the started operation may resolve to on input `i`.
    open spec fn yields(&self, i: I, o: Self::Output) -> bool {
        true
    }

    fn call(&self, i: I) -> (fut: Self::Future)
        requires
            self.accepts(i),
        ensures
            self.yields(i, fut@),
    ;
}

impl<F: AsyncParFunc<I> + Sync, I> AsyncParFunc<I> for &F {
    type Output = F::Output;

    type Future = F::Future;

    open spec fn accepts(&self, i: I) -> bool {
        (**self).accepts(i)
    }

    open spec fn yields(&self, i: I, o: Self::Output) -> bool {
        (**self).yields(i, o)
    }

    fn call(&self, i: I) -> (fut: Self::Future) {
        F::call(self, i)
    }
}

} // verus!
