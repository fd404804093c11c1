//! Concurrent traversal of a heterogeneous list.
//!
//! Every element's operation is started while the list is walked, front to
//! back, and the futures so obtained are joined pairwise into one future.
//! Awaiting that future drives all of them together; it resolves to the
//! results as right-nested pairs, one component per position, whatever the
//! order in which the operations completed.

pub mod for_each;
pub mod funcs;
pub mod hmappable;
pub mod map_to_list;

use std::future::Future;
use vstd::future::FutureAdditionalSpecFns;
use vstd::prelude::*;

verus! {

/// `futures::future::Join`, the future that `futures::future::join` returns.
/// Nothing inside it is visible to the verifier.
#[verifier::external_type_specification]
#[verifier::external_body]
#[verifier::reject_recursive_types(Fut1)]
#[verifier::reject_recursive_types(Fut2)]
pub struct ExJoin<Fut1: Future, Fut2: Future>(futures::future::Join<Fut1, Fut2>);

/// `futures::future::Ready`, the future that `futures::future::ready` returns.
/// Nothing inside it is visible to the verifier.
#[verifier::external_type_specification]
#[verifier::external_body]
#[verifier::reject_recursive_types(T)]
pub struct ExReady<T>(futures::future::Ready<T>);

/// `futures::future::join` is taken at its documented word: the future it
/// returns waits for both arguments and finishes with the pair of their
/// results, the first argument's result first.
pub assume_specification<Fut1, Fut2>[ futures::future::join::<Fut1, Fut2> ](
    future1: Fut1,
    future2: Fut2,
) -> (joined: futures::future::Join<Fut1, Fut2>) where Fut1: Future, Fut2: Future
    ensures
        joined@ == (future1@, future2@),
;

/// `futures::future::ready` is taken at its documented word: the future it
/// returns finishes with the value it was given.
pub assume_specification<T>[ futures::future::ready::<T> ](t: T) -> (now: futures::future::Ready<T>)
    ensures
        now@ == t,
;

} // verus!
