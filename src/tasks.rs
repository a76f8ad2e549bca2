//! Running two computations as a pair, and handing a sequence out for
//! iteration, either on the calling thread or on rayon's worker pool.

pub use rayon::iter::IntoParallelIterator;
use vstd::prelude::*;
use vstd::std_specs::iter::IteratorSpec;

verus! {

/// Runs `oper_a`, then `oper_b`, on the calling thread and returns both
/// results.
pub fn join<A, B, RA, RB>(oper_a: A, oper_b: B) -> (r: (RA, RB))
    where
        A: FnOnce() -> RA,
        B: FnOnce() -> RB,
    requires
        oper_a.requires(()),
        oper_b.requires(()),
    ensures
        oper_a.ensures((), r.0),
        oper_b.ensures((), r.1),
{
    let ra = oper_a();
    let rb = oper_b();
    (ra, rb)
}

/// Relies on `rayon::join`: both closures run to completion, perhaps at
/// the same time on two threads of the pool, and their results come back
/// as a pair in argument order.
#[verifier::external_body]
fn rayon_join<A, B, RA, RB>(oper_a: A, oper_b: B) -> (r: (RA, RB))
    where
        A: FnOnce() -> RA + Send,
        B: FnOnce() -> RB + Send,
        RA: Send,
        RB: Send,
    requires
        oper_a.requires(()),
        oper_b.requires(()),
    ensures
        oper_a.ensures((), r.0),
        oper_b.ensures((), r.1),
{
    rayon::join(oper_a, oper_b)
}

/// Runs `oper_a` and `oper_b` on rayon's worker pool, perhaps at the same
/// time, and returns both results once both have finished.
pub fn par_join<A, B, RA, RB>(oper_a: A, oper_b: B) -> (r: (RA, RB))
    where
        A: FnOnce() -> RA + Send,
        B: FnOnce() -> RB + Send,
        RA: Send,
        RB: Send,
    requires
        oper_a.requires(()),
        oper_b.requires(()),
    ensures
        oper_a.ensures((), r.0),
        oper_b.ensures((), r.1),
{
    rayon_join(oper_a, oper_b)
}

/// The sequential stand-in for a parallel iterator: the ordinary iterator
/// that yields the elements of `v` in order, each once.
pub fn into_par_iter<T>(v: Vec<T>) -> (r: std::vec::IntoIter<T>)
    ensures
        r.remaining() == v@,
{
    v.into_iter()
}

} // verus!
