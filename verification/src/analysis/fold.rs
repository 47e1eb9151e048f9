//! Concatenating per-element results over a sequence, the shape every
//! collection pass of the analysis has.
use vstd::prelude::*;

verus! {

/// `f` applied to each element of `s`, the results concatenated in order.
pub open spec fn flat_map<A, B>(s: Seq<A>, f: spec_fn(A) -> Seq<B>) -> Seq<B>
    decreases s.len(),
{
    if s.len() == 0 {
        Seq::empty()
    } else {
        flat_map(s.drop_last(), f) + f(s.last())
    }
}

/// One more element of the prefix adds its own results at the end.
pub proof fn lemma_flat_map_step<A, B>(s: Seq<A>, i: int, f: spec_fn(A) -> Seq<B>)
    requires
        0 <= i < s.len(),
    ensures
        flat_map(s.take(i + 1), f) == flat_map(s.take(i), f) + f(s[i]),
{
    assert(s.take(i + 1).drop_last() =~= s.take(i));
}

/// The empty prefix gives nothing; the full prefix is the whole sequence.
pub proof fn lemma_take_ends<A>(s: Seq<A>)
    ensures
        s.take(0) == Seq::<A>::empty(),
        s.take(s.len() as int) == s,
{
    assert(s.take(0) =~= Seq::<A>::empty());
    assert(s.take(s.len() as int) =~= s);
}

} // verus!
