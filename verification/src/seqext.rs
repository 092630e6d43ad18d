//! Sequence lemmas that the wire-format proofs lean on.

use vstd::prelude::*;

verus! {

/// Concatenation of sequences is associative.
pub broadcast proof fn lemma_concat_assoc<A>(a: Seq<A>, b: Seq<A>, c: Seq<A>)
    ensures
        #[trigger] ((a + b) + c) == a + (b + c),
{
    assert((a + b) + c =~= a + (b + c));
}

/// The empty sequence is a right identity for concatenation.
pub broadcast proof fn lemma_concat_empty_right<A>(a: Seq<A>)
    ensures
        #[trigger] (a + Seq::<A>::empty()) == a,
{
    assert(a + Seq::<A>::empty() =~= a);
}

/// The empty sequence is a left identity for concatenation.
pub broadcast proof fn lemma_concat_empty_left<A>(a: Seq<A>)
    ensures
        #[trigger] (Seq::<A>::empty() + a) == a,
{
    assert(Seq::<A>::empty() + a =~= a);
}

} // verus!
