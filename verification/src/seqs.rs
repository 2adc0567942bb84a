//! Small sequence facts shared by the drivers' ghost-log proofs.

use vstd::prelude::*;

verus! {

/// Every sequence is a prefix of itself.
pub(crate) proof fn lemma_prefix_refl<T>(s: Seq<T>)
    ensures
        s.is_prefix_of(s),
{
    assert(s =~= s.subrange(0, s.len() as int));
}

/// A prefix stays one when the longer sequence grows by an element.
pub(crate) proof fn lemma_prefix_push<T>(s: Seq<T>, t: Seq<T>, e: T)
    requires
        s.is_prefix_of(t),
    ensures
        s.is_prefix_of(t.push(e)),
{
    assert(s =~= t.push(e).subrange(0, s.len() as int));
}

/// Being a prefix is transitive.
pub(crate) proof fn lemma_prefix_trans<T>(a: Seq<T>, b: Seq<T>, c: Seq<T>)
    requires
        a.is_prefix_of(b),
        b.is_prefix_of(c),
    ensures
        a.is_prefix_of(c),
{
    assert(a =~= c.subrange(0, a.len() as int));
}

/// Skipping a concatenation's left part leaves its right part.
pub(crate) proof fn lemma_concat_skip<T>(a: Seq<T>, b: Seq<T>)
    ensures
        (a + b).skip(a.len() as int) == b,
{
    assert((a + b).skip(a.len() as int) =~= b);
}

} // verus!
