//! Facts about filtered sequences.

use vstd::prelude::*;

verus! {

/// A filter keeps a sequence whose elements all pass it.
pub(crate) proof fn lemma_filter_keeps_all<A>(s: Seq<A>, pred: spec_fn(A) -> bool)
    requires
        forall|i: int| 0 <= i < s.len() ==> pred(#[trigger] s[i]),
    ensures
        s.filter(pred) == s,
    decreases s.len(),
{
    reveal(Seq::filter);
    if s.len() > 0 {
        lemma_filter_keeps_all(s.drop_last(), pred);
        assert(s.drop_last().push(s.last()) =~= s);
    }
}

/// A filter drops a sequence of which no element passes it.
pub(crate) proof fn lemma_filter_drops_all<A>(s: Seq<A>, pred: spec_fn(A) -> bool)
    requires
        forall|i: int| 0 <= i < s.len() ==> !pred(#[trigger] s[i]),
    ensures
        s.filter(pred) == Seq::<A>::empty(),
    decreases s.len(),
{
    reveal(Seq::filter);
    if s.len() > 0 {
        lemma_filter_drops_all(s.drop_last(), pred);
    }
}

/// A filter works on what stands before an element, on the element and on
/// what stands behind it, each by itself.
pub(crate) proof fn lemma_filter_around<A>(s: Seq<A>, pred: spec_fn(A) -> bool, i: int)
    requires
        0 <= i < s.len(),
    ensures
        s.filter(pred) == s.take(i).filter(pred) + seq![s[i]].filter(pred) + s.skip(i + 1).filter(
            pred,
        ),
        seq![s[i]].filter(pred) == if pred(s[i]) {
            seq![s[i]]
        } else {
            Seq::<A>::empty()
        },
{
    let one = seq![s[i]];
    assert(s =~= s.take(i) + one + s.skip(i + 1));
    Seq::filter_distributes_over_add(s.take(i) + one, s.skip(i + 1), pred);
    Seq::filter_distributes_over_add(s.take(i), one, pred);
    assert(one.filter(pred) == if pred(s[i]) {
        one
    } else {
        Seq::<A>::empty()
    }) by {
        reveal_with_fuel(Seq::filter, 2);
        assert(one.drop_last() =~= Seq::<A>::empty());
        assert(Seq::<A>::empty().push(s[i]) =~= one);
    }
}

} // verus!
