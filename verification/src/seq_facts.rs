//! Small facts about `Seq::filter` that both the rewriter and the startup
//! phase lean on.

use vstd::prelude::*;

verus! {

/// Filtering a sequence extended by one element keeps the old result and
/// appends the element exactly when it satisfies the predicate.
pub(crate) proof fn lemma_filter_push<A>(s: Seq<A>, pred: spec_fn(A) -> bool, x: A)
    ensures
        s.push(x).filter(pred) == if pred(x) {
            s.filter(pred).push(x)
        } else {
            s.filter(pred)
        },
{
    reveal(Seq::filter);
    assert(s.push(x).drop_last() =~= s);
    assert(s.push(x).last() == x);
}

/// A sequence none of whose elements satisfies the predicate filters to the
/// empty sequence.
pub(crate) proof fn lemma_filter_all_out<A>(s: Seq<A>, pred: spec_fn(A) -> bool)
    requires
        forall|i: int| 0 <= i < s.len() ==> !pred(#[trigger] s[i]),
    ensures
        s.filter(pred) == Seq::<A>::empty(),
    decreases s.len(),
{
    if s.len() == 0 {
        reveal(Seq::filter);
        assert(s.filter(pred) =~= Seq::<A>::empty());
    } else {
        let rest = s.drop_last();
        lemma_filter_all_out(rest, pred);
        lemma_filter_push(rest, pred, s.last());
        assert(rest.push(s.last()) =~= s);
    }
}

/// A predicate satisfied at two positions of a sequence survives filtering
/// at two positions, in the same order.
pub(crate) proof fn lemma_filter_keeps_two<A>(s: Seq<A>, pred: spec_fn(A) -> bool, i: int, j: int)
    requires
        0 <= i < j < s.len(),
        pred(s[i]),
        pred(s[j]),
    ensures
        exists|k1: int, k2: int|
            0 <= k1 < k2 < s.filter(pred).len() && #[trigger] s.filter(pred)[k1] == s[i]
                && #[trigger] s.filter(pred)[k2] == s[j],
    decreases s.len(),
{
    let rest = s.drop_last();
    lemma_filter_push(rest, pred, s.last());
    assert(rest.push(s.last()) =~= s);
    if j == s.len() - 1 {
        rest.lemma_filter_contains(pred, i);
        let fr = rest.filter(pred);
        let k1 = choose|k: int| 0 <= k < fr.len() && fr[k] == rest[i];
        assert(s.filter(pred) == fr.push(s.last()));
        assert(s.filter(pred)[k1] == s[i]);
        assert(s.filter(pred)[fr.len() as int] == s[j]);
    } else {
        lemma_filter_keeps_two(rest, pred, i, j);
        let (k1, k2) = choose|k1: int, k2: int|
            0 <= k1 < k2 < rest.filter(pred).len() && #[trigger] rest.filter(pred)[k1] == rest[i]
                && #[trigger] rest.filter(pred)[k2] == rest[j];
        assert(s.filter(pred)[k1] == s[i]);
        assert(s.filter(pred)[k2] == s[j]);
    }
}

} // verus!
