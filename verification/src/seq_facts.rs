//! Facts about filtered sequences.

use vstd::prelude::*;

verus! {

/// Every element of a filtered sequence is an element of the sequence that satisfies
/// the predicate.
pub proof fn lemma_filter_subset<A>(s: Seq<A>, pred: spec_fn(A) -> bool)
    ensures
        forall|i: int| 0 <= i < s.filter(pred).len() ==> s.contains(#[trigger] s.filter(pred)[i]) && pred(s.filter(pred)[i]),
    decreases s.len(),
{
    reveal_with_fuel(Seq::filter, 1);
    if s.len() > 0 {
        let p = s.drop_last();
        lemma_filter_subset(p, pred);
        let f = s.filter(pred);
        assert forall|i: int| 0 <= i < f.len() implies s.contains(#[trigger] f[i]) && pred(f[i]) by {
            if i < p.filter(pred).len() {
                assert(f[i] == p.filter(pred)[i]);
                let k = choose|k: int| 0 <= k < p.len() && p[k] == p.filter(pred)[i];
                assert(s[k] == f[i]);
            } else {
                assert(f[i] == s.last());
                assert(s[s.len() - 1] == f[i]);
            }
        }
    }
}

/// Two elements of a filtered sequence come from two positions of the sequence in the
/// same order.
pub proof fn lemma_filter_order<A>(s: Seq<A>, pred: spec_fn(A) -> bool, a: int, b: int)
    requires
        0 <= a < b < s.filter(pred).len(),
    ensures
        exists|ia: int, ib: int| 0 <= ia < ib < s.len() && s[ia] == s.filter(pred)[a] && s[ib] == s.filter(pred)[b],
    decreases s.len(),
{
    reveal_with_fuel(Seq::filter, 1);
    let p = s.drop_last();
    let pf = p.filter(pred);
    let f = s.filter(pred);
    if b < pf.len() {
        lemma_filter_order(p, pred, a, b);
        let (ia, ib) = choose|ia: int, ib: int| 0 <= ia < ib < p.len() && p[ia] == pf[a] && p[ib] == pf[b];
        assert(s[ia] == f[a] && s[ib] == f[b]);
    } else {
        lemma_filter_subset(p, pred);
        assert(f[a] == pf[a]);
        assert(p.contains(pf[a]));
        let ia = choose|ia: int| 0 <= ia < p.len() && p[ia] == pf[a];
        assert(s[ia] == f[a]);
        assert(s[s.len() - 1] == f[b]);
    }
}

/// Filtering by two predicates one after the other is filtering by their conjunction.
pub proof fn lemma_filter_twice<A>(s: Seq<A>, p1: spec_fn(A) -> bool, p2: spec_fn(A) -> bool, p: spec_fn(A) -> bool)
    requires
        forall|x: A| #[trigger] p(x) == (p1(x) && p2(x)),
    ensures
        s.filter(p1).filter(p2) == s.filter(p),
    decreases s.len(),
{
    reveal_with_fuel(Seq::filter, 1);
    if s.len() == 0 {
        assert(s.filter(p1).filter(p2) =~= s.filter(p));
    } else {
        lemma_filter_twice(s.drop_last(), p1, p2, p);
        let x = s.last();
        if p1(x) {
            assert(s.filter(p1).drop_last() == s.drop_last().filter(p1));
            assert(s.filter(p1).last() == x);
        }
    }
}

} // verus!