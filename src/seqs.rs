//! Facts about filtering sequences whose elements are split by a predicate.
use vstd::prelude::*;

verus! {

/// Filtering keeps exactly the first `k` elements when they are the ones
/// that satisfy `p`.
pub proof fn lemma_filter_prefix<A>(s: Seq<A>, p: spec_fn(A) -> bool, k: int)
    requires
        0 <= k <= s.len(),
        forall|i: int| 0 <= i < k ==> p(#[trigger] s[i]),
        forall|i: int| k <= i < s.len() ==> !p(#[trigger] s[i]),
    ensures
        s.filter(p) == s.take(k),
    decreases s.len(),
{
    reveal(Seq::filter);
    if s.len() == 0 {
        assert(s.take(k) =~= s);
    } else {
        let d = s.drop_last();
        assert forall|i: int| 0 <= i < d.len() implies d[i] == s[i] by {}
        if k == s.len() {
            assert(p(s[s.len() - 1]));
            lemma_filter_prefix(d, p, k - 1);
            assert(d.take(k - 1) =~= d);
            assert(d.push(s.last()) =~= s);
            assert(s.take(k) =~= s);
        } else {
            assert(!p(s[s.len() - 1]));
            lemma_filter_prefix(d, p, k);
            assert(d.take(k) =~= s.take(k));
        }
    }
}

/// Filtering keeps exactly the elements from index `k` on when they are the
/// ones that satisfy `p`.
pub proof fn lemma_filter_suffix<A>(s: Seq<A>, p: spec_fn(A) -> bool, k: int)
    requires
        0 <= k <= s.len(),
        forall|i: int| 0 <= i < k ==> !p(#[trigger] s[i]),
        forall|i: int| k <= i < s.len() ==> p(#[trigger] s[i]),
    ensures
        s.filter(p) == s.skip(k),
    decreases s.len(),
{
    reveal(Seq::filter);
    if s.len() == k {
        lemma_filter_prefix(s, p, 0);
        assert(s.take(0) =~= s.skip(k));
    } else {
        let d = s.drop_last();
        assert forall|i: int| 0 <= i < d.len() implies d[i] == s[i] by {}
        assert(p(s[s.len() - 1]));
        lemma_filter_suffix(d, p, k);
        assert(d.skip(k).push(s.last()) =~= s.skip(k));
    }
}

/// Filtering drops exactly the element at `j` when it is the only one that
/// fails `p`.
pub proof fn lemma_filter_remove<A>(s: Seq<A>, p: spec_fn(A) -> bool, j: int)
    requires
        0 <= j < s.len(),
        !p(s[j]),
        forall|i: int| 0 <= i < s.len() && i != j ==> p(#[trigger] s[i]),
    ensures
        s.filter(p) == s.remove(j),
    decreases s.len(),
{
    reveal(Seq::filter);
    let d = s.drop_last();
    assert forall|i: int| 0 <= i < d.len() implies d[i] == s[i] by {}
    if j == s.len() - 1 {
        lemma_filter_prefix(d, p, d.len() as int);
        assert(d.take(d.len() as int) =~= d);
        assert(d =~= s.remove(j));
    } else {
        assert(p(s[s.len() - 1]));
        lemma_filter_remove(d, p, j);
        assert(d.remove(j).push(s.last()) =~= s.remove(j));
    }
}

} // verus!
