use vstd::prelude::*;

verus! {

/// The sum of `f` over every element of `s`.  The aggregation invariants of
/// the test tie a parent node's counters to such sums over its children.
pub open spec fn sum_of<T>(s: Seq<T>, f: spec_fn(T) -> int) -> int
    decreases s.len(),
{
    if s.len() == 0 {
        0
    } else {
        sum_of(s.drop_last(), f) + f(s.last())
    }
}

/// Replacing one element changes the sum by the difference at that element.
pub proof fn lemma_sum_of_update<T>(s: Seq<T>, f: spec_fn(T) -> int, i: int, v: T)
    requires
        0 <= i < s.len(),
    ensures
        sum_of(s.update(i, v), f) == sum_of(s, f) - f(s[i]) + f(v),
    decreases s.len(),
{
    let t = s.update(i, v);
    if i == s.len() - 1 {
        assert(t.drop_last() =~= s.drop_last());
    } else {
        assert(t.drop_last() =~= s.drop_last().update(i, v));
        lemma_sum_of_update(s.drop_last(), f, i, v);
    }
}

/// Appending an element adds its contribution.
pub proof fn lemma_sum_of_push<T>(s: Seq<T>, f: spec_fn(T) -> int, v: T)
    ensures
        sum_of(s.push(v), f) == sum_of(s, f) + f(v),
{
    assert(s.push(v).drop_last() =~= s);
}

/// Two sequences whose elements contribute pairwise the same have the same
/// sum.
pub proof fn lemma_sum_of_pointwise<T>(s1: Seq<T>, s2: Seq<T>, f: spec_fn(T) -> int)
    requires
        s1.len() == s2.len(),
        forall|i: int| 0 <= i < s1.len() ==> #[trigger] f(s1[i]) == f(s2[i]),
    ensures
        sum_of(s1, f) == sum_of(s2, f),
    decreases s1.len(),
{
    if s1.len() > 0 {
        lemma_sum_of_pointwise(s1.drop_last(), s2.drop_last(), f);
        assert(f(s1[s1.len() - 1]) == f(s2[s2.len() - 1]));
    }
}

/// With no negative contributions, each element's value is at most the sum.
pub proof fn lemma_sum_of_bounds_element<T>(s: Seq<T>, f: spec_fn(T) -> int, i: int)
    requires
        0 <= i < s.len(),
        forall|j: int| 0 <= j < s.len() ==> #[trigger] f(s[j]) >= 0,
    ensures
        f(s[i]) <= sum_of(s, f),
        sum_of(s, f) >= 0,
    decreases s.len(),
{
    if i == s.len() - 1 {
        lemma_sum_of_nonneg(s.drop_last(), f);
    } else {
        lemma_sum_of_bounds_element(s.drop_last(), f, i);
    }
}

/// A sum of non-negative contributions is non-negative.
pub proof fn lemma_sum_of_nonneg<T>(s: Seq<T>, f: spec_fn(T) -> int)
    requires
        forall|j: int| 0 <= j < s.len() ==> #[trigger] f(s[j]) >= 0,
    ensures
        sum_of(s, f) >= 0,
    decreases s.len(),
{
    if s.len() > 0 {
        lemma_sum_of_nonneg(s.drop_last(), f);
    }
}

} // verus!
