//! Stable sorting.
use vstd::prelude::*;

verus! {

/// Values that have a rank: a strict order, in which different values may be equal.
pub trait Ranked: Sized + View {
    /// Whether `a` comes strictly before `b`.
    spec fn ranks_before(a: Self::V, b: Self::V) -> bool;

    /// Whether this comes strictly before `other`.
    fn comes_before(&self, other: &Self) -> (r: bool)
        ensures
            r == Self::ranks_before(self@, other@),
    ;
}

/// What a list of values holds.
pub open spec fn views_of<T: View>(all: Seq<T>) -> Seq<T::V> {
    Seq::new(all.len(), |i: int| all[i]@)
}

/// The index of the first value that `x` comes strictly before.
pub open spec fn rank_slot<T: Ranked>(sorted: Seq<T::V>, x: T::V) -> nat
    decreases sorted.len(),
{
    if sorted.len() == 0 || T::ranks_before(x, sorted[0]) {
        0
    } else {
        1 + rank_slot::<T>(sorted.skip(1), x)
    }
}

/// The sequence in the order of the ranks; values of equal rank keep their order.
pub open spec fn ranked<T: Ranked>(all: Seq<T::V>) -> Seq<T::V>
    decreases all.len(),
{
    if all.len() == 0 {
        Seq::empty()
    } else {
        let sorted = ranked::<T>(all.drop_last());
        sorted.insert(rank_slot::<T>(sorted, all.last()) as int, all.last())
    }
}

/// What `rank_slot` finds.
pub proof fn lemma_rank_slot<T: Ranked>(sorted: Seq<T::V>, x: T::V)
    ensures
        rank_slot::<T>(sorted, x) <= sorted.len(),
        rank_slot::<T>(sorted, x) < sorted.len() ==> T::ranks_before(
            x,
            sorted[rank_slot::<T>(sorted, x) as int],
        ),
        forall|i: int|
            0 <= i < rank_slot::<T>(sorted, x) ==> !T::ranks_before(x, #[trigger] sorted[i]),
    decreases sorted.len(),
{
    if sorted.len() > 0 && !T::ranks_before(x, sorted[0]) {
        lemma_rank_slot::<T>(sorted.skip(1), x);
        assert forall|i: int| 0 <= i < rank_slot::<T>(sorted, x) implies !T::ranks_before(
            x,
            #[trigger] sorted[i],
        ) by {
            if i > 0 {
                assert(sorted[i] == sorted.skip(1)[i - 1]);
            }
        }
    }
}

/// Sorting keeps the values: nothing is lost and nothing is added.
pub proof fn law_ranked_is_a_permutation<T: Ranked>(all: Seq<T::V>)
    ensures
        ranked::<T>(all).to_multiset() == all.to_multiset(),
        ranked::<T>(all).len() == all.len(),
    decreases all.len(),
{
    broadcast use vstd::seq_lib::group_to_multiset_ensures;

    if all.len() > 0 {
        let rest = all.drop_last();
        law_ranked_is_a_permutation::<T>(rest);
        let sorted = ranked::<T>(rest);
        lemma_rank_slot::<T>(sorted, all.last());
        let n = rank_slot::<T>(sorted, all.last()) as int;
        sorted.insert_ensures(n, all.last());
        vstd::seq_lib::to_multiset_insert(sorted, n, all.last());
        assert(all =~= rest.push(all.last()));
        vstd::seq_lib::to_multiset_build(rest, all.last());
    } else {
        assert(ranked::<T>(all) =~= all);
    }
}

/// Whether the rank is an order: nothing comes before itself, and whatever does not
/// come after one thing does not come after what that does not come after.
pub open spec fn is_ranking<T: Ranked>() -> bool {
    &&& forall|a: T::V, b: T::V| T::ranks_before(a, b) ==> !T::ranks_before(b, a)
    &&& forall|a: T::V, b: T::V, c: T::V|
        !T::ranks_before(b, a) && !T::ranks_before(c, b) ==> !T::ranks_before(c, a)
}

/// A sorted sequence stands in the order of the ranks.
pub proof fn law_ranked_is_sorted<T: Ranked>(all: Seq<T::V>)
    requires
        is_ranking::<T>(),
    ensures
        forall|i: int, j: int|
            0 <= i < j < ranked::<T>(all).len() ==> !T::ranks_before(
                #[trigger] ranked::<T>(all)[j],
                #[trigger] ranked::<T>(all)[i],
            ),
    decreases all.len(),
{
    if all.len() > 0 {
        let rest = all.drop_last();
        law_ranked_is_sorted::<T>(rest);
        let sorted = ranked::<T>(rest);
        let x = all.last();
        lemma_rank_slot::<T>(sorted, x);
        let n = rank_slot::<T>(sorted, x) as int;
        let out = ranked::<T>(all);
        assert(out == sorted.insert(n, x));
        assert forall|i: int, j: int| 0 <= i < j < out.len() implies !T::ranks_before(
            #[trigger] out[j],
            #[trigger] out[i],
        ) by {
            if j < n {
                assert(out[i] == sorted[i] && out[j] == sorted[j]);
            } else if j == n {
                assert(out[i] == sorted[i] && out[j] == x);
            } else if i < n {
                assert(out[i] == sorted[i] && out[j] == sorted[j - 1]);
            } else if i == n {
                assert(out[i] == x && out[j] == sorted[j - 1]);
                assert(T::ranks_before(x, sorted[n]));
                if n < j - 1 {
                    assert(!T::ranks_before(sorted[j - 1], sorted[n]));
                }
            } else {
                assert(out[i] == sorted[i - 1] && out[j] == sorted[j - 1]);
            }
        }
    }
}

/// Sorts a list; values of equal rank keep their order.
pub fn sort<T: Ranked>(all: Vec<T>) -> (out: Vec<T>)
    ensures
        views_of(out@) == ranked::<T>(views_of(all@)),
{
    let ghost given = views_of(all@);
    let ghost items = all@;
    let mut out: Vec<T> = Vec::new();
    proof {
        assert(views_of(out@) =~= Seq::empty());
    }
    for item in it: all
        invariant
            it.seq() == items,
            given == views_of(items),
            views_of(out@) == ranked::<T>(given.take(it.index())),
    {
        let ghost was = views_of(out@);
        let mut n: usize = 0;
        proof {
            assert(was.skip(0) =~= was);
        }
        while n < out.len() && !item.comes_before(&out[n])
            invariant
                n <= out.len(),
                was == views_of(out@),
                rank_slot::<T>(was, item@) == n + rank_slot::<T>(was.skip(n as int), item@),
            decreases out.len() - n,
        {
            proof {
                assert(was.skip(n as int)[0] == out@[n as int]@);
                assert(was.skip(n as int).skip(1) =~= was.skip(n + 1));
            }
            n = n + 1;
        }
        proof {
            if n < out.len() {
                assert(was.skip(n as int)[0] == out@[n as int]@);
            }
            let i = it.index();
            assert(given.take(i + 1).drop_last() =~= given.take(i));
            assert(given.take(i + 1).last() == item@);
        }
        out.insert(n, item);
        proof {
            assert(views_of(out@) =~= was.insert(n as int, item@));
        }
    }
    proof {
        assert(given.take(given.len() as int) =~= given);
    }
    out
}

} // verus!
