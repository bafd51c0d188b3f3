//! A stable insertion sort driven by a verified three-way row order.
use vstd::prelude::*;

use crate::strings::SortOrder;

verus! {

/// A three-way order on rows, given by a spec function and an executable comparison.
pub trait RowOrder<T> {
    spec fn spec_order(&self, a: T, b: T) -> SortOrder;

    fn order(&self, a: &T, b: &T) -> (r: SortOrder)
        ensures
            r == self.spec_order(*a, *b);

    /// Swapping the operands reverses the order.
    proof fn lemma_antisymmetric(&self, a: T, b: T)
        ensures
            self.spec_order(b, a) == self.spec_order(a, b).spec_reverse();
}

/// No row is ordered after its successor.
pub open spec fn adjacent_sorted<T, C: RowOrder<T>>(c: &C, s: Seq<T>) -> bool {
    forall|i: int| 0 <= i < s.len() - 1 ==> #[trigger] c.spec_order(s[i], s[i + 1]) != SortOrder::Greater
}

proof fn lemma_insert_multiset<T>(before: Seq<T>, i: int, removed: Seq<T>, j: int, x: T, t: Seq<T>)
    requires
        0 <= i < before.len(),
        before[i] == x,
        removed == before.remove(i),
        0 <= j <= removed.len(),
        t == removed.insert(j, x),
    ensures
        t.to_multiset() == before.to_multiset(),
{
    broadcast use vstd::seq_lib::group_to_multiset_ensures;
    assert(before.remove(i).to_multiset() == before.to_multiset().remove(x));
    assert(t.remove(j) =~= removed);
    assert(t[j] == x);
    assert(t.remove(j).to_multiset() == t.to_multiset().remove(x));
    assert(t.to_multiset().count(x) > 0);
    assert(t.to_multiset() =~= removed.to_multiset().insert(x));
    assert(before.to_multiset().count(x) > 0);
    assert(removed.to_multiset().insert(x) =~= before.to_multiset());
}

proof fn lemma_insert_sorted<T, C: RowOrder<T>>(c: &C, removed: Seq<T>, j: int, i: int, x: T, t: Seq<T>)
    requires
        0 <= j <= i,
        i <= removed.len(),
        t == removed.insert(j, x),
        forall|k: int| 0 <= k < i - 1 ==> #[trigger] c.spec_order(removed[k], removed[k + 1]) != SortOrder::Greater,
        forall|k: int| j <= k < i ==> c.spec_order(#[trigger] removed[k], x) == SortOrder::Greater,
        j > 0 ==> c.spec_order(removed[j - 1], x) != SortOrder::Greater,
    ensures
        forall|k: int| 0 <= k < i ==> #[trigger] c.spec_order(t[k], t[k + 1]) != SortOrder::Greater,
{
    assert forall|k: int| 0 <= k < i implies #[trigger] c.spec_order(t[k], t[k + 1]) != SortOrder::Greater by {
        if k < j - 1 {
            assert(t[k] == removed[k] && t[k + 1] == removed[k + 1]);
            assert(c.spec_order(removed[k], removed[k + 1]) != SortOrder::Greater);
        } else if k == j - 1 {
            assert(t[k] == removed[k] && t[k + 1] == x);
        } else if k == j {
            assert(t[k] == x && t[k + 1] == removed[k]);
            assert(c.spec_order(removed[k], x) == SortOrder::Greater);
            c.lemma_antisymmetric(removed[k], x);
        } else {
            let k1 = k - 1;
            assert(t[k] == removed[k1] && t[k + 1] == removed[k1 + 1]);
            assert(c.spec_order(removed[k1], removed[k1 + 1]) != SortOrder::Greater);
        }
    }
}

/// `p` records where each row of `after` stood in `before`: each row comes from a
/// position of its own in `before`, and two neighbours that compare `Equal` under
/// `order` stand in the order they had in `before`.
pub open spec fn stable_positions<T>(
    order: spec_fn(T, T) -> SortOrder,
    before: Seq<T>,
    after: Seq<T>,
    p: Seq<int>,
) -> bool {
    &&& after.len() == before.len()
    &&& p.len() == before.len()
    &&& forall|k: int| 0 <= k < p.len() ==> 0 <= #[trigger] p[k] < before.len() && after[k] == before[p[k]]
    &&& forall|k: int, l: int| 0 <= k < l < p.len() ==> #[trigger] p[k] != #[trigger] p[l]
    &&& forall|k: int|
        0 <= k < after.len() - 1 && #[trigger] order(after[k], after[k + 1]) == SortOrder::Equal
            ==> p[k] < p[k + 1]
}

/// `after` holds the rows of `before`, rearranged so that neighbours comparing `Equal`
/// under `order` keep the order they had in `before`.
pub open spec fn stable_rearrangement<T>(order: spec_fn(T, T) -> SortOrder, before: Seq<T>, after: Seq<T>) -> bool {
    exists|p: Seq<int>| #[trigger] stable_positions(order, before, after, p)
}

/// What the outer loop of the sort keeps of the positions `p`: the rows from `i` on
/// are still in place, and the sorted prefix is a stable arrangement of `0..i`.
spec fn sort_positions<T, C: RowOrder<T>>(c: &C, start: Seq<T>, cur: Seq<T>, p: Seq<int>, i: int) -> bool {
    &&& p.len() == start.len() == cur.len()
    &&& forall|k: int| 0 <= k < p.len() ==> 0 <= #[trigger] p[k] < start.len() && cur[k] == start[p[k]]
    &&& forall|k: int, l: int| 0 <= k < l < p.len() ==> #[trigger] p[k] != #[trigger] p[l]
    &&& forall|k: int| i <= k < p.len() ==> #[trigger] p[k] == k
    &&& forall|k: int| 0 <= k < i ==> #[trigger] p[k] < i
    &&& forall|k: int|
        0 <= k < i - 1 && #[trigger] c.spec_order(cur[k], cur[k + 1]) == SortOrder::Equal ==> p[k] < p[k + 1]
}

proof fn lemma_insert_positions_map<T, C: RowOrder<T>>(
    c: &C,
    start: Seq<T>,
    before: Seq<T>,
    p: Seq<int>,
    i: int,
    removed: Seq<T>,
    j: int,
    x: T,
    t: Seq<T>,
)
    requires
        0 <= j <= i < before.len(),
        sort_positions(c, start, before, p, i),
        before[i] == x,
        removed == before.remove(i),
        t == removed.insert(j, x),
        forall|k: int| j <= k < i ==> c.spec_order(#[trigger] removed[k], x) == SortOrder::Greater,
    ensures
        forall|k: int| 0 <= k < t.len() ==> 0 <= #[trigger] p.remove(i).insert(j, i)[k] < start.len() && t[k] == start[p.remove(i).insert(j, i)[k]],
{
    let q = p.remove(i);
    let np = q.insert(j, i);
    p.remove_ensures(i);
    q.insert_ensures(j, i);
    before.remove_ensures(i);
    removed.insert_ensures(j, x);
    assert(p[i] == i);
    assert forall|k: int| 0 <= k < np.len() implies 0 <= #[trigger] np[k] < start.len() && t[k] == start[np[k]] by {
        if k < j {
            assert(np[k] == q[k] && t[k] == removed[k]);
            assert(q[k] == p[k] && removed[k] == before[k]);
            assert(before[k] == start[p[k]]);
        } else if k > j {
            assert(np[k] == q[k - 1] && t[k] == removed[k - 1]);
            if k - 1 < i {
                assert(q[k - 1] == p[k - 1] && removed[k - 1] == before[k - 1]);
                assert(before[k - 1] == start[p[k - 1]]);
            } else {
                assert(q[k - 1] == p[k] && removed[k - 1] == before[k]);
                assert(before[k] == start[p[k]]);
            }
        } else {
            assert(np[k] == i && t[k] == x);
            assert(before[i] == start[p[i]]);
        }
    }
}

proof fn lemma_insert_positions_distinct<T, C: RowOrder<T>>(
    c: &C,
    start: Seq<T>,
    before: Seq<T>,
    p: Seq<int>,
    i: int,
    removed: Seq<T>,
    j: int,
    x: T,
    t: Seq<T>,
)
    requires
        0 <= j <= i < before.len(),
        sort_positions(c, start, before, p, i),
        before[i] == x,
        removed == before.remove(i),
        t == removed.insert(j, x),
        forall|k: int| j <= k < i ==> c.spec_order(#[trigger] removed[k], x) == SortOrder::Greater,
    ensures
        forall|k: int, l: int| 0 <= k < l < t.len() ==> #[trigger] p.remove(i).insert(j, i)[k] != #[trigger] p.remove(i).insert(j, i)[l],
{
    let q = p.remove(i);
    let np = q.insert(j, i);
    p.remove_ensures(i);
    q.insert_ensures(j, i);
    before.remove_ensures(i);
    removed.insert_ensures(j, x);
    assert(p[i] == i);
    assert forall|k: int, l: int| 0 <= k < l < np.len() implies #[trigger] np[k] != #[trigger] np[l] by {
        let a = if k < j { k } else if k > j { k - 1 } else { -1 };
        let b = if l < j { l } else if l > j { l - 1 } else { -1 };
        let pa = if a < i { a } else { a + 1 };
        let pb = if b < i { b } else { b + 1 };
        if k != j && l != j {
            assert(np[k] == q[a] && q[a] == p[pa]);
            assert(np[l] == q[b] && q[b] == p[pb]);
            assert(pa < pb);
        } else if k == j {
            assert(np[l] == q[b] && q[b] == p[pb]);
            assert(p[i] == i);
        } else {
            assert(np[k] == q[a] && q[a] == p[pa]);
            assert(p[i] == i);
        }
    }
}

proof fn lemma_insert_positions_prefix<T, C: RowOrder<T>>(
    c: &C,
    start: Seq<T>,
    before: Seq<T>,
    p: Seq<int>,
    i: int,
    removed: Seq<T>,
    j: int,
    x: T,
    t: Seq<T>,
)
    requires
        0 <= j <= i < before.len(),
        sort_positions(c, start, before, p, i),
        before[i] == x,
        removed == before.remove(i),
        t == removed.insert(j, x),
        forall|k: int| j <= k < i ==> c.spec_order(#[trigger] removed[k], x) == SortOrder::Greater,
    ensures
        forall|k: int| i + 1 <= k < t.len() ==> #[trigger] p.remove(i).insert(j, i)[k] == k,
        forall|k: int| 0 <= k < i + 1 ==> #[trigger] p.remove(i).insert(j, i)[k] < i + 1,
{
    let q = p.remove(i);
    let np = q.insert(j, i);
    p.remove_ensures(i);
    q.insert_ensures(j, i);
    before.remove_ensures(i);
    removed.insert_ensures(j, x);
    assert(p[i] == i);
    assert forall|k: int| i + 1 <= k < np.len() implies #[trigger] np[k] == k by {
        assert(np[k] == q[k - 1] && q[k - 1] == p[k]);
    }
    assert forall|k: int| 0 <= k < i + 1 implies #[trigger] np[k] < i + 1 by {
        if k < j {
            assert(np[k] == q[k] && q[k] == p[k]);
        } else if k > j {
            assert(np[k] == q[k - 1] && q[k - 1] == p[k - 1]);
        }
    }
}

proof fn lemma_insert_positions_stable<T, C: RowOrder<T>>(
    c: &C,
    start: Seq<T>,
    before: Seq<T>,
    p: Seq<int>,
    i: int,
    removed: Seq<T>,
    j: int,
    x: T,
    t: Seq<T>,
)
    requires
        0 <= j <= i < before.len(),
        sort_positions(c, start, before, p, i),
        before[i] == x,
        removed == before.remove(i),
        t == removed.insert(j, x),
        forall|k: int| j <= k < i ==> c.spec_order(#[trigger] removed[k], x) == SortOrder::Greater,
    ensures
        forall|k: int|
            0 <= k < i && #[trigger] c.spec_order(t[k], t[k + 1]) == SortOrder::Equal ==> p.remove(i).insert(j, i)[k] < p.remove(i).insert(j, i)[k + 1],
{
    let q = p.remove(i);
    let np = q.insert(j, i);
    p.remove_ensures(i);
    q.insert_ensures(j, i);
    before.remove_ensures(i);
    removed.insert_ensures(j, x);
    assert(p[i] == i);
    assert forall|k: int|
        0 <= k < i && #[trigger] c.spec_order(t[k], t[k + 1]) == SortOrder::Equal implies np[k] < np[k + 1] by {
        if k + 1 < j {
            assert(t[k] == removed[k] && t[k + 1] == removed[k + 1]);
            assert(removed[k] == before[k] && removed[k + 1] == before[k + 1]);
            assert(np[k] == q[k] && np[k + 1] == q[k + 1]);
            assert(q[k] == p[k] && q[k + 1] == p[k + 1]);
            assert(c.spec_order(before[k], before[k + 1]) == SortOrder::Equal);
        } else if k + 1 == j {
            assert(np[k] == q[k] && q[k] == p[k]);
            assert(np[k + 1] == i);
            assert(p[k] < i);
        } else if k == j {
            assert(t[k] == x && t[k + 1] == removed[j]);
            c.lemma_antisymmetric(removed[j], x);
        } else {
            assert(t[k] == removed[k - 1] && t[k + 1] == removed[k]);
            assert(removed[k - 1] == before[k - 1] && removed[k] == before[k]);
            assert(np[k] == q[k - 1] && np[k + 1] == q[k]);
            assert(q[k - 1] == p[k - 1] && q[k] == p[k]);
            assert(c.spec_order(before[k - 1], before[k]) == SortOrder::Equal);
        }
    }
}

proof fn lemma_insert_positions<T, C: RowOrder<T>>(
    c: &C,
    start: Seq<T>,
    before: Seq<T>,
    p: Seq<int>,
    i: int,
    removed: Seq<T>,
    j: int,
    x: T,
    t: Seq<T>,
)
    requires
        0 <= j <= i < before.len(),
        sort_positions(c, start, before, p, i),
        before[i] == x,
        removed == before.remove(i),
        t == removed.insert(j, x),
        forall|k: int| j <= k < i ==> c.spec_order(#[trigger] removed[k], x) == SortOrder::Greater,
    ensures
        sort_positions(c, start, t, p.remove(i).insert(j, i), i + 1),
{
    p.remove_ensures(i);
    before.remove_ensures(i);
    removed.insert_ensures(j, x);
    lemma_insert_positions_map(c, start, before, p, i, removed, j, x, t);
    lemma_insert_positions_distinct(c, start, before, p, i, removed, j, x, t);
    lemma_insert_positions_prefix(c, start, before, p, i, removed, j, x, t);
    lemma_insert_positions_stable(c, start, before, p, i, removed, j, x, t);
}

proof fn lemma_positions_stable<T, C: RowOrder<T>>(c: &C, start: Seq<T>, cur: Seq<T>, p: Seq<int>, n: int)
    requires
        n == start.len(),
        n < 2 ==> p == Seq::new(n as nat, |k: int| k) && cur == start,
        n >= 2 ==> sort_positions(c, start, cur, p, n),
    ensures
        stable_rearrangement(|a: T, b: T| c.spec_order(a, b), start, cur),
{
    let order = |a: T, b: T| c.spec_order(a, b);
    assert forall|k: int|
        0 <= k < cur.len() - 1 && #[trigger] order(cur[k], cur[k + 1]) == SortOrder::Equal implies p[k] < p[k + 1] by {
        assert(c.spec_order(cur[k], cur[k + 1]) == SortOrder::Equal);
    }
    assert(stable_positions(order, start, cur, p));
}

/// Sorts `v` in place by `c` with an insertion sort.
pub fn insertion_sort<T, C: RowOrder<T>>(c: &C, v: &mut Vec<T>)
    ensures
        final(v)@.to_multiset() == old(v)@.to_multiset(),
        final(v)@.len() == old(v)@.len(),
        adjacent_sorted(c, final(v)@),
        stable_rearrangement(|a: T, b: T| c.spec_order(a, b), old(v)@, final(v)@),
{
    let n = v.len();
    let ghost start = v@;
    let ghost mut p: Seq<int> = Seq::new(n as nat, |k: int| k);
    if n < 2 {
        proof {
            lemma_positions_stable(c, start, v@, p, n as int);
        }
        return;
    }
    let mut i: usize = 1;
    while i < n
        invariant
            1 <= i <= n,
            n == v@.len(),
            start == old(v)@,
            v@.to_multiset() == old(v)@.to_multiset(),
            sort_positions(c, start, v@, p, i as int),
            forall|k: int| 0 <= k < i - 1 ==> #[trigger] c.spec_order(v@[k], v@[k + 1]) != SortOrder::Greater,
        decreases n - i,
    {
        let ghost before = v@;
        let x = v.remove(i);
        let mut j: usize = i;
        while j > 0 && c.order(&v[j - 1], &x) == SortOrder::Greater
            invariant
                0 <= j <= i,
                i < n,
                v@.len() == n - 1,
                v@ == before.remove(i as int),
                forall|k: int| 0 <= k < i - 1 ==> #[trigger] c.spec_order(v@[k], v@[k + 1]) != SortOrder::Greater,
                forall|k: int| j <= k < i ==> c.spec_order(#[trigger] v@[k], x) == SortOrder::Greater,
            decreases j,
        {
            j -= 1;
        }
        let ghost removed = v@;
        v.insert(j, x);
        proof {
            lemma_insert_multiset(before, i as int, removed, j as int, x, v@);
            lemma_insert_sorted(c, removed, j as int, i as int, x, v@);
            lemma_insert_positions(c, start, before, p, i as int, removed, j as int, x, v@);
            p = p.remove(i as int).insert(j as int, i as int);
        }
        i += 1;
    }
    proof {
        lemma_positions_stable(c, start, v@, p, n as int);
    }
}

} // verus!
