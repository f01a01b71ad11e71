//! Ranking of processes by CPU usage.

use vstd::prelude::*;

verus! {

/// Whether process `i` is listed before process `j`: the one with the higher
/// usage key comes first, and of two with equal keys the one listed first in
/// the input keeps its place.
pub open spec fn ranked_before(cpu_keys: Seq<u32>, i: int, j: int) -> bool {
    cpu_keys[i] > cpu_keys[j] || (cpu_keys[i] == cpu_keys[j] && i < j)
}

/// Whether `order` lists the processes `0 .. n` once each, in ranking order.
pub open spec fn is_ranking(cpu_keys: Seq<u32>, order: Seq<usize>) -> bool {
    &&& order.len() == cpu_keys.len()
    &&& forall|a: int| 0 <= a < order.len() ==> order[a] < cpu_keys.len()
    &&& forall|j: usize| j < cpu_keys.len() ==> order.contains(j)
    &&& forall|a: int, b: int|
        0 <= a < b < order.len() ==> ranked_before(cpu_keys, order[a] as int, order[b] as int)
}

/// Whether `top` is a valid choice of the `count` processes to show: indices of
/// processes, in ranking order, each ranked before every process left out.
pub open spec fn is_top_choice(cpu_keys: Seq<u32>, count: nat, top: Seq<usize>) -> bool {
    &&& top.len() == count
    &&& forall|a: int| 0 <= a < top.len() ==> top[a] < cpu_keys.len()
    &&& forall|a: int, b: int|
        0 <= a < b < top.len() ==> ranked_before(cpu_keys, top[a] as int, top[b] as int)
    &&& forall|a: int, j: usize|
        0 <= a < top.len() && j < cpu_keys.len() && !top.contains(j) ==> ranked_before(
            cpu_keys,
            top[a] as int,
            j as int,
        )
}

/// What a valid choice means for the usage keys themselves: the keys of the
/// shown processes never increase down the list, no process left out has a
/// higher key than a shown one, and among equal keys the process that comes
/// first in the input is shown first (and shown rather than left out).
pub proof fn lemma_top_choice_by_key(cpu_keys: Seq<u32>, count: nat, top: Seq<usize>)
    requires
        is_top_choice(cpu_keys, count, top),
    ensures
        forall|a: int, b: int|
            #![trigger top[a], top[b]]
            0 <= a < b < top.len() ==> cpu_keys[top[a] as int] >= cpu_keys[top[b] as int] && (
            cpu_keys[top[a] as int] == cpu_keys[top[b] as int] ==> top[a] < top[b]),
        forall|a: int, j: usize|
            #![trigger top[a], cpu_keys[j as int]]
            0 <= a < top.len() && j < cpu_keys.len() && !top.contains(j) ==> cpu_keys[top[a] as int]
                >= cpu_keys[j as int] && (cpu_keys[top[a] as int] == cpu_keys[j as int] ==> top[a]
                < j),
{
    assert forall|a: int, b: int| 0 <= a < b < top.len() implies cpu_keys[top[a] as int]
        >= cpu_keys[top[b] as int] && (cpu_keys[top[a] as int] == cpu_keys[top[b] as int]
        ==> top[a] < top[b]) by {
        assert(ranked_before(cpu_keys, top[a] as int, top[b] as int));
    }
    assert forall|a: int, j: usize|
        0 <= a < top.len() && j < cpu_keys.len() && !top.contains(j) implies cpu_keys[top[a] as int]
        >= cpu_keys[j as int] && (cpu_keys[top[a] as int] == cpu_keys[j as int] ==> top[a]
        < j) by {
        assert(ranked_before(cpu_keys, top[a] as int, j as int));
    }
}

/// The processes shown are determined by the usage keys alone: two choices
/// that both list the top `count` processes in ranking order are the same.
pub proof fn lemma_top_choice_unique(cpu_keys: Seq<u32>, count: nat, t1: Seq<usize>, t2: Seq<usize>)
    requires
        is_top_choice(cpu_keys, count, t1),
        is_top_choice(cpu_keys, count, t2),
    ensures
        t1 == t2,
{
    assert forall|a: int| 0 <= a < count implies t1[a] == t2[a] by {
        lemma_top_choice_agree_at(cpu_keys, count, t1, t2, a);
    }
    assert(t1 =~= t2);
}

/// Two valid choices agree at every position (induction on the position).
proof fn lemma_top_choice_agree_at(
    cpu_keys: Seq<u32>,
    count: nat,
    t1: Seq<usize>,
    t2: Seq<usize>,
    a: int,
)
    requires
        is_top_choice(cpu_keys, count, t1),
        is_top_choice(cpu_keys, count, t2),
        0 <= a < count,
    ensures
        t1[a] == t2[a],
    decreases a,
{
    assert forall|b: int| 0 <= b < a implies t1[b] == t2[b] by {
        lemma_top_choice_agree_at(cpu_keys, count, t1, t2, b);
    }
    let x = t1[a];
    let y = t2[a];
    if x != y {
        // y is ranked before x: x either is left out of t2 or comes later in it.
        if t2.contains(x) {
            let b = choose|b: int| 0 <= b < t2.len() && t2[b] == x;
            if b < a {
                assert(t1[b] == x);
                assert(ranked_before(cpu_keys, t1[b] as int, t1[a] as int));
            }
            assert(b != a);
            assert(ranked_before(cpu_keys, y as int, x as int));
        } else {
            assert(ranked_before(cpu_keys, t2[a] as int, x as int));
        }
        // and symmetrically x is ranked before y.
        if t1.contains(y) {
            let b = choose|b: int| 0 <= b < t1.len() && t1[b] == y;
            if b < a {
                assert(t2[b] == y);
                assert(ranked_before(cpu_keys, t2[b] as int, t2[a] as int));
            }
            assert(b != a);
            assert(ranked_before(cpu_keys, x as int, y as int));
        } else {
            assert(ranked_before(cpu_keys, t1[a] as int, y as int));
        }
    }
}

/// Lists all processes by descending usage key, keeping the input order of
/// equal keys (a stable sort of the indices).
fn rank_processes(cpu_keys: &Vec<u32>) -> (order: Vec<usize>)
    ensures
        is_ranking(cpu_keys@, order@),
{
    let n = cpu_keys.len();
    let mut order: Vec<usize> = Vec::new();
    let mut i: usize = 0;
    while i < n
        invariant
            n == cpu_keys.len(),
            i <= n,
            order.len() == i,
            forall|a: int| 0 <= a < order.len() ==> order[a] < i,
            forall|j: usize| j < i ==> order@.contains(j),
            forall|a: int, b: int|
                0 <= a < b < order.len() ==> ranked_before(
                    cpu_keys@,
                    order[a] as int,
                    order[b] as int,
                ),
        decreases n - i,
    {
        let mut p: usize = 0;
        while p < order.len() && cpu_keys[order[p]] >= cpu_keys[i]
            invariant
                n == cpu_keys.len(),
                i < n,
                p <= order.len(),
                forall|a: int| 0 <= a < order.len() ==> order[a] < i,
                forall|q: int| 0 <= q < p ==> cpu_keys[order[q] as int] >= cpu_keys[i as int],
            decreases order.len() - p,
        {
            p = p + 1;
        }
        proof {
            assert forall|q: int| p <= q < order.len() implies cpu_keys[order[q] as int]
                < cpu_keys[i as int] by {
                if q > p {
                    assert(ranked_before(cpu_keys@, order[p as int] as int, order[q] as int));
                }
            }
        }
        let ghost before = order@;
        order.insert(p, i);
        proof {
            let after = order@;
            assert(after.len() == i + 1);
            assert(after[p as int] == i);
            assert forall|a: int| 0 <= a < after.len() implies after[a] < i + 1 by {
                if a < p {
                    assert(after[a] == before[a]);
                } else if a > p {
                    assert(after[a] == before[a - 1]);
                }
            }
            assert forall|j: usize| j < i + 1 implies after.contains(j) by {
                if j == i {
                    assert(after[p as int] == j);
                } else {
                    assert(before.contains(j));
                    let k = choose|k: int| 0 <= k < before.len() && before[k] == j;
                    if k < p {
                        assert(after[k] == j);
                    } else {
                        assert(after[k + 1] == j);
                    }
                }
            }
            assert forall|a: int, b: int| 0 <= a < b < after.len() implies ranked_before(
                cpu_keys@,
                after[a] as int,
                after[b] as int,
            ) by {
                if b < p {
                    assert(after[a] == before[a] && after[b] == before[b]);
                } else if b == p {
                    assert(after[a] == before[a]);
                } else if a < p {
                    assert(after[a] == before[a] && after[b] == before[b - 1]);
                } else if a == p {
                    assert(after[b] == before[b - 1]);
                } else {
                    assert(after[a] == before[a - 1] && after[b] == before[b - 1]);
                }
            }
        }
        i = i + 1;
    }
    order
}

/// The indices of the `count` processes shown: those with the highest usage
/// keys, highest first, ties in input order, as the first `count` entries of
/// a stable descending sort. Every process left out is ranked below each one
/// shown; `lemma_top_choice_unique` shows that this pins the result down.
pub fn top_processes(cpu_keys: &Vec<u32>, count: usize) -> (top: Vec<usize>)
    requires
        count <= cpu_keys.len(),
    ensures
        is_top_choice(cpu_keys@, count as nat, top@),
        forall|a: int, b: int|
            #![trigger top@[a], top@[b]]
            0 <= a < b < top.len() ==> cpu_keys[top[a] as int] >= cpu_keys[top[b] as int] && (
            cpu_keys[top[a] as int] == cpu_keys[top[b] as int] ==> top[a] < top[b]),
        forall|a: int, j: usize|
            #![trigger top@[a], cpu_keys@[j as int]]
            0 <= a < top.len() && j < cpu_keys.len() && !top@.contains(j) ==> cpu_keys[top[a] as int]
                >= cpu_keys[j as int] && (cpu_keys[top[a] as int] == cpu_keys[j as int] ==> top[a]
                < j),
{
    let mut top = rank_processes(cpu_keys);
    let ghost order = top@;
    top.truncate(count);
    proof {
        assert(top@ =~= order.take(count as int));
        assert forall|a: int, j: usize|
            0 <= a < top.len() && j < cpu_keys.len() && !top@.contains(j) implies ranked_before(
                cpu_keys@,
                top[a] as int,
                j as int,
            ) by {
            assert(order.contains(j));
            let q = choose|q: int| 0 <= q < order.len() && order[q] == j;
            if q < count {
                assert(top[q] == j);
            }
            assert(ranked_before(cpu_keys@, order[a] as int, order[q] as int));
        }
        lemma_top_choice_by_key(cpu_keys@, count as nat, top@);
    }
    top
}

} // verus!
