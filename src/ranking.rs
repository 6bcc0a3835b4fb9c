//! Neighbour ranking: a population ordered by distance from one position,
//! nearest first, ties kept in the population's own order.
use vstd::prelude::*;

use crate::components::{dist_sq, is_floor_sqrt, squared_distance, Position};

verus! {

/// Point `i` of `pts` comes before point `j` when ranked from `p`: it is
/// nearer, or as near and earlier in `pts`.
pub open spec fn precedes(p: Position, pts: Seq<Position>, i: int, j: int) -> bool {
    dist_sq(p, pts[i]) < dist_sq(p, pts[j]) || (dist_sq(p, pts[i]) == dist_sq(p, pts[j]) && i < j)
}

/// `o` lists every index of `pts` once, ordered by distance from `p`, ties
/// broken by the order of `pts` (a stable sort by distance).
pub open spec fn is_ranking(p: Position, pts: Seq<Position>, o: Seq<usize>) -> bool {
    &&& o.len() == pts.len()
    &&& forall|a: int| 0 <= a < o.len() ==> #[trigger] o[a] < pts.len()
    &&& forall|a: int, b: int|
        0 <= a < b < o.len() ==> precedes(p, pts, #[trigger] o[a] as int, #[trigger] o[b] as int)
    &&& forall|x: int| 0 <= x < pts.len() ==> #[trigger] o.contains(x as usize)
}

/// The ranking of `pts` from `p`; [`rank`] shows that one exists, and
/// [`lemma_ranking_unique`] that there is only one.
pub open spec fn ranking(p: Position, pts: Seq<Position>) -> Seq<usize> {
    choose|o: Seq<usize>| is_ranking(p, pts, o)
}

proof fn lemma_agree_at(p: Position, pts: Seq<Position>, o1: Seq<usize>, o2: Seq<usize>, a: int)
    requires
        is_ranking(p, pts, o1),
        is_ranking(p, pts, o2),
        0 <= a < o1.len(),
        forall|b: int| 0 <= b < a ==> o1[b] == o2[b],
    ensures
        o1[a] == o2[a],
{
    let x = o1[a];
    let y = o2[a];
    if x != y {
        assert(o1[a] < pts.len() && o2[a] < pts.len());
        assert(o2.contains((x as int) as usize));
        let b = choose|b: int| 0 <= b < o2.len() && o2[b] == x;
        assert(o1.contains((y as int) as usize));
        let c = choose|c: int| 0 <= c < o1.len() && o1[c] == y;
        if precedes(p, pts, x as int, y as int) {
            if b > a {
                assert(precedes(p, pts, o2[a] as int, o2[b] as int));
            } else {
                assert(o1[b] == o2[b]);
                assert(precedes(p, pts, o1[b] as int, o1[a] as int));
            }
        } else {
            if c > a {
                assert(precedes(p, pts, o1[a] as int, o1[c] as int));
            } else {
                assert(o2[c] == o1[c]);
                assert(precedes(p, pts, o2[c] as int, o2[a] as int));
            }
        }
    }
}

proof fn lemma_agree_below(p: Position, pts: Seq<Position>, o1: Seq<usize>, o2: Seq<usize>, n: int)
    requires
        is_ranking(p, pts, o1),
        is_ranking(p, pts, o2),
        0 <= n <= o1.len(),
    ensures
        forall|b: int| 0 <= b < n ==> o1[b] == o2[b],
    decreases n,
{
    if n > 0 {
        lemma_agree_below(p, pts, o1, o2, n - 1);
        lemma_agree_at(p, pts, o1, o2, n - 1);
    }
}

/// A population has one ranking only: ranking an unchanged snapshot again
/// gives the same order.
pub proof fn lemma_ranking_unique(p: Position, pts: Seq<Position>, o1: Seq<usize>, o2: Seq<usize>)
    requires
        is_ranking(p, pts, o1),
        is_ranking(p, pts, o2),
    ensures
        o1 == o2,
{
    lemma_agree_below(p, pts, o1, o2, o1.len() as int);
    assert(o1 =~= o2);
}

/// A ranking follows Euclidean distance: an earlier entry is never farther,
/// a strictly nearer point always comes earlier, equally distant points keep
/// their order in the population, and the rounded distances of
/// [`Position::distance_to`] never decrease along the ranking.
pub proof fn lemma_ranking_follows_distance(
    p: Position,
    pts: Seq<Position>,
    o: Seq<usize>,
    a: int,
    b: int,
    ra: int,
    rb: int,
)
    requires
        is_ranking(p, pts, o),
        0 <= a < o.len(),
        0 <= b < o.len(),
        is_floor_sqrt(ra, dist_sq(p, pts[o[a] as int])),
        is_floor_sqrt(rb, dist_sq(p, pts[o[b] as int])),
    ensures
        a < b ==> dist_sq(p, pts[o[a] as int]) <= dist_sq(p, pts[o[b] as int]),
        dist_sq(p, pts[o[a] as int]) < dist_sq(p, pts[o[b] as int]) ==> a < b,
        dist_sq(p, pts[o[a] as int]) == dist_sq(p, pts[o[b] as int]) ==> (a < b <==> o[a] < o[b]),
        a < b ==> ra <= rb,
{
    if a < b {
        assert(precedes(p, pts, o[a] as int, o[b] as int));
        lemma_floor_sqrt_monotone(ra, dist_sq(p, pts[o[a] as int]), rb, dist_sq(p, pts[o[b] as int]));
    } else if b < a {
        assert(precedes(p, pts, o[b] as int, o[a] as int));
    }
}

/// Distances rounded down keep the order of the squared distances.
pub proof fn lemma_floor_sqrt_monotone(r1: int, d1: int, r2: int, d2: int)
    requires
        is_floor_sqrt(r1, d1),
        is_floor_sqrt(r2, d2),
        d1 <= d2,
    ensures
        r1 <= r2,
{
    if r1 > r2 {
        assert((r2 + 1) * (r2 + 1) <= r1 * r1) by (nonlinear_arith)
            requires
                r1 >= r2 + 1,
                r2 >= 0,
        ;
    }
}

/// Comparing squares of non-negative numbers compares the numbers: ordering
/// by squared distance is ordering by distance.
pub proof fn lemma_square_order(s: int, t: int)
    requires
        s >= 0,
        t >= 0,
    ensures
        s <= t <==> s * s <= t * t,
{
    if s <= t {
        assert(s * s <= t * t) by (nonlinear_arith)
            requires
                0 <= s <= t,
        ;
    } else {
        assert(t * t < s * s) by (nonlinear_arith)
            requires
                0 <= t < s,
        ;
    }
}

/// Orders the indices of `positions` by distance from `pos`, nearest first;
/// equally distant positions keep their order (a stable sort).
pub fn rank(pos: &Position, positions: &[Position]) -> (order: Vec<usize>)
    ensures
        is_ranking(*pos, positions@, order@),
        order@ == ranking(*pos, positions@),
{
    let n = positions.len();
    let mut keys: Vec<u128> = Vec::new();
    let mut k: usize = 0;
    while k < n
        invariant
            n == positions@.len(),
            k <= n,
            keys@.len() == k,
            forall|m: int| 0 <= m < k ==> keys@[m] as int == dist_sq(*pos, positions@[m]),
        decreases n - k,
    {
        keys.push(squared_distance(pos, &positions[k]));
        k = k + 1;
    }
    let ghost pts = positions@;
    let mut order: Vec<usize> = Vec::new();
    let mut i: usize = 0;
    while i < n
        invariant
            n == pts.len(),
            pts == positions@,
            i <= n,
            keys@.len() == n,
            forall|m: int| 0 <= m < n ==> keys@[m] as int == dist_sq(*pos, pts[m]),
            order@.len() == i,
            forall|a: int| 0 <= a < i ==> #[trigger] order@[a] < i,
            forall|a: int, b: int|
                0 <= a < b < i ==> precedes(*pos, pts, #[trigger] order@[a] as int, #[trigger] order@[b] as int),
            forall|x: int| 0 <= x < i ==> #[trigger] order@.contains(x as usize),
        decreases n - i,
    {
        let mut j: usize = 0;
        while j < i && keys[order[j]] <= keys[i]
            invariant
                j <= i,
                i < n,
                keys@.len() == n,
                order@.len() == i,
                forall|a: int| 0 <= a < i ==> #[trigger] order@[a] < i,
                forall|a: int| 0 <= a < j ==> keys@[#[trigger] order@[a] as int] <= keys@[i as int],
            decreases i - j,
        {
            j = j + 1;
        }
        let ghost old_order = order@;
        order.insert(j, i);
        proof {
            let o = order@;
            assert(o == old_order.insert(j as int, i));
            assert forall|a: int| 0 <= a < i + 1 implies #[trigger] o[a] < i + 1 by {
                if a < j {
                    assert(o[a] == old_order[a]);
                } else if a > j {
                    assert(o[a] == old_order[a - 1]);
                }
            }
            assert forall|a: int, b: int| 0 <= a < b < i + 1 implies precedes(
                *pos,
                pts,
                #[trigger] o[a] as int,
                #[trigger] o[b] as int,
            ) by {
                if b < j {
                    assert(o[a] == old_order[a] && o[b] == old_order[b]);
                } else if b == j {
                    assert(o[a] == old_order[a]);
                    assert(keys@[old_order[a] as int] <= keys@[i as int]);
                } else if a > j {
                    assert(o[a] == old_order[a - 1] && o[b] == old_order[b - 1]);
                } else if a == j {
                    assert(o[b] == old_order[b - 1]);
                    assert(keys@[old_order[j as int] as int] > keys@[i as int]);
                    if b - 1 > j {
                        assert(precedes(*pos, pts, old_order[j as int] as int, old_order[b - 1] as int));
                    }
                } else {
                    assert(o[a] == old_order[a] && o[b] == old_order[b - 1]);
                }
            }
            assert forall|x: int| 0 <= x < i + 1 implies #[trigger] o.contains(x as usize) by {
                if x == i {
                    assert(o[j as int] == i);
                } else {
                    assert(old_order.contains(x as usize));
                    let a = choose|a: int| 0 <= a < old_order.len() && old_order[a] == x as usize;
                    if a < j {
                        assert(o[a] == x as usize);
                    } else {
                        assert(o[a + 1] == x as usize);
                    }
                }
            }
        }
        i = i + 1;
    }
    proof {
        lemma_ranking_unique(*pos, pts, order@, ranking(*pos, pts));
    }
    order
}

} // verus!
