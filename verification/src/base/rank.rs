//! Ranking: the order that a stable sort by descending key gives.
use vstd::prelude::*;

verus! {

/// Position `a` comes before position `b` when ranked by descending key,
/// ties kept in their original order (what a stable sort gives).
pub open spec fn ranked_before(keys: Seq<i128>, a: int, b: int) -> bool {
    keys[a] > keys[b] || (keys[a] == keys[b] && a < b)
}

/// `p` lists the positions `0..keys.len()` each once, ordered by `ranked_before`.
pub open spec fn is_ranking(keys: Seq<i128>, p: Seq<usize>) -> bool {
    &&& p.len() == keys.len()
    &&& forall|i: int| 0 <= i < p.len() ==> #[trigger] p[i] < keys.len()
    &&& forall|i: int, j: int| 0 <= i < j < p.len() ==> ranked_before(keys, #[trigger] p[i] as int, #[trigger] p[j] as int)
    &&& forall|k: int| 0 <= k < keys.len() ==> #[trigger] p.contains(k as usize)
}

/// The positions of `keys` ordered by descending key, equal keys in their
/// original order.
pub fn rank_desc(keys: &Vec<i128>) -> (p: Vec<usize>)
    ensures
        is_ranking(keys@, p@),
{
    let n = keys.len();
    let mut p: Vec<usize> = Vec::new();
    for i in 0..n
        invariant
            n == keys.len(),
            p.len() == i,
            forall|a: int| 0 <= a < p.len() ==> #[trigger] p@[a] < i,
            forall|a: int, b: int| 0 <= a < b < p.len() ==> ranked_before(keys@, #[trigger] p@[a] as int, #[trigger] p@[b] as int),
            forall|k: int| 0 <= k < i ==> #[trigger] p@.contains(k as usize),
    {
        let ki = keys[i];
        let mut j: usize = 0;
        while j < p.len() && keys[p[j]] >= ki
            invariant
                n == keys.len(),
                p.len() == i,
                i < n,
                ki == keys@[i as int],
                0 <= j <= p.len(),
                forall|a: int| 0 <= a < p.len() ==> #[trigger] p@[a] < i,
                forall|a: int| 0 <= a < j ==> ranked_before(keys@, #[trigger] p@[a] as int, i as int),
            decreases p.len() - j,
        {
            j = j + 1;
        }
        let ghost old_p = p@;
        p.insert(j, i);
        proof {
            assert(p@ == old_p.insert(j as int, i));
            assert forall|a: int| 0 <= a < p.len() implies #[trigger] p@[a] < i + 1 by {
                if a < j {
                    assert(p@[a] == old_p[a]);
                } else if a > j {
                    assert(p@[a] == old_p[a - 1]);
                }
            }
            assert forall|a: int, b: int| 0 <= a < b < p.len() implies ranked_before(keys@, #[trigger] p@[a] as int, #[trigger] p@[b] as int) by {
                if b < j {
                    assert(p@[a] == old_p[a] && p@[b] == old_p[b]);
                } else if b == j {
                    assert(p@[a] == old_p[a]);
                } else if a < j {
                    assert(p@[a] == old_p[a] && p@[b] == old_p[b - 1]);
                    // p[a] before i (loop), and i before old_p[j] before old_p[b - 1]
                    assert(ranked_before(keys@, old_p[a] as int, old_p[b - 1] as int));
                } else if a == j {
                    assert(p@[b] == old_p[b - 1]);
                    assert(j < old_p.len());
                    assert(keys@[old_p[j as int] as int] < ki);
                    if b - 1 > j {
                        assert(ranked_before(keys@, old_p[j as int] as int, old_p[b - 1] as int));
                    }
                } else {
                    assert(p@[a] == old_p[a - 1] && p@[b] == old_p[b - 1]);
                }
            }
            assert forall|k: int| 0 <= k < i + 1 implies #[trigger] p@.contains(k as usize) by {
                if k == i {
                    assert(p@[j as int] == i);
                } else {
                    assert(old_p.contains(k as usize));
                    let w = choose|x: int| 0 <= x < old_p.len() && old_p[x] == k as usize;
                    if w < j {
                        assert(p@[w] == old_p[w]);
                    } else {
                        assert(p@[w + 1] == old_p[w]);
                    }
                }
            }
        }
    }
    p
}

} // verus!
