//! Grouping by key: the distinct keys of a sequence in the order in which
//! they first appear, how often each occurs, and what is added up under it.
use vstd::prelude::*;
use crate::base::text::{owned, str_eq};

verus! {

/// The distinct keys of `ks`, each at the place where it first appears.
pub open spec fn firsts<A>(ks: Seq<A>) -> Seq<A>
    decreases ks.len(),
{
    if ks.len() == 0 {
        Seq::empty()
    } else {
        let f = firsts(ks.drop_last());
        if f.contains(ks.last()) {
            f
        } else {
            f.push(ks.last())
        }
    }
}

/// How often `k` occurs in `ks`.
pub open spec fn occurrences<A>(ks: Seq<A>, k: A) -> nat
    decreases ks.len(),
{
    if ks.len() == 0 {
        0
    } else {
        occurrences(ks.drop_last(), k) + if ks.last() == k {
            1nat
        } else {
            0nat
        }
    }
}

/// The sum of the amounts `amount(e)` of the entries `e` of `es` filed under `k`.
pub open spec fn total_under<A>(ks: Seq<A>, amounts: Seq<nat>, k: A) -> nat
    decreases ks.len(),
{
    if ks.len() == 0 || amounts.len() != ks.len() {
        0
    } else {
        total_under(ks.drop_last(), amounts.drop_last(), k) + if ks.last() == k {
            amounts.last()
        } else {
            0nat
        }
    }
}

/// `firsts` of a sequence with one more key.
pub proof fn lemma_firsts_push<A>(ks: Seq<A>, x: A)
    ensures
        firsts(ks.push(x)) == (if firsts(ks).contains(x) {
            firsts(ks)
        } else {
            firsts(ks).push(x)
        }),
        occurrences(ks.push(x), x) == occurrences(ks, x) + 1,
        forall|k: A| k != x ==> occurrences(ks.push(x), k) == occurrences(ks, k),
{
    assert(ks.push(x).drop_last() =~= ks);
}

/// `total_under` of sequences with one more entry.
pub proof fn lemma_total_push<A>(ks: Seq<A>, amounts: Seq<nat>, x: A, a: nat)
    requires
        ks.len() == amounts.len(),
    ensures
        total_under(ks.push(x), amounts.push(a), x) == total_under(ks, amounts, x) + a,
        forall|k: A| k != x ==> total_under(ks.push(x), amounts.push(a), k) == total_under(ks, amounts, k),
{
    assert(ks.push(x).drop_last() =~= ks);
    assert(amounts.push(a).drop_last() =~= amounts);
}

/// A sequence with one more element contains what it contained, and that element.
pub proof fn lemma_push_contains<A>(s: Seq<A>, x: A, k: A)
    ensures
        s.push(x).contains(k) <==> (s.contains(k) || x == k),
{
    if s.contains(k) {
        let i = choose|i: int| 0 <= i < s.len() && s[i] == k;
        assert(s.push(x)[i] == k);
    }
    if x == k {
        assert(s.push(x)[s.len() as int] == k);
    }
    if s.push(x).contains(k) {
        let i = choose|i: int| 0 <= i < s.push(x).len() && s.push(x)[i] == k;
        if i < s.len() {
            assert(s[i] == k);
        }
    }
}

/// Nothing is filed under a key that does not occur.
pub proof fn lemma_total_zero<A>(ks: Seq<A>, amounts: Seq<nat>, k: A)
    requires
        !ks.contains(k),
    ensures
        total_under(ks, amounts, k) == 0,
    decreases ks.len(),
{
    if ks.len() > 0 && amounts.len() == ks.len() {
        assert(ks[ks.len() - 1] == ks.last());
        if ks.drop_last().contains(k) {
            let i = choose|i: int| 0 <= i < ks.drop_last().len() && ks.drop_last()[i] == k;
            assert(ks[i] == k);
        }
        lemma_total_zero(ks.drop_last(), amounts.drop_last(), k);
    }
}

/// A key occurs at most as often as there are keys.
pub proof fn lemma_occurrences_bound<A>(ks: Seq<A>, k: A)
    ensures
        occurrences(ks, k) <= ks.len(),
    decreases ks.len(),
{
    if ks.len() > 0 {
        lemma_occurrences_bound(ks.drop_last(), k);
    }
}

/// A key is among the distinct keys exactly when it occurs.
pub proof fn lemma_firsts_contains<A>(ks: Seq<A>, k: A)
    ensures
        firsts(ks).contains(k) <==> ks.contains(k),
        ks.contains(k) <==> occurrences(ks, k) > 0,
    decreases ks.len(),
{
    if ks.len() > 0 {
        let p = ks.drop_last();
        let x = ks.last();
        lemma_firsts_contains(p, k);
        assert(ks =~= p.push(x));
        lemma_push_contains(p, x, k);
        lemma_push_contains(firsts(p), x, k);
        lemma_push_contains(firsts(p), x, x);
    }
}

/// The distinct keys are distinct.
pub proof fn lemma_firsts_distinct<A>(ks: Seq<A>)
    ensures
        forall|i: int, j: int| 0 <= i < j < firsts(ks).len() ==> firsts(ks)[i] != firsts(ks)[j],
    decreases ks.len(),
{
    if ks.len() > 0 {
        lemma_firsts_distinct(ks.drop_last());
        let f = firsts(ks.drop_last());
        if !f.contains(ks.last()) {
            assert forall|i: int, j: int| 0 <= i < j < f.push(ks.last()).len() implies f.push(ks.last())[i]
                != f.push(ks.last())[j] by {
                if j == f.len() {
                    assert(f[i] == f.push(ks.last())[i]);
                }
            }
        }
    }
}

/// The occurrences in `ks` of each of `keys`, added up.
pub open spec fn occurrence_sum<A>(ks: Seq<A>, keys: Seq<A>) -> nat
    decreases keys.len(),
{
    if keys.len() == 0 {
        0
    } else {
        occurrence_sum(ks, keys.drop_last()) + occurrences(ks, keys.last())
    }
}

/// One more key adds one to the sum over distinct keys among which it is.
proof fn lemma_occurrence_sum_push<A>(ks: Seq<A>, x: A, keys: Seq<A>)
    requires
        forall|i: int, j: int| 0 <= i < j < keys.len() ==> keys[i] != keys[j],
    ensures
        occurrence_sum(ks.push(x), keys) == occurrence_sum(ks, keys) + if keys.contains(x) {
            1nat
        } else {
            0nat
        },
    decreases keys.len(),
{
    if keys.len() > 0 {
        let p = keys.drop_last();
        let y = keys.last();
        assert(keys =~= p.push(y));
        lemma_occurrence_sum_push(ks, x, p);
        lemma_firsts_push(ks, x);
        lemma_push_contains(p, y, x);
        if y == x && p.contains(x) {
            let i = choose|i: int| 0 <= i < p.len() && p[i] == x;
            assert(keys[i] == keys[keys.len() - 1]);
        }
    }
}

/// Every key is counted once: the occurrences of the distinct keys add up
/// to the number of keys.
pub proof fn lemma_occurrence_sum_total<A>(ks: Seq<A>)
    ensures
        occurrence_sum(ks, firsts(ks)) == ks.len(),
    decreases ks.len(),
{
    if ks.len() > 0 {
        let p = ks.drop_last();
        let x = ks.last();
        assert(ks =~= p.push(x));
        lemma_occurrence_sum_total(p);
        lemma_firsts_distinct(p);
        lemma_occurrence_sum_push(p, x, firsts(p));
        lemma_firsts_push(p, x);
        if !firsts(p).contains(x) {
            lemma_firsts_contains(p, x);
            assert(firsts(p).push(x).drop_last() =~= firsts(p));
        }
    }
}

/// The position of `k` among `keys`, if it is there.
pub fn position_of(keys: &Vec<String>, k: &str) -> (r: Option<usize>)
    ensures
        r matches Some(j) ==> j < keys.len() && keys@[j as int]@ == k@,
        r is None ==> !keys.deep_view().contains(k@),
{
    let mut j: usize = 0;
    while j < keys.len()
        invariant
            0 <= j <= keys.len(),
            forall|i: int| 0 <= i < j ==> keys@[i]@ != k@,
        decreases keys.len() - j,
    {
        if str_eq(keys[j].as_str(), k) {
            return Some(j);
        }
        j = j + 1;
    }
    proof {
        if keys.deep_view().contains(k@) {
            let i = choose|i: int| 0 <= i < keys.deep_view().len() && keys.deep_view()[i] == k@;
            assert(keys.deep_view()[i] == keys@[i]@);
        }
    }
    None
}

/// The distinct strings of `keys` in the order in which they first appear,
/// each with the number of times it occurs.
pub fn count_keys(keys: &Vec<String>) -> (r: (Vec<String>, Vec<usize>))
    ensures
        r.0.deep_view() == firsts(keys.deep_view()),
        r.1.len() == r.0.len(),
        forall|i: int| 0 <= i < r.1.len() ==> r.1@[i] == occurrences(keys.deep_view(), #[trigger] r.0@[i]@),
{
    let mut names: Vec<String> = Vec::new();
    let mut counts: Vec<usize> = Vec::new();
    for n in 0..keys.len()
        invariant
            names.deep_view() == firsts(keys.deep_view().take(n as int)),
            counts.len() == names.len(),
            forall|i: int| 0 <= i < counts.len() ==> counts@[i] == occurrences(keys.deep_view().take(n as int), #[trigger] names@[i]@),
            forall|i: int| 0 <= i < counts.len() ==> counts@[i] <= n,
    {
        let ghost pre = keys.deep_view().take(n as int);
        let ghost x = keys@[n as int]@;
        proof {
            assert(keys.deep_view().take(n + 1) =~= pre.push(x));
            lemma_firsts_push(pre, x);
            lemma_firsts_distinct(pre);
            lemma_firsts_contains(pre, x);
        }
        let k = keys[n].as_str();
        match position_of(&names, k) {
            Some(j) => {
                proof {
                    assert(names.deep_view()[j as int] == x);
                    assert(firsts(pre).contains(x));
                }
                let c = counts[j];
                counts.set(j, c + 1);
                proof {
                    assert forall|i: int| 0 <= i < counts.len() implies counts@[i] == occurrences(
                        pre.push(x),
                        #[trigger] names@[i]@,
                    ) by {
                        if i != j {
                            assert(names.deep_view()[i] == names@[i]@);
                            assert(names@[i]@ != x);
                        }
                    }
                }
            },
            None => {
                proof {
                    assert(!firsts(pre).contains(x));
                    assert(occurrences(pre, x) == 0);
                }
                let ghost before = names.deep_view();
                names.push(owned(k));
                counts.push(1);
                proof {
                    assert(names.deep_view() =~= before.push(x));
                    assert forall|i: int| 0 <= i < counts.len() implies counts@[i] == occurrences(
                        pre.push(x),
                        #[trigger] names@[i]@,
                    ) by {
                        if i < before.len() {
                            assert(before[i] == names@[i]@);
                            assert(before.contains(names@[i]@));
                            if names@[i]@ == x {
                                assert(firsts(pre).contains(x));
                            }
                        }
                    }
                }
            },
        }
    }
    assert(keys.deep_view().take(keys.len() as int) =~= keys.deep_view());
    (names, counts)
}

} // verus!
