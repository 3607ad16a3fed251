use crate::rounding::as_single;
use crate::rounding::nearest_single;
use crate::rounding::SINGLE_LIMIT;
use std::collections::HashMap;
use vstd::prelude::*;

verus! {

/// Whether `s` is in ascending order.
pub open spec fn ascending(s: Seq<i32>) -> bool {
    forall|i: int, j: int| 0 <= i <= j < s.len() ==> s[i] <= s[j]
}

/// How often `x` occurs in `s`.
pub open spec fn occurrences(s: Seq<i32>, x: i32) -> nat
    decreases s.len(),
{
    if s.len() == 0 {
        0
    } else {
        occurrences(s.drop_last(), x) + if s.last() == x {
            1nat
        } else {
            0nat
        }
    }
}

/// The position of the median in a sorted list of `len` numbers: half the
/// length, rounded to the nearest whole number and up from one half, where
/// the length is taken in single precision.
pub open spec fn median_position(len: nat) -> nat {
    (as_single(len) + 1) / 2
}

/// A value that does not occur, occurs zero times.
pub proof fn lemma_absent(s: Seq<i32>, x: i32)
    requires
        !s.contains(x),
    ensures
        occurrences(s, x) == 0,
    decreases s.len(),
{
    if s.len() > 0 {
        assert(s.last() == s[s.len() - 1]);
        assert forall|k: int| 0 <= k < s.drop_last().len() implies s.drop_last()[k] != x by {
            assert(s.drop_last()[k] == s[k]);
        }
        lemma_absent(s.drop_last(), x);
    }
}

/// The numbers of `list` in ascending order: each number of the list is
/// put in after the numbers that are not above it.
pub fn sorted(list: &Vec<i32>) -> (out: Vec<i32>)
    ensures
        ascending(out@),
        out@.to_multiset() == list@.to_multiset(),
{
    let mut out: Vec<i32> = Vec::new();
    let mut i: usize = 0;
    assert(list@.take(0) =~= Seq::<i32>::empty());
    assert(out@.to_multiset() =~= list@.take(0).to_multiset());
    while i < list.len()
        invariant
            i <= list@.len(),
            out@.len() == i,
            ascending(out@),
            out@.to_multiset() == list@.take(i as int).to_multiset(),
        decreases list@.len() - i,
    {
        let x = list[i];
        let mut p: usize = 0;
        while p < out.len() && out[p] <= x
            invariant
                p <= out@.len(),
                forall|k: int| 0 <= k < p ==> out@[k] <= x,
            decreases out@.len() - p,
        {
            p += 1;
        }
        let ghost before = out@;
        out.insert(p, x);
        proof {
            assert(ascending(out@)) by {
                assert forall|a: int, b: int| 0 <= a <= b < out@.len() implies out@[a] <= out@[b] by {
                    if b < p {
                        assert(out@[a] == before[a] && out@[b] == before[b]);
                    } else if b == p {
                        if a < p {
                            assert(out@[a] == before[a]);
                        }
                    } else {
                        assert(out@[b] == before[b - 1]);
                        assert(before[p as int] <= before[b - 1]);
                        if a < p {
                            assert(out@[a] == before[a]);
                        } else if a > p {
                            assert(out@[a] == before[a - 1]);
                        }
                    }
                }
            }
            assert(out@.remove(p as int) =~= before);
            vstd::seq_lib::to_multiset_remove(out@, p as int);
            out@.to_multiset_ensures();
            assert(out@[p as int] == x);
            assert(out@.contains(x));
            assert(out@.to_multiset() =~= before.to_multiset().insert(x));
            assert(list@.take(i + 1) =~= list@.take(i as int).push(x));
            vstd::seq_lib::to_multiset_build(list@.take(i as int), x);
        }
        i += 1;
    }
    assert(list@.take(i as int) =~= list@);
    out
}

/// The position of the median in a sorted list of `len` numbers. Below
/// 2^24 it is half the length, rounded up.
pub fn median_index(len: usize) -> (position: usize)
    ensures
        position == median_position(len as nat),
        len < SINGLE_LIMIT ==> position == (len + 1) / 2,
        len >= 2 ==> position < len,
{
    let single = nearest_single(len as u64);
    ((single + 1) / 2) as usize
}

/// The median of a sorted list of two numbers or more: the number at the
/// median position.
pub fn median(sorted: &Vec<i32>) -> (m: i32)
    requires
        sorted@.len() >= 2,
    ensures
        m == sorted@[median_position(sorted@.len()) as int],
{
    sorted[median_index(sorted.len())]
}

/// How often each number of `list` occurs: a count for every number that
/// occurs, and for no other.
pub fn tally(list: &Vec<i32>) -> (counts: HashMap<i32, usize>)
    ensures
        forall|x: i32| counts@.contains_key(x) <==> occurrences(list@, x) > 0,
        forall|x: i32| counts@.contains_key(x) ==> counts@[x] == occurrences(list@, x),
{
    broadcast use vstd::std_specs::hash::group_hash_axioms;

    let mut counts: HashMap<i32, usize> = HashMap::new();
    let mut i: usize = 0;
    assert(list@.take(0) =~= Seq::<i32>::empty());
    while i < list.len()
        invariant
            i <= list@.len(),
            forall|x: i32| counts@.contains_key(x) <==> occurrences(list@.take(i as int), x) > 0,
            forall|x: i32|
                counts@.contains_key(x) ==> counts@[x] == occurrences(list@.take(i as int), x),
            forall|x: i32| occurrences(list@.take(i as int), x) <= i,
        decreases list@.len() - i,
    {
        let x = list[i];
        proof {
            let next = list@.take(i + 1);
            assert(next.drop_last() =~= list@.take(i as int));
            assert(next.last() == x);
            assert forall|y: i32| occurrences(next, y) <= i + 1 by {
                assert(occurrences(list@.take(i as int), y) <= i);
            }
        }
        let seen: usize = match counts.get(&x) {
            Some(n) => *n,
            None => 0,
        };
        counts.insert(x, seen + 1);
        i += 1;
    }
    assert(list@.take(i as int) =~= list@);
    counts
}

/// A mode of `list`: a number of the list that occurs at least as often as
/// any other, and 0 for the empty list.
pub fn mode(list: &Vec<i32>) -> (m: i32)
    ensures
        list@.len() == 0 ==> m == 0,
        list@.len() > 0 ==> list@.contains(m),
        forall|x: i32| occurrences(list@, x) <= occurrences(list@, m) || list@.len() == 0,
{
    broadcast use vstd::std_specs::hash::group_hash_axioms;

    let counts = tally(list);
    let mut value: i32 = 0;
    let mut best: usize = 0;
    let mut i: usize = 0;
    while i < list.len()
        invariant
            i <= list@.len(),
            forall|x: i32| counts@.contains_key(x) <==> occurrences(list@, x) > 0,
            forall|x: i32| counts@.contains_key(x) ==> counts@[x] == occurrences(list@, x),
            i == 0 ==> value == 0 && best == 0,
            i > 0 ==> list@.contains(value) && best == occurrences(list@, value),
            forall|k: int| 0 <= k < i ==> occurrences(list@, #[trigger] list@[k]) <= best,
        decreases list@.len() - i,
    {
        let x = list[i];
        proof {
            lemma_present(list@, i as int);
        }
        let n: usize = match counts.get(&x) {
            Some(n) => *n,
            None => 0,
        };
        if n > best {
            value = x;
            best = n;
        }
        i += 1;
    }
    proof {
        assert forall|x: i32| occurrences(list@, x) <= occurrences(list@, value) || list@.len()
            == 0 by {
            if list@.contains(x) {
                let k = choose|k: int| 0 <= k < list@.len() && list@[k] == x;
                assert(occurrences(list@, list@[k]) <= best);
            } else {
                lemma_absent(list@, x);
            }
        }
    }
    value
}

/// A value that occurs, occurs once at least.
pub proof fn lemma_present(s: Seq<i32>, k: int)
    requires
        0 <= k < s.len(),
    ensures
        occurrences(s, s[k]) >= 1,
    decreases s.len(),
{
    if k < s.len() - 1 {
        assert(s.drop_last()[k] == s[k]);
        lemma_present(s.drop_last(), k);
    }
}

} // verus!
