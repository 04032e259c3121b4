//! Pure latency-sequence machinery of the windowed statistics engine:
//! sorting, sums, and nearest-rank percentiles. Latencies are integer
//! microseconds throughout.

use vstd::prelude::*;

verus! {

/// Ascending order of a latency sequence.
pub open spec fn sorted_ascending(s: Seq<u64>) -> bool {
    forall|i: int, j: int| 0 <= i <= j < s.len() ==> s[i] <= s[j]
}

/// Where a new latency lands in an already sorted sequence: past every
/// element it does not undercut.
pub open spec fn insert_sorted(s: Seq<u64>, x: u64) -> Seq<u64>
    decreases s.len(),
{
    if s.len() == 0 {
        seq![x]
    } else if s.last() <= x {
        s.push(x)
    } else {
        insert_sorted(s.drop_last(), x).push(s.last())
    }
}

/// The ascending rearrangement of a latency sequence, by insertion.
pub open spec fn sort_seq(s: Seq<u64>) -> Seq<u64>
    decreases s.len(),
{
    if s.len() == 0 {
        Seq::empty()
    } else {
        insert_sorted(sort_seq(s.drop_last()), s.last())
    }
}

/// The sum of a latency sequence.
pub open spec fn sum_of(s: Seq<u64>) -> int
    decreases s.len(),
{
    if s.len() == 0 {
        0
    } else {
        sum_of(s.drop_last()) + s.last()
    }
}

/// The sum of a latency sequence is at most one maximal value per element.
pub proof fn lemma_sum_of_bound(s: Seq<u64>)
    ensures
        0 <= sum_of(s) <= s.len() * (u64::MAX as int),
    decreases s.len(),
{
    if s.len() > 0 {
        lemma_sum_of_bound(s.drop_last());
    }
}

/// Inserting into a sorted sequence keeps it sorted, grows it by one, adds
/// the new element to its contents, and introduces nothing else.
proof fn lemma_insert_sorted_properties(s: Seq<u64>, x: u64)
    requires
        sorted_ascending(s),
    ensures
        insert_sorted(s, x).len() == s.len() + 1,
        sorted_ascending(insert_sorted(s, x)),
        forall|i: int|
            0 <= i < insert_sorted(s, x).len() ==> (#[trigger] insert_sorted(s, x)[i] == x
                || s.contains(insert_sorted(s, x)[i])),
        insert_sorted(s, x).to_multiset() == s.to_multiset().insert(x),
    decreases s.len(),
{
    broadcast use vstd::seq_lib::group_to_multiset_ensures;

    let r = insert_sorted(s, x);
    if s.len() == 0 {
        assert(r =~= Seq::empty().push(x));
        assert(r.to_multiset() =~= s.to_multiset().insert(x));
    } else if s.last() <= x {
        assert(forall|i: int| 0 <= i < s.len() ==> s[i] <= s.last());
        assert(r.to_multiset() =~= s.to_multiset().insert(x));
    } else {
        let dl = s.drop_last();
        assert(sorted_ascending(dl));
        lemma_insert_sorted_properties(dl, x);
        let t = insert_sorted(dl, x);
        assert forall|i: int| 0 <= i < t.len() implies t[i] <= s.last() by {
            if t[i] == x {
            } else {
                let j = choose|j: int| 0 <= j < dl.len() && dl[j] == t[i];
                assert(s[j] <= s.last());
            }
        }
        assert(sorted_ascending(r));
        assert forall|i: int| 0 <= i < r.len() implies (#[trigger] r[i] == x || s.contains(
            r[i],
        )) by {
            if i < t.len() {
                if t[i] != x {
                    let j = choose|j: int| 0 <= j < dl.len() && dl[j] == t[i];
                    assert(s[j] == r[i]);
                }
            } else {
                assert(r[i] == s.last());
                assert(s[s.len() - 1] == s.last());
            }
        }
        assert(s =~= dl.push(s.last()));
        assert(r.to_multiset() =~= s.to_multiset().insert(x)) by {
            assert(r.to_multiset() == t.to_multiset().insert(s.last()));
            assert(t.to_multiset() == dl.to_multiset().insert(x));
            assert(s.to_multiset() == dl.to_multiset().insert(s.last()));
            assert(dl.to_multiset().insert(x).insert(s.last()) =~= dl.to_multiset().insert(
                s.last(),
            ).insert(x));
        }
    }
}

/// The insertion sort really sorts: its result is an ascending rearrangement
/// of its input — same length, same contents as a multiset.
pub proof fn lemma_sort_seq_ensures(s: Seq<u64>)
    ensures
        sort_seq(s).len() == s.len(),
        sorted_ascending(sort_seq(s)),
        sort_seq(s).to_multiset() == s.to_multiset(),
    decreases s.len(),
{
    broadcast use vstd::seq_lib::group_to_multiset_ensures;

    if s.len() == 0 {
        assert(sort_seq(s).to_multiset() =~= s.to_multiset());
    } else {
        lemma_sort_seq_ensures(s.drop_last());
        lemma_insert_sorted_properties(sort_seq(s.drop_last()), s.last());
        assert(s =~= s.drop_last().push(s.last()));
        assert(sort_seq(s).to_multiset() =~= s.to_multiset());
    }
}

/// Inserting at the position an end-to-front scan stops at — the first place
/// whose successors all exceed the new element and whose predecessor does
/// not — is exactly `insert_sorted`.
proof fn lemma_insert_sorted_at(s: Seq<u64>, x: u64, p: int)
    requires
        0 <= p <= s.len(),
        forall|k: int| p <= k < s.len() ==> s[k] > x,
        p > 0 ==> s[p - 1] <= x,
    ensures
        insert_sorted(s, x) == s.insert(p, x),
    decreases s.len(),
{
    if s.len() == 0 {
        assert(insert_sorted(s, x) =~= s.insert(0, x));
    } else if s.last() <= x {
        assert(p == s.len());
        assert(insert_sorted(s, x) =~= s.insert(p, x));
    } else {
        assert(s[s.len() - 1] == s.last());
        assert(p < s.len());
        let dl = s.drop_last();
        lemma_insert_sorted_at(dl, x, p);
        assert(insert_sorted(s, x) =~= s.insert(p, x)) by {
            assert(insert_sorted(s, x) == insert_sorted(dl, x).push(s.last()));
            assert(insert_sorted(dl, x) == dl.insert(p, x));
            assert(dl.insert(p, x).push(s.last()) =~= s.insert(p, x));
        }
    }
}

/// Sorts a latency sequence ascending by insertion, mirroring `sort_seq`.
pub fn sort_latencies(data: &Vec<u64>) -> (sorted: Vec<u64>)
    ensures
        sorted@ == sort_seq(data@),
{
    let mut out: Vec<u64> = Vec::new();
    let mut i: usize = 0;
    while i < data.len()
        invariant
            0 <= i <= data@.len(),
            out@ == sort_seq(data@.take(i as int)),
        decreases data@.len() - i,
    {
        let x = data[i];
        let mut p: usize = out.len();
        while p > 0 && out[p - 1] > x
            invariant
                0 <= p <= out@.len(),
                forall|k: int| p <= k < out@.len() ==> out@[k] > x,
            decreases p,
        {
            p = p - 1;
        }
        proof {
            lemma_insert_sorted_at(out@, x, p as int);
            assert(data@.take(i as int + 1).drop_last() =~= data@.take(i as int));
            assert(data@.take(i as int + 1).last() == data@[i as int]);
        }
        out.insert(p, x);
        i = i + 1;
    }
    proof {
        assert(data@.take(data@.len() as int) =~= data@);
    }
    out
}

/// The nearest-rank index of percentile `p` in a sorted sequence of length
/// `n`: `p/100 * (n-1)`, rounded half up.
pub open spec fn rank_index(p: int, n: int) -> int
    recommends
        n >= 1,
        0 <= p <= 100,
{
    (p * (n - 1) + 50) / 100
}

/// The nearest-rank index lies inside the sequence.
pub proof fn lemma_rank_index_in_range(p: int, n: int)
    requires
        n >= 1,
        0 <= p <= 100,
    ensures
        0 <= rank_index(p, n) < n,
{
    vstd::arithmetic::div_mod::lemma_div_is_ordered(0, p * (n - 1) + 50, 100);
    assert(0 <= p * (n - 1)) by (nonlinear_arith)
        requires
            p >= 0,
            n >= 1,
    ;
    assert(p * (n - 1) <= 100 * (n - 1)) by (nonlinear_arith)
        requires
            p <= 100,
            n >= 1,
    ;
    vstd::arithmetic::div_mod::lemma_div_is_ordered(p * (n - 1) + 50, 100 * (n - 1) + 50, 100);
    vstd::arithmetic::div_mod::lemma_fundamental_div_mod_converse_div(
        100 * (n - 1) + 50,
        100,
        n - 1,
        50,
    );
}

/// The latency at percentile `p` of an ascending sequence, by nearest-rank
/// interpolation; zero on an empty sequence, which holds no data.
pub fn percentile(sorted_data: &Vec<u64>, p: u64) -> (value: u64)
    requires
        p <= 100,
    ensures
        sorted_data@.len() == 0 ==> value == 0,
        sorted_data@.len() > 0 ==> value == sorted_data@[rank_index(
            p as int,
            sorted_data@.len() as int,
        )],
{
    if sorted_data.is_empty() {
        return 0;
    }
    let n = sorted_data.len();
    proof {
        lemma_rank_index_in_range(p as int, n as int);
    }
    let index = ((p as u128 * (n as u128 - 1) + 50) / 100) as usize;
    sorted_data[index]
}

} // verus!
