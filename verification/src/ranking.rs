//! Stable ordering of named items by decreasing rank, as `sort_by` with a
//! reversed key comparison orders them: newest files first, deepest paths
//! first.
use vstd::prelude::*;

verus! {

/// Where an item of rank `k` goes in a list ordered by decreasing rank:
/// after every leading item of rank `k` or more.
pub open spec fn insert_pos(s: Seq<(Seq<char>, u64)>, k: u64) -> nat
    decreases s.len(),
{
    if s.len() == 0 {
        0
    } else if s[0].1 >= k {
        1 + insert_pos(s.drop_first(), k)
    } else {
        0
    }
}

/// The items ordered by decreasing rank; items of equal rank keep their
/// order (a stable sort, by insertion).
pub open spec fn ranked(s: Seq<(Seq<char>, u64)>) -> Seq<(Seq<char>, u64)>
    decreases s.len(),
{
    if s.len() == 0 {
        Seq::empty()
    } else {
        let r = ranked(s.drop_last());
        r.insert(insert_pos(r, s.last().1) as int, s.last())
    }
}

/// The views of a list of ranked names.
pub open spec fn keyed_views(v: Seq<(String, u64)>) -> Seq<(Seq<char>, u64)> {
    Seq::new(v.len(), |i: int| (v[i].0@, v[i].1))
}

proof fn lemma_insert_pos_le(s: Seq<(Seq<char>, u64)>, k: u64)
    ensures
        insert_pos(s, k) <= s.len(),
    decreases s.len(),
{
    if s.len() > 0 && s[0].1 >= k {
        lemma_insert_pos_le(s.drop_first(), k);
    }
}

pub proof fn lemma_ranked_len(s: Seq<(Seq<char>, u64)>)
    ensures
        ranked(s).len() == s.len(),
    decreases s.len(),
{
    if s.len() > 0 {
        lemma_ranked_len(s.drop_last());
        lemma_insert_pos_le(ranked(s.drop_last()), s.last().1);
    }
}

proof fn lemma_insert_pos_bounds(s: Seq<(Seq<char>, u64)>, k: u64)
    ensures
        insert_pos(s, k) <= s.len(),
        forall|i: int| 0 <= i < insert_pos(s, k) ==> s[i].1 >= k,
        insert_pos(s, k) < s.len() ==> s[insert_pos(s, k) as int].1 < k,
    decreases s.len(),
{
    if s.len() > 0 && s[0].1 >= k {
        let t = s.drop_first();
        lemma_insert_pos_bounds(t, k);
        assert forall|i: int| 0 <= i < insert_pos(s, k) implies s[i].1 >= k by {
            if i > 0 {
                assert(s[i] == t[i - 1]);
            }
        }
        if insert_pos(s, k) < s.len() {
            assert(s[insert_pos(s, k) as int] == t[insert_pos(t, k) as int]);
        }
    }
}

/// The order by decreasing rank: no item ranks above an item before it.
pub open spec fn descending(s: Seq<(Seq<char>, u64)>) -> bool {
    forall|i: int, j: int| 0 <= i < j < s.len() ==> s[i].1 >= s[j].1
}

/// Ranking orders the items by decreasing rank and keeps every item: the
/// newest files come first, the deepest paths first, and nothing is lost
/// or added.
pub proof fn lemma_ranked_sorted(s: Seq<(Seq<char>, u64)>)
    ensures
        descending(ranked(s)),
        ranked(s).to_multiset() == s.to_multiset(),
    decreases s.len(),
{
    broadcast use vstd::seq_lib::group_to_multiset_ensures;

    if s.len() == 0 {
        assert(ranked(s).to_multiset() =~= s.to_multiset());
    } else {
        let r = ranked(s.drop_last());
        let x = s.last();
        lemma_ranked_sorted(s.drop_last());
        lemma_insert_pos_bounds(r, x.1);
        let p = insert_pos(r, x.1) as int;
        let w = r.insert(p, x);
        assert forall|i: int, j: int| 0 <= i < j < w.len() implies w[i].1 >= w[j].1 by {
            if j < p {
                assert(w[i] == r[i] && w[j] == r[j]);
            } else if j == p {
                assert(w[i] == r[i]);
            } else if i < p {
                assert(w[i] == r[i] && w[j] == r[j - 1]);
                assert(r[i].1 >= x.1);
                if p < r.len() {
                    assert(r[p].1 < x.1);
                }
            } else if i == p {
                assert(w[j] == r[j - 1]);
                assert(r[p].1 < x.1);
                assert(r[p].1 >= r[j - 1].1 || j - 1 == p);
            } else {
                assert(w[i] == r[i - 1] && w[j] == r[j - 1]);
            }
        }
        vstd::seq_lib::to_multiset_insert(r, p, x);
        assert(s =~= s.drop_last().push(x));
    }
}

/// Inserts the item into a list ordered by decreasing rank, after every
/// leading item of the same rank or more.
pub fn insert_ranked(v: &mut Vec<(String, u64)>, x: (String, u64))
    ensures
        keyed_views(final(v)@) == keyed_views(old(v)@).insert(
            insert_pos(keyed_views(old(v)@), x.1) as int,
            (x.0@, x.1),
        ),
{
    let ghost dv = keyed_views(v@);
    let mut j: usize = 0;
    assert(dv.skip(0) =~= dv);
    while j < v.len() && v[j].1 >= x.1
        invariant
            j <= v@.len(),
            dv == keyed_views(v@),
            insert_pos(dv, x.1) == j + insert_pos(dv.skip(j as int), x.1),
        decreases v@.len() - j,
    {
        assert(dv.skip(j as int).drop_first() =~= dv.skip(j + 1));
        assert(dv.skip(j as int)[0] == dv[j as int]);
        j = j + 1;
    }
    if j < v.len() {
        assert(dv.skip(j as int)[0] == dv[j as int]);
    } else {
        assert(dv.skip(j as int).len() == 0);
    }
    let ghost xv = (x.0@, x.1);
    v.insert(j, x);
    assert(keyed_views(v@) =~= dv.insert(j as int, xv));
}

/// The items ordered by decreasing rank, items of equal rank in their
/// order.
pub fn rank_descending(items: &[(String, u64)]) -> (r: Vec<(String, u64)>)
    ensures
        keyed_views(r@) == ranked(keyed_views(items@)),
{
    let ghost all = keyed_views(items@);
    let mut sorted: Vec<(String, u64)> = Vec::new();
    let m = items.len();
    proof {
        assert(all.take(0) =~= Seq::<(Seq<char>, u64)>::empty());
        assert(keyed_views(sorted@) =~= Seq::<(Seq<char>, u64)>::empty());
    }
    for i in 0..m
        invariant
            m == items@.len(),
            all == keyed_views(items@),
            keyed_views(sorted@) == ranked(all.take(i as int)),
    {
        assert(all.take(i + 1).drop_last() =~= all.take(i as int));
        assert(all.take(i + 1).last() == all[i as int]);
        let f = &items[i];
        let x = (f.0.clone(), f.1);
        insert_ranked(&mut sorted, x);
    }
    assert(all.take(m as int) =~= all);
    sorted
}

} // verus!
