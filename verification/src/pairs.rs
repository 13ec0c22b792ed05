//! Key/value detail lists: the string maps that threats, events and
//! indicators carry. A list maps each key to the value of its first entry.
use vstd::prelude::*;

verus! {

/// The value of the first entry with key `k`, if any.
pub open spec fn lookup(s: Seq<(String, String)>, k: Seq<char>) -> Option<Seq<char>>
    decreases s.len(),
{
    if s.len() == 0 {
        None
    } else if s[0].0@ == k {
        Some(s[0].1@)
    } else {
        lookup(s.drop_first(), k)
    }
}

/// No key occurs twice.
pub open spec fn keys_distinct(s: Seq<(String, String)>) -> bool {
    forall|i: int, j: int| 0 <= i < j < s.len() ==> s[i].0@ != s[j].0@
}

/// If no entry before `i` has key `k` and entry `i` has it, the lookup gives entry `i`.
pub proof fn lemma_lookup_at(s: Seq<(String, String)>, k: Seq<char>, i: int)
    requires
        0 <= i < s.len(),
        s[i].0@ == k,
        forall|j: int| 0 <= j < i ==> s[j].0@ != k,
    ensures
        lookup(s, k) == Some(s[i].1@),
    decreases i,
{
    if i > 0 {
        lemma_lookup_at(s.drop_first(), k, i - 1);
    }
}

/// If no entry has key `k`, the lookup gives nothing.
pub proof fn lemma_lookup_none(s: Seq<(String, String)>, k: Seq<char>)
    requires
        forall|j: int| 0 <= j < s.len() ==> s[j].0@ != k,
    ensures
        lookup(s, k) is None,
    decreases s.len(),
{
    if s.len() > 0 {
        lemma_lookup_none(s.drop_first(), k);
    }
}

/// Index of the first entry with the given key.
pub fn find_key(v: &[(String, String)], key: &str) -> (r: Option<usize>)
    ensures
        r matches Some(i) ==> i < v@.len() && v@[i as int].0@ == key@ && forall|j: int|
            0 <= j < i ==> v@[j].0@ != key@,
        r is None ==> forall|j: int| 0 <= j < v@.len() ==> v@[j].0@ != key@,
        r matches Some(i) ==> lookup(v@, key@) == Some(v@[i as int].1@),
        r is None ==> lookup(v@, key@) is None,
{
    let n = v.len();
    for i in 0..n
        invariant
            n == v@.len(),
            forall|j: int| 0 <= j < i ==> v@[j].0@ != key@,
    {
        if crate::text::str_eq(v[i].0.as_str(), key) {
            proof {
                lemma_lookup_at(v@, key@, i as int);
            }
            return Some(i);
        }
    }
    proof {
        lemma_lookup_none(v@, key@);
    }
    None
}

/// `HashMap::get` on a detail list.
pub fn get_value<'a>(v: &'a [(String, String)], key: &str) -> (r: Option<&'a String>)
    ensures
        r matches Some(x) ==> lookup(v@, key@) == Some(x@),
        r is None ==> lookup(v@, key@) is None,
{
    match find_key(v, key) {
        Some(i) => Some(&v[i].1),
        None => None,
    }
}

/// `HashMap::insert` on a detail list: the first entry with the key takes
/// the new value, or the pair is appended when the key is new.
pub fn insert_pair(v: &mut Vec<(String, String)>, key: String, value: String)
    ensures
        lookup(final(v)@, key@) == Some(value@),
        forall|k: Seq<char>| k != key@ ==> lookup(final(v)@, k) == lookup(old(v)@, k),
        (exists|i: int| 0 <= i < old(v)@.len() && old(v)@[i].0@ == key@) ==> final(v)@.len()
            == old(v)@.len(),
        (forall|i: int| 0 <= i < old(v)@.len() ==> old(v)@[i].0@ != key@) ==> final(v)@ == old(
            v,
        )@.push((key, value)),
        keys_distinct(old(v)@) ==> keys_distinct(final(v)@),
{
    match find_key(v.as_slice(), key.as_str()) {
        Some(i) => {
            let ghost old_v = v@;
            v.set(i, (key, value));
            proof {
                lemma_lookup_at(v@, key@, i as int);
                assert forall|k: Seq<char>| k != key@ implies lookup(v@, k) == lookup(old_v, k) by {
                    lemma_lookup_other(old_v, v@, k, i as int);
                }
            }
        },
        None => {
            let ghost old_v = v@;
            v.push((key, value));
            proof {
                lemma_lookup_at(v@, key@, old_v.len() as int);
                assert forall|k: Seq<char>| k != key@ implies lookup(v@, k) == lookup(old_v, k) by {
                    lemma_lookup_push(old_v, (key, value), k);
                }
            }
        },
    }
}

/// Replacing entry `i` by one with another key than `k` does not change the lookup of `k`
/// when entry `i` had the same key as the replacement.
proof fn lemma_lookup_other(a: Seq<(String, String)>, b: Seq<(String, String)>, k: Seq<char>, i: int)
    requires
        0 <= i < a.len(),
        a.len() == b.len(),
        a[i].0@ == b[i].0@,
        b[i].0@ != k,
        forall|j: int| 0 <= j < a.len() && j != i ==> a[j] == b[j],
    ensures
        lookup(b, k) == lookup(a, k),
    decreases a.len(),
{
    if a.len() > 0 {
        if i == 0 {
            assert(a.drop_first() =~= b.drop_first());
        } else {
            lemma_lookup_other(a.drop_first(), b.drop_first(), k, i - 1);
        }
    }
}

/// Appending an entry with another key does not change a lookup.
proof fn lemma_lookup_push(a: Seq<(String, String)>, e: (String, String), k: Seq<char>)
    requires
        e.0@ != k,
    ensures
        lookup(a.push(e), k) == lookup(a, k),
    decreases a.len(),
{
    if a.len() > 0 {
        assert(a.push(e).drop_first() =~= a.drop_first().push(e));
        assert(a.push(e)[0] == a[0]);
        lemma_lookup_push(a.drop_first(), e, k);
    } else {
        assert(a.push(e).drop_first() =~= Seq::<(String, String)>::empty());
        assert(a.push(e)[0] == e);
        assert(lookup(a.push(e).drop_first(), k) is None);
    }
}

/// A copy of a detail list.
pub fn clone_pairs(v: &[(String, String)]) -> (r: Vec<(String, String)>)
    ensures
        r@ == v@,
{
    let mut r: Vec<(String, String)> = Vec::new();
    let n = v.len();
    for i in 0..n
        invariant
            n == v@.len(),
            r@ == v@.take(i as int),
    {
        let k = v[i].0.clone();
        let x = v[i].1.clone();
        r.push((k, x));
        assert(r@ == v@.take(i + 1));
    }
    assert(v@.take(n as int) == v@);
    r
}

/// The views of a detail list.
pub open spec fn pair_views(v: Seq<(String, String)>) -> Seq<(Seq<char>, Seq<char>)> {
    Seq::new(v.len(), |i: int| (v[i].0@, v[i].1@))
}

/// A detail list holding the given pairs, in order.
pub fn details_of(items: &[(&str, &str)]) -> (r: Vec<(String, String)>)
    ensures
        pair_views(r@) == Seq::new(items@.len(), |i: int| (items@[i].0@, items@[i].1@)),
{
    let mut r: Vec<(String, String)> = Vec::new();
    let n = items.len();
    for i in 0..n
        invariant
            n == items@.len(),
            pair_views(r@) == Seq::new(i as nat, |k: int| (items@[k].0@, items@[k].1@)),
    {
        let (k, v) = items[i];
        let ghost before = r@;
        assert(pair_views(before).len() == before.len());
        let kk = crate::text::owned(k);
        let vv = crate::text::owned(v);
        r.push((kk, vv));
        proof {
            assert(r@ == before.push((kk, vv)));
            assert(pair_views(r@).len() == i + 1);
            assert forall|t: int| 0 <= t < i + 1 implies #[trigger] pair_views(r@)[t] == (items@[t].0@, items@[t].1@) by {
                if t < i {
                    assert(r@[t] == before[t]);
                    assert(pair_views(before)[t] == (before[t].0@, before[t].1@));
                }
            }
            assert(pair_views(r@) =~= Seq::new((i + 1) as nat, |k: int| (items@[k].0@, items@[k].1@)));
        }
    }
    r
}

} // verus!
