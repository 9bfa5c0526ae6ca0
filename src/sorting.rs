use vstd::prelude::*;
use vstd::multiset::Multiset;

verus! {

/// A record with a creation instant, by which result lists are ordered.
pub trait Timestamped {
    spec fn created_key(&self) -> int;

    fn created_nanos(&self) -> (r: i128)
        ensures
            r as int == self.created_key();
}

/// Puts `x` after every leading item that is not later than it.
pub open spec fn insert_sorted<T: Timestamped>(s: Seq<T>, x: T) -> Seq<T>
    decreases s.len(),
{
    if s.len() == 0 {
        seq![x]
    } else if s[0].created_key() > x.created_key() {
        seq![x] + s
    } else {
        seq![s[0]] + insert_sorted(s.drop_first(), x)
    }
}

/// The stable sort by creation instant: each item in turn is put after all
/// earlier ones that are not later than it.
pub open spec fn sort_by_created<T: Timestamped>(s: Seq<T>) -> Seq<T>
    decreases s.len(),
{
    if s.len() == 0 {
        s
    } else {
        insert_sorted(sort_by_created(s.drop_last()), s.last())
    }
}

/// Ascending by creation instant.
pub open spec fn is_sorted_by_created<T: Timestamped>(s: Seq<T>) -> bool {
    forall|i: int, j: int| 0 <= i < j < s.len() ==> s[i].created_key() <= s[j].created_key()
}

proof fn lemma_insert_at<T: Timestamped>(s: Seq<T>, x: T, p: int)
    requires
        0 <= p <= s.len(),
        forall|q: int| 0 <= q < p ==> s[q].created_key() <= x.created_key(),
        p < s.len() ==> s[p].created_key() > x.created_key(),
    ensures
        insert_sorted(s, x) == s.insert(p, x),
    decreases s.len(),
{
    if s.len() == 0 {
        assert(s.insert(p, x) =~= seq![x]);
    } else if p == 0 {
        assert(s.insert(p, x) =~= seq![x] + s);
    } else {
        let t = s.drop_first();
        assert forall|q: int| 0 <= q < p - 1 implies t[q].created_key() <= x.created_key() by {
            assert(t[q] == s[q + 1]);
        }
        if p - 1 < t.len() {
            assert(t[p - 1] == s[p]);
        }
        lemma_insert_at(t, x, p - 1);
        assert(seq![s[0]] + t.insert(p - 1, x) =~= s.insert(p, x));
    }
}

proof fn lemma_insert_keeps_sorted<T: Timestamped>(s: Seq<T>, x: T)
    requires
        is_sorted_by_created(s),
    ensures
        is_sorted_by_created(insert_sorted(s, x)),
        insert_sorted(s, x).to_multiset() == s.to_multiset().insert(x),
    decreases s.len(),
{
    if s.len() == 0 {
        assert(seq![x].to_multiset() =~= s.to_multiset().insert(x)) by {
            s.to_multiset_ensures();
            seq![x].to_multiset_ensures();
            assert(seq![x] =~= s.push(x));
        }
    } else if s[0].created_key() > x.created_key() {
        let r = seq![x] + s;
        assert forall|i: int, j: int| 0 <= i < j < r.len() implies r[i].created_key() <= r[j].created_key() by {
            if i > 0 {
                assert(r[i] == s[i - 1]);
            }
            assert(r[j] == s[j - 1]);
        }
        vstd::seq_lib::lemma_multiset_commutative(seq![x], s);
        assert(seq![x].to_multiset() =~= Multiset::<T>::empty().insert(x)) by {
            assert(seq![x] =~= Seq::<T>::empty().push(x));
            Seq::<T>::empty().to_multiset_ensures();
        }
    } else {
        let t = s.drop_first();
        assert forall|i: int, j: int| 0 <= i < j < t.len() implies t[i].created_key() <= t[j].created_key() by {
            assert(t[i] == s[i + 1] && t[j] == s[j + 1]);
        }
        lemma_insert_keeps_sorted(t, x);
        let u = insert_sorted(t, x);
        let r = seq![s[0]] + u;
        assert(u.to_multiset().contains(x)) by {
            assert(u.to_multiset().count(x) >= 1);
        }
        assert forall|k: int| 0 <= k < u.len() implies s[0].created_key() <= #[trigger] u[k].created_key() by {
            assert(u.to_multiset().contains(u[k])) by {
                u.to_multiset_ensures();
                assert(u.contains(u[k]));
            }
            assert(t.to_multiset().insert(x).contains(u[k]));
            if u[k] != x {
                assert(t.to_multiset().contains(u[k]));
                t.to_multiset_ensures();
                let q = choose|q: int| 0 <= q < t.len() && t[q] == u[k];
                assert(t[q] == s[q + 1]);
            }
        }
        assert forall|i: int, j: int| 0 <= i < j < r.len() implies r[i].created_key() <= r[j].created_key() by {
            assert(r[j] == u[j - 1]);
            if i > 0 {
                assert(r[i] == u[i - 1]);
            }
        }
        vstd::seq_lib::lemma_multiset_commutative(seq![s[0]], u);
        vstd::seq_lib::lemma_multiset_commutative(seq![s[0]], t);
        assert(s =~= seq![s[0]] + t);
    }
}

/// The stable sort by creation instant is ascending and holds the same items.
pub proof fn lemma_sort_sorted<T: Timestamped>(s: Seq<T>)
    ensures
        is_sorted_by_created(sort_by_created(s)),
        sort_by_created(s).to_multiset() == s.to_multiset(),
    decreases s.len(),
{
    if s.len() > 0 {
        lemma_sort_sorted(s.drop_last());
        lemma_insert_keeps_sorted(sort_by_created(s.drop_last()), s.last());
        assert(s =~= s.drop_last().push(s.last()));
        s.drop_last().to_multiset_ensures();
    }
}

/// Created at instant `k`.
pub open spec fn at_key<T: Timestamped>(k: int) -> spec_fn(T) -> bool {
    |t: T| t.created_key() == k
}

/// The items of a list created at a given instant, in list order.
pub open spec fn created_at_key<T: Timestamped>(s: Seq<T>, k: int) -> Seq<T> {
    s.filter(at_key(k))
}

proof fn lemma_none_created_at<T: Timestamped>(s: Seq<T>, k: int)
    requires
        forall|i: int| 0 <= i < s.len() ==> s[i].created_key() != k,
    ensures
        created_at_key(s, k) == Seq::<T>::empty(),
{
    let f = created_at_key(s, k);
    if f.len() > 0 {
        let pred = at_key::<T>(k);
        s.lemma_filter_pred(pred, 0);
        assert(f.contains(f[0]));
        s.lemma_filter_contains_rev(pred, f[0]);
    }
    assert(f =~= Seq::<T>::empty());
}

proof fn lemma_insert_stable<T: Timestamped>(s: Seq<T>, x: T, k: int)
    requires
        is_sorted_by_created(s),
    ensures
        created_at_key(insert_sorted(s, x), k) == (if x.created_key() == k {
            created_at_key(s, k).push(x)
        } else {
            created_at_key(s, k)
        }),
    decreases s.len(),
{
    let pred = at_key::<T>(k);
    reveal(Seq::filter);
    assert(Seq::<T>::empty().filter(pred) =~= Seq::<T>::empty());
    if s.len() == 0 {
        assert(seq![x].drop_last() =~= Seq::<T>::empty());
    } else if s[0].created_key() > x.created_key() {
        Seq::filter_distributes_over_add(seq![x], s, pred);
        assert(seq![x].drop_last() =~= Seq::<T>::empty());
        if x.created_key() == k {
            lemma_none_created_at(s, k);
            assert(seq![x] + Seq::<T>::empty() =~= Seq::<T>::empty().push(x));
        } else {
            assert(Seq::<T>::empty() + created_at_key(s, k) =~= created_at_key(s, k));
        }
    } else {
        let t = s.drop_first();
        assert forall|i: int, j: int| 0 <= i < j < t.len() implies t[i].created_key() <= t[j].created_key() by {
            assert(t[i] == s[i + 1] && t[j] == s[j + 1]);
        }
        lemma_insert_stable(t, x, k);
        Seq::filter_distributes_over_add(seq![s[0]], insert_sorted(t, x), pred);
        Seq::filter_distributes_over_add(seq![s[0]], t, pred);
        assert(s =~= seq![s[0]] + t);
        if x.created_key() == k {
            assert(seq![s[0]].filter(pred) + created_at_key(t, k).push(x) =~= (seq![s[0]].filter(pred)
                + created_at_key(t, k)).push(x));
        }
    }
}

/// The sort is stable: the items created at any one instant come out in
/// the order they went in.
pub proof fn lemma_sort_stable<T: Timestamped>(s: Seq<T>, k: int)
    ensures
        created_at_key(sort_by_created(s), k) == created_at_key(s, k),
    decreases s.len(),
{
    reveal(Seq::filter);
    if s.len() > 0 {
        lemma_sort_stable(s.drop_last(), k);
        lemma_sort_sorted(s.drop_last());
        lemma_insert_stable(sort_by_created(s.drop_last()), s.last(), k);
    }
}

/// Sorts records by creation instant, keeping the arrival order of records
/// created at the same instant.
pub fn sort_stable_by_created<T: Timestamped>(v: Vec<T>) -> (r: Vec<T>)
    ensures
        r@ == sort_by_created(v@),
{
    let ghost orig = v@;
    let mut input = v;
    let mut out: Vec<T> = Vec::new();
    let mut i: usize = 0;
    let n = input.len();
    while input.len() > 0
        invariant
            n == orig.len(),
            i <= n,
            i + input@.len() == n,
            input@ == orig.subrange(i as int, n as int),
            out@ == sort_by_created(orig.subrange(0, i as int)),
        decreases input@.len(),
    {
        let x = input.remove(0);
        let k = x.created_nanos();
        let mut p: usize = 0;
        while p < out.len() && out[p].created_nanos() <= k
            invariant
                p <= out@.len(),
                k as int == x.created_key(),
                forall|q: int| 0 <= q < p ==> out@[q].created_key() <= x.created_key(),
            decreases out@.len() - p,
        {
            p = p + 1;
        }
        proof {
            lemma_insert_at(out@, x, p as int);
            let pre = orig.subrange(0, i + 1);
            assert(pre.drop_last() =~= orig.subrange(0, i as int));
            assert(pre.last() == x);
        }
        out.insert(p, x);
        i = i + 1;
        proof {
            assert(input@ =~= orig.subrange(i as int, n as int));
        }
    }
    assert(orig.subrange(0, n as int) =~= orig);
    out
}

} // verus!
