//! Stable sorting of keyed rows, by a number or by a text.
use vstd::prelude::*;

use crate::text::{comes_before, text_before};

verus! {

/// `x` put into `s` behind every row whose key is not smaller, counted from the end.
pub open spec fn insert_desc<T>(s: Seq<(i128, T)>, x: (i128, T)) -> Seq<(i128, T)>
    decreases s.len(),
{
    if s.len() == 0 || s.last().0 >= x.0 {
        s.push(x)
    } else {
        insert_desc(s.drop_last(), x).push(s.last())
    }
}

/// The rows in falling order of their keys; rows with one key keep their order.
pub open spec fn sorted_desc<T>(s: Seq<(i128, T)>) -> Seq<(i128, T)>
    decreases s.len(),
{
    if s.len() == 0 {
        s
    } else {
        insert_desc(sorted_desc(s.drop_last()), s.last())
    }
}

/// `x` put into `s` behind every row whose key does not come after it, counted from the end.
pub open spec fn insert_text<T>(s: Seq<(Seq<char>, T)>, x: (Seq<char>, T)) -> Seq<(Seq<char>, T)>
    decreases s.len(),
{
    if s.len() == 0 || !text_before(x.0, s.last().0) {
        s.push(x)
    } else {
        insert_text(s.drop_last(), x).push(s.last())
    }
}

/// The rows in the order of their keys; rows with one key keep their order.
pub open spec fn sorted_text<T>(s: Seq<(Seq<char>, T)>) -> Seq<(Seq<char>, T)>
    decreases s.len(),
{
    if s.len() == 0 {
        s
    } else {
        insert_text(sorted_text(s.drop_last()), s.last())
    }
}

proof fn lemma_insert_desc_at<T>(s: Seq<(i128, T)>, x: (i128, T), p: int)
    requires
        0 <= p <= s.len(),
        p == 0 || s[p - 1].0 >= x.0,
        forall|k: int| p <= k < s.len() ==> (#[trigger] s[k]).0 < x.0,
    ensures
        insert_desc(s, x) == s.insert(p, x),
    decreases s.len(),
{
    if p < s.len() {
        lemma_insert_desc_at(s.drop_last(), x, p);
        assert(s.insert(p, x) =~= s.drop_last().insert(p, x).push(s.last()));
    } else {
        assert(s.insert(p, x) =~= s.push(x));
    }
}

/// Sorts by falling keys; rows with one key keep their order.
pub fn sort_desc<T>(rows: Vec<(i128, T)>) -> (r: Vec<(i128, T)>)
    ensures
        r@ == sorted_desc(rows@),
{
    let ghost all = rows@;
    let mut out: Vec<(i128, T)> = Vec::new();
    assert(all.take(0) =~= Seq::<(i128, T)>::empty());
    for row in it: rows
        invariant
            it.seq() == all,
            out@ == sorted_desc(all.take(it.index())),
    {
        let mut p: usize = out.len();
        while p > 0 && out[p - 1].0 < row.0
            invariant
                p <= out@.len(),
                forall|k: int| p <= k < out@.len() ==> (#[trigger] out@[k]).0 < row.0,
            decreases p,
        {
            p -= 1;
        }
        proof {
            lemma_insert_desc_at(out@, row, p as int);
            assert(all.take(it.index() + 1).drop_last() =~= all.take(it.index()));
        }
        out.insert(p, row);
    }
    assert(all.take(all.len() as int) =~= all);
    out
}

/// The keys of rows by their characters.
pub open spec fn text_keyed<T>(s: Seq<(String, T)>) -> Seq<(Seq<char>, T)> {
    Seq::new(s.len(), |i: int| (s[i].0@, s[i].1))
}

proof fn lemma_insert_text_at<T>(s: Seq<(Seq<char>, T)>, x: (Seq<char>, T), p: int)
    requires
        0 <= p <= s.len(),
        p == 0 || !text_before(x.0, s[p - 1].0),
        forall|k: int| p <= k < s.len() ==> text_before(x.0, (#[trigger] s[k]).0),
    ensures
        insert_text(s, x) == s.insert(p, x),
    decreases s.len(),
{
    if p < s.len() {
        lemma_insert_text_at(s.drop_last(), x, p);
        assert(s.insert(p, x) =~= s.drop_last().insert(p, x).push(s.last()));
    } else {
        assert(s.insert(p, x) =~= s.push(x));
    }
}

/// Sorts by rising text keys; rows with one key keep their order.
pub fn sort_text<T>(rows: Vec<(String, T)>) -> (r: Vec<(String, T)>)
    ensures
        text_keyed(r@) == sorted_text(text_keyed(rows@)),
{
    let ghost all = rows@;
    let mut out: Vec<(String, T)> = Vec::new();
    assert(text_keyed(all.take(0)) =~= Seq::<(Seq<char>, T)>::empty());
    assert(text_keyed(out@) =~= Seq::<(Seq<char>, T)>::empty());
    for row in it: rows
        invariant
            it.seq() == all,
            text_keyed(out@) == sorted_text(text_keyed(all.take(it.index()))),
    {
        let mut p: usize = out.len();
        while p > 0 && comes_before(row.0.as_str(), out[p - 1].0.as_str())
            invariant
                p <= out@.len(),
                forall|k: int|
                    p <= k < out@.len() ==> text_before(row.0@, (#[trigger] text_keyed(out@)[k]).0),
            decreases p,
        {
            assert(text_keyed(out@)[p - 1].0 == out@[p - 1].0@);
            p -= 1;
        }
        let ghost before = text_keyed(out@);
        let ghost x = (row.0@, row.1);
        proof {
            if p > 0 {
                assert(before[p - 1].0 == out@[p - 1].0@);
            }
            lemma_insert_text_at(before, x, p as int);
            let next = text_keyed(all.take(it.index() + 1));
            assert(next.drop_last() =~= text_keyed(all.take(it.index())));
            assert(next.last() == x);
        }
        out.insert(p, row);
        assert(text_keyed(out@) =~= before.insert(p as int, x));
    }
    assert(all.take(all.len() as int) =~= all);
    out
}

// ---------------------------------------------------------------------------
// What sorting keeps
// ---------------------------------------------------------------------------

/// The rows with the key `k`, in order.
pub open spec fn with_key<T>(s: Seq<(i128, T)>, k: i128) -> Seq<(i128, T)> {
    s.filter(|r: (i128, T)| r.0 == k)
}

/// Keys fall along the rows.
pub open spec fn falls<T>(s: Seq<(i128, T)>) -> bool {
    forall|i: int, j: int| 0 <= i <= j < s.len() ==> (#[trigger] s[i]).0 >= (#[trigger] s[j]).0
}

proof fn lemma_insert_desc_falls<T>(s: Seq<(i128, T)>, x: (i128, T))
    requires
        falls(s),
    ensures
        falls(insert_desc(s, x)),
        insert_desc(s, x).len() == s.len() + 1,
        insert_desc(s, x).to_multiset() == s.to_multiset().insert(x),
        insert_desc(s, x).last().0 <= x.0,
        s.len() > 0 ==> insert_desc(s, x).last().0 <= s.last().0,
        forall|k: i128| #[trigger] with_key(insert_desc(s, x), k) == (if x.0 == k {
            with_key(s, k).push(x)
        } else {
            with_key(s, k)
        }),
    decreases s.len(),
{
    broadcast use vstd::seq_lib::group_to_multiset_ensures;

    let r = insert_desc(s, x);
    if s.len() == 0 || s.last().0 >= x.0 {
        assert forall|k: i128| #[trigger] with_key(r, k) == (if x.0 == k {
            with_key(s, k).push(x)
        } else {
            with_key(s, k)
        }) by {
            assert(r.drop_last() =~= s);
            reveal(Seq::filter);
        }
    } else {
        let front = s.drop_last();
        lemma_insert_desc_falls(front, x);
        assert(s =~= front.push(s.last()));
        assert forall|k: i128| #[trigger] with_key(r, k) == (if x.0 == k {
            with_key(s, k).push(x)
        } else {
            with_key(s, k)
        }) by {
            reveal(Seq::filter);
            let placed = insert_desc(front, x);
            assert(r.drop_last() =~= placed);
            assert(r.last() == s.last());
            assert(with_key(placed, k) == (if x.0 == k {
                with_key(front, k).push(x)
            } else {
                with_key(front, k)
            }));
            let hit = |r: (i128, T)| r.0 == k;
            assert(with_key(r, k) == r.filter(hit));
            assert(with_key(r, k) == (if s.last().0 == k {
                with_key(placed, k).push(s.last())
            } else {
                with_key(placed, k)
            }));
            assert(with_key(s, k) == (if s.last().0 == k {
                with_key(front, k).push(s.last())
            } else {
                with_key(front, k)
            }));
        }
        assert(s.to_multiset() == front.to_multiset().insert(s.last()));
        assert(r.to_multiset() =~= s.to_multiset().insert(x));
    }
}

/// Sorting orders the rows by falling keys, loses none and adds none, and
/// leaves the rows of each key in their order.
pub proof fn sorting_is_stable<T>(s: Seq<(i128, T)>)
    ensures
        falls(sorted_desc(s)),
        sorted_desc(s).len() == s.len(),
        sorted_desc(s).to_multiset() == s.to_multiset(),
        forall|k: i128| #[trigger] with_key(sorted_desc(s), k) == with_key(s, k),
    decreases s.len(),
{
    broadcast use vstd::seq_lib::group_to_multiset_ensures;

    if s.len() > 0 {
        let front = s.drop_last();
        sorting_is_stable(front);
        lemma_insert_desc_falls(sorted_desc(front), s.last());
        assert(s =~= front.push(s.last()));
        assert forall|k: i128| #[trigger] with_key(sorted_desc(s), k) == with_key(s, k) by {
            reveal(Seq::filter);
        }
    }
}

/// Rows with each payload replaced by its image.
pub open spec fn with_images<T, U>(s: Seq<(i128, T)>, f: spec_fn(T) -> U) -> Seq<(i128, U)> {
    Seq::new(s.len(), |i: int| (s[i].0, f(s[i].1)))
}

proof fn lemma_insert_images<T, U>(s: Seq<(i128, T)>, x: (i128, T), f: spec_fn(T) -> U)
    ensures
        with_images(insert_desc(s, x), f) == insert_desc(with_images(s, f), (x.0, f(x.1))),
    decreases s.len(),
{
    let t = with_images(s, f);
    if s.len() == 0 || s.last().0 >= x.0 {
        assert(with_images(s.push(x), f) =~= t.push((x.0, f(x.1))));
    } else {
        lemma_insert_images(s.drop_last(), x, f);
        assert(with_images(s.drop_last(), f) =~= t.drop_last());
        assert(with_images(insert_desc(s.drop_last(), x).push(s.last()), f) =~= with_images(
            insert_desc(s.drop_last(), x),
            f,
        ).push(t.last()));
    }
}

/// Sorting looks at the keys alone: it commutes with any map of the payloads.
pub proof fn sorting_commutes<T, U>(s: Seq<(i128, T)>, f: spec_fn(T) -> U)
    ensures
        with_images(sorted_desc(s), f) == sorted_desc(with_images(s, f)),
    decreases s.len(),
{
    if s.len() > 0 {
        sorting_commutes(s.drop_last(), f);
        lemma_insert_images(sorted_desc(s.drop_last()), s.last(), f);
        assert(with_images(s, f).drop_last() =~= with_images(s.drop_last(), f));
    } else {
        assert(with_images(s, f) =~= Seq::<(i128, U)>::empty());
    }
}

/// Text-keyed rows with each payload replaced by its image.
pub open spec fn with_text_images<T, U>(s: Seq<(Seq<char>, T)>, f: spec_fn(T) -> U) -> Seq<
    (Seq<char>, U),
> {
    Seq::new(s.len(), |i: int| (s[i].0, f(s[i].1)))
}

proof fn lemma_insert_text_images<T, U>(
    s: Seq<(Seq<char>, T)>,
    x: (Seq<char>, T),
    f: spec_fn(T) -> U,
)
    ensures
        with_text_images(insert_text(s, x), f) == insert_text(
            with_text_images(s, f),
            (x.0, f(x.1)),
        ),
    decreases s.len(),
{
    let t = with_text_images(s, f);
    if s.len() == 0 || !text_before(x.0, s.last().0) {
        assert(with_text_images(s.push(x), f) =~= t.push((x.0, f(x.1))));
    } else {
        lemma_insert_text_images(s.drop_last(), x, f);
        assert(with_text_images(s.drop_last(), f) =~= t.drop_last());
        assert(with_text_images(insert_text(s.drop_last(), x).push(s.last()), f)
            =~= with_text_images(insert_text(s.drop_last(), x), f).push(t.last()));
    }
}

/// Sorting by text commutes with any map of the payloads.
pub proof fn text_sorting_commutes<T, U>(s: Seq<(Seq<char>, T)>, f: spec_fn(T) -> U)
    ensures
        with_text_images(sorted_text(s), f) == sorted_text(with_text_images(s, f)),
    decreases s.len(),
{
    if s.len() > 0 {
        text_sorting_commutes(s.drop_last(), f);
        lemma_insert_text_images(sorted_text(s.drop_last()), s.last(), f);
        assert(with_text_images(s, f).drop_last() =~= with_text_images(s.drop_last(), f));
    } else {
        assert(with_text_images(s, f) =~= Seq::<(Seq<char>, U)>::empty());
    }
}

/// The payloads of keyed rows, in order.
pub open spec fn payloads<T>(s: Seq<(i128, T)>) -> Seq<T> {
    Seq::new(s.len(), |i: int| s[i].1)
}

/// The payloads of keyed rows, by falling keys; rows with one key keep their order.
pub fn ranked<T: DeepView>(rows: Vec<(i128, T)>) -> (r: Vec<T>)
    ensures
        r.deep_view() == payloads(sorted_desc(rows.deep_view())),
{
    let ghost models = |t: T| t.deep_view();
    let ghost unsorted = rows@;
    assert(with_images(unsorted, models) =~= rows.deep_view());
    let sorted = sort_desc(rows);
    proof {
        sorting_commutes(unsorted, models);
    }
    let ghost given = sorted@;
    let mut out: Vec<T> = Vec::new();
    for pair in it: sorted
        invariant
            it.seq() == given,
            out@.len() == it.index(),
            forall|k: int| 0 <= k < it.index() ==> #[trigger] out@[k] == given[k].1,
    {
        out.push(pair.1);
    }
    let ghost wanted = payloads(with_images(given, models));
    assert(out.deep_view() =~= wanted);
    out
}

} // verus!
