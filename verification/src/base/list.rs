//! Sequences of values and of their views.

use vstd::prelude::*;
use crate::error::Error;

verus! {

/// The views of the elements of `v`, in order.
pub open spec fn views<T: View>(v: Seq<T>) -> Seq<T::V> {
    v.map_values(|x: T| x@)
}

/// Pushing an element pushes its view.
pub proof fn lemma_views_push<T: View>(v: Seq<T>, x: T)
    ensures
        views(v.push(x)) == views(v).push(x@),
{
    assert(views(v.push(x)) =~= views(v).push(x@));
}

/// The views of a prefix are the prefix of the views.
pub proof fn lemma_views_take<T: View>(v: Seq<T>, n: int)
    requires
        0 <= n <= v.len(),
    ensures
        views(v.take(n)) == views(v).take(n),
{
    assert(views(v.take(n)) =~= views(v).take(n));
}

/// Filtering one element more keeps what was kept so far, and then element
/// `i` if it passes.
pub proof fn lemma_filter_step<A>(s: Seq<A>, pred: spec_fn(A) -> bool, i: int)
    requires
        0 <= i < s.len(),
    ensures
        s.take(i + 1).filter(pred) == if pred(s[i]) {
            s.take(i).filter(pred).push(s[i])
        } else {
            s.take(i).filter(pred)
        },
{
    reveal(Seq::filter);
    assert(s.take(i + 1).drop_last() =~= s.take(i));
    assert(s.take(i + 1).last() == s[i]);
}

/// What a call that gives a list of records or fails has come to, with the
/// records as their views.
pub open spec fn outcome<T: View>(r: Result<Vec<T>, Error>) -> Result<Seq<T::V>, Error> {
    match r {
        Ok(list) => Ok(views(list@)),
        Err(e) => Err(e),
    }
}

/// What a call that gives one record or fails has come to, with the record as
/// its view.
pub open spec fn outcome_of<T: View>(r: Result<T, Error>) -> Result<T::V, Error> {
    match r {
        Ok(record) => Ok(record@),
        Err(e) => Err(e),
    }
}

/// The outcome of reading every item with `f`, in order: the records if every
/// item gives one, else the failure of the first item that gives none.
pub open spec fn try_map<A, T>(
    items: Seq<A>,
    f: spec_fn(A) -> Result<T, Error>,
) -> Result<Seq<T>, Error>
    decreases items.len(),
{
    if items.len() == 0 {
        Ok(Seq::empty())
    } else {
        match try_map(items.drop_last(), f) {
            Ok(done) => match f(items.last()) {
                Ok(t) => Ok(done.push(t)),
                Err(e) => Err(e),
            },
            Err(e) => Err(e),
        }
    }
}

/// Reading one item more: the records so far and then that of item `i`, or the
/// first failure.
pub proof fn lemma_try_map_step<A, T>(
    items: Seq<A>,
    f: spec_fn(A) -> Result<T, Error>,
    i: int,
)
    requires
        0 <= i < items.len(),
    ensures
        try_map(items.take(i + 1), f) == match try_map(items.take(i), f) {
            Ok(done) => match f(items[i]) {
                Ok(t) => Ok(done.push(t)),
                Err(e) => Err(e),
            },
            Err(e) => Err(e),
        },
{
    assert(items.take(i + 1).drop_last() =~= items.take(i));
    assert(items.take(i + 1).last() == items[i]);
}

/// A failure among the first `k` items is the failure of the whole.
pub proof fn lemma_try_map_fails<A, T>(
    items: Seq<A>,
    f: spec_fn(A) -> Result<T, Error>,
    k: int,
)
    requires
        0 <= k <= items.len(),
        try_map(items.take(k), f) is Err,
    ensures
        try_map(items, f) == try_map(items.take(k), f),
    decreases items.len(),
{
    if k == items.len() {
        assert(items.take(k) =~= items);
    } else {
        assert(items.drop_last().take(k) =~= items.take(k));
        lemma_try_map_fails(items.drop_last(), f, k);
    }
}

/// Where every item gives a record, there are as many records as items, and
/// record `i` is that of item `i`.
pub proof fn lemma_try_map_ok<A, T>(
    items: Seq<A>,
    f: spec_fn(A) -> Result<T, Error>,
)
    ensures
        try_map(items, f) matches Ok(done) ==> {
            &&& done.len() == items.len()
            &&& forall|i: int| 0 <= i < items.len() ==> f(#[trigger] items[i]) == Ok::<T, Error>(done[i])
        },
        (forall|i: int| 0 <= i < items.len() ==> f(#[trigger] items[i]) is Ok) ==> try_map(items, f) is Ok,
    decreases items.len(),
{
    if items.len() > 0 {
        lemma_try_map_ok(items.drop_last(), f);
        if let Ok(done) = try_map(items, f) {
            let before = try_map(items.drop_last(), f)->Ok_0;
            assert forall|i: int| 0 <= i < items.len() implies f(#[trigger] items[i]) == Ok::<T, Error>(
                done[i],
            ) by {
                if i < items.len() - 1 {
                    assert(items.drop_last()[i] == items[i]);
                }
            }
        }
        if forall|i: int| 0 <= i < items.len() ==> f(#[trigger] items[i]) is Ok {
            assert forall|i: int| 0 <= i < items.drop_last().len() implies f(
                #[trigger] items.drop_last()[i],
            ) is Ok by {
                assert(items.drop_last()[i] == items[i]);
            }
            assert(f(items[items.len() - 1]) is Ok);
        }
    }
}

/// Reading one item more, where the items so far gave records.
pub proof fn lemma_try_map_push<A, T>(items: Seq<A>, f: spec_fn(A) -> Result<T, Error>, item: A)
    ensures
        try_map(items.push(item), f) == match try_map(items, f) {
            Ok(done) => match f(item) {
                Ok(t) => Ok(done.push(t)),
                Err(e) => Err(e),
            },
            Err(e) => Err(e),
        },
{
    assert(items.push(item).drop_last() =~= items);
}

/// What passes among the first `i` items is a prefix of what passes among all.
pub proof fn lemma_filter_prefix<A>(s: Seq<A>, pred: spec_fn(A) -> bool, i: int)
    requires
        0 <= i <= s.len(),
    ensures
        s.take(i).filter(pred).len() <= s.filter(pred).len(),
        s.filter(pred).take(s.take(i).filter(pred).len() as int) == s.take(i).filter(pred),
{
    Seq::filter_distributes_over_add(s.take(i), s.skip(i), pred);
    assert(s.take(i) + s.skip(i) =~= s);
    let head = s.take(i).filter(pred);
    let tail = s.skip(i).filter(pred);
    assert((head + tail).take(head.len() as int) =~= head);
}

} // verus!
