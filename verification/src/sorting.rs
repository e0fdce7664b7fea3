//! Lists of intersections in ascending order.
//!
//! The order is the total order of the encodings of `t`, in which every two
//! encodings compare. Among numbers it is the order of the numbers, with
//! negative zero before positive zero.
use crate::intersections::{
    is_hit, is_miss, lemma_hit_exists, lemma_hit_is, spec_hit, Intersection,
};
use vstd::prelude::*;

verus! {

/// The list goes from the smallest `t` to the largest, in the total order of
/// encodings.
pub open spec fn ascending(xs: Seq<Intersection>) -> bool {
    forall|i: int, j: int|
        0 <= i < j < xs.len() ==> (#[trigger] xs[i]).t.total_rank() <= (#[trigger] xs[j]).t.total_rank()
}

/// The entries of `xs` whose `t` has the total rank `v`, in their order.
pub open spec fn at_rank<'a>(xs: Seq<Intersection<'a>>, v: int) -> Seq<Intersection<'a>> {
    xs.filter(|x: Intersection<'a>| x.t.total_rank() == v)
}

/// `sorted` is `xs` in ascending order, with entries of equal `t` left in the
/// order they had.
pub open spec fn is_sorted_from<'a>(sorted: Seq<Intersection<'a>>, xs: Seq<Intersection<'a>>) -> bool {
    &&& ascending(sorted)
    &&& sorted.to_multiset() == xs.to_multiset()
    &&& forall|v: int| #[trigger] at_rank(sorted, v) == at_rank(xs, v)
}

/// Two lists that are both `xs` in ascending order, entries of equal `t` left
/// in their order, are the same list: the order of the result is fixed.
pub proof fn lemma_sorted_is_unique<'a>(
    a: Seq<Intersection<'a>>,
    b: Seq<Intersection<'a>>,
    xs: Seq<Intersection<'a>>,
)
    requires
        is_sorted_from(a, xs),
        is_sorted_from(b, xs),
    ensures
        a == b,
{
    vstd::seq_lib::to_multiset_len(a);
    vstd::seq_lib::to_multiset_len(b);
    assert forall|v: int| #[trigger] at_rank(a, v) == at_rank(b, v) by {
        assert(at_rank(a, v) == at_rank(xs, v));
        assert(at_rank(b, v) == at_rank(xs, v));
    }
    lemma_same_classes(a, b);
}

/// Two ascending lists of one length in which the entries of each rank are
/// the same, in the same order, are the same list.
proof fn lemma_same_classes<'a>(a: Seq<Intersection<'a>>, b: Seq<Intersection<'a>>)
    requires
        ascending(a),
        ascending(b),
        a.len() == b.len(),
        forall|v: int| #[trigger] at_rank(a, v) == at_rank(b, v),
    ensures
        a == b,
    decreases a.len(),
{
    if a.len() == 0 {
        assert(a =~= b);
    } else {
        let x = a.last();
        let y = b.last();
        let r = x.t.total_rank();
        let q = y.t.total_rank();
        let a0 = a.drop_last();
        let b0 = b.drop_last();
        assert(a =~= a0.push(x));
        assert(b =~= b0.push(y));
        lemma_class_of_last(a0, x, r);
        lemma_class_of_last(b0, y, q);
        if r != q {
            lemma_class_of_last(a0, x, q);
            lemma_class_of_last(b0, y, r);
            lemma_rank_of_class(a, q);
            lemma_rank_of_class(b, r);
            assert(at_rank(a, q) == at_rank(b, q));
            assert(at_rank(a, r) == at_rank(b, r));
            let i = choose|i: int| 0 <= i < a.len() && (#[trigger] a[i]).t.total_rank() == q;
            let j = choose|j: int| 0 <= j < b.len() && (#[trigger] b[j]).t.total_rank() == r;
            assert(a[i].t.total_rank() <= a[a.len() - 1].t.total_rank());
            assert(b[j].t.total_rank() <= b[b.len() - 1].t.total_rank());
        }
        assert(at_rank(a, r) == at_rank(b, r));
        assert(at_rank(a, r).last() == x);
        assert(at_rank(b, r).last() == y);
        assert forall|v: int| #[trigger] at_rank(a0, v) == at_rank(b0, v) by {
            lemma_class_of_last(a0, x, v);
            lemma_class_of_last(b0, y, v);
            assert(at_rank(a, v) == at_rank(b, v));
            if v == r {
                assert(at_rank(a0, v) =~= at_rank(a, v).drop_last());
                assert(at_rank(b0, v) =~= at_rank(b, v).drop_last());
            }
        }
        assert(ascending(a0)) by {
            assert forall|i: int, j: int| 0 <= i < j < a0.len() implies (#[trigger] a0[i]).t.total_rank()
                <= (#[trigger] a0[j]).t.total_rank() by {
                assert(a0[i] == a[i] && a0[j] == a[j]);
            }
        }
        assert(ascending(b0)) by {
            assert forall|i: int, j: int| 0 <= i < j < b0.len() implies (#[trigger] b0[i]).t.total_rank()
                <= (#[trigger] b0[j]).t.total_rank() by {
                assert(b0[i] == b[i] && b0[j] == b[j]);
            }
        }
        lemma_same_classes(a0, b0);
    }
}

/// The entries of rank `v` in a list with one more entry.
proof fn lemma_class_of_last<'a>(xs: Seq<Intersection<'a>>, x: Intersection<'a>, v: int)
    ensures
        at_rank(xs.push(x), v) == if x.t.total_rank() == v {
            at_rank(xs, v).push(x)
        } else {
            at_rank(xs, v)
        },
{
    xs.lemma_filter_push(x, |y: Intersection<'a>| y.t.total_rank() == v);
}

/// Where a list has entries of rank `v`, one of its entries has that rank.
proof fn lemma_rank_of_class<'a>(xs: Seq<Intersection<'a>>, v: int)
    requires
        at_rank(xs, v).len() > 0,
    ensures
        exists|i: int| 0 <= i < xs.len() && (#[trigger] xs[i]).t.total_rank() == v,
{
    let pred = |y: Intersection<'a>| y.t.total_rank() == v;
    let class = xs.filter(pred);
    xs.lemma_filter_pred(pred, 0);
    xs.lemma_filter_contains_rev(pred, class[0]);
    assert(xs.contains(class[0]));
    let i = choose|i: int| 0 <= i < xs.len() && xs[i] == class[0];
    assert(xs[i].t.total_rank() == v);
}

/// In an ascending list the hit is the first entry that lies ahead of the
/// ray's origin.
pub proof fn lemma_hit_of_ascending(xs: Seq<Intersection>, k: int)
    requires
        ascending(xs),
        0 <= k < xs.len(),
        xs[k].t.positive(),
        forall|i: int| 0 <= i < k ==> !(#[trigger] xs[i]).t.positive(),
    ensures
        is_hit(xs, k),
{
    assert forall|i: int| 0 <= i < xs.len() && xs[i].t.positive() implies !(#[trigger] xs[i]).t.less(
        xs[k].t,
    ) by {
        if i > k {
            assert(xs[k].t.total_rank() <= xs[i].t.total_rank());
        }
    }
}

/// Where the first entry that `pred` holds of stands at `k`, it is the first
/// of the entries that `pred` holds of.
proof fn lemma_first_kept<'a>(
    xs: Seq<Intersection<'a>>,
    pred: spec_fn(Intersection<'a>) -> bool,
    k: int,
)
    requires
        0 <= k < xs.len(),
        pred(xs[k]),
        forall|i: int| 0 <= i < k ==> !pred(#[trigger] xs[i]),
    ensures
        xs.filter(pred).len() > 0,
        xs.filter(pred)[0] == xs[k],
    decreases xs.len(),
{
    let front = xs.drop_last();
    assert(xs =~= front.push(xs.last()));
    front.lemma_filter_push(xs.last(), pred);
    if k == xs.len() - 1 {
        assert(front.all(|y: Intersection<'a>| !pred(y))) by {
            assert forall|i: int| 0 <= i < front.len() implies !pred(#[trigger] front[i]) by {
                assert(front[i] == xs[i]);
            }
        }
        front.lemma_all_neg_filter_empty(pred);
    } else {
        assert(front[k] == xs[k]);
        assert forall|i: int| 0 <= i < k implies !pred(#[trigger] front[i]) by {
            assert(front[i] == xs[i]);
        }
        lemma_first_kept(front, pred, k);
    }
}

/// The first of the entries that `pred` holds of is the first entry that it
/// holds of.
proof fn lemma_first_found<'a>(xs: Seq<Intersection<'a>>, pred: spec_fn(Intersection<'a>) -> bool) -> (k:
    int)
    requires
        xs.filter(pred).len() > 0,
    ensures
        0 <= k < xs.len(),
        pred(xs[k]),
        forall|i: int| 0 <= i < k ==> !pred(#[trigger] xs[i]),
        xs.filter(pred)[0] == xs[k],
    decreases xs.len(),
{
    reveal(Seq::filter);
    let front = xs.drop_last();
    assert(xs =~= front.push(xs.last()));
    front.lemma_filter_push(xs.last(), pred);
    if front.filter(pred).len() > 0 {
        let k = lemma_first_found(front, pred);
        assert(front[k] == xs[k]);
        assert forall|i: int| 0 <= i < k implies !pred(#[trigger] xs[i]) by {
            assert(front[i] == xs[i]);
        }
        k
    } else {
        let k = xs.len() - 1;
        assert forall|i: int| 0 <= i < k implies !pred(#[trigger] xs[i]) by {
            if pred(xs[i]) {
                assert(front[i] == xs[i]);
                front.lemma_filter_contains(pred, i);
            }
        }
        k
    }
}

/// Putting a list in ascending order does not change its hit: the hit of the
/// ordered list is an entry of the list as it was, and the hit there.
pub proof fn lemma_hit_survives_sorting<'a>(
    sorted: Seq<Intersection<'a>>,
    xs: Seq<Intersection<'a>>,
    k: int,
) -> (j: int)
    requires
        is_sorted_from(sorted, xs),
        is_hit(sorted, k),
    ensures
        is_hit(xs, j),
        xs[j] == sorted[k],
{
    let e = sorted[k];
    let r = e.t.total_rank();
    let pred = |y: Intersection<'a>| y.t.total_rank() == r;
    assert forall|i: int| 0 <= i < k implies !pred(#[trigger] sorted[i]) by {
        if pred(sorted[i]) {
            crate::scalar::lemma_total_order_refines_less(sorted[i].t, e.t);
            assert(sorted[i].t.positive());
            assert(e.t.less(sorted[i].t));
        }
    }
    lemma_first_kept(sorted, pred, k);
    assert(at_rank(sorted, r) == at_rank(xs, r));
    let j = lemma_first_found(xs, pred);
    assert(xs[j] == e);
    lemma_same_entries(sorted, xs);
    assert forall|i: int| 0 <= i < xs.len() && xs[i].t.positive() implies !(#[trigger] xs[i]).t.less(
        xs[j].t,
    ) by {
        assert(xs.contains(xs[i]));
        assert(sorted.contains(xs[i]));
        let at = choose|at: int| 0 <= at < sorted.len() && sorted[at] == xs[i];
        assert(!sorted[at].t.less(sorted[k].t));
    }
    assert forall|i: int| 0 <= i < j && xs[i].t.positive() implies xs[j].t.less(
        (#[trigger] xs[i]).t,
    ) by {
        assert(!pred(xs[i]));
        assert(!xs[i].t.less(xs[j].t));
        crate::scalar::lemma_total_order_refines_less(xs[i].t, xs[j].t);
        crate::scalar::lemma_trichotomy(xs[i].t, xs[j].t);
    }
    j
}

/// A list in ascending order has a hit exactly where the list as it was has
/// one.
pub proof fn lemma_miss_survives_sorting<'a>(sorted: Seq<Intersection<'a>>, xs: Seq<Intersection<'a>>)
    requires
        is_sorted_from(sorted, xs),
    ensures
        is_miss(sorted) == is_miss(xs),
{
    lemma_same_entries(sorted, xs);
    if is_miss(sorted) {
        assert forall|i: int| 0 <= i < xs.len() implies !(#[trigger] xs[i]).t.positive() by {
            assert(xs.contains(xs[i]));
            assert(sorted.contains(xs[i]));
            let at = choose|at: int| 0 <= at < sorted.len() && sorted[at] == xs[i];
            assert(!sorted[at].t.positive());
        }
    }
    if is_miss(xs) {
        assert forall|i: int| 0 <= i < sorted.len() implies !(#[trigger] sorted[i]).t.positive() by {
            assert(sorted.contains(sorted[i]));
            assert(xs.contains(sorted[i]));
            let at = choose|at: int| 0 <= at < xs.len() && xs[at] == sorted[i];
            assert(!xs[at].t.positive());
        }
    }
}

/// Putting a list in ascending order does not change its hit.
pub proof fn lemma_sorting_keeps_the_hit<'a>(sorted: Seq<Intersection<'a>>, xs: Seq<Intersection<'a>>)
    requires
        is_sorted_from(sorted, xs),
    ensures
        spec_hit(sorted) == spec_hit(xs),
{
    lemma_miss_survives_sorting(sorted, xs);
    if !is_miss(sorted) {
        let k = lemma_hit_exists(sorted);
        let j = lemma_hit_survives_sorting(sorted, xs, k);
        lemma_hit_is(sorted, k);
        lemma_hit_is(xs, j);
    }
}

/// Puts `x` into an ascending list, behind the entries that are not larger.
pub(crate) fn insert_ascending<'a>(out: &mut Vec<Intersection<'a>>, x: Intersection<'a>)
    requires
        ascending(old(out)@),
    ensures
        ascending(final(out)@),
        final(out)@.to_multiset() == old(out)@.to_multiset().insert(x),
        forall|v: int| #[trigger] at_rank(final(out)@, v) == at_rank(old(out)@.push(x), v),
{
    let mut p: usize = out.len();
    while p > 0 && x.t.total_lt(&out[p - 1].t)
        invariant
            p <= out.len(),
            out@ == old(out)@,
            forall|i: int| p <= i < out.len() ==> x.t.total_rank() < (#[trigger] out@[i]).t.total_rank(),
        decreases p,
    {
        p -= 1;
    }
    let ghost before = out@;
    let ghost head = before.subrange(0, p as int);
    let ghost tail = before.subrange(p as int, before.len() as int);
    out.insert(p, x);
    proof {
        let r = x.t.total_rank();
        assert(before =~= head + tail);
        assert(out@ =~= head.push(x) + tail);
        vstd::seq_lib::to_multiset_insert(before, p as int, x);
        assert forall|i: int, j: int| 0 <= i < j < out@.len() implies (#[trigger] out@[i]).t.total_rank()
            <= (#[trigger] out@[j]).t.total_rank() by {
            if j < p {
                assert(out@[i] == before[i] && out@[j] == before[j]);
            } else if j == p {
                assert(out@[i] == before[i]);
                if p > 0 {
                    assert(before[i].t.total_rank() <= before[p - 1].t.total_rank());
                }
            } else if i < p {
                assert(out@[i] == before[i] && out@[j] == before[j - 1]);
            } else if i == p {
                assert(out@[j] == before[j - 1]);
            } else {
                assert(out@[i] == before[i - 1] && out@[j] == before[j - 1]);
            }
        }
        assert forall|v: int| #[trigger] at_rank(out@, v) == at_rank(before.push(x), v) by {
            let pred = |y: Intersection<'a>| y.t.total_rank() == v;
            Seq::filter_distributes_over_add(head.push(x), tail, pred);
            Seq::filter_distributes_over_add(head, tail, pred);
            head.lemma_filter_push(x, pred);
            before.lemma_filter_push(x, pred);
            if v == r {
                assert(tail.all(|y: Intersection<'a>| !pred(y))) by {
                    assert forall|i: int| 0 <= i < tail.len() implies !pred(#[trigger] tail[i]) by {
                        assert(tail[i] == before[p + i]);
                    }
                }
                tail.lemma_all_neg_filter_empty(pred);
                assert(tail.filter(pred) =~= Seq::empty());
                assert(head.filter(pred).push(x) + tail.filter(pred) =~= (head.filter(pred)
                    + tail.filter(pred)).push(x));
            }
        }
    }
}

/// Two lists with the same entries, in whatever order, contain the same
/// intersections.
pub proof fn lemma_same_entries(a: Seq<Intersection>, b: Seq<Intersection>)
    requires
        a.to_multiset() == b.to_multiset(),
    ensures
        forall|x: Intersection| a.contains(x) <==> b.contains(x),
{
    assert forall|x: Intersection| a.contains(x) <==> b.contains(x) by {
        vstd::seq_lib::to_multiset_contains(a, x);
        vstd::seq_lib::to_multiset_contains(b, x);
    }
}

} // verus!
