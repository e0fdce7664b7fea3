//! Where rays meet shapes, and which meeting counts.
use crate::arithmetic::Arithmetic;
use crate::rays::{position, spec_position, Ray};
use crate::scalar::Scalar;
use crate::shape::Shape;
use crate::tuple::{advance, dot, spec_advance, spec_dot, Tuple};
use core::ops::Neg;
use vstd::prelude::*;

verus! {

/// A ray meets a shape: `t` says how far along the ray, in units of the ray's
/// direction, and `object` which shape.
#[derive(Clone, Copy, Debug)]
pub struct Intersection<'a> {
    pub t: Scalar,
    pub object: &'a Shape,
}

/// The meeting with `object` at `t`.
pub fn intersection<'a>(t: Scalar, object: &'a Shape) -> (i: Intersection<'a>)
    ensures
        i == (Intersection { t, object }),
{
    Intersection { t, object }
}

impl<'a> PartialEq for Intersection<'a> {
    /// Whether the two are at the same distance on the same shape.
    fn eq(&self, other: &Intersection<'a>) -> (r: bool) {
        self.t == other.t && *self.object == *other.object
    }
}

impl<'a> vstd::std_specs::cmp::PartialEqSpecImpl for Intersection<'a> {
    open spec fn obeys_eq_spec() -> bool {
        true
    }

    open spec fn eq_spec(&self, other: &Intersection<'a>) -> bool {
        self.t.equal(other.t) && self.object.spec_id() == other.object.spec_id()
    }
}

/// Entry `k` of `xs` is the hit: it lies ahead of the ray's origin, no entry
/// that lies ahead is nearer, and of those equally near it comes first.
pub open spec fn is_hit(xs: Seq<Intersection>, k: int) -> bool {
    &&& 0 <= k < xs.len()
    &&& xs[k].t.positive()
    &&& forall|i: int| 0 <= i < xs.len() && xs[i].t.positive() ==> !(#[trigger] xs[i]).t.less(xs[k].t)
    &&& forall|i: int| 0 <= i < k && xs[i].t.positive() ==> xs[k].t.less((#[trigger] xs[i]).t)
}

/// No entry of `xs` lies ahead of the ray's origin.
pub open spec fn is_miss(xs: Seq<Intersection>) -> bool {
    forall|i: int| 0 <= i < xs.len() ==> !(#[trigger] xs[i]).t.positive()
}

/// The hit of `xs`, if it has one.
pub open spec fn spec_hit<'a>(xs: Seq<Intersection<'a>>) -> Option<Intersection<'a>> {
    if is_miss(xs) {
        None
    } else {
        Some(xs[choose|k: int| is_hit(xs, k)])
    }
}

/// Where the hit stands among `xs`, if there is one.
pub fn hit_index(xs: &Vec<Intersection>) -> (r: Option<usize>)
    ensures
        match r {
            Some(k) => is_hit(xs@, k as int),
            None => is_miss(xs@),
        },
{
    let mut best: Option<usize> = None;
    let mut n: usize = 0;
    while n < xs.len()
        invariant
            n <= xs.len(),
            match best {
                Some(k) => k < n && is_hit(xs@.take(n as int), k as int),
                None => is_miss(xs@.take(n as int)),
            },
        decreases xs.len() - n,
    {
        let t = xs[n].t;
        let ghost before = xs@.take(n as int);
        let ghost after = xs@.take(n + 1);
        proof {
            assert(forall|i: int| 0 <= i < n ==> before[i] == after[i]);
            assert(after[n as int] == xs@[n as int]);
        }
        if t.gt(&Scalar::zero()) {
            match best {
                None => {
                    best = Some(n);
                },
                Some(k) => {
                    if t.lt(&xs[k].t) {
                        proof {
                            assert forall|i: int|
                                0 <= i < after.len() && after[i].t.positive() implies !(
                            #[trigger] after[i]).t.less(t) by {
                                if i < n {
                                    assert(before[i].t.positive());
                                    assert(!before[i].t.less(before[k as int].t));
                                }
                            }
                            assert forall|i: int| 0 <= i < n && after[i].t.positive() implies t.less(
                                (#[trigger] after[i]).t,
                            ) by {
                                assert(before[i].t.positive());
                                assert(!before[i].t.less(before[k as int].t));
                            }
                        }
                        best = Some(n);
                    } else {
                        proof {
                            assert forall|i: int|
                                0 <= i < after.len() && after[i].t.positive() implies !(
                            #[trigger] after[i]).t.less(after[k as int].t) by {
                                if i < n {
                                    assert(before[i].t.positive());
                                }
                            }
                            assert forall|i: int|
                                0 <= i < k && after[i].t.positive() implies after[k as int].t.less(
                                (#[trigger] after[i]).t,
                            ) by {
                                assert(before[i].t.positive());
                            }
                        }
                    }
                },
            }
        } else {
            proof {
                match best {
                    Some(k) => {
                        assert forall|i: int|
                            0 <= i < after.len() && after[i].t.positive() implies !(
                        #[trigger] after[i]).t.less(after[k as int].t) by {
                            if i < n {
                                assert(before[i].t.positive());
                            }
                        }
                        assert forall|i: int|
                            0 <= i < k && after[i].t.positive() implies after[k as int].t.less(
                            (#[trigger] after[i]).t,
                        ) by {
                            assert(before[i].t.positive());
                        }
                    },
                    None => {
                        assert forall|i: int| 0 <= i < after.len() implies !(
                        #[trigger] after[i]).t.positive() by {
                            if i < n {
                                assert(!before[i].t.positive());
                            }
                        }
                    },
                }
            }
        }
        n += 1;
    }
    proof {
        assert(xs@.take(xs.len() as int) =~= xs@);
    }
    best
}

/// The hit: of the intersections that lie ahead of the ray's origin, those
/// with `t` above 0, the nearest one, and of several equally near the first.
/// There is none where no intersection lies ahead.
pub fn hit<'b, 'a>(xs: &'b Vec<Intersection<'a>>) -> (r: Option<&'b Intersection<'a>>)
    ensures
        match r {
            Some(h) => spec_hit(xs@) == Some(*h) && xs@.contains(*h),
            None => spec_hit(xs@) is None,
        },
{
    match hit_index(xs) {
        Some(k) => {
            proof {
                lemma_hit_is(xs@, k as int);
            }
            Some(&xs[k])
        },
        None => None,
    }
}

/// What shading needs to know of a hit.
#[derive(Clone, Copy, Debug)]
pub struct Computations<'a> {
    /// How far along the ray the hit lies.
    pub t: Scalar,
    /// The shape that was hit.
    pub object: &'a Shape,
    /// Where the ray meets the shape.
    pub point: Tuple,
    /// That point, moved off the surface to the side that the normal points
    /// to, so that the surface does not shadow itself.
    pub over_point: Tuple,
    /// The direction from the point back to the eye.
    pub eyev: Tuple,
    /// The surface normal at the point, on the eye's side of the surface.
    pub normalv: Tuple,
    /// Whether the ray started inside the shape.
    pub inside: bool,
}

/// What shading needs to know of `intersection`, which `ray` made.
///
/// Its point is the point on the ray at the intersection's distance, its eye
/// vector the opposite of the ray's direction. The shape's normal at the point
/// looks away from the eye where its dot product with the eye vector is
/// negative: the ray then started inside the shape, and the normal is turned
/// round. The point over the surface lies 0.0001 times the normal so turned
/// further than the point.
pub open spec fn spec_prepare_computations<'a, A: Arithmetic>(
    intersection: Intersection<'a>,
    ray: Ray,
    f: &A,
) -> Computations<'a> {
    let point = spec_position(ray, intersection.t, f);
    let eyev = ray.direction.negated();
    let normal = intersection.object.spec_normal_at(point, f);
    let inside = spec_dot(normal, eyev, f).negative();
    let normalv = if inside {
        normal.negated()
    } else {
        normal
    };
    Computations {
        t: intersection.t,
        object: intersection.object,
        point,
        over_point: spec_advance(point, normalv, Scalar::spec_epsilon(), f),
        eyev,
        normalv,
        inside,
    }
}

/// What shading needs to know of `intersection`, which `ray` made.
pub fn prepare_computations<'a, A: Arithmetic>(
    intersection: &Intersection<'a>,
    ray: &Ray,
    f: &A,
) -> (comps: Computations<'a>)
    requires
        f.ready(),
        intersection.object.wf(),
    ensures
        comps == spec_prepare_computations(*intersection, *ray, f),
{
    let point = position(ray, intersection.t, f);
    let eyev = ray.direction.neg();
    let normal = intersection.object.normal_at(&point, f);
    let inside = dot(&normal, &eyev, f).lt(&Scalar::zero());
    let normalv = if inside {
        normal.neg()
    } else {
        normal
    };
    let over_point = advance(&point, &normalv, Scalar::epsilon(), f);
    Computations { t: intersection.t, object: intersection.object, point, over_point, eyev, normalv, inside }
}

/// A list with an entry ahead of the ray's origin has a hit.
pub proof fn lemma_hit_exists(xs: Seq<Intersection>) -> (k: int)
    requires
        !is_miss(xs),
    ensures
        is_hit(xs, k),
    decreases xs.len(),
{
    let front = xs.drop_last();
    let last = xs.len() - 1;
    assert(xs.len() > 0);
    assert forall|i: int| 0 <= i < front.len() implies front[i] == xs[i] by {}
    if is_miss(front) {
        assert(xs[last].t.positive());
        assert forall|i: int| 0 <= i < xs.len() && xs[i].t.positive() implies !(#[trigger] xs[i]).t.less(
            xs[last].t,
        ) by {
            if i < last {
                assert(!front[i].t.positive());
            }
        }
        assert forall|i: int| 0 <= i < last && xs[i].t.positive() implies xs[last].t.less(
            (#[trigger] xs[i]).t,
        ) by {
            assert(!front[i].t.positive());
        }
        last
    } else {
        let k = lemma_hit_exists(front);
        if xs[last].t.positive() && xs[last].t.less(xs[k].t) {
            assert forall|i: int|
                0 <= i < xs.len() && xs[i].t.positive() implies !(#[trigger] xs[i]).t.less(
                xs[last].t,
            ) by {
                if i < last {
                    assert(!front[i].t.less(front[k].t));
                }
            }
            assert forall|i: int| 0 <= i < last && xs[i].t.positive() implies xs[last].t.less(
                (#[trigger] xs[i]).t,
            ) by {
                assert(!front[i].t.less(front[k].t));
            }
            last
        } else {
            assert forall|i: int|
                0 <= i < xs.len() && xs[i].t.positive() implies !(#[trigger] xs[i]).t.less(xs[k].t) by {
                if i < last {
                    assert(!front[i].t.less(front[k].t));
                }
            }
            assert forall|i: int| 0 <= i < k && xs[i].t.positive() implies xs[k].t.less(
                (#[trigger] xs[i]).t,
            ) by {
                assert(front[k].t.less(front[i].t));
            }
            k
        }
    }
}

/// A list has one hit at most.
pub proof fn lemma_hit_unique(xs: Seq<Intersection>, j: int, k: int)
    requires
        is_hit(xs, j),
        is_hit(xs, k),
    ensures
        j == k,
{
    if j < k {
        assert(xs[k].t.less(xs[j].t));
    }
    if k < j {
        assert(xs[j].t.less(xs[k].t));
    }
}

/// The hit of a list is its entry that is the hit.
pub proof fn lemma_hit_is(xs: Seq<Intersection>, k: int)
    requires
        is_hit(xs, k),
    ensures
        spec_hit(xs) == Some(xs[k]),
{
    assert(xs[k].t.positive());
    lemma_hit_unique(xs, k, choose|j: int| is_hit(xs, j));
}

/// A list has a hit or is a miss, never both.
pub proof fn lemma_hit_or_miss(xs: Seq<Intersection>, k: int)
    requires
        is_hit(xs, k),
    ensures
        !is_miss(xs),
{
    assert(xs[k].t.positive());
}

} // verus!
