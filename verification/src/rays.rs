//! Rays.
use crate::arithmetic::Arithmetic;
use crate::intersections::Intersection;
use crate::matrix::{Matrix, Table};
use crate::scalar::Scalar;
use crate::shape::Shape;
use crate::tuple::{advance, spec_advance, Tuple};
use vstd::prelude::*;

verus! {

/// A ray: the point it starts from and the direction it travels in.
#[derive(Clone, Copy, Debug)]
pub struct Ray {
    pub origin: Tuple,
    pub direction: Tuple,
}

/// The point on the ray at the distance `t`: the origin, and `t` times the
/// direction further.
pub open spec fn spec_position<A: Arithmetic>(ray: Ray, t: Scalar, f: &A) -> Tuple {
    spec_advance(ray.origin, ray.direction, t, f)
}

/// The ray with the transform `m` applied to its origin and to its direction.
pub open spec fn spec_transform<A: Arithmetic>(ray: Ray, m: Table, f: &A) -> Ray {
    Ray { origin: m.apply(ray.origin, f), direction: m.apply(ray.direction, f) }
}

/// The ray from `origin` in `direction`.
pub fn ray(origin: Tuple, direction: Tuple) -> (r: Ray)
    ensures
        r == (Ray { origin, direction }),
{
    Ray { origin, direction }
}

/// The point on the ray at the distance `t`.
pub fn position<A: Arithmetic>(ray: &Ray, t: Scalar, f: &A) -> (p: Tuple)
    requires
        f.ready(),
    ensures
        p == spec_position(*ray, t, f),
{
    advance(&ray.origin, &ray.direction, t, f)
}

/// The ray with the transform `m`, of size four, applied to its origin and to
/// its direction.
pub fn transform<A: Arithmetic>(ray: &Ray, m: &Matrix, f: &A) -> (moved: Ray)
    requires
        f.ready(),
        m@.is_4x4(),
    ensures
        moved == spec_transform(*ray, m@, f),
{
    Ray { origin: m.apply(&ray.origin, f), direction: m.apply(&ray.direction, f) }
}

/// Where the ray `r` meets the shape `s`: what `s.intersect` finds for `r`.
pub fn intersect<'a, A: Arithmetic>(s: &'a Shape, r: &Ray, f: &A) -> (xs: Vec<Intersection<'a>>)
    requires
        f.ready(),
        s.wf(),
    ensures
        xs@ == s.spec_intersect(*r, f),
{
    s.intersect(r, f)
}

} // verus!
