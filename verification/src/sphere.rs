//! The unit sphere about the origin.
use crate::arithmetic::Arithmetic;
use crate::intersections::{intersection, Intersection};
use crate::rays::Ray;
use crate::scalar::Scalar;
use crate::shape::{Shape, ShapeIds, ShapeType};
use crate::tuple::{dot, point, spec_dot, spec_point, Tuple};
use core::ops::Neg;
use vstd::prelude::*;

verus! {

/// The sphere of radius 1 about the origin of its own space.
#[derive(Clone, Debug)]
pub struct Sphere {}

/// The discriminant of the quadratic at² + bt + c: b² − 4ac.
pub open spec fn spec_discriminant<A: Arithmetic>(a: Scalar, b: Scalar, c: Scalar, f: &A) -> Scalar {
    f.difference(f.product(b, b), f.product(f.product(Scalar::spec_four(), a), c))
}

/// The first root of the quadratic at² + bt + c with the given discriminant:
/// (−b − √discriminant) / 2a.
pub open spec fn spec_first_root<A: Arithmetic>(a: Scalar, b: Scalar, discriminant: Scalar, f: &A) -> Scalar {
    f.quotient(f.difference(b.negated(), f.root(discriminant)), f.product(Scalar::spec_two(), a))
}

/// The second root of the quadratic at² + bt + c with the given
/// discriminant: (−b + √discriminant) / 2a.
pub open spec fn spec_second_root<A: Arithmetic>(a: Scalar, b: Scalar, discriminant: Scalar, f: &A) -> Scalar {
    f.quotient(f.sum(b.negated(), f.root(discriminant)), f.product(Scalar::spec_two(), a))
}

/// The discriminant of the quadratic at² + bt + c.
pub fn discriminant<A: Arithmetic>(a: Scalar, b: Scalar, c: Scalar, f: &A) -> (d: Scalar)
    requires
        f.ready(),
    ensures
        d == spec_discriminant(a, b, c, f),
{
    f.sub(f.mul(b, b), f.mul(f.mul(Scalar::four(), a), c))
}

/// The two roots of the quadratic at² + bt + c with the given discriminant,
/// the first root first.
pub fn roots<A: Arithmetic>(a: Scalar, b: Scalar, discriminant: Scalar, f: &A) -> (t: (Scalar, Scalar))
    requires
        f.ready(),
    ensures
        t == (spec_first_root(a, b, discriminant, f), spec_second_root(a, b, discriminant, f)),
{
    let root = f.sqrt(discriminant);
    let twice = f.mul(Scalar::two(), a);
    (f.div(f.sub(b.neg(), root), twice), f.div(f.add(b.neg(), root), twice))
}

impl Sphere {
    /// The centre of the sphere, for contracts.
    pub open spec fn spec_centre() -> Tuple {
        spec_point(Scalar::spec_zero(), Scalar::spec_zero(), Scalar::spec_zero())
    }

    /// The centre of the sphere: the origin of its own space.
    pub fn centre() -> (c: Tuple)
        ensures
            c == Sphere::spec_centre(),
    {
        point(Scalar::zero(), Scalar::zero(), Scalar::zero())
    }

    /// Where `ray` meets the sphere `s`, in the sphere's own space.
    ///
    /// With o the ray's origin less the sphere's centre and d the ray's
    /// direction, the distances t at which the ray is on the sphere are the
    /// roots of the quadratic with a = d·d, b = 2 d·o and c = o·o − 1. With a
    /// negative discriminant the ray misses the sphere; else it meets it at
    /// the two roots, the first root first.
    pub open spec fn spec_local_intersect<'a, A: Arithmetic>(s: &'a Shape, ray: Ray, f: &A) -> Seq<
        Intersection<'a>,
    > {
        let o = ray.origin.spec_sub(Sphere::spec_centre(), f);
        let a = spec_dot(ray.direction, ray.direction, f);
        let b = f.product(Scalar::spec_two(), spec_dot(ray.direction, o, f));
        let c = f.difference(spec_dot(o, o, f), Scalar::spec_one());
        let discriminant = spec_discriminant(a, b, c, f);
        if discriminant.negative() {
            Seq::empty()
        } else {
            seq![
                (Intersection { t: spec_first_root(a, b, discriminant, f), object: s }),
                (Intersection { t: spec_second_root(a, b, discriminant, f), object: s }),
            ]
        }
    }

    /// The normal of the sphere at the point `pt` of its surface, in the
    /// sphere's own space: the point less the centre.
    pub open spec fn spec_local_normal<A: Arithmetic>(pt: Tuple, f: &A) -> Tuple {
        pt.spec_sub(Sphere::spec_centre(), f)
    }

    /// Where `ray`, given in the sphere's own space, meets the sphere `s`:
    /// nowhere, or at the two roots of the quadratic, also where the ray only
    /// touches the sphere and the two are equal.
    pub fn local_intersect<'a, A: Arithmetic>(s: &'a Shape, ray: &Ray, f: &A) -> (xs: Vec<
        Intersection<'a>,
    >)
        requires
            f.ready(),
        ensures
            xs@ == Sphere::spec_local_intersect(s, *ray, f),
    {
        let sphere_to_ray = ray.origin.sub(&Sphere::centre(), f);
        let a = dot(&ray.direction, &ray.direction, f);
        let b = f.mul(Scalar::two(), dot(&ray.direction, &sphere_to_ray, f));
        let c = f.sub(dot(&sphere_to_ray, &sphere_to_ray, f), Scalar::one());
        let d = discriminant(a, b, c, f);
        if d.lt(&Scalar::zero()) {
            let xs = Vec::new();
            assert(xs@ =~= Sphere::spec_local_intersect(s, *ray, f));
            return xs;
        }
        let (t1, t2) = roots(a, b, d, f);
        let xs = vec![intersection(t1, s), intersection(t2, s)];
        assert(xs@ =~= Sphere::spec_local_intersect(s, *ray, f));
        xs
    }

    /// The normal of the sphere at the point `pt` of its surface, in the
    /// sphere's own space: the vector from the centre to the point.
    pub fn local_normal<A: Arithmetic>(_shape: &Shape, pt: &Tuple, f: &A) -> (n: Tuple)
        requires
            f.ready(),
        ensures
            n == Sphere::spec_local_normal(*pt, f),
    {
        pt.sub(&Sphere::centre(), f)
    }
}

/// A ray meets the sphere twice or not at all.
pub proof fn lemma_sphere_is_met_twice_or_not_at_all<A: Arithmetic>(s: &Shape, ray: Ray, f: &A)
    ensures
        Sphere::spec_local_intersect(s, ray, f).len() == 0 || Sphere::spec_local_intersect(
            s,
            ray,
            f,
        ).len() == 2,
        forall|k: int|
            0 <= k < Sphere::spec_local_intersect(s, ray, f).len() ==> (
            #[trigger] Sphere::spec_local_intersect(s, ray, f)[k]).object == s,
{
}

/// A new sphere.
pub fn sphere(ids: &mut ShapeIds) -> (s: Shape)
    requires
        old(ids).issued() < u64::MAX,
    ensures
        s.is_new(ShapeType::Sphere, *old(ids)),
        final(ids).issued() == s.spec_id(),
{
    Shape::new(ShapeType::Sphere, ids)
}

} // verus!
