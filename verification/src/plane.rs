//! The plane through the origin that faces upward.
use crate::arithmetic::Arithmetic;
use crate::intersections::{intersection, Intersection};
use crate::rays::Ray;
use crate::scalar::Scalar;
use crate::shape::{Shape, ShapeIds, ShapeType};
use crate::tuple::{spec_vector, vector, Tuple};
use core::ops::Neg;
use vstd::prelude::*;

verus! {

/// The plane y = 0 of its own space.
pub struct Plane {}

impl Plane {
    /// Whether a ray in the plane's own space runs alongside the plane,
    /// within it or beside it: the y of its direction is nearer to 0 than
    /// 0.0001.
    pub open spec fn parallel(ray: Ray) -> bool {
        ray.direction.y.absolute().less(Scalar::spec_epsilon())
    }

    /// Where `ray` meets the plane `s`, in the plane's own space: nowhere
    /// where the ray runs alongside the plane, and else at the one distance
    /// at which its y becomes 0, which is the opposite of the y of its
    /// origin, divided by the y of its direction.
    pub open spec fn spec_local_intersect<'a, A: Arithmetic>(s: &'a Shape, ray: Ray, f: &A) -> Seq<
        Intersection<'a>,
    > {
        if Plane::parallel(ray) {
            Seq::empty()
        } else {
            seq![
                (Intersection {
                    t: f.quotient(ray.origin.y.negated(), ray.direction.y),
                    object: s,
                }),
            ]
        }
    }

    /// The normal of the plane: the vector (0, 1, 0).
    pub open spec fn spec_local_normal() -> Tuple {
        spec_vector(Scalar::spec_zero(), Scalar::spec_one(), Scalar::spec_zero())
    }

    /// Where `ray`, given in the plane's own space, meets the plane `s`.
    ///
    /// A ray that runs alongside the plane does not meet it, whether it lies
    /// in the plane or not. Any other ray meets it once.
    pub fn local_intersect<'a, A: Arithmetic>(s: &'a Shape, ray: &Ray, f: &A) -> (xs: Vec<
        Intersection<'a>,
    >)
        requires
            f.ready(),
        ensures
            xs@ == Plane::spec_local_intersect(s, *ray, f),
    {
        if ray.direction.y.abs().lt(&Scalar::epsilon()) {
            let xs = Vec::new();
            assert(xs@ =~= Plane::spec_local_intersect(s, *ray, f));
            return xs;
        }
        let t = f.div(ray.origin.y.neg(), ray.direction.y);
        let xs = vec![intersection(t, s)];
        assert(xs@ =~= Plane::spec_local_intersect(s, *ray, f));
        xs
    }

    /// The normal of the plane, which is the same at every point: the vector
    /// (0, 1, 0).
    pub fn local_normal(_shape: &Shape, _pt: &Tuple) -> (n: Tuple)
        ensures
            n == Plane::spec_local_normal(),
    {
        vector(Scalar::zero(), Scalar::one(), Scalar::zero())
    }
}

/// A ray that runs alongside the plane meets it nowhere, whether it lies in
/// the plane or beside it. Any other ray meets it once.
pub proof fn lemma_plane_is_met_once_or_not_at_all<A: Arithmetic>(s: &Shape, ray: Ray, f: &A)
    ensures
        Plane::spec_local_intersect(s, ray, f).len() == if Plane::parallel(ray) {
            0nat
        } else {
            1nat
        },
        forall|k: int|
            0 <= k < Plane::spec_local_intersect(s, ray, f).len() ==> (
            #[trigger] Plane::spec_local_intersect(s, ray, f)[k]).object == s,
{
}

/// A plane has the same normal at every point.
pub proof fn lemma_plane_normal_is_the_same_everywhere<A: Arithmetic>(
    s: &Shape,
    p: Tuple,
    q: Tuple,
    f: &A,
)
    requires
        s.spec_shape_type() == ShapeType::Plane,
    ensures
        s.spec_normal_at(p, f) == s.spec_normal_at(q, f),
{
}

/// A new plane.
pub fn plane(ids: &mut ShapeIds) -> (s: Shape)
    requires
        old(ids).issued() < u64::MAX,
    ensures
        s.is_new(ShapeType::Plane, *old(ids)),
        final(ids).issued() == s.spec_id(),
{
    Shape::new(ShapeType::Plane, ids)
}

} // verus!
