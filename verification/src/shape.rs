//! Shapes: what kind each is, where it stands, what it is made of, and which
//! one it is.
use crate::arithmetic::Arithmetic;
use crate::cofactors::{inverse, spec_inverse, spec_invertible};
use crate::intersections::Intersection;
use crate::materials::Material;
use crate::matrix::{Matrix, Table};
use crate::plane::Plane;
use crate::rays::{spec_transform, transform, Ray};
use crate::scalar::Scalar;
use crate::sphere::Sphere;
use crate::tuple::{normalise, spec_normalise, Tuple};
use vstd::prelude::*;
use vstd::std_specs::cmp::PartialEqSpec;

verus! {

/// The kinds of shape.
#[derive(Clone, Copy, Debug, PartialEq, Eq, Structural)]
pub enum ShapeType {
    Plane,
    Sphere,
}

/// The source of shape ids for one scene. Every shape made from it gets an id
/// that no earlier shape has: the ids are 1, 2, 3 and so on.
#[derive(Debug)]
pub struct ShapeIds {
    issued: u64,
}

impl ShapeIds {
    /// How many ids have been handed out, which is also the last of them.
    pub closed spec fn issued(&self) -> u64 {
        self.issued
    }

    /// A source that has handed out no id yet.
    pub fn new() -> (ids: ShapeIds)
        ensures
            ids.issued() == 0,
    {
        ShapeIds { issued: 0 }
    }

    /// The next id.
    pub fn fresh(&mut self) -> (id: u64)
        requires
            old(self).issued() < u64::MAX,
        ensures
            id == old(self).issued() + 1,
            final(self).issued() == id,
    {
        self.issued = self.issued + 1;
        self.issued
    }
}

/// A shape of the scene. Two shapes are equal when they are the same shape,
/// that is when they have the same id, whatever they look like. A shape keeps
/// the inverse of its transform with it.
#[derive(Clone, Debug)]
pub struct Shape {
    id: u64,
    pub shape_type: ShapeType,
    transform: Matrix,
    inverse: Matrix,
    material: Material,
}

impl Shape {
    /// The shape's id.
    pub closed spec fn spec_id(&self) -> u64 {
        self.id
    }

    /// The shape's kind.
    pub closed spec fn spec_shape_type(&self) -> ShapeType {
        self.shape_type
    }

    /// The shape's transform, which places it in the world.
    pub closed spec fn spec_transform(&self) -> Matrix {
        self.transform
    }

    /// The inverse that the shape keeps of its transform.
    pub closed spec fn spec_inverse(&self) -> Matrix {
        self.inverse
    }

    /// The shape's material.
    pub closed spec fn spec_material(&self) -> Material {
        self.material
    }

    /// The transform and its inverse are of size four, and the material is
    /// well formed.
    pub open spec fn wf(&self) -> bool {
        &&& self.spec_transform()@.is_4x4()
        &&& self.spec_inverse()@.is_4x4()
        &&& self.spec_material().wf()
    }

    /// The inverse that the shape keeps is the one that `f` computes of its
    /// transform.
    pub open spec fn keeps_inverse<A: Arithmetic>(&self, f: &A) -> bool {
        self.spec_inverse()@ == spec_inverse(self.spec_transform()@, f)
    }

    /// What `ray` meets of the shape: the ray is taken into the shape's own
    /// space by the inverse that the shape keeps of its transform, and what it
    /// meets there is up to the kind of shape.
    pub open spec fn spec_intersect<'a, A: Arithmetic>(&'a self, ray: Ray, f: &A) -> Seq<
        Intersection<'a>,
    > {
        let local = spec_transform(ray, self.spec_inverse()@, f);
        match self.spec_shape_type() {
            ShapeType::Sphere => Sphere::spec_local_intersect(self, local, f),
            ShapeType::Plane => Plane::spec_local_intersect(self, local, f),
        }
    }

    /// The normal of a shape of this kind at a point of its own space.
    pub open spec fn spec_local_normal<A: Arithmetic>(&self, object_point: Tuple, f: &A) -> Tuple {
        match self.spec_shape_type() {
            ShapeType::Sphere => Sphere::spec_local_normal(object_point, f),
            ShapeType::Plane => Plane::spec_local_normal(),
        }
    }

    /// The normal of the shape at `point`: the point is taken into the
    /// shape's own space by the inverse that the shape keeps of its
    /// transform, the normal there is taken back by the transpose of that
    /// inverse, and what that gives is normalised once its `w` is set to 0.
    pub open spec fn spec_normal_at<A: Arithmetic>(&self, point: Tuple, f: &A) -> Tuple {
        let inverse = self.spec_inverse()@;
        let local_normal = self.spec_local_normal(inverse.apply(point, f), f);
        let world_normal = inverse.transpose().apply(local_normal, f);
        spec_normalise(Tuple { w: Scalar::spec_zero(), ..world_normal }, f)
    }

    /// A new shape of the given kind, with the next id of `ids`, the identity
    /// as its transform and the default material. The inverse that the new
    /// shape keeps is the identity as it is written, not as an arithmetic
    /// computes it.
    pub fn new(shape_type: ShapeType, ids: &mut ShapeIds) -> (s: Shape)
        requires
            old(ids).issued() < u64::MAX,
        ensures
            s.is_new(shape_type, *old(ids)),
            final(ids).issued() == s.spec_id(),
    {
        let id = ids.fresh();
        Shape {
            id,
            shape_type,
            transform: Matrix::identity_4x4(),
            inverse: Matrix::identity_4x4(),
            material: Material::default(),
        }
    }

    /// The shape is a new one of the given kind, made from `ids`: it has the
    /// next id, the identity as its transform and as the inverse it keeps,
    /// and the default material.
    pub open spec fn is_new(&self, shape_type: ShapeType, ids: ShapeIds) -> bool {
        &&& self.wf()
        &&& self.spec_id() == ids.issued() + 1
        &&& self.spec_shape_type() == shape_type
        &&& self.spec_material() == Material::spec_default()
        &&& self.spec_transform()@ == Table::identity_4x4()
        &&& self.spec_inverse()@ == Table::identity_4x4()
    }

    /// The shape's id.
    pub fn id(&self) -> (id: u64)
        ensures
            id == self.spec_id(),
    {
        self.id
    }

    /// The shape's kind.
    pub fn kind(&self) -> (kind: ShapeType)
        ensures
            kind == self.spec_shape_type(),
    {
        self.shape_type
    }

    /// The shape's material.
    pub fn material(&self) -> (m: &Material)
        ensures
            *m == self.spec_material(),
    {
        &self.material
    }

    /// Gives the shape another material.
    pub fn set_material(&mut self, material: Material)
        ensures
            final(self).spec_material() == material,
            final(self).spec_id() == old(self).spec_id(),
            final(self).spec_shape_type() == old(self).spec_shape_type(),
            final(self).spec_transform() == old(self).spec_transform(),
            final(self).spec_inverse() == old(self).spec_inverse(),
    {
        self.material = material;
    }

    /// The shape's transform.
    pub fn transform(&self) -> (m: &Matrix)
        ensures
            *m == self.spec_transform(),
    {
        &self.transform
    }

    /// The inverse of the shape's transform.
    pub fn inverse(&self) -> (m: &Matrix)
        ensures
            *m == self.spec_inverse(),
    {
        &self.inverse
    }

    /// Gives the shape another transform, which has to have an inverse, and
    /// has the shape keep the inverse that `f` computes of it.
    pub fn set_transform<A: Arithmetic>(&mut self, transformation: Matrix, f: &A)
        requires
            f.ready(),
            transformation@.is_4x4(),
            spec_invertible(transformation@, f),
        ensures
            final(self).spec_id() == old(self).spec_id(),
            final(self).spec_shape_type() == old(self).spec_shape_type(),
            final(self).spec_material() == old(self).spec_material(),
            final(self).spec_transform() == transformation,
            final(self).keeps_inverse(f),
    {
        self.inverse = inverse(&transformation, f);
        self.transform = transformation;
    }

    /// Gives the shape a transform together with the inverse to keep of it.
    /// The inverse is kept as it is given: nothing is computed, and nothing
    /// says that the two belong together.
    pub(crate) fn place(&mut self, transformation: Matrix, inverse: Matrix)
        ensures
            final(self).spec_id() == old(self).spec_id(),
            final(self).spec_shape_type() == old(self).spec_shape_type(),
            final(self).spec_material() == old(self).spec_material(),
            final(self).spec_transform() == transformation,
            final(self).spec_inverse() == inverse,
    {
        self.transform = transformation;
        self.inverse = inverse;
    }

    /// Where `ray` meets the shape.
    ///
    /// The ray is taken into the shape's own space by applying the inverse
    /// that the shape keeps of its transform to it, and what it meets there
    /// is up to the kind of shape.
    pub fn intersect<'a, A: Arithmetic>(&'a self, ray: &Ray, f: &A) -> (xs: Vec<Intersection<'a>>)
        requires
            f.ready(),
            self.wf(),
        ensures
            xs@ == self.spec_intersect(*ray, f),
    {
        let local = transform(ray, &self.inverse, f);
        match self.shape_type {
            ShapeType::Sphere => Sphere::local_intersect(self, &local, f),
            ShapeType::Plane => Plane::local_intersect(self, &local, f),
        }
    }

    /// The normal of the shape at the point `point` of its surface, in the
    /// world's space.
    ///
    /// The point is taken into the shape's own space by applying the inverse
    /// that the shape keeps of its transform to it. The normal there, which is
    /// up to the kind of shape, is taken back by applying the transpose of
    /// that inverse;
    /// its `w` is then set to 0, and it is normalised.
    pub fn normal_at<A: Arithmetic>(&self, point: &Tuple, f: &A) -> (n: Tuple)
        requires
            f.ready(),
            self.wf(),
        ensures
            n == self.spec_normal_at(*point, f),
    {
        let object_point = self.inverse.apply(point, f);
        let local_normal = match self.shape_type {
            ShapeType::Sphere => Sphere::local_normal(self, &object_point, f),
            ShapeType::Plane => Plane::local_normal(self, &object_point),
        };
        let back = self.inverse.transpose();
        let mut world_normal = back.apply(&local_normal, f);
        world_normal.w = Scalar::zero();
        normalise(&world_normal, f)
    }
}

impl PartialEq for Shape {
    /// Whether the two are the same shape.
    fn eq(&self, other: &Shape) -> (r: bool) {
        self.id == other.id
    }
}

impl vstd::std_specs::cmp::PartialEqSpecImpl for Shape {
    open spec fn obeys_eq_spec() -> bool {
        true
    }

    open spec fn eq_spec(&self, other: &Shape) -> bool {
        self.spec_id() == other.spec_id()
    }
}

/// Two shapes made from one source of ids, one after the other, are
/// different shapes, and the later one has the larger id.
pub proof fn lemma_ids_increase(before: ShapeIds, between: ShapeIds, first: Shape, second: Shape)
    requires
        first.spec_id() == before.issued() + 1,
        between.issued() >= first.spec_id(),
        second.spec_id() == between.issued() + 1,
    ensures
        first.spec_id() < second.spec_id(),
        !first.eq_spec(&second),
{
}

} // verus!
