//! Surface patterns.
use crate::arithmetic::Arithmetic;
use crate::cofactors::{inverse, spec_inverse, spec_invertible};
use crate::color::Color;
use crate::matrix::{Matrix, Table};
use crate::scalar::Scalar;
use crate::shape::Shape;
use crate::tuple::Tuple;
use vstd::prelude::*;

verus! {

/// Stripes of two colours that alternate along the pattern's x axis, each one
/// unit wide. The pattern has a transform of its own, which places it on the
/// shape that wears it, and keeps the inverse of that transform with it.
#[derive(Clone, Debug)]
pub struct Stripe {
    a: Color,
    b: Color,
    transformation: Matrix,
    inverse: Matrix,
}

impl Stripe {
    /// The first colour.
    pub closed spec fn spec_a(&self) -> Color {
        self.a
    }

    /// The second colour.
    pub closed spec fn spec_b(&self) -> Color {
        self.b
    }

    /// The pattern's transform.
    pub closed spec fn spec_transformation(&self) -> Matrix {
        self.transformation
    }

    /// The inverse that the pattern keeps of its transform.
    pub closed spec fn spec_inverse(&self) -> Matrix {
        self.inverse
    }

    /// The transform and its inverse are of size four.
    pub open spec fn wf(&self) -> bool {
        self.spec_transformation()@.is_4x4() && self.spec_inverse()@.is_4x4()
    }

    /// The inverse that the pattern keeps is the one that `f` computes of its
    /// transform.
    pub open spec fn keeps_inverse<A: Arithmetic>(&self, f: &A) -> bool {
        self.spec_inverse()@ == spec_inverse(self.spec_transformation()@, f)
    }

    /// The colour of the stripe that the point `point` of the pattern's own
    /// space lies in: its x is rounded down to a whole number, and the stripe
    /// has the first colour where what is left of that number after division
    /// by 2 equals 0, else the second.
    pub open spec fn spec_color_at_point<A: Arithmetic>(&self, point: Tuple, f: &A) -> Color {
        if f.remainder(f.floored(point.x), Scalar::spec_two()).equal(Scalar::spec_zero()) {
            self.spec_a()
        } else {
            self.spec_b()
        }
    }

    /// The colour of the pattern at the point `point` of the world, on the
    /// shape `object`: the point is taken into the shape's space by the
    /// inverse that the shape keeps of its transform and from there into the
    /// pattern's space by the inverse that the pattern keeps of its own. The
    /// colour is that of the stripe that the point lies in there.
    pub open spec fn spec_at<A: Arithmetic>(&self, object: &Shape, point: Tuple, f: &A) -> Color {
        let object_point = object.spec_inverse()@.apply(point, f);
        let pattern_point = self.spec_inverse()@.apply(object_point, f);
        self.spec_color_at_point(pattern_point, f)
    }

    /// The stripes of `a` and `b`, with the identity as their transform. The
    /// inverse that the new pattern keeps is the identity as it is written,
    /// not as an arithmetic computes it.
    pub fn new(a: Color, b: Color) -> (s: Stripe)
        ensures
            s.wf(),
            s.spec_a() == a,
            s.spec_b() == b,
            s.spec_transformation()@ == Table::identity_4x4(),
            s.spec_inverse()@ == Table::identity_4x4(),
    {
        Stripe { a, b, transformation: Matrix::identity_4x4(), inverse: Matrix::identity_4x4() }
    }

    /// The first colour.
    pub fn a(&self) -> (c: Color)
        ensures
            c == self.spec_a(),
    {
        self.a
    }

    /// The second colour.
    pub fn b(&self) -> (c: Color)
        ensures
            c == self.spec_b(),
    {
        self.b
    }

    /// The pattern's transform.
    pub fn transformation(&self) -> (m: &Matrix)
        ensures
            *m == self.spec_transformation(),
    {
        &self.transformation
    }

    /// The inverse of the pattern's transform.
    pub fn inverse(&self) -> (m: &Matrix)
        ensures
            *m == self.spec_inverse(),
    {
        &self.inverse
    }

    /// Gives the pattern another transform, which has to have an inverse, and
    /// has the pattern keep the inverse that `f` computes of it.
    pub fn set_transformation<A: Arithmetic>(&mut self, transformation: Matrix, f: &A)
        requires
            f.ready(),
            transformation@.is_4x4(),
            spec_invertible(transformation@, f),
        ensures
            final(self).wf(),
            final(self).spec_a() == old(self).spec_a(),
            final(self).spec_b() == old(self).spec_b(),
            final(self).spec_transformation() == transformation,
            final(self).keeps_inverse(f),
    {
        self.inverse = inverse(&transformation, f);
        self.transformation = transformation;
    }

    /// The colour of the stripe that the point `point` of the pattern's own
    /// space lies in. The point's x is rounded down to a whole number; where
    /// what is left of that number after division by 2 equals 0 the stripe
    /// has the first colour, else the second.
    pub fn color_at_point<A: Arithmetic>(&self, point: &Tuple, f: &A) -> (c: Color)
        requires
            f.ready(),
        ensures
            c == self.spec_color_at_point(*point, f),
    {
        if f.rem(f.floor(point.x), Scalar::two()) == Scalar::zero() {
            self.a
        } else {
            self.b
        }
    }

    /// The colour of the pattern at the point `point` of the world, on the
    /// shape `object` that wears it.
    ///
    /// The point is taken into the shape's space by the inverse of the shape's
    /// transform, and from there into the pattern's space by the inverse of
    /// the pattern's; the stripe it lies in there gives the colour.
    pub fn at<A: Arithmetic>(&self, object: &Shape, point: &Tuple, f: &A) -> (c: Color)
        requires
            f.ready(),
            self.wf(),
            object.wf(),
        ensures
            c == self.spec_at(object, *point, f),
    {
        let object_point = object.inverse().apply(point, f);
        let pattern_point = self.inverse.apply(&object_point, f);
        self.color_at_point(&pattern_point, f)
    }
}

} // verus!
