//! Points and vectors in homogeneous coordinates, and their algebra.
use crate::arithmetic::{product_difference, spec_near, spec_product_difference, near, Arithmetic};
use crate::scalar::Scalar;
use core::ops::Neg;
use vstd::prelude::*;

verus! {

/// Four coordinates. With `w` equal to 1 the tuple is a point, with `w` equal
/// to 0 a vector.
#[derive(Clone, Copy, Debug)]
pub struct Tuple {
    pub x: Scalar,
    pub y: Scalar,
    pub z: Scalar,
    pub w: Scalar,
}

/// The point with the given coordinates.
pub open spec fn spec_point(x: Scalar, y: Scalar, z: Scalar) -> Tuple {
    Tuple { x, y, z, w: Scalar::spec_one() }
}

/// The vector with the given coordinates.
pub open spec fn spec_vector(x: Scalar, y: Scalar, z: Scalar) -> Tuple {
    Tuple { x, y, z, w: Scalar::spec_zero() }
}

/// The dot product of `a` and `b`: the products of their coordinates, pair by
/// pair, added from x to w.
pub open spec fn spec_dot<A: Arithmetic>(a: Tuple, b: Tuple, f: &A) -> Scalar {
    let xy = f.sum(f.product(a.x, b.x), f.product(a.y, b.y));
    let xyz = f.sum(xy, f.product(a.z, b.z));
    f.sum(xyz, f.product(a.w, b.w))
}

/// The cross product of the vectors `a` and `b`: a vector, whatever the `w`
/// of the two.
pub open spec fn spec_cross<A: Arithmetic>(a: Tuple, b: Tuple, f: &A) -> Tuple {
    spec_vector(
        spec_product_difference(f, a.y, b.z, a.z, b.y),
        spec_product_difference(f, a.z, b.x, a.x, b.z),
        spec_product_difference(f, a.x, b.y, a.y, b.x),
    )
}

/// The magnitude of `a`: the root of the sum of the squares of x, y and z.
/// The `w` does not count.
pub open spec fn spec_magnitude<A: Arithmetic>(a: Tuple, f: &A) -> Scalar {
    let xy = f.sum(f.product(a.x, a.x), f.product(a.y, a.y));
    f.root(f.sum(xy, f.product(a.z, a.z)))
}

/// `a` divided by its magnitude, `w` included.
pub open spec fn spec_normalise<A: Arithmetic>(a: Tuple, f: &A) -> Tuple {
    a.spec_div(spec_magnitude(a, f), f)
}

/// The reflection of `v` about `normal`: `v`, less `normal` times 2 times the
/// dot product of `v` and `normal`.
pub open spec fn spec_reflect<A: Arithmetic>(v: Tuple, normal: Tuple, f: &A) -> Tuple {
    v.spec_sub(normal.spec_mul(Scalar::spec_two(), f).spec_mul(spec_dot(v, normal, f), f), f)
}

/// The way from the point `from` to the point `to`, normalised.
pub open spec fn spec_direction<A: Arithmetic>(to: Tuple, from: Tuple, f: &A) -> Tuple {
    spec_normalise(to.spec_sub(from, f), f)
}

/// How far the points `to` and `from` are apart: the magnitude of the way
/// from the one to the other.
pub open spec fn spec_distance<A: Arithmetic>(to: Tuple, from: Tuple, f: &A) -> Scalar {
    spec_magnitude(to.spec_sub(from, f), f)
}

/// The point that lies `t` times the vector `along` further than `from`.
pub open spec fn spec_advance<A: Arithmetic>(from: Tuple, along: Tuple, t: Scalar, f: &A) -> Tuple {
    from.spec_add(along.spec_mul(t, f), f)
}

impl Tuple {
    /// The tuple with every coordinate's sign changed.
    pub open spec fn negated(self) -> Tuple {
        Tuple {
            x: self.x.negated(),
            y: self.y.negated(),
            z: self.z.negated(),
            w: self.w.negated(),
        }
    }

    /// The sum of two tuples, coordinate by coordinate.
    pub open spec fn spec_add<A: Arithmetic>(self, rhs: Tuple, f: &A) -> Tuple {
        Tuple {
            x: f.sum(self.x, rhs.x),
            y: f.sum(self.y, rhs.y),
            z: f.sum(self.z, rhs.z),
            w: f.sum(self.w, rhs.w),
        }
    }

    /// The tuple less `rhs`, coordinate by coordinate.
    pub open spec fn spec_sub<A: Arithmetic>(self, rhs: Tuple, f: &A) -> Tuple {
        Tuple {
            x: f.difference(self.x, rhs.x),
            y: f.difference(self.y, rhs.y),
            z: f.difference(self.z, rhs.z),
            w: f.difference(self.w, rhs.w),
        }
    }

    /// The tuple with each coordinate multiplied by `k`.
    pub open spec fn spec_mul<A: Arithmetic>(self, k: Scalar, f: &A) -> Tuple {
        Tuple {
            x: f.product(self.x, k),
            y: f.product(self.y, k),
            z: f.product(self.z, k),
            w: f.product(self.w, k),
        }
    }

    /// The tuple with each coordinate divided by `k`.
    pub open spec fn spec_div<A: Arithmetic>(self, k: Scalar, f: &A) -> Tuple {
        Tuple {
            x: f.quotient(self.x, k),
            y: f.quotient(self.y, k),
            z: f.quotient(self.z, k),
            w: f.quotient(self.w, k),
        }
    }

    /// Whether two tuples are equal: whether each coordinate of the one lies
    /// within 0.00001 of that of the other.
    pub open spec fn spec_eq<A: Arithmetic>(self, other: Tuple, f: &A) -> bool {
        let t = Scalar::spec_tolerance();
        &&& spec_near(f, self.x, other.x, t)
        &&& spec_near(f, self.y, other.y, t)
        &&& spec_near(f, self.z, other.z, t)
        &&& spec_near(f, self.w, other.w, t)
    }

    /// Whether the tuple is a point: its `w` is 1.
    pub fn is_point(&self) -> (r: bool)
        ensures
            r == (self.w == Scalar::spec_one()),
    {
        self.w.bits == Scalar::one().bits
    }

    /// Whether the tuple is a vector: its `w` is 0, of either sign.
    pub fn is_vector(&self) -> (r: bool)
        ensures
            r == (self.w.magnitude() == 0),
    {
        self.w.abs().bits == 0
    }

    /// The sum of two tuples, coordinate by coordinate, `w` included.
    pub fn add<A: Arithmetic>(&self, rhs: &Tuple, f: &A) -> (r: Tuple)
        requires
            f.ready(),
        ensures
            r == self.spec_add(*rhs, f),
    {
        Tuple {
            x: f.add(self.x, rhs.x),
            y: f.add(self.y, rhs.y),
            z: f.add(self.z, rhs.z),
            w: f.add(self.w, rhs.w),
        }
    }

    /// The difference of two tuples, coordinate by coordinate, `w` included.
    pub fn sub<A: Arithmetic>(&self, rhs: &Tuple, f: &A) -> (r: Tuple)
        requires
            f.ready(),
        ensures
            r == self.spec_sub(*rhs, f),
    {
        Tuple {
            x: f.sub(self.x, rhs.x),
            y: f.sub(self.y, rhs.y),
            z: f.sub(self.z, rhs.z),
            w: f.sub(self.w, rhs.w),
        }
    }

    /// The tuple with every coordinate multiplied by `k`, `w` included.
    pub fn mul<A: Arithmetic>(&self, k: Scalar, f: &A) -> (r: Tuple)
        requires
            f.ready(),
        ensures
            r == self.spec_mul(k, f),
    {
        Tuple {
            x: f.mul(self.x, k),
            y: f.mul(self.y, k),
            z: f.mul(self.z, k),
            w: f.mul(self.w, k),
        }
    }

    /// The tuple with every coordinate divided by `k`, `w` included.
    pub fn div<A: Arithmetic>(&self, k: Scalar, f: &A) -> (r: Tuple)
        requires
            f.ready(),
        ensures
            r == self.spec_div(k, f),
    {
        Tuple {
            x: f.div(self.x, k),
            y: f.div(self.y, k),
            z: f.div(self.z, k),
            w: f.div(self.w, k),
        }
    }

    /// Whether two tuples are equal: every coordinate of the one, `w`
    /// included, lies within 0.00001 of that of the other.
    pub fn eq<A: Arithmetic>(&self, other: &Tuple, f: &A) -> (same: bool)
        requires
            f.ready(),
        ensures
            same == self.spec_eq(*other, f),
    {
        let t = Scalar::tolerance();
        if !near(f, self.x, other.x, t) {
            return false;
        }
        if !near(f, self.y, other.y, t) {
            return false;
        }
        if !near(f, self.z, other.z, t) {
            return false;
        }
        if !near(f, self.w, other.w, t) {
            return false;
        }
        true
    }
}

impl Neg for Tuple {
    type Output = Tuple;

    /// The tuple with every coordinate's sign changed, `w` included.
    fn neg(self) -> (r: Tuple) {
        Tuple { x: self.x.neg(), y: self.y.neg(), z: self.z.neg(), w: self.w.neg() }
    }
}

impl vstd::std_specs::ops::NegSpecImpl for Tuple {
    open spec fn obeys_neg_spec() -> bool {
        true
    }

    open spec fn neg_req(self) -> bool {
        true
    }

    open spec fn neg_spec(self) -> Tuple {
        self.negated()
    }
}

/// The point with the given coordinates.
pub fn point(x: Scalar, y: Scalar, z: Scalar) -> (p: Tuple)
    ensures
        p == spec_point(x, y, z),
{
    Tuple { x, y, z, w: Scalar::one() }
}

/// The vector with the given coordinates.
pub fn vector(x: Scalar, y: Scalar, z: Scalar) -> (v: Tuple)
    ensures
        v == spec_vector(x, y, z),
{
    Tuple { x, y, z, w: Scalar::zero() }
}

/// The magnitude of a vector: the root of x² + y² + z².
pub fn magnitude<A: Arithmetic>(tuple: &Tuple, f: &A) -> (r: Scalar)
    requires
        f.ready(),
    ensures
        r == spec_magnitude(*tuple, f),
{
    let xx = f.mul(tuple.x, tuple.x);
    let yy = f.mul(tuple.y, tuple.y);
    let zz = f.mul(tuple.z, tuple.z);
    let xy = f.add(xx, yy);
    let xyz = f.add(xy, zz);
    f.sqrt(xyz)
}

/// The tuple divided by its magnitude. Of a tuple of magnitude 0 nothing
/// useful comes out.
pub fn normalise<A: Arithmetic>(tuple: &Tuple, f: &A) -> (r: Tuple)
    requires
        f.ready(),
    ensures
        r == spec_normalise(*tuple, f),
{
    let m = magnitude(tuple, f);
    tuple.div(m, f)
}

/// The dot product of two tuples, all four coordinates counted.
pub fn dot<A: Arithmetic>(a: &Tuple, b: &Tuple, f: &A) -> (r: Scalar)
    requires
        f.ready(),
    ensures
        r == spec_dot(*a, *b, f),
{
    let xx = f.mul(a.x, b.x);
    let yy = f.mul(a.y, b.y);
    let zz = f.mul(a.z, b.z);
    let ww = f.mul(a.w, b.w);
    let xy = f.add(xx, yy);
    let xyz = f.add(xy, zz);
    f.add(xyz, ww)
}

/// The cross product of two vectors. The `w` of the two is not looked at, and
/// the result is a vector.
pub fn cross<A: Arithmetic>(a: &Tuple, b: &Tuple, f: &A) -> (r: Tuple)
    requires
        f.ready(),
    ensures
        r == spec_cross(*a, *b, f),
{
    vector(
        product_difference(f, a.y, b.z, a.z, b.y),
        product_difference(f, a.z, b.x, a.x, b.z),
        product_difference(f, a.x, b.y, a.y, b.x),
    )
}

/// The reflection of the vector `v` about the normal `normal`.
pub fn reflect<A: Arithmetic>(v: &Tuple, normal: &Tuple, f: &A) -> (r: Tuple)
    requires
        f.ready(),
    ensures
        r == spec_reflect(*v, *normal, f),
{
    let twice = normal.mul(Scalar::two(), f);
    let d = dot(v, normal, f);
    let back = twice.mul(d, f);
    v.sub(&back, f)
}

/// The way from the point `from` to the point `to`, normalised.
pub fn direction<A: Arithmetic>(to: &Tuple, from: &Tuple, f: &A) -> (r: Tuple)
    requires
        f.ready(),
    ensures
        r == spec_direction(*to, *from, f),
{
    let way = to.sub(from, f);
    normalise(&way, f)
}

/// How far the points `to` and `from` are apart.
pub fn distance<A: Arithmetic>(to: &Tuple, from: &Tuple, f: &A) -> (r: Scalar)
    requires
        f.ready(),
    ensures
        r == spec_distance(*to, *from, f),
{
    let way = to.sub(from, f);
    magnitude(&way, f)
}

/// The point that lies `t` times the vector `along` further than `from`.
pub fn advance<A: Arithmetic>(from: &Tuple, along: &Tuple, t: Scalar, f: &A) -> (r: Tuple)
    requires
        f.ready(),
    ensures
        r == spec_advance(*from, *along, t, f),
{
    let step = along.mul(t, f);
    from.add(&step, f)
}

/// Negating a tuple twice gives it back.
pub proof fn lemma_neg_involution(t: Tuple)
    ensures
        t.negated().negated() == t,
{
}

} // verus!
