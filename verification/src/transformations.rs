//! The matrices that move, stretch, turn and slant, and the transform of a
//! view.
//!
//! A transform is applied to a point by multiplying the matrix with the point,
//! so in a product of transforms the rightmost is applied first.
use crate::arithmetic::Arithmetic;
use crate::matrix::{Matrix, Table};
use crate::scalar::Scalar;
use crate::tuple::{cross, direction, normalise, spec_cross, spec_direction, spec_normalise, Tuple};
use core::ops::Neg;
use vstd::prelude::*;

verus! {

/// The table of four rows and four columns with the given entries, row after
/// row.
pub open spec fn four_by_four(values: Seq<Scalar>) -> Table {
    Table { width: 4, height: 4, values }
}

/// The translation by (`x`, `y`, `z`).
pub open spec fn spec_translation(x: Scalar, y: Scalar, z: Scalar) -> Table {
    let o = Scalar::spec_zero();
    let i = Scalar::spec_one();
    four_by_four(seq![i, o, o, x, o, i, o, y, o, o, i, z, o, o, o, i])
}

/// The scaling by (`x`, `y`, `z`).
pub open spec fn spec_scaling(x: Scalar, y: Scalar, z: Scalar) -> Table {
    let o = Scalar::spec_zero();
    let i = Scalar::spec_one();
    four_by_four(seq![x, o, o, o, o, y, o, o, o, o, z, o, o, o, o, i])
}

/// The rotation about the x axis by the angle `r`.
pub open spec fn spec_rotation_x<A: Arithmetic>(r: Scalar, f: &A) -> Table {
    let c = f.cosine(r);
    let s = f.sine(r);
    let o = Scalar::spec_zero();
    let i = Scalar::spec_one();
    four_by_four(seq![i, o, o, o, o, c, s.negated(), o, o, s, c, o, o, o, o, i])
}

/// The rotation about the y axis by the angle `r`.
pub open spec fn spec_rotation_y<A: Arithmetic>(r: Scalar, f: &A) -> Table {
    let c = f.cosine(r);
    let s = f.sine(r);
    let o = Scalar::spec_zero();
    let i = Scalar::spec_one();
    four_by_four(seq![c, o, s, o, o, i, o, o, s.negated(), o, c, o, o, o, o, i])
}

/// The rotation about the z axis by the angle `r`.
pub open spec fn spec_rotation_z<A: Arithmetic>(r: Scalar, f: &A) -> Table {
    let c = f.cosine(r);
    let s = f.sine(r);
    let o = Scalar::spec_zero();
    let i = Scalar::spec_one();
    four_by_four(seq![c, s.negated(), o, o, s, c, o, o, o, o, i, o, o, o, o, i])
}

/// The shearing in which `xy` moves x in proportion to y, `xz` x in
/// proportion to z, and so on.
pub open spec fn spec_shearing(
    xy: Scalar,
    xz: Scalar,
    yx: Scalar,
    yz: Scalar,
    zx: Scalar,
    zy: Scalar,
) -> Table {
    let o = Scalar::spec_zero();
    let i = Scalar::spec_one();
    four_by_four(seq![i, xy, xz, o, yx, i, yz, o, zx, zy, i, o, o, o, o, i])
}

/// The orientation of a view whose left, upward and forward directions are
/// given: its rows are `left`, `true_up` and the opposite of `forward`.
pub open spec fn spec_orientation(left: Tuple, true_up: Tuple, forward: Tuple) -> Table {
    let o = Scalar::spec_zero();
    let i = Scalar::spec_one();
    four_by_four(
        seq![
            left.x,
            left.y,
            left.z,
            o,
            true_up.x,
            true_up.y,
            true_up.z,
            o,
            forward.x.negated(),
            forward.y.negated(),
            forward.z.negated(),
            o,
            o,
            o,
            o,
            i,
        ],
    )
}

/// The transform that shows the world as seen from `from`, looking at `to`,
/// with `up` upward.
///
/// With forward the normalised way from `from` to `to`, left the cross
/// product of forward and `up` normalised, and true_up the cross product of
/// left and forward, it is the product of the orientation with the rows left,
/// true_up and the opposite of forward, and the translation by the opposite
/// of `from`.
pub open spec fn spec_view_transform<A: Arithmetic>(from: Tuple, to: Tuple, up: Tuple, f: &A) -> Table {
    let forward = spec_direction(to, from, f);
    let left = spec_cross(forward, spec_normalise(up, f), f);
    let true_up = spec_cross(left, forward, f);
    spec_orientation(left, true_up, forward).mul(
        spec_translation(from.x.negated(), from.y.negated(), from.z.negated()),
        f,
    )
}

/// The transform that moves a point by (`x`, `y`, `z`). It leaves vectors as
/// they are.
pub fn translation(x: Scalar, y: Scalar, z: Scalar) -> (m: Matrix)
    ensures
        m@ == spec_translation(x, y, z),
{
    let o = Scalar::zero();
    let i = Scalar::one();
    Matrix::new(4, 4, vec![i, o, o, x, o, i, o, y, o, o, i, z, o, o, o, i])
}

/// The transform that multiplies the coordinates by `x`, `y` and `z`.
pub fn scaling(x: Scalar, y: Scalar, z: Scalar) -> (m: Matrix)
    ensures
        m@ == spec_scaling(x, y, z),
{
    let o = Scalar::zero();
    let i = Scalar::one();
    Matrix::new(4, 4, vec![x, o, o, o, o, y, o, o, o, o, z, o, o, o, o, i])
}

/// The right-handed rotation about the x axis by the angle `r`, in radians.
pub fn rotation_x<A: Arithmetic>(r: Scalar, f: &A) -> (m: Matrix)
    requires
        f.ready(),
    ensures
        m@ == spec_rotation_x(r, f),
{
    let cos = f.cos(r);
    let sin = f.sin(r);
    let o = Scalar::zero();
    let i = Scalar::one();
    let n = sin.neg();
    Matrix::new(4, 4, vec![i, o, o, o, o, cos, n, o, o, sin, cos, o, o, o, o, i])
}

/// The right-handed rotation about the y axis by the angle `r`, in radians.
pub fn rotation_y<A: Arithmetic>(r: Scalar, f: &A) -> (m: Matrix)
    requires
        f.ready(),
    ensures
        m@ == spec_rotation_y(r, f),
{
    let cos = f.cos(r);
    let sin = f.sin(r);
    let o = Scalar::zero();
    let i = Scalar::one();
    let n = sin.neg();
    Matrix::new(4, 4, vec![cos, o, sin, o, o, i, o, o, n, o, cos, o, o, o, o, i])
}

/// The right-handed rotation about the z axis by the angle `r`, in radians.
pub fn rotation_z<A: Arithmetic>(r: Scalar, f: &A) -> (m: Matrix)
    requires
        f.ready(),
    ensures
        m@ == spec_rotation_z(r, f),
{
    let cos = f.cos(r);
    let sin = f.sin(r);
    let o = Scalar::zero();
    let i = Scalar::one();
    let n = sin.neg();
    Matrix::new(4, 4, vec![cos, n, o, o, sin, cos, o, o, o, o, i, o, o, o, o, i])
}

/// The transform that moves each coordinate in proportion to the other two.
pub fn shearing(xy: Scalar, xz: Scalar, yx: Scalar, yz: Scalar, zx: Scalar, zy: Scalar) -> (m:
    Matrix)
    ensures
        m@ == spec_shearing(xy, xz, yx, yz, zx, zy),
{
    let o = Scalar::zero();
    let i = Scalar::one();
    Matrix::new(4, 4, vec![i, xy, xz, o, yx, i, yz, o, zx, zy, i, o, o, o, o, i])
}

/// The transform that shows the world as seen from `from`, looking at `to`,
/// with `up` upward.
pub fn view_transform<A: Arithmetic>(from: &Tuple, to: &Tuple, up: &Tuple, f: &A) -> (m: Matrix)
    requires
        f.ready(),
    ensures
        m@ == spec_view_transform(*from, *to, *up, f),
{
    let forward = direction(to, from, f);
    let upn = normalise(up, f);
    let left = cross(&forward, &upn, f);
    let true_up = cross(&left, &forward, f);
    let o = Scalar::zero();
    let i = Scalar::one();
    let orientation = Matrix::new(
        4,
        4,
        vec![
            left.x,
            left.y,
            left.z,
            o,
            true_up.x,
            true_up.y,
            true_up.z,
            o,
            forward.x.neg(),
            forward.y.neg(),
            forward.z.neg(),
            o,
            o,
            o,
            o,
            i,
        ],
    );
    let shift = translation(from.x.neg(), from.y.neg(), from.z.neg());
    orientation.mul(&shift, f)
}

} // verus!
