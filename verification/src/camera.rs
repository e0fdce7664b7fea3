//! The camera: how large its picture is, the ray through each of its pixels,
//! and the picture itself.
use crate::arithmetic::Arithmetic;
use crate::canvas::Canvas;
use crate::cofactors::{inverse, spec_inverse, spec_invertible};
use crate::matrix::{Matrix, Table};
use crate::rays::Ray;
use crate::scalar::Scalar;
use crate::tuple::{direction, point, spec_direction, spec_point};
use crate::world::{color_at, spec_color_at, World};
use core::ops::Neg;
use vstd::prelude::*;

verus! {

/// A camera. Its picture is `hsize` pixels wide and `vsize` pixels high and
/// spans the angle `field_of_view` along its longer side. Its transform places
/// the world before it, and it keeps the inverse of that transform with it.
/// The picture covers a rectangle of the plane one unit
/// in front of the camera: `half_width` and `half_height` are half its sides,
/// and `pixel_size` is the side of one pixel.
#[derive(Clone, Debug)]
pub struct Camera {
    hsize: u32,
    vsize: u32,
    field_of_view: Scalar,
    half_width: Scalar,
    half_height: Scalar,
    pixel_size: Scalar,
    transform: Matrix,
    inverse: Matrix,
}

/// Where the centre of pixel number `n` lies along one side of the picture,
/// `half` being half that side and `size` the side of a pixel: at `half`,
/// less n + 0.5 times `size`.
pub open spec fn spec_coordinate<A: Arithmetic>(half: Scalar, n: u32, size: Scalar, f: &A) -> Scalar {
    f.difference(half, f.product(f.sum(f.whole(n), Scalar::spec_half()), size))
}

impl Camera {
    /// The number of pixels in a row of the picture.
    pub closed spec fn spec_hsize(&self) -> u32 {
        self.hsize
    }

    /// The number of rows of the picture.
    pub closed spec fn spec_vsize(&self) -> u32 {
        self.vsize
    }

    /// The angle that the picture spans.
    pub closed spec fn spec_field_of_view(&self) -> Scalar {
        self.field_of_view
    }

    /// Half the width of the picture, one unit before the camera.
    pub closed spec fn spec_half_width(&self) -> Scalar {
        self.half_width
    }

    /// Half the height of the picture, one unit before the camera.
    pub closed spec fn spec_half_height(&self) -> Scalar {
        self.half_height
    }

    /// The side of a pixel, one unit before the camera.
    pub closed spec fn spec_pixel_size(&self) -> Scalar {
        self.pixel_size
    }

    /// The camera's transform.
    pub closed spec fn spec_transform(&self) -> Matrix {
        self.transform
    }

    /// The inverse that the camera keeps of its transform.
    pub closed spec fn spec_inverse(&self) -> Matrix {
        self.inverse
    }

    /// The transform and its inverse are of size four.
    pub open spec fn wf(&self) -> bool {
        self.spec_transform()@.is_4x4() && self.spec_inverse()@.is_4x4()
    }

    /// The inverse that the camera keeps is the one that `f` computes of its
    /// transform.
    pub open spec fn keeps_inverse<A: Arithmetic>(&self, f: &A) -> bool {
        self.spec_inverse()@ == spec_inverse(self.spec_transform()@, f)
    }

    /// The picture is at least as wide as it is high: `aspect`, its width
    /// divided by its height, is 1 or more.
    pub open spec fn landscape(aspect: Scalar) -> bool {
        Scalar::spec_one().less(aspect) || Scalar::spec_one().equal(aspect)
    }

    /// Half the width, half the height and the side of a pixel of a picture
    /// of the given size and field of view.
    ///
    /// With h the tangent of half the field of view and the aspect the
    /// picture's width divided by its height: a picture that is at least as
    /// wide as high has the half-width h and the half-height h divided by the
    /// aspect; any other has the half-width h times the aspect and the
    /// half-height h. The side of a pixel is twice the half-width, divided by
    /// the number of pixels in a row.
    pub open spec fn spec_calculate_pixel_size<A: Arithmetic>(
        hsize: u32,
        vsize: u32,
        field_of_view: Scalar,
        f: &A,
    ) -> (Scalar, Scalar, Scalar) {
        let half_view = f.tangent(f.quotient(field_of_view, Scalar::spec_two()));
        let aspect = f.quotient(f.whole(hsize), f.whole(vsize));
        let half_width = if Camera::landscape(aspect) {
            half_view
        } else {
            f.product(half_view, aspect)
        };
        let half_height = if Camera::landscape(aspect) {
            f.quotient(half_view, aspect)
        } else {
            half_view
        };
        (
            half_width,
            half_height,
            f.quotient(f.product(half_width, Scalar::spec_two()), f.whole(hsize)),
        )
    }

    /// The camera is a new one for a picture of the given size and field of
    /// view: its transform is the identity, and so is the inverse it keeps.
    pub open spec fn is_new<A: Arithmetic>(
        &self,
        hsize: u32,
        vsize: u32,
        field_of_view: Scalar,
        f: &A,
    ) -> bool {
        &&& self.spec_hsize() == hsize
        &&& self.spec_vsize() == vsize
        &&& self.spec_field_of_view() == field_of_view
        &&& self.spec_transform()@ == Table::identity_4x4()
        &&& self.spec_inverse()@ == Table::identity_4x4()
        &&& (self.spec_half_width(), self.spec_half_height(), self.spec_pixel_size())
            == Camera::spec_calculate_pixel_size(hsize, vsize, field_of_view, f)
    }

    /// The ray from the camera through the pixel in column `px` of row `py`.
    ///
    /// In the camera's own space the camera stands at the origin and the
    /// centre of the pixel lies one unit ahead, where z is −1. Both points are
    /// taken into the world by the inverse that the camera keeps of its
    /// transform; the ray
    /// starts at the first and its direction is the way to the second,
    /// normalised.
    pub open spec fn spec_ray_for_pixel<A: Arithmetic>(&self, px: u32, py: u32, f: &A) -> Ray {
        let world_x = spec_coordinate(self.spec_half_width(), px, self.spec_pixel_size(), f);
        let world_y = spec_coordinate(self.spec_half_height(), py, self.spec_pixel_size(), f);
        let inverse = self.spec_inverse()@;
        let pixel = inverse.apply(spec_point(world_x, world_y, Scalar::spec_one().negated()), f);
        let origin = inverse.apply(
            spec_point(Scalar::spec_zero(), Scalar::spec_zero(), Scalar::spec_zero()),
            f,
        );
        Ray { origin, direction: spec_direction(pixel, origin, f) }
    }

    /// Half the width, half the height and the side of a pixel of a picture
    /// of the given size and field of view.
    pub fn calculate_pixel_size<A: Arithmetic>(
        hsize: u32,
        vsize: u32,
        field_of_view: Scalar,
        f: &A,
    ) -> (sizes: (Scalar, Scalar, Scalar))
        requires
            f.ready(),
        ensures
            sizes == Camera::spec_calculate_pixel_size(hsize, vsize, field_of_view, f),
    {
        let half_view = f.tan(f.div(field_of_view, Scalar::two()));
        let aspect = f.div(f.number(hsize), f.number(vsize));
        let (half_width, half_height) = if aspect.ge(&Scalar::one()) {
            (half_view, f.div(half_view, aspect))
        } else {
            (f.mul(half_view, aspect), half_view)
        };
        let pixel_size = f.div(f.mul(half_width, Scalar::two()), f.number(hsize));
        (half_width, half_height, pixel_size)
    }

    /// A camera for a picture of `hsize` by `vsize` pixels that spans the
    /// angle `field_of_view`, with the identity as its transform. The inverse
    /// that the new camera keeps is the identity as it is written, not as an
    /// arithmetic computes it.
    pub fn new<A: Arithmetic>(hsize: u32, vsize: u32, field_of_view: Scalar, f: &A) -> (c: Camera)
        requires
            f.ready(),
        ensures
            c.wf(),
            c.is_new(hsize, vsize, field_of_view, f),
    {
        let (half_width, half_height, pixel_size) = Camera::calculate_pixel_size(
            hsize,
            vsize,
            field_of_view,
            f,
        );
        Camera {
            hsize,
            vsize,
            field_of_view,
            half_width,
            half_height,
            pixel_size,
            transform: Matrix::identity_4x4(),
            inverse: Matrix::identity_4x4(),
        }
    }

    /// The number of pixels in a row of the picture.
    pub fn hsize(&self) -> (n: u32)
        ensures
            n == self.spec_hsize(),
    {
        self.hsize
    }

    /// The number of rows of the picture.
    pub fn vsize(&self) -> (n: u32)
        ensures
            n == self.spec_vsize(),
    {
        self.vsize
    }

    /// The angle that the picture spans.
    pub fn field_of_view(&self) -> (angle: Scalar)
        ensures
            angle == self.spec_field_of_view(),
    {
        self.field_of_view
    }

    /// Half the width of the picture, one unit before the camera.
    pub fn half_width(&self) -> (half: Scalar)
        ensures
            half == self.spec_half_width(),
    {
        self.half_width
    }

    /// Half the height of the picture, one unit before the camera.
    pub fn half_height(&self) -> (half: Scalar)
        ensures
            half == self.spec_half_height(),
    {
        self.half_height
    }

    /// The side of a pixel, one unit before the camera.
    pub fn pixel_size(&self) -> (size: Scalar)
        ensures
            size == self.spec_pixel_size(),
    {
        self.pixel_size
    }

    /// The camera's transform.
    pub fn transform(&self) -> (m: &Matrix)
        ensures
            *m == self.spec_transform(),
    {
        &self.transform
    }

    /// The inverse of the camera's transform.
    pub fn inverse(&self) -> (m: &Matrix)
        ensures
            *m == self.spec_inverse(),
    {
        &self.inverse
    }

    /// Gives the camera another transform, which has to have an inverse, and
    /// has the camera keep the inverse that `f` computes of it.
    pub fn set_transform<A: Arithmetic>(&mut self, transformation: Matrix, f: &A)
        requires
            f.ready(),
            transformation@.is_4x4(),
            spec_invertible(transformation@, f),
        ensures
            final(self).spec_hsize() == old(self).spec_hsize(),
            final(self).spec_vsize() == old(self).spec_vsize(),
            final(self).spec_field_of_view() == old(self).spec_field_of_view(),
            final(self).spec_half_width() == old(self).spec_half_width(),
            final(self).spec_half_height() == old(self).spec_half_height(),
            final(self).spec_pixel_size() == old(self).spec_pixel_size(),
            final(self).spec_transform() == transformation,
            final(self).keeps_inverse(f),
    {
        self.inverse = inverse(&transformation, f);
        self.transform = transformation;
    }
}

/// Where the centre of pixel number `n` lies along one side of the picture.
fn coordinate<A: Arithmetic>(half: Scalar, n: u32, size: Scalar, f: &A) -> (r: Scalar)
    requires
        f.ready(),
    ensures
        r == spec_coordinate(half, n, size, f),
{
    f.sub(half, f.mul(f.add(f.number(n), Scalar::half()), size))
}

/// The ray from the camera through the pixel in column `px` of row `py`,
/// counted from the top left.
pub fn ray_for_pixel<A: Arithmetic>(camera: &Camera, px: u32, py: u32, f: &A) -> (r: Ray)
    requires
        f.ready(),
        camera.wf(),
    ensures
        r == camera.spec_ray_for_pixel(px, py, f),
{
    let world_x = coordinate(camera.half_width, px, camera.pixel_size, f);
    let world_y = coordinate(camera.half_height, py, camera.pixel_size, f);
    let pixel = camera.inverse.apply(&point(world_x, world_y, Scalar::one().neg()), f);
    let origin = camera.inverse.apply(&point(Scalar::zero(), Scalar::zero(), Scalar::zero()), f);
    Ray { origin, direction: direction(&pixel, &origin, f) }
}

/// The camera's picture of the world: a canvas of the camera's size in which
/// each pixel has the colour that the ray through it sees. The pixels are
/// taken row by row from the top, each row from the left.
pub fn render<A: Arithmetic>(camera: &Camera, world: &World, f: &A) -> (image: Canvas)
    requires
        f.ready(),
        camera.wf(),
        world.wf(),
        camera.spec_hsize() * camera.spec_vsize() <= usize::MAX,
    ensures
        image.wf(),
        image.spec_width() == camera.spec_hsize(),
        image.spec_height() == camera.spec_vsize(),
        forall|x: u32, y: u32|
            x < camera.spec_hsize() && y < camera.spec_vsize() ==> #[trigger] image.pixel(
                x as int,
                y as int,
            ) == spec_color_at(world, camera.spec_ray_for_pixel(x, y, f), f),
{
    let hsize: u32 = camera.hsize;
    let vsize: u32 = camera.vsize;
    let mut image = Canvas::new(hsize as usize, vsize as usize);
    let mut y: u32 = 0;
    while y < vsize
        invariant
            f.ready(),
            camera.wf(),
            world.wf(),
            y <= vsize,
            hsize == camera.spec_hsize(),
            vsize == camera.spec_vsize(),
            image.wf(),
            image.spec_width() == hsize,
            image.spec_height() == vsize,
            forall|i: u32, j: u32|
                i < hsize && j < y ==> #[trigger] image.pixel(i as int, j as int) == spec_color_at(
                    world,
                    camera.spec_ray_for_pixel(i, j, f),
                    f,
                ),
        decreases vsize - y,
    {
        let mut x: u32 = 0;
        while x < hsize
            invariant
                f.ready(),
                camera.wf(),
                world.wf(),
                y < vsize,
                x <= hsize,
                hsize == camera.spec_hsize(),
                vsize == camera.spec_vsize(),
                image.wf(),
                image.spec_width() == hsize,
                image.spec_height() == vsize,
                forall|i: u32, j: u32|
                    i < hsize && (j < y || (j == y && i < x)) ==> #[trigger] image.pixel(
                        i as int,
                        j as int,
                    ) == spec_color_at(world, camera.spec_ray_for_pixel(i, j, f), f),
            decreases hsize - x,
        {
            let r = ray_for_pixel(camera, x, y, f);
            let color = color_at(world, &r, f);
            let ghost before = image;
            image.write_pixel(x as usize, y as usize, color);
            proof {
                assert forall|i: u32, j: u32|
                    i < hsize && (j < y || (j == y && i < x + 1)) implies #[trigger] image.pixel(
                    i as int,
                    j as int,
                ) == spec_color_at(world, camera.spec_ray_for_pixel(i, j, f), f) by {
                    if i == x && j == y {
                    } else {
                        assert(image.pixel(i as int, j as int) == before.pixel(i as int, j as int));
                    }
                }
            }
            x += 1;
        }
        y += 1;
    }
    image
}

} // verus!
