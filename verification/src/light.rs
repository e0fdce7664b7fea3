//! The light of a scene, and the colour that a lit surface shows.
use crate::arithmetic::Arithmetic;
use crate::color::Color;
use crate::materials::Material;
use crate::scalar::Scalar;
use crate::shape::Shape;
use crate::tuple::{direction, dot, reflect, spec_direction, spec_dot, spec_reflect, Tuple};
use core::ops::Neg;
use vstd::prelude::*;

verus! {

/// A light without size: where it is and how bright it is in each colour.
#[derive(Clone, Copy, Debug)]
pub struct PointLight {
    pub position: Tuple,
    pub intensity: Color,
}

impl PointLight {
    /// The light at `position` with the given intensity.
    pub fn new(position: Tuple, intensity: Color) -> (l: PointLight)
        ensures
            l == (PointLight { position, intensity }),
    {
        PointLight { position, intensity }
    }
}

/// The colour of a surface in the light: its own colour at the point, times
/// the light's intensity, component by component.
pub open spec fn spec_effective<A: Arithmetic>(
    material: &Material,
    object: &Shape,
    light: &PointLight,
    point: Tuple,
    f: &A,
) -> Color {
    material.spec_color_at(object, point, f).spec_mul(light.intensity, f)
}

/// The ambient part of the light that a surface gives back: its colour in the
/// light, times the material's ambient share.
pub open spec fn spec_ambient<A: Arithmetic>(
    material: &Material,
    object: &Shape,
    light: &PointLight,
    point: Tuple,
    f: &A,
) -> Color {
    spec_effective(material, object, light, point, f).spec_scale(material.ambient, f)
}

/// The diffuse part of the light that a surface gives back: black where the
/// surface faces away from the light, that is where `facing`, the dot product
/// of the way to the light and the normal, is negative; and else the
/// surface's colour in the light, `effective`, times the material's diffuse
/// share, times `facing`.
pub open spec fn spec_diffuse<A: Arithmetic>(
    material: &Material,
    effective: Color,
    facing: Scalar,
    f: &A,
) -> Color {
    if facing.negative() {
        Color::spec_black()
    } else {
        effective.spec_scale(material.diffuse, f).spec_scale(facing, f)
    }
}

/// The specular part of the light that a surface gives back: black where the
/// surface faces away from the light, and black where the light's reflection
/// does not point towards the eye, that is where the dot product of the
/// reflection and the eye vector is not positive; and else the light's
/// intensity, times the material's specular share, times that dot product
/// raised to the power of the material's shininess. The reflection is that of
/// the way from the light, the opposite of `to_light`, about the normal.
pub open spec fn spec_specular<A: Arithmetic>(
    material: &Material,
    light: &PointLight,
    to_light: Tuple,
    eye: Tuple,
    normal: Tuple,
    facing: Scalar,
    f: &A,
) -> Color {
    let glint = spec_dot(spec_reflect(to_light.negated(), normal, f), eye, f);
    if facing.negative() || !glint.positive() {
        Color::spec_black()
    } else {
        light.intensity.spec_scale(material.specular, f).spec_scale(
            f.power(glint, material.shininess),
            f,
        )
    }
}

/// The colour of the point `point` on the surface of `object` in the light.
///
/// A point in shadow shows the ambient part alone. Any other point shows the
/// sum of the ambient, the diffuse and the specular part, added in that
/// order.
pub open spec fn spec_lighting<A: Arithmetic>(
    material: &Material,
    object: &Shape,
    light: &PointLight,
    point: Tuple,
    eye: Tuple,
    normal: Tuple,
    in_shadow: bool,
    f: &A,
) -> Color {
    let ambient = spec_ambient(material, object, light, point, f);
    if in_shadow {
        ambient
    } else {
        let effective = spec_effective(material, object, light, point, f);
        let to_light = spec_direction(light.position, point, f);
        let facing = spec_dot(to_light, normal, f);
        ambient.spec_add(spec_diffuse(material, effective, facing, f), f).spec_add(
            spec_specular(material, light, to_light, eye, normal, facing, f),
            f,
        )
    }
}

/// The colour of the point `point` on the surface of `object` in the light.
///
/// `material` is the material of the surface, and `eye` and `normal` are the
/// eye vector and the normal at the point.
pub fn lighting<A: Arithmetic>(
    material: &Material,
    object: &Shape,
    light: &PointLight,
    point: &Tuple,
    eye: &Tuple,
    normal: &Tuple,
    in_shadow: bool,
    f: &A,
) -> (c: Color)
    requires
        f.ready(),
        material.wf(),
        object.wf(),
    ensures
        c == spec_lighting(material, object, light, *point, *eye, *normal, in_shadow, f),
{
    let base = material.color_at(object, point, f);
    let effective = base.mul(&light.intensity, f);
    let ambient = effective.scale(material.ambient, f);
    if in_shadow {
        return ambient;
    }
    let to_light = direction(&light.position, point, f);
    let facing = dot(&to_light, normal, f);
    let mut diffuse = Color::black();
    let mut specular = Color::black();
    if !facing.lt(&Scalar::zero()) {
        diffuse = effective.scale(material.diffuse, f).scale(facing, f);
        let reflected = reflect(&to_light.neg(), normal, f);
        let glint = dot(&reflected, eye, f);
        if glint.gt(&Scalar::zero()) {
            let factor = f.pow(glint, material.shininess);
            specular = light.intensity.scale(material.specular, f).scale(factor, f);
        }
    }
    ambient.add(&diffuse, f).add(&specular, f)
}

/// A point in shadow shows the ambient part alone, wherever the eye is and
/// whichever way the surface faces.
pub proof fn lemma_shadow_is_ambient<A: Arithmetic>(
    material: &Material,
    object: &Shape,
    light: &PointLight,
    point: Tuple,
    eye: Tuple,
    normal: Tuple,
    f: &A,
)
    ensures
        spec_lighting(material, object, light, point, eye, normal, true, f) == spec_ambient(
            material,
            object,
            light,
            point,
            f,
        ),
{
}

} // verus!
