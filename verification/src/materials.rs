//! What a surface looks like.
use crate::arithmetic::Arithmetic;
use crate::color::Color;
use crate::patterns::Stripe;
use crate::scalar::Scalar;
use crate::shape::Shape;
use crate::tuple::Tuple;
use vstd::prelude::*;

verus! {

/// The encoding of 0.1, the ambient share of the default material.
pub const DEFAULT_AMBIENT_BITS: u64 = 0x3FB9_9999_9999_999A;

/// The encoding of 0.9, the diffuse share of the default material.
pub const DEFAULT_DIFFUSE_BITS: u64 = 0x3FEC_CCCC_CCCC_CCCD;

/// The encoding of 0.9, the specular share of the default material.
pub const DEFAULT_SPECULAR_BITS: u64 = 0x3FEC_CCCC_CCCC_CCCD;

/// The encoding of 200, the shininess of the default material.
pub const DEFAULT_SHININESS_BITS: u64 = 0x4069_0000_0000_0000;

/// A surface: its colour, how much of the ambient, diffuse and specular light
/// it gives back, how tight its highlight is, and the pattern it wears, if
/// any, in place of its colour.
#[derive(Clone, Debug)]
pub struct Material {
    pub color: Color,
    pub ambient: Scalar,
    pub diffuse: Scalar,
    pub specular: Scalar,
    pub shininess: Scalar,
    pub pattern: Option<Stripe>,
}

impl Material {
    /// The default material, for contracts.
    pub open spec fn spec_default() -> Material {
        Material {
            color: Color {
                red: Scalar::spec_one(),
                green: Scalar::spec_one(),
                blue: Scalar::spec_one(),
            },
            ambient: Scalar { bits: DEFAULT_AMBIENT_BITS },
            diffuse: Scalar { bits: DEFAULT_DIFFUSE_BITS },
            specular: Scalar { bits: DEFAULT_SPECULAR_BITS },
            shininess: Scalar { bits: DEFAULT_SHININESS_BITS },
            pattern: None,
        }
    }

    /// White, ambient 0.1, diffuse 0.9, specular 0.9, shininess 200, no
    /// pattern.
    pub fn default() -> (m: Material)
        ensures
            m == Material::spec_default(),
    {
        Material {
            color: Color::white(),
            ambient: Scalar::from_bits(DEFAULT_AMBIENT_BITS),
            diffuse: Scalar::from_bits(DEFAULT_DIFFUSE_BITS),
            specular: Scalar::from_bits(DEFAULT_SPECULAR_BITS),
            shininess: Scalar::from_bits(DEFAULT_SHININESS_BITS),
            pattern: None,
        }
    }

    /// The material's pattern, if it wears one, is well formed.
    pub open spec fn wf(&self) -> bool {
        self.pattern matches Some(pattern) ==> pattern.wf()
    }

    /// The surface's own colour at `point` on the shape `object`: that of its
    /// pattern there where the material wears one, and else the material's
    /// colour.
    pub open spec fn spec_color_at<A: Arithmetic>(&self, object: &Shape, point: Tuple, f: &A) -> Color {
        match self.pattern {
            Some(pattern) => pattern.spec_at(object, point, f),
            None => self.color,
        }
    }

    /// The surface's own colour at the point `point` of the world, on the
    /// shape `object` of this material: that of the pattern there where the
    /// material wears one, and else the material's colour.
    pub fn color_at<A: Arithmetic>(
        &self,
        object: &Shape,
        point: &Tuple,
        f: &A,
    ) -> (c: Color)
        requires
            f.ready(),
            self.wf(),
            object.wf(),
        ensures
            c == self.spec_color_at(object, *point, f),
    {
        match &self.pattern {
            Some(pattern) => pattern.at(object, point, f),
            None => self.color,
        }
    }

    /// The material with its colour replaced.
    pub fn color(self, c: Color) -> (m: Material)
        ensures
            m == (Material { color: c, ..self }),
    {
        let mut m = self;
        m.color = c;
        m
    }

    /// The material with its ambient share replaced.
    pub fn ambient(self, a: Scalar) -> (m: Material)
        ensures
            m == (Material { ambient: a, ..self }),
    {
        let mut m = self;
        m.ambient = a;
        m
    }

    /// The material with its diffuse share replaced.
    pub fn diffuse(self, d: Scalar) -> (m: Material)
        ensures
            m == (Material { diffuse: d, ..self }),
    {
        let mut m = self;
        m.diffuse = d;
        m
    }

    /// The material with its specular share replaced.
    pub fn specular(self, s: Scalar) -> (m: Material)
        ensures
            m == (Material { specular: s, ..self }),
    {
        let mut m = self;
        m.specular = s;
        m
    }

    /// The material with its shininess replaced.
    pub fn shininess(self, s: Scalar) -> (m: Material)
        ensures
            m == (Material { shininess: s, ..self }),
    {
        let mut m = self;
        m.shininess = s;
        m
    }

    /// The material wearing the pattern `p`.
    pub fn pattern(self, p: Stripe) -> (m: Material)
        ensures
            m == (Material { pattern: Some(p), ..self }),
            p.wf() ==> m.wf(),
    {
        let mut m = self;
        m.pattern = Some(p);
        m
    }
}

} // verus!
