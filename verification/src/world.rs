//! The scene: a light and shapes, what a ray meets in it, and whether a point
//! lies in shadow.
use crate::arithmetic::Arithmetic;
use crate::color::Color;
use crate::intersections::{
    hit, lemma_hit_exists, lemma_hit_is, prepare_computations, spec_hit,
    spec_prepare_computations, Computations, Intersection,
};
use crate::light::{lighting, spec_lighting, PointLight};
use crate::materials::Material;
use crate::matrix::Table;
use crate::rays::{intersect, ray, Ray};
use crate::scalar::Scalar;
use crate::shape::{Shape, ShapeIds, ShapeType};
use crate::sorting::{at_rank, insert_ascending, is_sorted_from, lemma_sorting_keeps_the_hit};
use crate::sphere::sphere;
use crate::transformations::{scaling, spec_scaling};
use crate::tuple::{direction, distance, point, spec_direction, spec_distance, spec_point, Tuple};
use vstd::prelude::*;

verus! {

/// The encoding of −10.
pub const MINUS_TEN_BITS: u64 = 0xC024_0000_0000_0000;

/// The encoding of 10.
pub const TEN_BITS: u64 = 0x4024_0000_0000_0000;

/// The encoding of 0.8.
pub const POINT_EIGHT_BITS: u64 = 0x3FE9_9999_9999_999A;

/// The encoding of 0.6.
pub const POINT_SIX_BITS: u64 = 0x3FE3_3333_3333_3333;

/// The encoding of 0.7.
pub const POINT_SEVEN_BITS: u64 = 0x3FE6_6666_6666_6666;

/// The encoding of 0.2.
pub const POINT_TWO_BITS: u64 = 0x3FC9_9999_9999_999A;

/// A scene: one light, and the shapes in the order in which they were added.
pub struct World {
    pub light: PointLight,
    pub objects: Vec<Shape>,
}

/// What `ray` meets of the first `n` shapes of the world, shape after shape.
pub open spec fn spec_met<'a, A: Arithmetic>(w: &'a World, n: nat, ray: Ray, f: &A) -> Seq<
    Intersection<'a>,
>
    decreases n,
{
    if n == 0 || n > w.objects@.len() {
        Seq::empty()
    } else {
        spec_met(w, (n - 1) as nat, ray, f) + w.objects@[n - 1].spec_intersect(ray, f)
    }
}

/// What `ray` meets of the shapes of the world, shape after shape.
pub open spec fn spec_met_all<'a, A: Arithmetic>(w: &'a World, ray: Ray, f: &A) -> Seq<
    Intersection<'a>,
> {
    spec_met(w, w.objects@.len(), ray, f)
}

/// Whether `point` lies in shadow: whether the ray from the point towards the
/// light has a hit, and the hit is nearer than the light.
pub open spec fn spec_is_shadowed<A: Arithmetic>(w: &World, point: Tuple, f: &A) -> bool {
    let to_light = Ray { origin: point, direction: spec_direction(w.light.position, point, f) };
    match spec_hit(spec_met_all(w, to_light, f)) {
        Some(h) => h.t.less(spec_distance(w.light.position, point, f)),
        None => false,
    }
}

/// The colour of the hit that `comps` describes: the colour of the point over
/// the surface in the world's light, in shadow or not as that point is.
pub open spec fn spec_shade_hit<A: Arithmetic>(w: &World, comps: Computations, f: &A) -> Color {
    spec_lighting(
        &comps.object.spec_material(),
        comps.object,
        &w.light,
        comps.over_point,
        comps.eyev,
        comps.normalv,
        spec_is_shadowed(w, comps.over_point, f),
        f,
    )
}

/// The colour that `ray` sees in the world: black where it has no hit, and
/// else the colour of its hit.
pub open spec fn spec_color_at<A: Arithmetic>(w: &World, ray: Ray, f: &A) -> Color {
    match spec_hit(spec_met_all(w, ray, f)) {
        Some(h) => spec_shade_hit(w, spec_prepare_computations(h, ray, f), f),
        None => Color::spec_black(),
    }
}

/// Some shape is met ahead of the ray's origin and nearer than `distance`.
pub open spec fn blocked(xs: Seq<Intersection>, distance: Scalar) -> bool {
    exists|i: int| 0 <= i < xs.len() && (#[trigger] xs[i]).t.positive() && xs[i].t.less(distance)
}

impl World {
    /// Every shape of the world is well formed.
    pub open spec fn wf(&self) -> bool {
        forall|i: int| 0 <= i < self.objects@.len() ==> (#[trigger] self.objects@[i]).wf()
    }

    /// The light of the default scene: white, at (−10, 10, −10).
    pub open spec fn spec_default_light() -> PointLight {
        PointLight {
            position: spec_point(
                Scalar { bits: MINUS_TEN_BITS },
                Scalar { bits: TEN_BITS },
                Scalar { bits: MINUS_TEN_BITS },
            ),
            intensity: Color::spec_white(),
        }
    }

    /// The material of the first sphere of the default scene: the default
    /// material with the colour (0.8, 1.0, 0.6), diffuse 0.7 and specular 0.2.
    pub open spec fn spec_default_material() -> Material {
        Material {
            color: Color {
                red: Scalar { bits: POINT_EIGHT_BITS },
                green: Scalar::spec_one(),
                blue: Scalar { bits: POINT_SIX_BITS },
            },
            diffuse: Scalar { bits: POINT_SEVEN_BITS },
            specular: Scalar { bits: POINT_TWO_BITS },
            ..Material::spec_default()
        }
    }

    /// The default scene: a white light at (−10, 10, −10), a unit sphere of
    /// colour (0.8, 1.0, 0.6) with diffuse 0.7 and specular 0.2, and inside it
    /// a sphere of the default material, half as large.
    ///
    /// The inverses that the two spheres keep are written, not computed: the
    /// identity for the first, and the scaling by 2 for the second. As numbers
    /// they are what an arithmetic would compute; in the sign of a zero they
    /// may differ from it.
    pub fn default(ids: &mut ShapeIds) -> (w: World)
        requires
            old(ids).issued() < u64::MAX - 1,
        ensures
            w.wf(),
            final(ids).issued() == old(ids).issued() + 2,
            w.light == World::spec_default_light(),
            w.objects@.len() == 2,
            w.objects@[0].spec_id() == old(ids).issued() + 1,
            w.objects@[0].spec_shape_type() == ShapeType::Sphere,
            w.objects@[0].spec_transform()@ == Table::identity_4x4(),
            w.objects@[0].spec_inverse()@ == Table::identity_4x4(),
            w.objects@[0].spec_material() == World::spec_default_material(),
            w.objects@[1].spec_id() == old(ids).issued() + 2,
            w.objects@[1].spec_shape_type() == ShapeType::Sphere,
            w.objects@[1].spec_material() == Material::spec_default(),
            w.objects@[1].spec_transform()@ == spec_scaling(
                Scalar::spec_half(),
                Scalar::spec_half(),
                Scalar::spec_half(),
            ),
            w.objects@[1].spec_inverse()@ == spec_scaling(
                Scalar::spec_two(),
                Scalar::spec_two(),
                Scalar::spec_two(),
            ),
    {
        let light = PointLight::new(
            point(
                Scalar::from_bits(MINUS_TEN_BITS),
                Scalar::from_bits(TEN_BITS),
                Scalar::from_bits(MINUS_TEN_BITS),
            ),
            Color::white(),
        );
        let m = Material::default().color(
            Color::new(
                Scalar::from_bits(POINT_EIGHT_BITS),
                Scalar::one(),
                Scalar::from_bits(POINT_SIX_BITS),
            ),
        ).diffuse(Scalar::from_bits(POINT_SEVEN_BITS)).specular(Scalar::from_bits(POINT_TWO_BITS));
        let mut s1 = sphere(ids);
        s1.set_material(m);
        let mut s2 = sphere(ids);
        let half = Scalar::half();
        let two = Scalar::two();
        s2.place(scaling(half, half, half), scaling(two, two, two));
        World { light, objects: vec![s1, s2] }
    }
}

/// Everything that `ray` meets in the world, from the smallest `t` to the
/// largest: what it meets of each shape, shape after shape, put in ascending
/// order, with entries of equal `t` left in the order they had.
pub fn intersect_world<'a, A: Arithmetic>(w: &'a World, ray: &Ray, f: &A) -> (xs: Vec<
    Intersection<'a>,
>)
    requires
        f.ready(),
        w.wf(),
    ensures
        is_sorted_from(xs@, spec_met_all(w, *ray, f)),
        forall|i: int| 0 <= i < xs@.len() ==> (#[trigger] xs@[i]).object.wf(),
{
    let mut out: Vec<Intersection<'a>> = Vec::new();
    let n: usize = w.objects.len();
    let mut i: usize = 0;
    while i < n
        invariant
            f.ready(),
            w.wf(),
            i <= n,
            n == w.objects@.len(),
            is_sorted_from(out@, spec_met(w, i as nat, *ray, f)),
            forall|k: int| 0 <= k < out@.len() ==> (#[trigger] out@[k]).object.wf(),
        decreases n - i,
    {
        let row = intersect(&w.objects[i], ray, f);
        let ghost base = spec_met(w, i as nat, *ray, f);
        let mut j: usize = 0;
        proof {
            assert(base + row@.take(0) =~= base);
            lemma_met_of_a_shape(&w.objects[i as int], *ray, f);
        }
        while j < row.len()
            invariant
                j <= row.len(),
                is_sorted_from(out@, base + row@.take(j as int)),
                forall|k: int| 0 <= k < row@.len() ==> (#[trigger] row@[k]).object.wf(),
                forall|k: int| 0 <= k < out@.len() ==> (#[trigger] out@[k]).object.wf(),
            decreases row.len() - j,
        {
            let x = row[j];
            let ghost before = out@;
            insert_ascending(&mut out, x);
            proof {
                let so_far = base + row@.take(j as int);
                assert(so_far.push(x) =~= base + row@.take(j + 1));
                vstd::seq_lib::to_multiset_build(so_far, x);
                assert forall|v: int| #[trigger] at_rank(out@, v) == at_rank(so_far.push(x), v) by {
                    let pred = |y: Intersection<'a>| y.t.total_rank() == v;
                    assert(at_rank(out@, v) == at_rank(before.push(x), v));
                    before.lemma_filter_push(x, pred);
                    so_far.lemma_filter_push(x, pred);
                    assert(at_rank(before, v) == at_rank(so_far, v));
                }
                assert forall|k: int| 0 <= k < out@.len() implies (#[trigger] out@[k]).object.wf() by {
                    vstd::seq_lib::to_multiset_contains(out@, out@[k]);
                    vstd::seq_lib::to_multiset_contains(before, out@[k]);
                    assert(out@.contains(out@[k]));
                    if out@[k] != x {
                        assert(before.to_multiset().count(out@[k]) > 0);
                        let at = choose|at: int| 0 <= at < before.len() && before[at] == out@[k];
                        assert(before[at].object.wf());
                    }
                }
            }
            j += 1;
        }
        proof {
            assert(row@.take(row.len() as int) =~= row@);
        }
        i += 1;
    }
    out
}

/// Whether a point lies in shadow.
///
/// The point is in shadow where the ray from it towards the light has a hit
/// that is nearer than the light; a shape beyond the light, or behind the
/// point, casts no shadow on it.
pub fn is_shadowed<A: Arithmetic>(w: &World, point: &Tuple, f: &A) -> (shadowed: bool)
    requires
        f.ready(),
        w.wf(),
    ensures
        shadowed == spec_is_shadowed(w, *point, f),
{
    let far = distance(&w.light.position, point, f);
    let to_light = direction(&w.light.position, point, f);
    let r = ray(*point, to_light);
    let xs = intersect_world(w, &r, f);
    proof {
        lemma_sorting_keeps_the_hit(xs@, spec_met_all(w, r, f));
    }
    match hit(&xs) {
        Some(h) => h.t.lt(&far),
        None => false,
    }
}

/// The colour of the hit that `comps` describes.
///
/// Whether the hit lies in shadow is asked of the point over the surface,
/// not of the point on it, so that the surface does not shadow itself; and it
/// is that point which is lit.
pub fn shade_hit<A: Arithmetic>(w: &World, comps: &Computations, f: &A) -> (c: Color)
    requires
        f.ready(),
        w.wf(),
        comps.object.wf(),
    ensures
        c == spec_shade_hit(w, *comps, f),
{
    let shadowed = is_shadowed(w, &comps.over_point, f);
    lighting(
        comps.object.material(),
        comps.object,
        &w.light,
        &comps.over_point,
        &comps.eyev,
        &comps.normalv,
        shadowed,
        f,
    )
}

/// The colour that `ray` sees in the world: black where it has no hit, and
/// else the colour of its hit.
pub fn color_at<A: Arithmetic>(w: &World, ray: &Ray, f: &A) -> (c: Color)
    requires
        f.ready(),
        w.wf(),
    ensures
        c == spec_color_at(w, *ray, f),
{
    let xs = intersect_world(w, ray, f);
    proof {
        lemma_sorting_keeps_the_hit(xs@, spec_met_all(w, *ray, f));
    }
    match hit(&xs) {
        Some(h) => {
            assert(h.object.wf()) by {
                let k = choose|k: int| 0 <= k < xs@.len() && xs@[k] == *h;
                assert(xs@[k].object.wf());
            }
            let comps = prepare_computations(h, ray, f);
            shade_hit(w, &comps, f)
        },
        None => Color::black(),
    }
}

/// A ray that meets nothing sees black, and so does every ray in a world
/// without shapes.
pub proof fn lemma_nothing_met_is_black<A: Arithmetic>(w: &World, ray: Ray, f: &A)
    requires
        spec_met_all(w, ray, f).len() == 0,
    ensures
        spec_color_at(w, ray, f) == Color::spec_black(),
{
}

/// In a world without shapes no point lies in shadow.
pub proof fn lemma_no_shapes_no_shadow<A: Arithmetic>(w: &World, point: Tuple, f: &A)
    requires
        w.objects@.len() == 0,
    ensures
        !spec_is_shadowed(w, point, f),
{
}

/// What a ray meets of a shape, it meets of that shape.
pub proof fn lemma_met_of_a_shape<A: Arithmetic>(s: &Shape, ray: Ray, f: &A)
    ensures
        forall|k: int|
            0 <= k < s.spec_intersect(ray, f).len() ==> (#[trigger] s.spec_intersect(ray, f)[k]).object
                == s,
{
}

/// A list has a hit that is nearer than `distance` exactly where something
/// in it is met ahead of the ray's origin and nearer than `distance`.
pub proof fn lemma_blocked_by_the_hit(xs: Seq<Intersection>, distance: Scalar)
    ensures
        blocked(xs, distance) <==> (spec_hit(xs) matches Some(h) && h.t.less(distance)),
{
    if blocked(xs, distance) {
        let i = choose|i: int|
            0 <= i < xs.len() && (#[trigger] xs[i]).t.positive() && xs[i].t.less(distance);
        let k = lemma_hit_exists(xs);
        lemma_hit_is(xs, k);
        assert(!xs[i].t.less(xs[k].t));
    }
    if spec_hit(xs) matches Some(h) && h.t.less(distance) {
        let k = lemma_hit_exists(xs);
        lemma_hit_is(xs, k);
        assert(xs[k].t.positive() && xs[k].t.less(distance));
    }
}

} // verus!
