//! A ray tracer in which everything is verified but the arithmetic.
//!
//! The library holds the data of a scene and the whole way from a pixel of
//! the camera to its colour: the ray through the pixel, what the ray meets,
//! which meeting counts, whether that point lies in shadow, and the colour it
//! shows in the light. Numbers are doubles, held by their bits ([`scalar`]).
//! Their sums, products, roots and the like are taken by the arithmetic that
//! the caller brings ([`arithmetic`]); every contract gives its result as a
//! formula over those.
pub mod scalar;
pub mod arithmetic;
pub mod tuple;
pub mod color;
pub mod grid;
pub mod matrix;
pub mod cofactors;
pub mod transformations;
pub mod rays;
pub mod patterns;
pub mod materials;
pub mod shape;
pub mod sphere;
pub mod plane;
pub mod intersections;
pub mod sorting;
pub mod light;
pub mod world;
pub mod camera;
pub mod canvas;
pub mod ppm;
