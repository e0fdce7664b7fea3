//! Colours: a red, a green and a blue component, and their algebra.
use crate::arithmetic::{near, spec_near, Arithmetic};
use crate::scalar::Scalar;
use vstd::prelude::*;

verus! {

/// A colour. A component of 0 is dark and one of 1 is full; components outside
/// that range are kept as they are until an image is written.
#[derive(Clone, Copy, Debug)]
pub struct Color {
    pub red: Scalar,
    pub blue: Scalar,
    pub green: Scalar,
}

impl Color {
    /// The sum of two colours, component by component.
    pub open spec fn spec_add<A: Arithmetic>(self, rhs: Color, f: &A) -> Color {
        Color {
            red: f.sum(self.red, rhs.red),
            green: f.sum(self.green, rhs.green),
            blue: f.sum(self.blue, rhs.blue),
        }
    }

    /// The colour less `rhs`, component by component.
    pub open spec fn spec_sub<A: Arithmetic>(self, rhs: Color, f: &A) -> Color {
        Color {
            red: f.difference(self.red, rhs.red),
            green: f.difference(self.green, rhs.green),
            blue: f.difference(self.blue, rhs.blue),
        }
    }

    /// The product of two colours, component by component.
    pub open spec fn spec_mul<A: Arithmetic>(self, rhs: Color, f: &A) -> Color {
        Color {
            red: f.product(self.red, rhs.red),
            green: f.product(self.green, rhs.green),
            blue: f.product(self.blue, rhs.blue),
        }
    }

    /// The colour with each component multiplied by `k`.
    pub open spec fn spec_scale<A: Arithmetic>(self, k: Scalar, f: &A) -> Color {
        Color {
            red: f.product(self.red, k),
            green: f.product(self.green, k),
            blue: f.product(self.blue, k),
        }
    }

    /// Whether two colours are equal: whether each component of the one lies
    /// within 0.00001 of that of the other.
    pub open spec fn spec_eq<A: Arithmetic>(self, other: Color, f: &A) -> bool {
        let t = Scalar::spec_tolerance();
        &&& spec_near(f, self.red, other.red, t)
        &&& spec_near(f, self.green, other.green, t)
        &&& spec_near(f, self.blue, other.blue, t)
    }

    /// The colour with the given components.
    pub fn new(red: Scalar, green: Scalar, blue: Scalar) -> (c: Color)
        ensures
            c == (Color { red, green, blue }),
    {
        Color { red, green, blue }
    }

    /// Black: every component is 0.
    pub fn black() -> (c: Color)
        ensures
            c == Color::spec_black(),
    {
        Color { red: Scalar::zero(), green: Scalar::zero(), blue: Scalar::zero() }
    }

    /// White: every component is 1.
    pub fn white() -> (c: Color)
        ensures
            c == Color::spec_white(),
    {
        Color { red: Scalar::one(), green: Scalar::one(), blue: Scalar::one() }
    }

    /// Black, for contracts.
    pub open spec fn spec_black() -> Color {
        Color { red: Scalar::spec_zero(), green: Scalar::spec_zero(), blue: Scalar::spec_zero() }
    }

    /// White, for contracts.
    pub open spec fn spec_white() -> Color {
        Color { red: Scalar::spec_one(), green: Scalar::spec_one(), blue: Scalar::spec_one() }
    }

    /// The sum of two colours, component by component.
    pub fn add<A: Arithmetic>(&self, rhs: &Color, f: &A) -> (r: Color)
        requires
            f.ready(),
        ensures
            r == self.spec_add(*rhs, f),
    {
        Color {
            red: f.add(self.red, rhs.red),
            green: f.add(self.green, rhs.green),
            blue: f.add(self.blue, rhs.blue),
        }
    }

    /// The difference of two colours, component by component.
    pub fn sub<A: Arithmetic>(&self, rhs: &Color, f: &A) -> (r: Color)
        requires
            f.ready(),
        ensures
            r == self.spec_sub(*rhs, f),
    {
        Color {
            red: f.sub(self.red, rhs.red),
            green: f.sub(self.green, rhs.green),
            blue: f.sub(self.blue, rhs.blue),
        }
    }

    /// The product of two colours, component by component.
    pub fn mul<A: Arithmetic>(&self, rhs: &Color, f: &A) -> (r: Color)
        requires
            f.ready(),
        ensures
            r == self.spec_mul(*rhs, f),
    {
        Color {
            red: f.mul(self.red, rhs.red),
            green: f.mul(self.green, rhs.green),
            blue: f.mul(self.blue, rhs.blue),
        }
    }

    /// The colour with every component multiplied by `k`.
    pub fn scale<A: Arithmetic>(&self, k: Scalar, f: &A) -> (r: Color)
        requires
            f.ready(),
        ensures
            r == self.spec_scale(k, f),
    {
        Color { red: f.mul(self.red, k), green: f.mul(self.green, k), blue: f.mul(self.blue, k) }
    }

    /// Whether two colours are equal: every component of the one lies within
    /// 0.00001 of that of the other.
    pub fn eq<A: Arithmetic>(&self, other: &Color, f: &A) -> (same: bool)
        requires
            f.ready(),
        ensures
            same == self.spec_eq(*other, f),
    {
        let t = Scalar::tolerance();
        if !near(f, self.red, other.red, t) {
            return false;
        }
        if !near(f, self.green, other.green, t) {
            return false;
        }
        if !near(f, self.blue, other.blue, t) {
            return false;
        }
        true
    }
}

} // verus!
