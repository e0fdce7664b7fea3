//! The arithmetic that the library is given.
//!
//! The library decides and arranges; it does not add, multiply, divide, take
//! roots or round. Those steps are handed in as functions, held together in a
//! [`Field`]. Everything that is computed here is computed by chaining them,
//! and every contract gives its result as a formula over them.
use crate::scalar::Scalar;
use vstd::prelude::*;

verus! {

/// Arithmetic on numbers, step by step. Each step is a function: of the same
/// numbers it gives the same.
pub trait Arithmetic {
    /// Every step can be taken of any numbers.
    spec fn ready(&self) -> bool;

    /// The sum of `a` and `b`.
    spec fn sum(&self, a: Scalar, b: Scalar) -> Scalar;

    /// `a` less `b`.
    spec fn difference(&self, a: Scalar, b: Scalar) -> Scalar;

    /// The product of `a` and `b`.
    spec fn product(&self, a: Scalar, b: Scalar) -> Scalar;

    /// `a` divided by `b`.
    spec fn quotient(&self, a: Scalar, b: Scalar) -> Scalar;

    /// The square root of `a`.
    spec fn root(&self, a: Scalar) -> Scalar;

    /// `a` raised to the power of `b`.
    spec fn power(&self, a: Scalar, b: Scalar) -> Scalar;

    /// The cosine of the angle `a`, in radians.
    spec fn cosine(&self, a: Scalar) -> Scalar;

    /// The sine of the angle `a`, in radians.
    spec fn sine(&self, a: Scalar) -> Scalar;

    /// The tangent of the angle `a`, in radians.
    spec fn tangent(&self, a: Scalar) -> Scalar;

    /// `a` rounded down to a whole number.
    spec fn floored(&self, a: Scalar) -> Scalar;

    /// What is left of `a` after division by `b`, with the sign of `a`.
    spec fn remainder(&self, a: Scalar, b: Scalar) -> Scalar;

    /// The whole number `n` as a scalar.
    spec fn whole(&self, n: u32) -> Scalar;

    /// `a` rounded to the nearest whole number, halves away from 0, and to the
    /// nearest number that `i32` holds where that lies outside.
    spec fn rounded(&self, a: Scalar) -> i32;

    /// The sum of `a` and `b`.
    fn add(&self, a: Scalar, b: Scalar) -> (r: Scalar)
        requires
            self.ready(),
        ensures
            r == self.sum(a, b),
    ;

    /// `a` less `b`.
    fn sub(&self, a: Scalar, b: Scalar) -> (r: Scalar)
        requires
            self.ready(),
        ensures
            r == self.difference(a, b),
    ;

    /// The product of `a` and `b`.
    fn mul(&self, a: Scalar, b: Scalar) -> (r: Scalar)
        requires
            self.ready(),
        ensures
            r == self.product(a, b),
    ;

    /// `a` divided by `b`.
    fn div(&self, a: Scalar, b: Scalar) -> (r: Scalar)
        requires
            self.ready(),
        ensures
            r == self.quotient(a, b),
    ;

    /// The square root of `a`.
    fn sqrt(&self, a: Scalar) -> (r: Scalar)
        requires
            self.ready(),
        ensures
            r == self.root(a),
    ;

    /// `a` raised to the power of `b`.
    fn pow(&self, a: Scalar, b: Scalar) -> (r: Scalar)
        requires
            self.ready(),
        ensures
            r == self.power(a, b),
    ;

    /// The cosine of the angle `a`, in radians.
    fn cos(&self, a: Scalar) -> (r: Scalar)
        requires
            self.ready(),
        ensures
            r == self.cosine(a),
    ;

    /// The sine of the angle `a`, in radians.
    fn sin(&self, a: Scalar) -> (r: Scalar)
        requires
            self.ready(),
        ensures
            r == self.sine(a),
    ;

    /// The tangent of the angle `a`, in radians.
    fn tan(&self, a: Scalar) -> (r: Scalar)
        requires
            self.ready(),
        ensures
            r == self.tangent(a),
    ;

    /// `a` rounded down to a whole number.
    fn floor(&self, a: Scalar) -> (r: Scalar)
        requires
            self.ready(),
        ensures
            r == self.floored(a),
    ;

    /// What is left of `a` after division by `b`, with the sign of `a`.
    fn rem(&self, a: Scalar, b: Scalar) -> (r: Scalar)
        requires
            self.ready(),
        ensures
            r == self.remainder(a, b),
    ;

    /// The whole number `n` as a scalar.
    fn number(&self, n: u32) -> (r: Scalar)
        requires
            self.ready(),
        ensures
            r == self.whole(n),
    ;

    /// `a` rounded to the nearest whole number.
    fn round(&self, a: Scalar) -> (r: i32)
        requires
            self.ready(),
        ensures
            r == self.rounded(a),
    ;
}

/// The steps of arithmetic, each as a function.
///
/// `plus` adds two numbers, `minus` takes the second from the first, `times`
/// multiplies them, `over` divides the first by the second, and `root` takes
/// the square root of one. `power` raises its first argument to the power of
/// its second. `cosine`, `sine` and `tangent` are those of an angle in
/// radians. `floor` rounds a number down to a whole number, and `remainder`
/// gives what is left of its first argument after division by its second.
/// `number` gives a whole number as a scalar, and `round` rounds a number to
/// the nearest whole number.
pub struct Field<P, M, T, O, R, W, C, S, G, L, E, N, I> {
    pub plus: P,
    pub minus: M,
    pub times: T,
    pub over: O,
    pub root: R,
    pub power: W,
    pub cosine: C,
    pub sine: S,
    pub tangent: G,
    pub floor: L,
    pub remainder: E,
    pub number: N,
    pub round: I,
}

/// `step` takes any two numbers, and of the same two it gives the same.
pub open spec fn is_function_of_two<F: Fn(Scalar, Scalar) -> Scalar>(step: F) -> bool {
    &&& forall|a: Scalar, b: Scalar| call_requires(step, (a, b))
    &&& forall|a: Scalar, b: Scalar, r: Scalar, s: Scalar|
        #![trigger call_ensures(step, (a, b), r), call_ensures(step, (a, b), s)]
        call_ensures(step, (a, b), r) && call_ensures(step, (a, b), s) ==> r == s
}

/// `step` takes any number, and of the same number it gives the same.
pub open spec fn is_function_of_one<F: Fn(Scalar) -> Scalar>(step: F) -> bool {
    &&& forall|a: Scalar| call_requires(step, (a,))
    &&& forall|a: Scalar, r: Scalar, s: Scalar|
        #![trigger call_ensures(step, (a,), r), call_ensures(step, (a,), s)]
        call_ensures(step, (a,), r) && call_ensures(step, (a,), s) ==> r == s
}

/// What `step` gives of `a` and `b`.
pub open spec fn result_of_two<F: Fn(Scalar, Scalar) -> Scalar>(step: F, a: Scalar, b: Scalar) -> Scalar {
    choose|r: Scalar| call_ensures(step, (a, b), r)
}

/// What `step` gives of `a`.
pub open spec fn result_of_one<F: Fn(Scalar) -> Scalar>(step: F, a: Scalar) -> Scalar {
    choose|r: Scalar| call_ensures(step, (a,), r)
}

impl<P, M, T, O, R, W, C, S, G, L, E, N, I> Arithmetic for Field<
    P,
    M,
    T,
    O,
    R,
    W,
    C,
    S,
    G,
    L,
    E,
    N,
    I,
> where
    P: Fn(Scalar, Scalar) -> Scalar,
    M: Fn(Scalar, Scalar) -> Scalar,
    T: Fn(Scalar, Scalar) -> Scalar,
    O: Fn(Scalar, Scalar) -> Scalar,
    R: Fn(Scalar) -> Scalar,
    W: Fn(Scalar, Scalar) -> Scalar,
    C: Fn(Scalar) -> Scalar,
    S: Fn(Scalar) -> Scalar,
    G: Fn(Scalar) -> Scalar,
    L: Fn(Scalar) -> Scalar,
    E: Fn(Scalar, Scalar) -> Scalar,
    N: Fn(u32) -> Scalar,
    I: Fn(Scalar) -> i32,
 {
    /// Each of the functions takes any numbers, and of the same numbers it
    /// gives the same.
    open spec fn ready(&self) -> bool {
        &&& is_function_of_two(self.plus)
        &&& is_function_of_two(self.minus)
        &&& is_function_of_two(self.times)
        &&& is_function_of_two(self.over)
        &&& is_function_of_one(self.root)
        &&& is_function_of_two(self.power)
        &&& is_function_of_one(self.cosine)
        &&& is_function_of_one(self.sine)
        &&& is_function_of_one(self.tangent)
        &&& is_function_of_one(self.floor)
        &&& is_function_of_two(self.remainder)
        &&& self.number_is_a_function()
        &&& self.round_is_a_function()
    }

    /// What `plus` gives.
    open spec fn sum(&self, a: Scalar, b: Scalar) -> Scalar {
        result_of_two(self.plus, a, b)
    }

    /// What `minus` gives.
    open spec fn difference(&self, a: Scalar, b: Scalar) -> Scalar {
        result_of_two(self.minus, a, b)
    }

    /// What `times` gives.
    open spec fn product(&self, a: Scalar, b: Scalar) -> Scalar {
        result_of_two(self.times, a, b)
    }

    /// What `over` gives.
    open spec fn quotient(&self, a: Scalar, b: Scalar) -> Scalar {
        result_of_two(self.over, a, b)
    }

    /// What `root` gives.
    open spec fn root(&self, a: Scalar) -> Scalar {
        result_of_one(self.root, a)
    }

    /// What `power` gives.
    open spec fn power(&self, a: Scalar, b: Scalar) -> Scalar {
        result_of_two(self.power, a, b)
    }

    /// What `cosine` gives.
    open spec fn cosine(&self, a: Scalar) -> Scalar {
        result_of_one(self.cosine, a)
    }

    /// What `sine` gives.
    open spec fn sine(&self, a: Scalar) -> Scalar {
        result_of_one(self.sine, a)
    }

    /// What `tangent` gives.
    open spec fn tangent(&self, a: Scalar) -> Scalar {
        result_of_one(self.tangent, a)
    }

    /// What `floor` gives.
    open spec fn floored(&self, a: Scalar) -> Scalar {
        result_of_one(self.floor, a)
    }

    /// What `remainder` gives.
    open spec fn remainder(&self, a: Scalar, b: Scalar) -> Scalar {
        result_of_two(self.remainder, a, b)
    }

    /// What `number` gives.
    open spec fn whole(&self, n: u32) -> Scalar {
        choose|r: Scalar| call_ensures(self.number, (n,), r)
    }

    /// What `round` gives.
    open spec fn rounded(&self, a: Scalar) -> i32 {
        choose|r: i32| call_ensures(self.round, (a,), r)
    }

    fn add(&self, a: Scalar, b: Scalar) -> (r: Scalar) {
        let r = (self.plus)(a, b);
        assert(call_ensures(self.plus, (a, b), self.sum(a, b)));
        r
    }

    fn sub(&self, a: Scalar, b: Scalar) -> (r: Scalar) {
        let r = (self.minus)(a, b);
        assert(call_ensures(self.minus, (a, b), self.difference(a, b)));
        r
    }

    fn mul(&self, a: Scalar, b: Scalar) -> (r: Scalar) {
        let r = (self.times)(a, b);
        assert(call_ensures(self.times, (a, b), self.product(a, b)));
        r
    }

    fn div(&self, a: Scalar, b: Scalar) -> (r: Scalar) {
        let r = (self.over)(a, b);
        assert(call_ensures(self.over, (a, b), self.quotient(a, b)));
        r
    }

    fn sqrt(&self, a: Scalar) -> (r: Scalar) {
        let r = (self.root)(a);
        assert(call_ensures(self.root, (a,), self.root(a)));
        r
    }

    fn pow(&self, a: Scalar, b: Scalar) -> (r: Scalar) {
        let r = (self.power)(a, b);
        assert(call_ensures(self.power, (a, b), self.power(a, b)));
        r
    }

    fn cos(&self, a: Scalar) -> (r: Scalar) {
        let r = (self.cosine)(a);
        assert(call_ensures(self.cosine, (a,), self.cosine(a)));
        r
    }

    fn sin(&self, a: Scalar) -> (r: Scalar) {
        let r = (self.sine)(a);
        assert(call_ensures(self.sine, (a,), self.sine(a)));
        r
    }

    fn tan(&self, a: Scalar) -> (r: Scalar) {
        let r = (self.tangent)(a);
        assert(call_ensures(self.tangent, (a,), self.tangent(a)));
        r
    }

    fn floor(&self, a: Scalar) -> (r: Scalar) {
        let r = (self.floor)(a);
        assert(call_ensures(self.floor, (a,), self.floored(a)));
        r
    }

    fn rem(&self, a: Scalar, b: Scalar) -> (r: Scalar) {
        let r = (self.remainder)(a, b);
        assert(call_ensures(self.remainder, (a, b), self.remainder(a, b)));
        r
    }

    fn number(&self, n: u32) -> (r: Scalar) {
        let r = (self.number)(n);
        assert(call_ensures(self.number, (n,), self.whole(n)));
        r
    }

    fn round(&self, a: Scalar) -> (r: i32) {
        let r = (self.round)(a);
        assert(call_ensures(self.round, (a,), self.rounded(a)));
        r
    }
}

impl<P, M, T, O, R, W, C, S, G, L, E, N, I> Field<P, M, T, O, R, W, C, S, G, L, E, N, I> where
    P: Fn(Scalar, Scalar) -> Scalar,
    M: Fn(Scalar, Scalar) -> Scalar,
    T: Fn(Scalar, Scalar) -> Scalar,
    O: Fn(Scalar, Scalar) -> Scalar,
    R: Fn(Scalar) -> Scalar,
    W: Fn(Scalar, Scalar) -> Scalar,
    C: Fn(Scalar) -> Scalar,
    S: Fn(Scalar) -> Scalar,
    G: Fn(Scalar) -> Scalar,
    L: Fn(Scalar) -> Scalar,
    E: Fn(Scalar, Scalar) -> Scalar,
    N: Fn(u32) -> Scalar,
    I: Fn(Scalar) -> i32,
 {
    /// `number` takes any whole number, and of the same it gives the same.
    pub open spec fn number_is_a_function(&self) -> bool {
        &&& forall|n: u32| call_requires(self.number, (n,))
        &&& forall|n: u32, r: Scalar, s: Scalar|
            #![trigger call_ensures(self.number, (n,), r), call_ensures(self.number, (n,), s)]
            call_ensures(self.number, (n,), r) && call_ensures(self.number, (n,), s) ==> r == s
    }

    /// `round` takes any number, and of the same it gives the same.
    pub open spec fn round_is_a_function(&self) -> bool {
        &&& forall|a: Scalar| call_requires(self.round, (a,))
        &&& forall|a: Scalar, r: i32, s: i32|
            #![trigger call_ensures(self.round, (a,), r), call_ensures(self.round, (a,), s)]
            call_ensures(self.round, (a,), r) && call_ensures(self.round, (a,), s) ==> r == s
    }

    /// A field is ready where each of its steps is a function.
    pub proof fn lemma_ready(&self)
        requires
            is_function_of_two(self.plus),
            is_function_of_two(self.minus),
            is_function_of_two(self.times),
            is_function_of_two(self.over),
            is_function_of_one(self.root),
            is_function_of_two(self.power),
            is_function_of_one(self.cosine),
            is_function_of_one(self.sine),
            is_function_of_one(self.tangent),
            is_function_of_one(self.floor),
            is_function_of_two(self.remainder),
            self.number_is_a_function(),
            self.round_is_a_function(),
        ensures
            self.ready(),
    {
    }

    /// Whatever a step of a ready field has once given of some numbers is
    /// what the field gives of them.
    pub proof fn lemma_steps(&self)
        requires
            self.ready(),
        ensures
            forall|a: Scalar, b: Scalar, r: Scalar|
                #[trigger] call_ensures(self.plus, (a, b), r) ==> r == self.sum(a, b),
            forall|a: Scalar, b: Scalar, r: Scalar|
                #[trigger] call_ensures(self.minus, (a, b), r) ==> r == self.difference(a, b),
            forall|a: Scalar, b: Scalar, r: Scalar|
                #[trigger] call_ensures(self.times, (a, b), r) ==> r == self.product(a, b),
            forall|a: Scalar, b: Scalar, r: Scalar|
                #[trigger] call_ensures(self.over, (a, b), r) ==> r == self.quotient(a, b),
            forall|a: Scalar, r: Scalar| #[trigger] call_ensures(self.root, (a,), r) ==> r == self.root(a),
            forall|a: Scalar, b: Scalar, r: Scalar|
                #[trigger] call_ensures(self.power, (a, b), r) ==> r == self.power(a, b),
            forall|a: Scalar, r: Scalar| #[trigger] call_ensures(self.cosine, (a,), r) ==> r == self.cosine(a),
            forall|a: Scalar, r: Scalar| #[trigger] call_ensures(self.sine, (a,), r) ==> r == self.sine(a),
            forall|a: Scalar, r: Scalar| #[trigger] call_ensures(self.tangent, (a,), r) ==> r == self.tangent(a),
            forall|a: Scalar, r: Scalar| #[trigger] call_ensures(self.floor, (a,), r) ==> r == self.floored(a),
            forall|a: Scalar, b: Scalar, r: Scalar|
                #[trigger] call_ensures(self.remainder, (a, b), r) ==> r == self.remainder(a, b),
            forall|n: u32, r: Scalar| #[trigger] call_ensures(self.number, (n,), r) ==> r == self.whole(n),
            forall|a: Scalar, r: i32| #[trigger] call_ensures(self.round, (a,), r) ==> r == self.rounded(a),
    {
    }
}

/// The product of `a` and `b`, less the product of `c` and `d`.
pub open spec fn spec_product_difference<A: Arithmetic>(
    f: &A,
    a: Scalar,
    b: Scalar,
    c: Scalar,
    d: Scalar,
) -> Scalar {
    f.difference(f.product(a, b), f.product(c, d))
}

/// `sum` with the product of `a` and `b` added.
pub open spec fn spec_sum_with_product<A: Arithmetic>(f: &A, sum: Scalar, a: Scalar, b: Scalar) -> Scalar {
    f.sum(sum, f.product(a, b))
}

/// Whether `a` and `b` are no further apart than `tolerance`: whether their
/// difference, its sign taken off, is not greater.
pub open spec fn spec_near<A: Arithmetic>(f: &A, a: Scalar, b: Scalar, tolerance: Scalar) -> bool {
    !tolerance.less(f.difference(a, b).absolute())
}

/// The product of `a` and `b`, less the product of `c` and `d`.
pub fn product_difference<A: Arithmetic>(f: &A, a: Scalar, b: Scalar, c: Scalar, d: Scalar) -> (r:
    Scalar)
    requires
        f.ready(),
    ensures
        r == spec_product_difference(f, a, b, c, d),
{
    f.sub(f.mul(a, b), f.mul(c, d))
}

/// `sum` with the product of `a` and `b` added.
pub fn sum_with_product<A: Arithmetic>(f: &A, sum: Scalar, a: Scalar, b: Scalar) -> (r: Scalar)
    requires
        f.ready(),
    ensures
        r == spec_sum_with_product(f, sum, a, b),
{
    f.add(sum, f.mul(a, b))
}

/// Whether `a` and `b` are no further apart than `tolerance`.
pub fn near<A: Arithmetic>(f: &A, a: Scalar, b: Scalar, tolerance: Scalar) -> (near: bool)
    requires
        f.ready(),
    ensures
        near == spec_near(f, a, b, tolerance),
{
    !f.sub(a, b).abs().gt(&tolerance)
}

} // verus!
