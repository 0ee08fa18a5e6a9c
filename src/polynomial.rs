use vstd::prelude::*;

verus! {

/// `|x * y| <= bx * by` whenever `|x| <= bx` and `|y| <= by`.
pub(crate) proof fn lemma_mul_bound(x: int, y: int, bx: int, by: int)
    requires
        -bx <= x <= bx,
        -by <= y <= by,
    ensures
        -(bx * by) <= x * y <= bx * by,
{
    assert(-(bx * by) <= x * y <= bx * by) by (nonlinear_arith)
        requires
            -bx <= x <= bx,
            -by <= y <= by,
    ;
}

/// Bound on a product of three factors, each within `i32`.
proof fn lemma_cube_bound(x: int, y: int, z: int)
    requires
        i32::MIN <= x <= i32::MAX,
        i32::MIN <= y <= i32::MAX,
        i32::MIN <= z <= i32::MAX,
    ensures
        -0x4000_0000_0000_0000 <= x * y <= 0x4000_0000_0000_0000,
        -0x2000_0000_0000_0000_0000_0000 <= x * y * z <= 0x2000_0000_0000_0000_0000_0000,
{
    lemma_mul_bound(x, y, 0x8000_0000, 0x8000_0000);
    lemma_mul_bound(x * y, z, 0x4000_0000_0000_0000, 0x8000_0000);
}

/// Bound on a product of four factors, each within `i32`.
proof fn lemma_quartic_bound(w: int, x: int, y: int, z: int)
    requires
        i32::MIN <= w <= i32::MAX,
        i32::MIN <= x <= i32::MAX,
        i32::MIN <= y <= i32::MAX,
        i32::MIN <= z <= i32::MAX,
    ensures
        -0x4000_0000_0000_0000 <= w * x <= 0x4000_0000_0000_0000,
        -0x2000_0000_0000_0000_0000_0000 <= w * x * y <= 0x2000_0000_0000_0000_0000_0000,
        -0x1000_0000_0000_0000_0000_0000_0000_0000 <= w * x * y * z <= 0x1000_0000_0000_0000_0000_0000_0000_0000,
{
    lemma_cube_bound(w, x, y);
    lemma_mul_bound(w * x * y, z, 0x2000_0000_0000_0000_0000_0000, 0x8000_0000);
}

/// f(x) = a·x² + b·x + c, with integer coefficients.
#[derive(Clone, Copy, Debug, PartialEq, Eq, Structural)]
pub struct QuadraticFunction {
    pub a: i32,
    pub b: i32,
    pub c: i32,
}

impl QuadraticFunction {
    /// q²·f(p/q): the value at the rational point `p / q`, cleared of its denominator.
    pub open spec fn value_scaled(self, p: int, q: int) -> int {
        self.a * p * p + self.b * p * q + self.c * q * q
    }

    /// q·f'(p/q), where f'(x) = 2a·x + b.
    pub open spec fn slope_scaled(self, p: int, q: int) -> int {
        2 * (self.a * p) + self.b * q
    }

    pub fn new(a: i32, b: i32, c: i32) -> (r: Self)
        ensures
            r == (QuadraticFunction { a, b, c }),
    {
        QuadraticFunction { a, b, c }
    }

    /// Exact value at `p / q`, scaled by q²; at q = 1 this is f(p).
    pub fn fx(&self, p: i32, q: i32) -> (r: i128)
        ensures
            r == self.value_scaled(p as int, q as int),
    {
        proof {
            lemma_cube_bound(self.a as int, p as int, p as int);
            lemma_cube_bound(self.b as int, p as int, q as int);
            lemma_cube_bound(self.c as int, q as int, q as int);
        }
        let a = self.a as i128;
        let b = self.b as i128;
        let c = self.c as i128;
        let p = p as i128;
        let q = q as i128;
        a * p * p + b * p * q + c * q * q
    }

    /// Exact derivative at `p / q`, scaled by q; at q = 1 this is f'(p).
    pub fn fdx(&self, p: i32, q: i32) -> (r: i128)
        ensures
            r == self.slope_scaled(p as int, q as int),
    {
        proof {
            lemma_mul_bound(self.a as int, p as int, 0x8000_0000, 0x8000_0000);
            lemma_mul_bound(self.b as int, q as int, 0x8000_0000, 0x8000_0000);
        }
        2 * ((self.a as i128) * (p as i128)) + (self.b as i128) * (q as i128)
    }
}

/// f(x) = a·x³ + b·x² + c·x + d, with integer coefficients.
#[derive(Clone, Copy, Debug, PartialEq, Eq, Structural)]
pub struct CubicFunction {
    pub a: i32,
    pub b: i32,
    pub c: i32,
    pub d: i32,
}

impl CubicFunction {
    /// q³·f(p/q): the value at the rational point `p / q`, cleared of its denominator.
    pub open spec fn value_scaled(self, p: int, q: int) -> int {
        self.a * p * p * p + self.b * p * p * q + self.c * p * q * q + self.d * q * q * q
    }

    /// q²·f'(p/q), where f'(x) = 3a·x² + 2b·x + c.
    pub open spec fn slope_scaled(self, p: int, q: int) -> int {
        3 * (self.a * p * p) + 2 * (self.b * p * q) + self.c * q * q
    }

    pub fn new(a: i32, b: i32, c: i32, d: i32) -> (r: Self)
        ensures
            r == (CubicFunction { a, b, c, d }),
    {
        CubicFunction { a, b, c, d }
    }

    /// The function this program explores: f(x) = x³ + x².
    pub fn configured() -> (r: Self)
        ensures
            r == (CubicFunction { a: 1, b: 1, c: 0, d: 0 }),
    {
        CubicFunction { a: 1, b: 1, c: 0, d: 0 }
    }

    /// Exact value at `p / q`, scaled by q³; at q = 1 this is f(p).
    pub fn fx(&self, p: i32, q: i32) -> (r: i128)
        ensures
            r == self.value_scaled(p as int, q as int),
    {
        proof {
            lemma_quartic_bound(self.a as int, p as int, p as int, p as int);
            lemma_quartic_bound(self.b as int, p as int, p as int, q as int);
            lemma_quartic_bound(self.c as int, p as int, q as int, q as int);
            lemma_quartic_bound(self.d as int, q as int, q as int, q as int);
        }
        let a = self.a as i128;
        let b = self.b as i128;
        let c = self.c as i128;
        let d = self.d as i128;
        let p = p as i128;
        let q = q as i128;
        a * p * p * p + b * p * p * q + c * p * q * q + d * q * q * q
    }

    /// Exact derivative at `p / q`, scaled by q²; at q = 1 this is f'(p).
    pub fn fdx(&self, p: i32, q: i32) -> (r: i128)
        ensures
            r == self.slope_scaled(p as int, q as int),
    {
        proof {
            lemma_cube_bound(self.a as int, p as int, p as int);
            lemma_cube_bound(self.b as int, p as int, q as int);
            lemma_cube_bound(self.c as int, q as int, q as int);
        }
        let a = self.a as i128;
        let b = self.b as i128;
        let c = self.c as i128;
        let p = p as i128;
        let q = q as i128;
        3 * (a * p * p) + 2 * (b * p * q) + c * q * q
    }
}

} // verus!
