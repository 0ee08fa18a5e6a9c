use vstd::prelude::*;

use crate::polynomial::CubicFunction;

verus! {

/// The function this program explores, f(x) = x³ + x², as a spec value.
pub open spec fn explored() -> CubicFunction {
    CubicFunction { a: 1, b: 1, c: 0, d: 0 }
}

/// One Newton-Raphson update of the estimate p / q in exact arithmetic:
/// x − f(x) / f'(x) = (p·D − F) / (q·D), with F = q³·f(p/q) and D = q²·f'(p/q),
/// the values that `CubicFunction::fx` and `CubicFunction::fdx` return.
pub open spec fn newton_step(f: CubicFunction, p: int, q: int) -> (int, int) {
    (p * f.slope_scaled(p, q) - f.value_scaled(p, q), q * f.slope_scaled(p, q))
}

/// The estimate after `n` updates from p / q.
pub open spec fn newton_iterate(f: CubicFunction, p: int, q: int, n: nat) -> (int, int)
    decreases n,
{
    if n == 0 {
        (p, q)
    } else {
        let prev = newton_iterate(f, p, q, (n - 1) as nat);
        newton_step(f, prev.0, prev.1)
    }
}

/// `b` raised to the power `e`.
pub open spec fn power(b: int, e: nat) -> int
    decreases e,
{
    if e == 0 {
        1
    } else {
        b * power(b, (e - 1) as nat)
    }
}

proof fn lemma_power_positive(b: int, e: nat)
    requires
        b > 0,
    ensures
        power(b, e) > 0,
    decreases e,
{
    if e > 0 {
        lemma_power_positive(b, (e - 1) as nat);
        assert(b * power(b, (e - 1) as nat) > 0) by (nonlinear_arith)
            requires
                b > 0,
                power(b, (e - 1) as nat) > 0,
        ;
    }
}

/// For x³ + x², the update of p / q is p²(2p + q) / (pq(3p + 2q)).
proof fn lemma_step_explored(p: int, q: int)
    ensures
        newton_step(explored(), p, q) == (p * p * (2 * p + q), p * q * (3 * p + 2 * q)),
{
    let f = explored();
    let v = f.value_scaled(p, q);
    let s = f.slope_scaled(p, q);
    assert(v == 1 * p * p * p + 1 * p * p * q + 0 * p * q * q + 0 * q * q * q);
    assert(s == 3 * (1 * p * p) + 2 * (1 * p * q) + 0 * q * q);
    assert(v == p * p * p + p * p * q) by (nonlinear_arith)
        requires
            v == 1 * p * p * p + 1 * p * p * q + 0 * p * q * q + 0 * q * q * q,
    ;
    assert(s == 3 * (p * p) + 2 * (p * q)) by (nonlinear_arith)
        requires
            s == 3 * (1 * p * p) + 2 * (1 * p * q) + 0 * q * q,
    ;
    assert(p * (3 * (p * p) + 2 * (p * q)) - (p * p * p + p * p * q) == p * p * (2 * p + q))
        by (nonlinear_arith);
    assert(q * (3 * (p * p) + 2 * (p * q)) == p * q * (3 * p + 2 * q)) by (nonlinear_arith);
}

/// A positive estimate of x³ + x² stays positive under one update and
/// shrinks to between half and two thirds of itself: the search heads for
/// the double root at 0.
pub proof fn lemma_step_shrinks_positive(p: int, q: int)
    requires
        p > 0,
        q > 0,
    ensures
        ({
            let (p1, q1) = newton_step(explored(), p, q);
            &&& p1 > 0
            &&& q1 > 0
            &&& 2 * p1 * q > p * q1
            &&& 3 * p1 * q < 2 * p * q1
        }),
{
    lemma_step_explored(p, q);
    let p1 = p * p * (2 * p + q);
    let q1 = p * q * (3 * p + 2 * q);
    assert(p1 > 0 && q1 > 0) by (nonlinear_arith)
        requires
            p > 0,
            q > 0,
            p1 == p * p * (2 * p + q),
            q1 == p * q * (3 * p + 2 * q),
    ;
    assert(2 * p1 * q - p * q1 == p * p * p * q) by (nonlinear_arith)
        requires
            p1 == p * p * (2 * p + q),
            q1 == p * q * (3 * p + 2 * q),
    ;
    assert(2 * p * q1 - 3 * p1 * q == p * p * q * q) by (nonlinear_arith)
        requires
            p1 == p * p * (2 * p + q),
            q1 == p * q * (3 * p + 2 * q),
    ;
    assert(p * p * p * q > 0 && p * p * q * q > 0) by (nonlinear_arith)
        requires
            p > 0,
            q > 0,
    ;
}

/// Started from x = 5, every estimate of x³ + x² stays positive and after
/// `n` updates lies at or below 5·(2/3)ⁿ, so the search converges to the root 0.
pub proof fn lemma_converges_from_five(n: nat)
    ensures
        ({
            let (p, q) = newton_iterate(explored(), 5, 1, n);
            &&& p > 0
            &&& q > 0
            &&& power(3, n) * p <= 5 * power(2, n) * q
        }),
    decreases n,
{
    if n > 0 {
        let m = (n - 1) as nat;
        lemma_converges_from_five(m);
        let (p, q) = newton_iterate(explored(), 5, 1, m);
        let (p1, q1) = newton_step(explored(), p, q);
        lemma_step_shrinks_positive(p, q);
        lemma_power_positive(3, m);
        lemma_power_positive(2, m);
        let a = power(3, m);
        let b = power(2, m);
        assert(a * p <= 5 * b * q);
        assert(3 * a * p1 < 5 * 2 * b * q1) by (nonlinear_arith)
            requires
                a > 0,
                b > 0,
                p > 0,
                q > 0,
                q1 > 0,
                a * p <= 5 * b * q,
                3 * p1 * q < 2 * p * q1,
        {
            assert(3 * a * p1 * q < 2 * a * p * q1);
            assert(2 * a * p * q1 <= 2 * 5 * b * q * q1);
        }
        assert(power(3, n) == 3 * a);
        assert(power(2, n) == 2 * b);
        assert(power(3, n) * p1 <= 5 * power(2, n) * q1) by (nonlinear_arith)
            requires
                power(3, n) == 3 * a,
                power(2, n) == 2 * b,
                3 * a * p1 < 5 * 2 * b * q1,
        ;
    }
}

/// An estimate of x³ + x² below −1 moves up under one update and stays
/// below −1; its distance to −1 is 2(x + 1)² / (3x + 2), at most 2(x + 1)²:
/// the search converges to the root −1 quadratically.
pub proof fn lemma_step_approaches_minus_one(p: int, q: int)
    requires
        q > 0,
        p < -q,
    ensures
        ({
            let (p1, q1) = newton_step(explored(), p, q);
            &&& q1 > 0
            &&& p1 < -q1
            &&& p1 * q > p * q1
            &&& (p1 + q1) * q * (3 * p + 2 * q) == 2 * (p + q) * (p + q) * q1
            &&& -(p1 + q1) * q * q <= 2 * (p + q) * (p + q) * q1
        }),
{
    lemma_step_explored(p, q);
    let p1 = p * p * (2 * p + q);
    let q1 = p * q * (3 * p + 2 * q);
    assert(q1 > 0) by (nonlinear_arith)
        requires
            q > 0,
            p < -q,
            q1 == p * q * (3 * p + 2 * q),
    ;
    assert(p1 + q1 == 2 * p * (p + q) * (p + q)) by (nonlinear_arith)
        requires
            p1 == p * p * (2 * p + q),
            q1 == p * q * (3 * p + 2 * q),
    ;
    assert(2 * p * (p + q) * (p + q) < 0) by (nonlinear_arith)
        requires
            q > 0,
            p < -q,
    ;
    assert(p1 * q - p * q1 == p * p * q * (-p - q)) by (nonlinear_arith)
        requires
            p1 == p * p * (2 * p + q),
            q1 == p * q * (3 * p + 2 * q),
    ;
    assert(p * p * q * (-p - q) > 0) by (nonlinear_arith)
        requires
            q > 0,
            p < -q,
    ;
    assert((p1 + q1) * q * (3 * p + 2 * q) == 2 * (p + q) * (p + q) * q1) by (nonlinear_arith)
        requires
            p1 + q1 == 2 * p * (p + q) * (p + q),
            q1 == p * q * (3 * p + 2 * q),
    ;
    assert(-(p1 + q1) * q * q <= 2 * (p + q) * (p + q) * q1) by (nonlinear_arith)
        requires
            q > 0,
            p < -q,
            p1 + q1 < 0,
            (p1 + q1) * q * (3 * p + 2 * q) == 2 * (p + q) * (p + q) * q1,
    {
        assert(-(3 * p + 2 * q) > q);
        assert(-(p1 + q1) * q > 0);
        assert(-(p1 + q1) * q * q <= -(p1 + q1) * q * (-(3 * p + 2 * q)));
    }
}

/// Started from x = −5, the estimates of x³ + x² rise step by step and stay
/// between −5 and −1: the search heads for the root −1.
pub proof fn lemma_converges_from_minus_five(n: nat)
    ensures
        ({
            let (p, q) = newton_iterate(explored(), -5, 1, n);
            let (p1, q1) = newton_iterate(explored(), -5, 1, n + 1);
            &&& q > 0
            &&& -5 * q <= p < -q
            &&& p1 * q > p * q1
        }),
    decreases n,
{
    if n > 0 {
        let m = (n - 1) as nat;
        lemma_converges_from_minus_five(m);
        let (p0, q0) = newton_iterate(explored(), -5, 1, m);
        lemma_step_approaches_minus_one(p0, q0);
        let (p, q) = newton_iterate(explored(), -5, 1, n);
        assert(-5 * q <= p) by (nonlinear_arith)
            requires
                q0 > 0,
                q > 0,
                -5 * q0 <= p0,
                p * q0 > p0 * q,
        {
            assert(p * q0 > -5 * q0 * q);
        }
    }
    let (p, q) = newton_iterate(explored(), -5, 1, n);
    lemma_step_approaches_minus_one(p, q);
}

} // verus!
