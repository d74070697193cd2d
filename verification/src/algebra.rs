//! Facts of real arithmetic.
use vstd::prelude::*;

verus! {

/// The square of a sum.
pub proof fn square_of_sum(p: real, q: real)
    ensures
        (p + q) * (p + q) == p * p + 2real * (p * q) + q * q,
{
    assert((p + q) * (p + q) == p * p + 2real * (p * q) + q * q) by (nonlinear_arith);
}

/// A product with a sum.
pub proof fn product_with_sum(a: real, b: real, t: real)
    ensures
        (a + b) * t == a * t + b * t,
        (a - b) * t == a * t - b * t,
{
    assert((a + b) * t == a * t + b * t) by (nonlinear_arith);
    assert((a - b) * t == a * t - b * t) by (nonlinear_arith);
}

/// Factors change places.
pub proof fn factors_change_places(p: real, v: real, t: real)
    ensures
        p * (v * t) == (p * v) * t,
        (p * v) * t == (p * t) * v,
        (p * v) * t == v * (p * t),
        (v * t) * (v * t) == (v * v) * (t * t),
{
    assert(p * (v * t) == (p * v) * t) by (nonlinear_arith);
    assert((p * v) * t == (p * t) * v) by (nonlinear_arith);
    assert((p * v) * t == v * (p * t)) by (nonlinear_arith);
    assert((v * t) * (v * t) == (v * v) * (t * t)) by (nonlinear_arith);
}

/// Signs move out of products.
pub proof fn signs_move_out(a: real, b: real)
    ensures
        (-a) * b == -(a * b),
        a * (-b) == -(a * b),
        (-a) * (-b) == a * b,
        a * b == b * a,
{
    assert((-a) * b == -(a * b)) by (nonlinear_arith);
    assert(a * (-b) == -(a * b)) by (nonlinear_arith);
    assert((-a) * (-b) == a * b) by (nonlinear_arith);
    assert(a * b == b * a) by (nonlinear_arith);
}

/// The square of a distance that changes evenly, by powers of the time.
pub proof fn distance_by_powers(px: real, py: real, vx: real, vy: real, t: real)
    ensures
        (px + vx * t) * (px + vx * t) + (py + vy * t) * (py + vy * t) == (px * px + py * py)
            + 2real * ((px * vx + py * vy) * t) + (vx * vx + vy * vy) * (t * t),
{
    square_of_sum(px, vx * t);
    square_of_sum(py, vy * t);
    factors_change_places(px, vx, t);
    factors_change_places(py, vy, t);
    product_with_sum(px * vx, py * vy, t);
    product_with_sum(vx * vx, vy * vy, t * t);
}

/// A square is not negative, nor is a positive multiple of it.
pub proof fn square_is_not_negative(v: real, d: real)
    requires
        v >= 0real,
    ensures
        v * (d * d) >= 0real,
{
    assert(d * d >= 0real) by (nonlinear_arith);
    let q = d * d;
    assert(v * q >= 0real) by (nonlinear_arith)
        requires
            v >= 0real,
            q >= 0real,
    ;
}

/// A quadratic is least at its vertex.
pub proof fn vertex_is_least(c: real, a: real, v: real, s: real, t: real)
    requires
        v >= 0real,
        a == -(s * v),
    ensures
        c + 2real * (a * s) + v * (s * s) <= c + 2real * (a * t) + v * (t * t),
{
    let d = t - s;
    let m = s * v;
    square_is_not_negative(v, d);
    signs_move_out(m, t);
    signs_move_out(m, s);
    // The square of the difference, by its parts.
    square_of_sum(t, -s);
    signs_move_out(t, s);
    signs_move_out(s, s);
    assert(d == t + (-s));
    assert(d * d == t * t - 2real * (s * t) + s * s);
    signs_move_out(v, d * d);
    product_with_sum(t * t - 2real * (s * t), s * s, v);
    product_with_sum(t * t, 2real * (s * t), v);
    signs_move_out(t * t, v);
    signs_move_out(s * s, v);
    assert((2real * (s * t)) * v == 2real * ((s * t) * v)) by (nonlinear_arith);
    factors_change_places(s, v, t);
    factors_change_places(s, v, s);
}

/// Dividing and multiplying by a number cancel.
pub proof fn quotient_times_divisor(a: real, v: real)
    requires
        v != 0real,
    ensures
        (a / v) * v == a,
{
    assert((a / v) * v == a) by (nonlinear_arith)
        requires
            v != 0real,
    ;
}

} // verus!
