//! Facts about integer multiplication that the default solver does not find
//! by itself, and the range of the machine scalar.

use vstd::prelude::*;

verus! {

/// Whether a mathematical integer can be held in a machine scalar.
pub open spec fn fits_i64(v: int) -> bool {
    i64::MIN <= v <= i64::MAX
}

/// Absolute difference of two integers.
pub open spec fn abs_diff(a: int, b: int) -> int {
    if a >= b {
        a - b
    } else {
        b - a
    }
}

/// A factor distributes over a sum of two terms, on either side.
pub proof fn lemma_mul_distributes2(a: int, p: int, q: int)
    by (nonlinear_arith)
    ensures
        a * (p + q) == a * p + a * q,
        (p + q) * a == p * a + q * a,
{
}

/// A factor distributes over a sum of three terms, on either side.
pub proof fn lemma_mul_distributes3(a: int, p: int, q: int, r: int)
    by (nonlinear_arith)
    ensures
        a * (p + q + r) == a * p + a * q + a * r,
        (p + q + r) * a == p * a + q * a + r * a,
{
}

/// A product of three factors can be grouped either way.
pub proof fn lemma_mul_assoc(a: int, b: int, c: int)
    by (nonlinear_arith)
    ensures
        a * (b * c) == (a * b) * c,
{
}

/// In a product of three factors the second can be brought to the front.
pub proof fn lemma_mul_swap(a: int, b: int, c: int)
    by (nonlinear_arith)
    ensures
        (a * b) * c == b * (a * c),
{
}

/// The product of two machine scalars lies between `-(2^63 - 1) * 2^63` and
/// `2^126`, well inside 128 bits.
pub proof fn lemma_mul_i64_bound(a: i64, b: i64)
    ensures
        -0x3fff_ffff_ffff_ffff_8000_0000_0000_0000 <= a * b
            <= 0x4000_0000_0000_0000_0000_0000_0000_0000,
{
    let x = a as int;
    let y = b as int;
    if x >= 0 && y >= 0 {
        assert(0 <= x * y <= 0x4000_0000_0000_0000_0000_0000_0000_0000) by (nonlinear_arith)
            requires
                0 <= x <= 0x7fff_ffff_ffff_ffff,
                0 <= y <= 0x7fff_ffff_ffff_ffff,
        ;
    } else if x < 0 && y < 0 {
        assert(0 <= x * y <= 0x4000_0000_0000_0000_0000_0000_0000_0000) by (nonlinear_arith)
            requires
                -0x8000_0000_0000_0000 <= x < 0,
                -0x8000_0000_0000_0000 <= y < 0,
        ;
    } else if x >= 0 {
        assert(-0x3fff_ffff_ffff_ffff_8000_0000_0000_0000 <= x * y <= 0) by (nonlinear_arith)
            requires
                0 <= x <= 0x7fff_ffff_ffff_ffff,
                -0x8000_0000_0000_0000 <= y < 0,
        ;
    } else {
        assert(-0x3fff_ffff_ffff_ffff_8000_0000_0000_0000 <= x * y <= 0) by (nonlinear_arith)
            requires
                -0x8000_0000_0000_0000 <= x < 0,
                0 <= y <= 0x7fff_ffff_ffff_ffff,
        ;
    }
}

/// Multiplying by -1, 0 or 1 negates, clears or keeps the other factor.
pub proof fn lemma_mul_by_sign(k: int, x: int)
    by (nonlinear_arith)
    requires
        -1 <= k <= 1,
    ensures
        k * x == (if k == 1 {
            x
        } else if k == 0 {
            0
        } else {
            -x
        }),
        x * k == k * x,
{
}

/// A sign on either factor can be taken out of a product.
pub proof fn lemma_mul_neg(a: int, b: int)
    by (nonlinear_arith)
    ensures
        (-a) * b == -(a * b),
        a * (-b) == -(a * b),
        (-a) * (-b) == a * b,
{
}

/// A quaternion times its conjugate scaled by `k`, component by component:
/// the squared magnitude times `k`, and nothing in the vector part.
pub proof fn lemma_conjugate_products(s: int, x: int, y: int, z: int, k: int)
    ensures
        s * (s * k) - x * ((-x) * k) - y * ((-y) * k) - z * ((-z) * k) == (s * s + x * x + y * y
            + z * z) * k,
        s * ((-x) * k) + x * (s * k) + y * ((-z) * k) - z * ((-y) * k) == 0,
        s * ((-y) * k) + y * (s * k) + z * ((-x) * k) - x * ((-z) * k) == 0,
        s * ((-z) * k) + z * (s * k) + x * ((-y) * k) - y * ((-x) * k) == 0,
        (s * k) * s - ((-x) * k) * x - ((-y) * k) * y - ((-z) * k) * z == (s * s + x * x + y * y
            + z * z) * k,
        (s * k) * x + ((-x) * k) * s + ((-y) * k) * z - ((-z) * k) * y == 0,
        (s * k) * y + ((-y) * k) * s + ((-z) * k) * x - ((-x) * k) * z == 0,
        (s * k) * z + ((-z) * k) * s + ((-x) * k) * y - ((-y) * k) * x == 0,
{
    lemma_term(s, s, k);
    lemma_term(s, x, k);
    lemma_term(s, y, k);
    lemma_term(s, z, k);
    lemma_term(x, s, k);
    lemma_term(x, x, k);
    lemma_term(x, y, k);
    lemma_term(x, z, k);
    lemma_term(y, s, k);
    lemma_term(y, x, k);
    lemma_term(y, y, k);
    lemma_term(y, z, k);
    lemma_term(z, s, k);
    lemma_term(z, x, k);
    lemma_term(z, y, k);
    lemma_term(z, z, k);
    lemma_mul_distributes4(k, s * s, x * x, y * y, z * z);
}

/// The products of `a` with `b * k` and with `(-b) * k`, on either side, in
/// terms of `k * (a * b)`.
proof fn lemma_term(a: int, b: int, k: int)
    by (nonlinear_arith)
    ensures
        a * (b * k) == k * (a * b),
        a * ((-b) * k) == -(k * (a * b)),
        (b * k) * a == k * (a * b),
        ((-b) * k) * a == -(k * (a * b)),
        k * (a * b) == k * (b * a),
{
}

/// A factor distributes over a sum of four terms, on either side.
pub proof fn lemma_mul_distributes4(a: int, p: int, q: int, r: int, t: int)
    by (nonlinear_arith)
    ensures
        a * (p + q + r + t) == a * p + a * q + a * r + a * t,
        (p + q + r + t) * a == a * p + a * q + a * r + a * t,
{
}

/// A square is not negative.
pub proof fn lemma_square_nonneg(x: int)
    by (nonlinear_arith)
    ensures
        x * x >= 0,
{
}

/// Two integer squares that sum to one: one of the numbers is 1 or -1 and
/// the other is zero.
pub proof fn lemma_unit_square_sum2(a: int, b: int)
    by (nonlinear_arith)
    requires
        a * a + b * b == 1,
    ensures
        -1 <= a <= 1,
        -1 <= b <= 1,
        a != 0 ==> b == 0,
        a == 0 ==> b != 0,
{
}

/// Three integer squares that sum to one: exactly one of the numbers is 1 or
/// -1 and the other two are zero.
pub proof fn lemma_unit_square_sum3(a: int, b: int, c: int)
    by (nonlinear_arith)
    requires
        a * a + b * b + c * c == 1,
    ensures
        -1 <= a <= 1,
        -1 <= b <= 1,
        -1 <= c <= 1,
        a != 0 ==> b == 0 && c == 0,
        b != 0 ==> a == 0 && c == 0,
        c != 0 ==> a == 0 && b == 0,
        a != 0 || b != 0 || c != 0,
{
}

/// Four integer squares that sum to one: exactly one of the numbers is 1 or
/// -1 and the other three are zero.
pub proof fn lemma_unit_square_sum4(a: int, b: int, c: int, d: int)
    by (nonlinear_arith)
    requires
        a * a + b * b + c * c + d * d == 1,
    ensures
        -1 <= a <= 1,
        -1 <= b <= 1,
        -1 <= c <= 1,
        -1 <= d <= 1,
        a != 0 ==> b == 0 && c == 0 && d == 0,
        b != 0 ==> a == 0 && c == 0 && d == 0,
        c != 0 ==> a == 0 && b == 0 && d == 0,
        d != 0 ==> a == 0 && b == 0 && c == 0,
        a != 0 || b != 0 || c != 0 || d != 0,
{
}

/// A row times a combination of two columns, regrouped by the weights.
pub proof fn lemma_row_of_product2(
    a1: int, a2: int,
    u1: int, u2: int,
    q1: int, q2: int,
    v1: int, v2: int,
)
    ensures
        a1 * (u1 * v1 + q1 * v2) + a2 * (u2 * v1 + q2 * v2)
            == (a1 * u1 + a2 * u2) * v1 + (a1 * q1 + a2 * q2) * v2,
{
    lemma_mul_distributes2(a1, u1 * v1, q1 * v2);
    lemma_mul_distributes2(a2, u2 * v1, q2 * v2);
    lemma_mul_assoc(a1, u1, v1);
    lemma_mul_assoc(a1, q1, v2);
    lemma_mul_assoc(a2, u2, v1);
    lemma_mul_assoc(a2, q2, v2);
    lemma_mul_distributes2(v1, a1 * u1, a2 * u2);
    lemma_mul_distributes2(v2, a1 * q1, a2 * q2);
}

/// The rows of a matrix times `p`, weighted by `w`, regrouped as the
/// columns times `w`, weighted by `p`.
pub proof fn lemma_weights_across2(
    m11: int, m12: int,
    m21: int, m22: int,
    u1: int, u2: int,
    w1: int, w2: int,
)
    ensures
        (m11 * u1 + m12 * u2) * w1 + (m21 * u1 + m22 * u2) * w2 == u1 * (m11 * w1 + m21 * w2) + u2
            * (m12 * w1 + m22 * w2),
{
    lemma_mul_distributes2(w1, m11 * u1, m12 * u2);
    lemma_mul_distributes2(w2, m21 * u1, m22 * u2);
    lemma_mul_distributes2(u1, m11 * w1, m21 * w2);
    lemma_mul_distributes2(u2, m12 * w1, m22 * w2);
    lemma_mul_swap(m11, u1, w1);
    lemma_mul_swap(m12, u2, w1);
    lemma_mul_swap(m21, u1, w2);
    lemma_mul_swap(m22, u2, w2);
}

/// The rows of a matrix times `p`, weighted by `w`, regrouped as the
/// columns times `w`, weighted by `p`.
pub proof fn lemma_weights_across3(
    m11: int, m12: int, m13: int,
    m21: int, m22: int, m23: int,
    m31: int, m32: int, m33: int,
    u1: int, u2: int, u3: int,
    w1: int, w2: int, w3: int,
)
    ensures
        (m11 * u1 + m12 * u2 + m13 * u3) * w1 + (m21 * u1 + m22 * u2 + m23 * u3) * w2 + (m31 * u1
            + m32 * u2 + m33 * u3) * w3 == u1 * (m11 * w1 + m21 * w2 + m31 * w3) + u2 * (m12 * w1
            + m22 * w2 + m32 * w3) + u3 * (m13 * w1 + m23 * w2 + m33 * w3),
{
    lemma_mul_distributes3(w1, m11 * u1, m12 * u2, m13 * u3);
    lemma_mul_distributes3(w2, m21 * u1, m22 * u2, m23 * u3);
    lemma_mul_distributes3(w3, m31 * u1, m32 * u2, m33 * u3);
    lemma_mul_distributes3(u1, m11 * w1, m21 * w2, m31 * w3);
    lemma_mul_distributes3(u2, m12 * w1, m22 * w2, m32 * w3);
    lemma_mul_distributes3(u3, m13 * w1, m23 * w2, m33 * w3);
    lemma_mul_swap(m11, u1, w1);
    lemma_mul_swap(m12, u2, w1);
    lemma_mul_swap(m13, u3, w1);
    lemma_mul_swap(m21, u1, w2);
    lemma_mul_swap(m22, u2, w2);
    lemma_mul_swap(m23, u3, w2);
    lemma_mul_swap(m31, u1, w3);
    lemma_mul_swap(m32, u2, w3);
    lemma_mul_swap(m33, u3, w3);
}

/// A row times a combination of three columns, regrouped by the weights.
pub proof fn lemma_row_of_product3(
    a1: int, a2: int, a3: int,
    u1: int, u2: int, u3: int,
    q1: int, q2: int, q3: int,
    r1: int, r2: int, r3: int,
    v1: int, v2: int, v3: int,
)
    ensures
        a1 * (u1 * v1 + q1 * v2 + r1 * v3) + a2 * (u2 * v1 + q2 * v2 + r2 * v3) + a3 * (u3 * v1
            + q3 * v2 + r3 * v3) == (a1 * u1 + a2 * u2 + a3 * u3) * v1 + (a1 * q1 + a2 * q2 + a3
            * q3) * v2 + (a1 * r1 + a2 * r2 + a3 * r3) * v3,
{
    lemma_mul_distributes3(a1, u1 * v1, q1 * v2, r1 * v3);
    lemma_mul_distributes3(a2, u2 * v1, q2 * v2, r2 * v3);
    lemma_mul_distributes3(a3, u3 * v1, q3 * v2, r3 * v3);
    lemma_mul_assoc(a1, u1, v1);
    lemma_mul_assoc(a1, q1, v2);
    lemma_mul_assoc(a1, r1, v3);
    lemma_mul_assoc(a2, u2, v1);
    lemma_mul_assoc(a2, q2, v2);
    lemma_mul_assoc(a2, r2, v3);
    lemma_mul_assoc(a3, u3, v1);
    lemma_mul_assoc(a3, q3, v2);
    lemma_mul_assoc(a3, r3, v3);
    lemma_mul_distributes3(v1, a1 * u1, a2 * u2, a3 * u3);
    lemma_mul_distributes3(v2, a1 * q1, a2 * q2, a3 * q3);
    lemma_mul_distributes3(v3, a1 * r1, a2 * r2, a3 * r3);
}

/// The exact product of two machine scalars, in twice the width.
pub(crate) fn wide_mul(a: i64, b: i64) -> (r: i128)
    ensures
        r == a * b,
        -0x3fff_ffff_ffff_ffff_8000_0000_0000_0000 <= r
            <= 0x4000_0000_0000_0000_0000_0000_0000_0000,
{
    proof {
        lemma_mul_i64_bound(a, b);
    }
    (a as i128) * (b as i128)
}

/// `a - b + c + d`, where `a` and `b` are products of machine scalars, `c`
/// and `d` are such products or their opposites, and the total can be held.
pub(crate) fn sum_of_products(a: i128, b: i128, c: i128, d: i128) -> (r: i64)
    requires
        -0x3fff_ffff_ffff_ffff_8000_0000_0000_0000 <= a
            <= 0x4000_0000_0000_0000_0000_0000_0000_0000,
        -0x3fff_ffff_ffff_ffff_8000_0000_0000_0000 <= b
            <= 0x4000_0000_0000_0000_0000_0000_0000_0000,
        -0x4000_0000_0000_0000_0000_0000_0000_0000 <= c
            <= 0x4000_0000_0000_0000_0000_0000_0000_0000,
        -0x4000_0000_0000_0000_0000_0000_0000_0000 <= d
            <= 0x4000_0000_0000_0000_0000_0000_0000_0000,
        fits_i64(a - b + c + d),
    ensures
        r == a - b + c + d,
{
    let u: i128 = a - b;
    let w: i128 = u + c;
    narrow(w + d)
}

/// A wide value that is known to fit, as a machine scalar.
pub(crate) fn narrow(v: i128) -> (r: i64)
    requires
        fits_i64(v as int),
    ensures
        r == v,
{
    v as i64
}

/// The product of a sign (-1, 0 or 1) and a scalar that can be negated.
pub(crate) fn sign_mul(k: i64, x: i64) -> (r: i64)
    requires
        -1 <= k <= 1,
        x > i64::MIN,
    ensures
        r == k * x,
        r == x * k,
        k == 1 ==> r == x,
        k == 0 ==> r == 0,
        k == -1 ==> r == -x,
{
    proof {
        lemma_mul_by_sign(k as int, x as int);
    }
    k * x
}

/// The product of a sign (-1, 0 or 1) and a wide value that can be negated.
pub(crate) fn sign_mul_wide(k: i64, x: i128) -> (r: i128)
    requires
        -1 <= k <= 1,
        x > i128::MIN,
    ensures
        r == k * x,
        r == x * k,
        k == 1 ==> r == x,
        k == 0 ==> r == 0,
        k == -1 ==> r == -x,
{
    proof {
        lemma_mul_by_sign(k as int, x as int);
    }
    (k as i128) * x
}

/// The product of two scalars between -2 and 2.
pub(crate) fn tiny_mul(a: i64, b: i64) -> (r: i64)
    requires
        -2 <= a <= 2,
        -2 <= b <= 2,
    ensures
        r == a * b,
        -4 <= r <= 4,
{
    assert(-4 <= a * b <= 4) by (nonlinear_arith)
        requires
            -2 <= a <= 2,
            -2 <= b <= 2,
    ;
    a * b
}

} // verus!
