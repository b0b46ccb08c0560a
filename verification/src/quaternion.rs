//! Quaternions with fractional components: whole numerators over one
//! denominator, so that the inverse of every quaternion that is not zero can
//! be held.

use crate::approx::ApproxEq;
use crate::arith::{
    abs_diff, fits_i64, lemma_mul_neg, lemma_unit_square_sum4, narrow, sign_mul, sign_mul_wide,
    sum_of_products, wide_mul,
};
use crate::convert::{AsRotation3, ToMat3, ToQuat};
use crate::lemmas::lemma_unit_quat_matrix;
use crate::matrix::Mat3;
use crate::model::{IntMat3, IntQuat, IntVec3, RatQuat};
use crate::vector::Vec3;
use vstd::prelude::*;

verus! {

/// The scalar `num / den` of a quaternion with fractional components.
#[derive(Clone, Copy, Debug, PartialEq, Eq, Structural)]
pub struct Ratio {
    pub num: i64,
    pub den: i64,
}

impl Ratio {
    pub fn new(num: i64, den: i64) -> (r: Ratio)
        ensures
            r.num == num,
            r.den == den,
    {
        Ratio { num, den }
    }
}

/// The quaternion `(s + v.x i + v.y j + v.z k) / den`.
#[derive(Clone, Copy, Debug, PartialEq, Eq, Structural)]
pub struct Quat {
    pub s: i64,
    pub v: Vec3,
    pub den: i64,
}

impl View for Quat {
    type V = RatQuat;

    open spec fn view(&self) -> RatQuat {
        RatQuat { n: IntQuat { s: self.s as int, v: self.v@ }, d: self.den as int }
    }
}

/// Whether `a / d` and `b / e` differ by less than `eps`, for positive `d` and `e`.
fn close_fraction(a: i64, d: i64, b: i64, e: i64, eps: i64) -> (r: bool)
    requires
        d > 0,
        e > 0,
    ensures
        r == (abs_diff(a * e, b * d) < eps * (d * e)),
{
    let ae: i128 = wide_mul(a, e);
    let bd: i128 = wide_mul(b, d);
    let g: i128 = wide_mul(d, e);
    let diff: i128 = if ae >= bd {
        ae - bd
    } else {
        bd - ae
    };
    assert(g > 0) by (nonlinear_arith)
        requires
            d > 0,
            e > 0,
            g == d * e,
    ;
    let q: i128 = diff / g;
    proof {
        let t = diff % g;
        vstd::arithmetic::div_mod::lemma_fundamental_div_mod(diff as int, g as int);
        assert(0 <= t < g);
        assert((q < eps) == (diff < eps * g)) by (nonlinear_arith)
            requires
                g > 0,
                0 <= t < g,
                diff == g * q + t,
        ;
    }
    q < eps as i128
}

impl Quat {
    /// The machine quaternion that holds `q`, for a `q` that fits.
    pub open spec fn holding(q: RatQuat) -> Quat {
        Quat { s: q.n.s as i64, v: Vec3::holding(q.n.v), den: q.d as i64 }
    }

    /// The quaternion with whole components `s + xi i + yj j + zk k`.
    pub fn new(s: i64, xi: i64, yj: i64, zk: i64) -> (q: Quat)
        ensures
            q.s == s,
            q.v == (Vec3 { x: xi, y: yj, z: zk }),
            q.den == 1,
    {
        Quat { s, v: Vec3 { x: xi, y: yj, z: zk }, den: 1 }
    }

    /// The quaternion `(s + xi i + yj j + zk k) / den`.
    pub fn fraction(s: i64, xi: i64, yj: i64, zk: i64, den: i64) -> (q: Quat)
        ensures
            q.s == s,
            q.v == (Vec3 { x: xi, y: yj, z: zk }),
            q.den == den,
    {
        Quat { s, v: Vec3 { x: xi, y: yj, z: zk }, den }
    }

    pub fn from_sv(s: i64, v: Vec3) -> (q: Quat)
        ensures
            q.s == s,
            q.v == v,
            q.den == 1,
    {
        Quat { s, v, den: 1 }
    }

    pub fn identity() -> (q: Quat)
        ensures
            q@.is_one(),
            q@.is_whole_unit(),
            q == (Quat { s: 1, v: Vec3 { x: 0, y: 0, z: 0 }, den: 1 }),
    {
        Quat::new(1, 0, 0, 0)
    }

    /// The conjugate, where it can be held.
    pub fn conjugate(&self) -> (q: Quat)
        requires
            self@.conjugate().fits(),
        ensures
            q@ == self@.conjugate(),
    {
        Quat { s: self.s, v: Vec3 { x: -self.v.x, y: -self.v.y, z: -self.v.z }, den: self.den }
    }

    /// The squared magnitude, where its numerator and denominator can be held.
    pub fn magnitude2(&self) -> (m: Ratio)
        requires
            fits_i64(self@.magnitude2_num()),
            fits_i64(self@.magnitude2_den()),
        ensures
            m.num == self@.magnitude2_num(),
            m.den == self@.magnitude2_den(),
    {
        let a: i128 = wide_mul(self.s, self.s);
        let b: i128 = wide_mul(self.v.x, self.v.x);
        let c: i128 = wide_mul(self.v.y, self.v.y);
        let d: i128 = wide_mul(self.v.z, self.v.z);
        assert(a >= 0 && b >= 0 && c >= 0 && d >= 0) by (nonlinear_arith)
            requires
                a == self.s * self.s,
                b == self.v.x * self.v.x,
                c == self.v.y * self.v.y,
                d == self.v.z * self.v.z,
        ;
        Ratio { num: narrow(a + b + c + d), den: narrow(wide_mul(self.den, self.den)) }
    }

    /// The quaternion divided by the scalar `k`, where the result can be held.
    pub fn div_s(&self, k: &Ratio) -> (q: Quat)
        requires
            k.num != 0,
            self@.div_s(k.num as int, k.den as int).fits(),
        ensures
            q@ == self@.div_s(k.num as int, k.den as int),
    {
        if k.num > 0 {
            Quat {
                s: narrow(wide_mul(self.s, k.den)),
                v: Vec3 {
                    x: narrow(wide_mul(self.v.x, k.den)),
                    y: narrow(wide_mul(self.v.y, k.den)),
                    z: narrow(wide_mul(self.v.z, k.den)),
                },
                den: narrow(wide_mul(self.den, k.num)),
            }
        } else {
            proof {
                lemma_mul_neg(self.s as int, k.den as int);
                lemma_mul_neg(self.v.x as int, k.den as int);
                lemma_mul_neg(self.v.y as int, k.den as int);
                lemma_mul_neg(self.v.z as int, k.den as int);
                lemma_mul_neg(self.den as int, k.num as int);
            }
            Quat {
                s: narrow(-wide_mul(self.s, k.den)),
                v: Vec3 {
                    x: narrow(-wide_mul(self.v.x, k.den)),
                    y: narrow(-wide_mul(self.v.y, k.den)),
                    z: narrow(-wide_mul(self.v.z, k.den)),
                },
                den: narrow(-wide_mul(self.den, k.num)),
            }
        }
    }

    /// The Hamilton product `self * other`, where the result can be held.
    pub fn mul_q(&self, other: &Quat) -> (q: Quat)
        requires
            self@.mul_q(other@).fits(),
        ensures
            q@ == self@.mul_q(other@),
    {
        let ss: i128 = wide_mul(self.s, other.s);
        let xx: i128 = wide_mul(self.v.x, other.v.x);
        let yy: i128 = wide_mul(self.v.y, other.v.y);
        let zz: i128 = wide_mul(self.v.z, other.v.z);
        let s: i64 = sum_of_products(ss, xx, -yy, -zz);
        let sx: i128 = wide_mul(self.s, other.v.x);
        let xs: i128 = wide_mul(self.v.x, other.s);
        let yz: i128 = wide_mul(self.v.y, other.v.z);
        let zy: i128 = wide_mul(self.v.z, other.v.y);
        let x: i64 = sum_of_products(sx, zy, xs, yz);
        let sy: i128 = wide_mul(self.s, other.v.y);
        let ys: i128 = wide_mul(self.v.y, other.s);
        let zx: i128 = wide_mul(self.v.z, other.v.x);
        let xz: i128 = wide_mul(self.v.x, other.v.z);
        let y: i64 = sum_of_products(sy, xz, ys, zx);
        let sz: i128 = wide_mul(self.s, other.v.z);
        let zs: i128 = wide_mul(self.v.z, other.s);
        let xy: i128 = wide_mul(self.v.x, other.v.y);
        let yx: i128 = wide_mul(self.v.y, other.v.x);
        let z: i64 = sum_of_products(sz, yx, zs, xy);
        Quat { s, v: Vec3 { x, y, z }, den: narrow(wide_mul(self.den, other.den)) }
    }

    /// The vector `u` turned by a unit quaternion with whole components,
    /// where the result can be held.
    pub fn mul_v(&self, u: &Vec3) -> (r: Vec3)
        requires
            self@.is_whole_unit(),
            self@.n.mul_v(u@).fits(),
        ensures
            r@ == self@.n.mul_v(u@),
    {
        proof {
            lemma_unit_square_sum4(self.s as int, self.v.x as int, self.v.y as int, self.v.z as int);
        }
        let ux: i128 = u.x as i128;
        let uy: i128 = u.y as i128;
        let uz: i128 = u.z as i128;
        let tx: i128 = sign_mul_wide(self.v.y, uz) - sign_mul_wide(self.v.z, uy) + sign_mul_wide(
            self.s,
            ux,
        );
        let ty: i128 = sign_mul_wide(self.v.z, ux) - sign_mul_wide(self.v.x, uz) + sign_mul_wide(
            self.s,
            uy,
        );
        let tz: i128 = sign_mul_wide(self.v.x, uy) - sign_mul_wide(self.v.y, ux) + sign_mul_wide(
            self.s,
            uz,
        );
        let wx: i128 = sign_mul_wide(self.v.y, tz) - sign_mul_wide(self.v.z, ty);
        let wy: i128 = sign_mul_wide(self.v.z, tx) - sign_mul_wide(self.v.x, tz);
        let wz: i128 = sign_mul_wide(self.v.x, ty) - sign_mul_wide(self.v.y, tx);
        Vec3 { x: narrow(wx * 2 + ux), y: narrow(wy * 2 + uy), z: narrow(wz * 2 + uz) }
    }
}

impl ApproxEq for Quat {
    open spec fn within(&self, other: &Quat, eps: int) -> bool {
        self@.within(other@, eps)
    }

    fn approx_epsilon() -> (eps: i64) {
        1
    }

    fn approx_eq(&self, other: &Quat) -> (r: bool) {
        self.approx_eq_eps(other, &1)
    }

    fn approx_eq_eps(&self, other: &Quat, approx_epsilon: &i64) -> (r: bool) {
        let eps: i64 = *approx_epsilon;
        if self.den <= 0 || other.den <= 0 {
            return false;
        }
        let d: i64 = self.den;
        let e: i64 = other.den;
        close_fraction(self.s, d, other.s, e, eps) && close_fraction(self.v.x, d, other.v.x, e, eps)
            && close_fraction(self.v.y, d, other.v.y, e, eps) && close_fraction(
            self.v.z,
            d,
            other.v.z,
            e,
            eps,
        )
    }
}

/// A quaternion stands for a rotation when it has whole components and
/// length one; the caller sees to that, and nothing here brings a quaternion
/// back to unit length.
impl AsRotation3 for Quat {
    open spec fn is_rotation(&self) -> bool {
        self@.is_whole_unit()
    }

    open spec fn matrix(&self) -> IntMat3 {
        self@.n.to_mat3()
    }

    proof fn lemma_matrix_is_rotation(&self) {
        lemma_unit_quat_matrix(self@.n, IntVec3 { x: 0, y: 0, z: 0 });
    }
}

impl ToMat3 for Quat {
    /// The matrix by the usual formula, entry by entry.
    fn to_mat3(&self) -> (m: Mat3) {
        proof {
            lemma_unit_square_sum4(self.s as int, self.v.x as int, self.v.y as int, self.v.z as int);
        }
        let xx: i64 = sign_mul(self.v.x, self.v.x);
        let yy: i64 = sign_mul(self.v.y, self.v.y);
        let zz: i64 = sign_mul(self.v.z, self.v.z);
        let xy: i64 = sign_mul(self.v.x, self.v.y);
        let xz: i64 = sign_mul(self.v.x, self.v.z);
        let yz: i64 = sign_mul(self.v.y, self.v.z);
        let sx: i64 = sign_mul(self.s, self.v.x);
        let sy: i64 = sign_mul(self.s, self.v.y);
        let sz: i64 = sign_mul(self.s, self.v.z);
        Mat3::new(
            1 - 2 * yy - 2 * zz,
            2 * xy + 2 * sz,
            2 * xz - 2 * sy,
            2 * xy - 2 * sz,
            1 - 2 * xx - 2 * zz,
            2 * yz + 2 * sx,
            2 * xz + 2 * sy,
            2 * yz - 2 * sx,
            1 - 2 * xx - 2 * yy,
        )
    }
}

impl ToQuat for Quat {
    /// The quaternion itself, whatever its length.
    fn to_quat(&self) -> (q: Quat)
        ensures
            q == *self,
    {
        *self
    }
}

} // verus!
