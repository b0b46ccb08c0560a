//! Square matrices with machine-integer entries, held by columns.

use crate::angle::Angle;
use crate::approx::{close, ApproxEq};
use crate::arith::{fits_i64, narrow, sign_mul, tiny_mul, wide_mul};
use crate::lemmas::{
    lemma_axis_angle_is_rotation, lemma_euler_is_rotation, lemma_look_at_is_rotation,
    lemma_orthogonal_entries3, lemma_small_product_fits, lemma_turn_is_rotation2,
    lemma_turn_x_is_rotation, lemma_turn_y_is_rotation, lemma_turn_z_is_rotation,
};
use crate::arith::lemma_unit_square_sum3;
use crate::model::{IntMat2, IntMat3};
use crate::quaternion::Quat;
use crate::vector::{sign_of_wide, Vec2, Vec3};
use vstd::prelude::*;

verus! {

/// A 2x2 matrix with columns `x` and `y`.
#[derive(Clone, Copy, Debug, PartialEq, Eq, Structural)]
pub struct Mat2 {
    pub x: Vec2,
    pub y: Vec2,
}

impl View for Mat2 {
    type V = IntMat2;

    open spec fn view(&self) -> IntMat2 {
        IntMat2 { x: self.x@, y: self.y@ }
    }
}

impl Mat2 {
    /// The machine matrix that holds `m`, for an `m` that fits.
    pub open spec fn holding(m: IntMat2) -> Mat2 {
        Mat2 { x: Vec2::holding(m.x), y: Vec2::holding(m.y) }
    }

    /// The matrix with the given entries, column by column.
    pub fn new(c0r0: i64, c0r1: i64, c1r0: i64, c1r1: i64) -> (m: Mat2)
        ensures
            m.x == (Vec2 { x: c0r0, y: c0r1 }),
            m.y == (Vec2 { x: c1r0, y: c1r1 }),
    {
        Mat2 { x: Vec2 { x: c0r0, y: c0r1 }, y: Vec2 { x: c1r0, y: c1r1 } }
    }

    pub fn from_cols(x: Vec2, y: Vec2) -> (m: Mat2)
        ensures
            m.x == x,
            m.y == y,
    {
        Mat2 { x, y }
    }

    pub fn identity() -> (m: Mat2)
        ensures
            m@ == IntMat2::identity(),
    {
        Mat2::new(1, 0, 0, 1)
    }

    pub fn transpose(&self) -> (m: Mat2)
        ensures
            m@ == self@.transpose(),
    {
        Mat2::new(self.x.x, self.y.x, self.x.y, self.y.y)
    }

    /// The matrix applied to a column vector, where the result can be held.
    pub fn mul_v(&self, v: &Vec2) -> (r: Vec2)
        requires
            self@.mul_v(v@).fits(),
        ensures
            r@ == self@.mul_v(v@),
    {
        let x: i128 = wide_mul(self.x.x, v.x) + wide_mul(self.y.x, v.y);
        let y: i128 = wide_mul(self.x.y, v.x) + wide_mul(self.y.y, v.y);
        Vec2 { x: narrow(x), y: narrow(y) }
    }

    /// The matrix product `self * other`, where the result can be held.
    pub fn mul_m(&self, other: &Mat2) -> (m: Mat2)
        requires
            self@.mul_m(other@).fits(),
        ensures
            m@ == self@.mul_m(other@),
    {
        Mat2 { x: self.mul_v(&other.x), y: self.mul_v(&other.y) }
    }

    /// The counter-clockwise turn by `theta`.
    pub fn from_angle(theta: Angle) -> (m: Mat2)
        ensures
            m@ == IntMat2::rotation(theta.cos_spec(), theta.sin_spec()),
            m@.is_rotation(),
    {
        let c: i64 = theta.cos();
        let s: i64 = theta.sin();
        proof {
            theta.lemma_unit_circle();
            lemma_turn_is_rotation2(c as int, s as int);
        }
        Mat2::new(c, s, -s, c)
    }
}

impl ApproxEq for Mat2 {
    open spec fn within(&self, other: &Mat2, eps: int) -> bool {
        self@.within(other@, eps)
    }

    fn approx_epsilon() -> (eps: i64) {
        1
    }

    fn approx_eq(&self, other: &Mat2) -> (r: bool) {
        self.approx_eq_eps(other, &1)
    }

    fn approx_eq_eps(&self, other: &Mat2, approx_epsilon: &i64) -> (r: bool) {
        let eps: i64 = *approx_epsilon;
        close(self.x.x, other.x.x, eps) && close(self.x.y, other.x.y, eps) && close(
            self.y.x,
            other.y.x,
            eps,
        ) && close(self.y.y, other.y.y, eps)
    }
}

/// The row `(a, b, c)` times the column `v`, where the result can be held.
fn dot3(a: i64, b: i64, c: i64, v: &Vec3) -> (r: i128)
    requires
        fits_i64(a * v.x + b * v.y + c * v.z),
    ensures
        r == a * v.x + b * v.y + c * v.z,
{
    let p: i128 = wide_mul(a, v.x);
    let q: i128 = wide_mul(b, v.y);
    let t: i128 = wide_mul(c, v.z);
    p + q + t
}

/// A 3x3 matrix with columns `x`, `y` and `z`.
#[derive(Clone, Copy, Debug, PartialEq, Eq, Structural)]
pub struct Mat3 {
    pub x: Vec3,
    pub y: Vec3,
    pub z: Vec3,
}

impl View for Mat3 {
    type V = IntMat3;

    open spec fn view(&self) -> IntMat3 {
        IntMat3 { x: self.x@, y: self.y@, z: self.z@ }
    }
}

impl Mat3 {
    /// The machine matrix that holds `m`, for an `m` that fits.
    pub open spec fn holding(m: IntMat3) -> Mat3 {
        Mat3 { x: Vec3::holding(m.x), y: Vec3::holding(m.y), z: Vec3::holding(m.z) }
    }

    /// The matrix with the given entries, column by column.
    pub fn new(
        c0r0: i64, c0r1: i64, c0r2: i64,
        c1r0: i64, c1r1: i64, c1r2: i64,
        c2r0: i64, c2r1: i64, c2r2: i64,
    ) -> (m: Mat3)
        ensures
            m.x == (Vec3 { x: c0r0, y: c0r1, z: c0r2 }),
            m.y == (Vec3 { x: c1r0, y: c1r1, z: c1r2 }),
            m.z == (Vec3 { x: c2r0, y: c2r1, z: c2r2 }),
    {
        Mat3 {
            x: Vec3 { x: c0r0, y: c0r1, z: c0r2 },
            y: Vec3 { x: c1r0, y: c1r1, z: c1r2 },
            z: Vec3 { x: c2r0, y: c2r1, z: c2r2 },
        }
    }

    pub fn from_cols(x: Vec3, y: Vec3, z: Vec3) -> (m: Mat3)
        ensures
            m.x == x,
            m.y == y,
            m.z == z,
    {
        Mat3 { x, y, z }
    }

    pub fn identity() -> (m: Mat3)
        ensures
            m@ == IntMat3::identity(),
    {
        Mat3::new(1, 0, 0, 0, 1, 0, 0, 0, 1)
    }

    pub fn transpose(&self) -> (m: Mat3)
        ensures
            m@ == self@.transpose(),
    {
        Mat3::new(
            self.x.x, self.y.x, self.z.x,
            self.x.y, self.y.y, self.z.y,
            self.x.z, self.y.z, self.z.z,
        )
    }

    /// The matrix applied to a column vector, where the result can be held.
    pub fn mul_v(&self, v: &Vec3) -> (r: Vec3)
        requires
            self@.mul_v(v@).fits(),
        ensures
            r@ == self@.mul_v(v@),
    {
        let x: i128 = dot3(self.x.x, self.y.x, self.z.x, v);
        let y: i128 = dot3(self.x.y, self.y.y, self.z.y, v);
        let z: i128 = dot3(self.x.z, self.y.z, self.z.z, v);
        Vec3 { x: narrow(x), y: narrow(y), z: narrow(z) }
    }

    /// The matrix product `self * other`, where the result can be held.
    pub fn mul_m(&self, other: &Mat3) -> (m: Mat3)
        requires
            self@.mul_m(other@).fits(),
        ensures
            m@ == self@.mul_m(other@),
    {
        Mat3 { x: self.mul_v(&other.x), y: self.mul_v(&other.y), z: self.mul_v(&other.z) }
    }

    /// The turn by `theta` about the x axis.
    pub fn from_angle_x(theta: Angle) -> (m: Mat3)
        ensures
            m@ == IntMat3::rotation_x(theta.cos_spec(), theta.sin_spec()),
            m@.is_rotation(),
    {
        let c: i64 = theta.cos();
        let s: i64 = theta.sin();
        proof {
            theta.lemma_unit_circle();
            lemma_turn_x_is_rotation(c as int, s as int);
        }
        Mat3::new(1, 0, 0, 0, c, s, 0, -s, c)
    }

    /// The turn by `theta` about the y axis.
    pub fn from_angle_y(theta: Angle) -> (m: Mat3)
        ensures
            m@ == IntMat3::rotation_y(theta.cos_spec(), theta.sin_spec()),
            m@.is_rotation(),
    {
        let c: i64 = theta.cos();
        let s: i64 = theta.sin();
        proof {
            theta.lemma_unit_circle();
            lemma_turn_y_is_rotation(c as int, s as int);
        }
        Mat3::new(c, 0, -s, 0, 1, 0, s, 0, c)
    }

    /// The turn by `theta` about the z axis.
    pub fn from_angle_z(theta: Angle) -> (m: Mat3)
        ensures
            m@ == IntMat3::rotation_z(theta.cos_spec(), theta.sin_spec()),
            m@.is_rotation(),
    {
        let c: i64 = theta.cos();
        let s: i64 = theta.sin();
        proof {
            theta.lemma_unit_circle();
            lemma_turn_z_is_rotation(c as int, s as int);
        }
        Mat3::new(c, s, 0, -s, c, 0, 0, 0, 1)
    }

    /// The turn by `x` about the x axis, then by `y` about the y axis, then
    /// by `z` about the z axis.
    pub fn from_euler(x: Angle, y: Angle, z: Angle) -> (m: Mat3)
        ensures
            m@ == IntMat3::euler(
                x.cos_spec(),
                x.sin_spec(),
                y.cos_spec(),
                y.sin_spec(),
                z.cos_spec(),
                z.sin_spec(),
            ),
            m@.is_rotation(),
    {
        let mx: Mat3 = Mat3::from_angle_x(x);
        let my: Mat3 = Mat3::from_angle_y(y);
        let mz: Mat3 = Mat3::from_angle_z(z);
        proof {
            x.lemma_unit_circle();
            y.lemma_unit_circle();
            z.lemma_unit_circle();
            lemma_euler_is_rotation(
                x.cos_spec(),
                x.sin_spec(),
                y.cos_spec(),
                y.sin_spec(),
                z.cos_spec(),
                z.sin_spec(),
            );
            lemma_orthogonal_entries3(mz@.mul_m(my@));
            lemma_orthogonal_entries3(mz@.mul_m(my@).mul_m(mx@));
        }
        mz.mul_m(&my).mul_m(&mx)
    }

    /// The turn by `angle` about the unit vector `axis`.
    pub fn from_axis_angle(axis: &Vec3, angle: Angle) -> (m: Mat3)
        requires
            axis@.is_unit(),
        ensures
            m@ == IntMat3::axis_angle(axis@, angle.cos_spec(), angle.sin_spec()),
            m@.is_rotation(),
    {
        let c: i64 = angle.cos();
        let s: i64 = angle.sin();
        let k: i64 = 1 - c;
        proof {
            angle.lemma_unit_circle();
            lemma_unit_square_sum3(axis.x as int, axis.y as int, axis.z as int);
            lemma_axis_angle_is_rotation(axis@, c as int, s as int);
        }
        let xx: i64 = sign_mul(sign_mul(axis.x, axis.x), k);
        let xy: i64 = sign_mul(sign_mul(axis.x, axis.y), k);
        let xz: i64 = sign_mul(sign_mul(axis.x, axis.z), k);
        let yy: i64 = sign_mul(sign_mul(axis.y, axis.y), k);
        let yz: i64 = sign_mul(sign_mul(axis.y, axis.z), k);
        let zz: i64 = sign_mul(sign_mul(axis.z, axis.z), k);
        let sx: i64 = sign_mul(s, axis.x);
        let sy: i64 = sign_mul(s, axis.y);
        let sz: i64 = sign_mul(s, axis.z);
        Mat3::new(xx + c, xy + sz, xz - sy, xy - sz, yy + c, yz + sx, xz + sy, yz - sx, zz + c)
    }

    /// The frame that looks along `dir` with `up` upwards: its columns are
    /// the up, side and forward unit vectors. Both directions lie along
    /// coordinate axes, and not along the same one.
    pub fn look_at(dir: &Vec3, up: &Vec3) -> (m: Mat3)
        requires
            dir@.is_axis(),
            up@.is_axis(),
            !dir@.shares_axis(up@),
        ensures
            m@ == IntMat3::look_at(dir@, up@),
            m@.is_rotation(),
    {
        let d: Vec3 = dir.signum();
        let u: Vec3 = up.signum();
        proof {
            lemma_look_at_is_rotation(dir@, up@);
            lemma_orthogonal_entries3(IntMat3::frame(d@, u@));
        }
        let side: Vec3 = d.cross(&u);
        let top: Vec3 = side.cross(&d);
        Mat3::from_cols(top, side, d)
    }
}

impl Mat3 {
    /// Whether every entry is -1, 0 or 1.
    fn is_small(&self) -> (b: bool)
        ensures
            b == self@.is_small(),
    {
        let x: bool = -1 <= self.x.x && self.x.x <= 1 && -1 <= self.x.y && self.x.y <= 1 && -1
            <= self.x.z && self.x.z <= 1;
        let y: bool = -1 <= self.y.x && self.y.x <= 1 && -1 <= self.y.y && self.y.y <= 1 && -1
            <= self.y.z && self.y.z <= 1;
        let z: bool = -1 <= self.z.x && self.z.x <= 1 && -1 <= self.z.y && self.z.y <= 1 && -1
            <= self.z.z && self.z.z <= 1;
        x && y && z
    }

    /// Whether the transpose of a matrix with entries -1, 0 or 1 is its inverse.
    fn is_orthogonal_small(&self) -> (b: bool)
        requires
            self@.is_small(),
        ensures
            b == self@.is_orthogonal(),
    {
        let t: Mat3 = self.transpose();
        proof {
            lemma_small_product_fits(self@, t@);
            lemma_small_product_fits(t@, self@);
        }
        let one: Mat3 = Mat3::identity();
        t.mul_m(self) == one && self.mul_m(&t) == one
    }

    /// The determinant of a matrix with entries -1, 0 or 1.
    fn determinant_small(&self) -> (d: i64)
        requires
            self@.is_small(),
        ensures
            d == self@.determinant(),
    {
        let c: Vec3 = self.y.cross_small(&self.z);
        tiny_mul(self.x.x, c.x) + tiny_mul(self.x.y, c.y) + tiny_mul(self.x.z, c.z)
    }

    /// Whether the matrix is a rotation: orthogonal, with determinant one.
    pub fn is_rotation(&self) -> (b: bool)
        ensures
            b == self@.is_rotation(),
    {
        if !self.is_small() {
            proof {
                if self@.is_orthogonal() {
                    lemma_orthogonal_entries3(self@);
                }
            }
            return false;
        }
        self.is_orthogonal_small() && self.determinant_small() == 1
    }

    /// A positive multiple of the unit quaternion of a rotation matrix, in
    /// lowest terms: the signs of the numerators that the unit quaternion
    /// has before its division by a square root.
    pub fn to_scaled_quat(&self) -> (q: Quat)
        ensures
            q@.d == 1,
            q@.n == self@.scaled_quat(),
    {
        let r00: i128 = self.x.x as i128;
        let r11: i128 = self.y.y as i128;
        let r22: i128 = self.z.z as i128;
        let r01: i128 = self.y.x as i128;
        let r02: i128 = self.z.x as i128;
        let r10: i128 = self.x.y as i128;
        let r12: i128 = self.z.y as i128;
        let r20: i128 = self.x.z as i128;
        let r21: i128 = self.y.z as i128;
        let trace: i128 = r00 + r11 + r22;
        if trace >= 0 {
            Quat::new(
                sign_of_wide(1 + trace),
                sign_of_wide(r21 - r12),
                sign_of_wide(r02 - r20),
                sign_of_wide(r10 - r01),
            )
        } else if r00 >= r11 && r00 >= r22 {
            Quat::new(
                sign_of_wide(r21 - r12),
                sign_of_wide(1 + r00 - r11 - r22),
                sign_of_wide(r01 + r10),
                sign_of_wide(r02 + r20),
            )
        } else if r11 >= r22 {
            Quat::new(
                sign_of_wide(r02 - r20),
                sign_of_wide(r01 + r10),
                sign_of_wide(1 + r11 - r00 - r22),
                sign_of_wide(r12 + r21),
            )
        } else {
            Quat::new(
                sign_of_wide(r10 - r01),
                sign_of_wide(r02 + r20),
                sign_of_wide(r12 + r21),
                sign_of_wide(1 + r22 - r00 - r11),
            )
        }
    }
}

impl ApproxEq for Mat3 {
    open spec fn within(&self, other: &Mat3, eps: int) -> bool {
        self@.within(other@, eps)
    }

    fn approx_epsilon() -> (eps: i64) {
        1
    }

    fn approx_eq(&self, other: &Mat3) -> (r: bool) {
        self.approx_eq_eps(other, &1)
    }

    fn approx_eq_eps(&self, other: &Mat3, approx_epsilon: &i64) -> (r: bool) {
        let eps: i64 = *approx_epsilon;
        let cx: bool = close(self.x.x, other.x.x, eps) && close(self.x.y, other.x.y, eps) && close(
            self.x.z,
            other.x.z,
            eps,
        );
        let cy: bool = close(self.y.x, other.y.x, eps) && close(self.y.y, other.y.y, eps) && close(
            self.y.z,
            other.y.z,
            eps,
        );
        let cz: bool = close(self.z.x, other.z.x, eps) && close(self.z.y, other.z.y, eps) && close(
            self.z.z,
            other.z.z,
            eps,
        );
        cx && cy && cz
    }
}

} // verus!
