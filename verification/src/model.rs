//! The mathematical model: vectors, matrices and quaternions over the
//! integers. Every contract of the library is stated over these.

use crate::arith::{abs_diff, fits_i64};
use vstd::prelude::*;

verus! {

/// A vector of the plane with integer coordinates.
pub struct IntVec2 {
    pub x: int,
    pub y: int,
}

impl IntVec2 {
    pub open spec fn dot(self, o: IntVec2) -> int {
        self.x * o.x + self.y * o.y
    }

    /// Every coordinate can be held in a machine scalar.
    pub open spec fn fits(self) -> bool {
        fits_i64(self.x) && fits_i64(self.y)
    }
}

/// A 2x2 integer matrix, held by its columns `x` and `y`.
pub struct IntMat2 {
    pub x: IntVec2,
    pub y: IntVec2,
}

impl IntMat2 {
    pub open spec fn identity() -> IntMat2 {
        IntMat2 { x: IntVec2 { x: 1, y: 0 }, y: IntVec2 { x: 0, y: 1 } }
    }

    pub open spec fn row_x(self) -> IntVec2 {
        IntVec2 { x: self.x.x, y: self.y.x }
    }

    pub open spec fn row_y(self) -> IntVec2 {
        IntVec2 { x: self.x.y, y: self.y.y }
    }

    pub open spec fn transpose(self) -> IntMat2 {
        IntMat2 { x: self.row_x(), y: self.row_y() }
    }

    /// The matrix applied to a column vector.
    pub open spec fn mul_v(self, v: IntVec2) -> IntVec2 {
        IntVec2 { x: self.row_x().dot(v), y: self.row_y().dot(v) }
    }

    /// The matrix product `self * o`.
    pub open spec fn mul_m(self, o: IntMat2) -> IntMat2 {
        IntMat2 { x: self.mul_v(o.x), y: self.mul_v(o.y) }
    }

    pub open spec fn determinant(self) -> int {
        self.x.x * self.y.y - self.y.x * self.x.y
    }

    /// The transpose is an inverse on both sides.
    pub open spec fn is_orthogonal(self) -> bool {
        &&& self.transpose().mul_m(self) == IntMat2::identity()
        &&& self.mul_m(self.transpose()) == IntMat2::identity()
    }

    /// Orthogonal with determinant one: a turn, not a reflection.
    pub open spec fn is_rotation(self) -> bool {
        self.is_orthogonal() && self.determinant() == 1
    }

    /// Every entry can be held in a machine scalar.
    pub open spec fn fits(self) -> bool {
        self.x.fits() && self.y.fits()
    }

    /// The counter-clockwise turn whose cosine is `c` and whose sine is `s`.
    pub open spec fn rotation(c: int, s: int) -> IntMat2 {
        IntMat2 { x: IntVec2 { x: c, y: s }, y: IntVec2 { x: -s, y: c } }
    }

    /// Every entry differs from the corresponding one of `o` by less than `eps`.
    pub open spec fn within(self, o: IntMat2, eps: int) -> bool {
        &&& abs_diff(self.x.x, o.x.x) < eps
        &&& abs_diff(self.x.y, o.x.y) < eps
        &&& abs_diff(self.y.x, o.y.x) < eps
        &&& abs_diff(self.y.y, o.y.y) < eps
    }
}

/// A vector of space with integer coordinates.
pub struct IntVec3 {
    pub x: int,
    pub y: int,
    pub z: int,
}

impl IntVec3 {
    pub open spec fn dot(self, o: IntVec3) -> int {
        self.x * o.x + self.y * o.y + self.z * o.z
    }

    pub open spec fn cross(self, o: IntVec3) -> IntVec3 {
        IntVec3 {
            x: self.y * o.z - self.z * o.y,
            y: self.z * o.x - self.x * o.z,
            z: self.x * o.y - self.y * o.x,
        }
    }

    pub open spec fn add_v(self, o: IntVec3) -> IntVec3 {
        IntVec3 { x: self.x + o.x, y: self.y + o.y, z: self.z + o.z }
    }

    pub open spec fn mul_s(self, k: int) -> IntVec3 {
        IntVec3 { x: self.x * k, y: self.y * k, z: self.z * k }
    }

    /// Every coordinate can be held in a machine scalar.
    pub open spec fn fits(self) -> bool {
        fits_i64(self.x) && fits_i64(self.y) && fits_i64(self.z)
    }

    /// Length one: a coordinate axis or its opposite.
    pub open spec fn is_unit(self) -> bool {
        self.dot(self) == 1
    }

    /// Parallel to a coordinate axis and not zero.
    pub open spec fn is_axis(self) -> bool {
        ||| self.x != 0 && self.y == 0 && self.z == 0
        ||| self.x == 0 && self.y != 0 && self.z == 0
        ||| self.x == 0 && self.y == 0 && self.z != 0
    }

    /// Whether both vectors have a nonzero coordinate in the same place.
    pub open spec fn shares_axis(self, o: IntVec3) -> bool {
        ||| self.x != 0 && o.x != 0
        ||| self.y != 0 && o.y != 0
        ||| self.z != 0 && o.z != 0
    }

    /// The vector of the signs of the coordinates. For a vector parallel to
    /// an axis this is the unit vector with the same direction.
    pub open spec fn signum(self) -> IntVec3 {
        IntVec3 { x: sign(self.x), y: sign(self.y), z: sign(self.z) }
    }
}

/// -1, 0 or 1 according to the sign of `v`.
pub open spec fn sign(v: int) -> int {
    if v > 0 {
        1
    } else if v < 0 {
        -1
    } else {
        0
    }
}

/// A 3x3 integer matrix, held by its columns `x`, `y` and `z`.
pub struct IntMat3 {
    pub x: IntVec3,
    pub y: IntVec3,
    pub z: IntVec3,
}

impl IntMat3 {
    pub open spec fn identity() -> IntMat3 {
        IntMat3 {
            x: IntVec3 { x: 1, y: 0, z: 0 },
            y: IntVec3 { x: 0, y: 1, z: 0 },
            z: IntVec3 { x: 0, y: 0, z: 1 },
        }
    }

    pub open spec fn row_x(self) -> IntVec3 {
        IntVec3 { x: self.x.x, y: self.y.x, z: self.z.x }
    }

    pub open spec fn row_y(self) -> IntVec3 {
        IntVec3 { x: self.x.y, y: self.y.y, z: self.z.y }
    }

    pub open spec fn row_z(self) -> IntVec3 {
        IntVec3 { x: self.x.z, y: self.y.z, z: self.z.z }
    }

    pub open spec fn transpose(self) -> IntMat3 {
        IntMat3 { x: self.row_x(), y: self.row_y(), z: self.row_z() }
    }

    /// The matrix applied to a column vector.
    pub open spec fn mul_v(self, v: IntVec3) -> IntVec3 {
        IntVec3 { x: self.row_x().dot(v), y: self.row_y().dot(v), z: self.row_z().dot(v) }
    }

    /// The matrix product `self * o`.
    pub open spec fn mul_m(self, o: IntMat3) -> IntMat3 {
        IntMat3 { x: self.mul_v(o.x), y: self.mul_v(o.y), z: self.mul_v(o.z) }
    }

    /// The triple product of the columns.
    pub open spec fn determinant(self) -> int {
        self.x.dot(self.y.cross(self.z))
    }

    /// The transpose is an inverse on both sides.
    pub open spec fn is_orthogonal(self) -> bool {
        &&& self.transpose().mul_m(self) == IntMat3::identity()
        &&& self.mul_m(self.transpose()) == IntMat3::identity()
    }

    /// Orthogonal with determinant one: a turn, not a reflection.
    pub open spec fn is_rotation(self) -> bool {
        self.is_orthogonal() && self.determinant() == 1
    }

    /// Every entry can be held in a machine scalar.
    pub open spec fn fits(self) -> bool {
        self.x.fits() && self.y.fits() && self.z.fits()
    }

    /// Every entry is -1, 0 or 1.
    pub open spec fn is_small(self) -> bool {
        &&& -1 <= self.x.x <= 1 && -1 <= self.x.y <= 1 && -1 <= self.x.z <= 1
        &&& -1 <= self.y.x <= 1 && -1 <= self.y.y <= 1 && -1 <= self.y.z <= 1
        &&& -1 <= self.z.x <= 1 && -1 <= self.z.y <= 1 && -1 <= self.z.z <= 1
    }

    /// The sum of the entries on the main diagonal.
    pub open spec fn trace(self) -> int {
        self.x.x + self.y.y + self.z.z
    }

    /// Every entry multiplied by `k`.
    pub open spec fn scaled(self, k: int) -> IntMat3 {
        IntMat3 {
            x: IntVec3 { x: k * self.x.x, y: k * self.x.y, z: k * self.x.z },
            y: IntVec3 { x: k * self.y.x, y: k * self.y.y, z: k * self.y.z },
            z: IntVec3 { x: k * self.z.x, y: k * self.z.y, z: k * self.z.z },
        }
    }

    /// The unit quaternion of a rotation matrix before its division by a
    /// square root: numerators with whole values, of which the one that is
    /// sure not to vanish is written from the diagonal and the others from
    /// the entries off it.
    pub open spec fn quat_numerators(self) -> IntQuat {
        if self.trace() >= 0 {
            IntQuat {
                s: 1 + self.trace(),
                v: IntVec3 {
                    x: self.y.z - self.z.y,
                    y: self.z.x - self.x.z,
                    z: self.x.y - self.y.x,
                },
            }
        } else if self.x.x >= self.y.y && self.x.x >= self.z.z {
            IntQuat {
                s: self.y.z - self.z.y,
                v: IntVec3 {
                    x: 1 + self.x.x - self.y.y - self.z.z,
                    y: self.y.x + self.x.y,
                    z: self.z.x + self.x.z,
                },
            }
        } else if self.y.y >= self.z.z {
            IntQuat {
                s: self.z.x - self.x.z,
                v: IntVec3 {
                    x: self.y.x + self.x.y,
                    y: 1 + self.y.y - self.x.x - self.z.z,
                    z: self.z.y + self.y.z,
                },
            }
        } else {
            IntQuat {
                s: self.x.y - self.y.x,
                v: IntVec3 {
                    x: self.z.x + self.x.z,
                    y: self.z.y + self.y.z,
                    z: 1 + self.z.z - self.x.x - self.y.y,
                },
            }
        }
    }

    /// A positive multiple of the unit quaternion of a rotation matrix, in
    /// lowest terms: the signs of the numerators. For a rotation of the
    /// lattice the numerators that do not vanish have one magnitude, so the
    /// signs are in proportion to them.
    pub open spec fn scaled_quat(self) -> IntQuat {
        let n = self.quat_numerators();
        IntQuat { s: sign(n.s), v: n.v.signum() }
    }

    /// The matrix with `a`, `b` and `c` on its main diagonal and zeros elsewhere.
    pub open spec fn diagonal(a: int, b: int, c: int) -> IntMat3 {
        IntMat3 {
            x: IntVec3 { x: a, y: 0, z: 0 },
            y: IntVec3 { x: 0, y: b, z: 0 },
            z: IntVec3 { x: 0, y: 0, z: c },
        }
    }

    /// The turn about the x axis whose cosine is `c` and whose sine is `s`.
    pub open spec fn rotation_x(c: int, s: int) -> IntMat3 {
        IntMat3 {
            x: IntVec3 { x: 1, y: 0, z: 0 },
            y: IntVec3 { x: 0, y: c, z: s },
            z: IntVec3 { x: 0, y: -s, z: c },
        }
    }

    /// The turn about the y axis whose cosine is `c` and whose sine is `s`.
    pub open spec fn rotation_y(c: int, s: int) -> IntMat3 {
        IntMat3 {
            x: IntVec3 { x: c, y: 0, z: -s },
            y: IntVec3 { x: 0, y: 1, z: 0 },
            z: IntVec3 { x: s, y: 0, z: c },
        }
    }

    /// The turn about the z axis whose cosine is `c` and whose sine is `s`.
    pub open spec fn rotation_z(c: int, s: int) -> IntMat3 {
        IntMat3 {
            x: IntVec3 { x: c, y: s, z: 0 },
            y: IntVec3 { x: -s, y: c, z: 0 },
            z: IntVec3 { x: 0, y: 0, z: 1 },
        }
    }

    /// The turn about the unit vector `a` whose cosine is `c` and whose sine
    /// is `s` (Rodrigues' formula).
    pub open spec fn axis_angle(a: IntVec3, c: int, s: int) -> IntMat3 {
        IntMat3 {
            x: IntVec3 {
                x: (1 - c) * (a.x * a.x) + c,
                y: (1 - c) * (a.x * a.y) + s * a.z,
                z: (1 - c) * (a.x * a.z) - s * a.y,
            },
            y: IntVec3 {
                x: (1 - c) * (a.x * a.y) - s * a.z,
                y: (1 - c) * (a.y * a.y) + c,
                z: (1 - c) * (a.y * a.z) + s * a.x,
            },
            z: IntVec3 {
                x: (1 - c) * (a.x * a.z) + s * a.y,
                y: (1 - c) * (a.y * a.z) - s * a.x,
                z: (1 - c) * (a.z * a.z) + c,
            },
        }
    }

    /// The turn about x, then the turn about y, then the turn about z, each
    /// given by its cosine and sine.
    pub open spec fn euler(cx: int, sx: int, cy: int, sy: int, cz: int, sz: int) -> IntMat3 {
        IntMat3::rotation_z(cz, sz).mul_m(IntMat3::rotation_y(cy, sy)).mul_m(
            IntMat3::rotation_x(cx, sx),
        )
    }

    /// The frame whose third column is the forward direction `d`, whose
    /// second is the side `d x u`, and whose first is the side crossed with `d`:
    /// for perpendicular unit vectors, `u` itself.
    pub open spec fn frame(d: IntVec3, u: IntVec3) -> IntMat3 {
        let side = d.cross(u);
        IntMat3 { x: side.cross(d), y: side, z: d }
    }

    /// The frame that looks along `dir` with `up` upwards: `dir` and `up`
    /// are brought to length one and handed to `frame`.
    pub open spec fn look_at(dir: IntVec3, up: IntVec3) -> IntMat3 {
        IntMat3::frame(dir.signum(), up.signum())
    }

    /// Every entry differs from the corresponding one of `o` by less than `eps`.
    pub open spec fn within(self, o: IntMat3, eps: int) -> bool {
        &&& abs_diff(self.x.x, o.x.x) < eps
        &&& abs_diff(self.x.y, o.x.y) < eps
        &&& abs_diff(self.x.z, o.x.z) < eps
        &&& abs_diff(self.y.x, o.y.x) < eps
        &&& abs_diff(self.y.y, o.y.y) < eps
        &&& abs_diff(self.y.z, o.y.z) < eps
        &&& abs_diff(self.z.x, o.z.x) < eps
        &&& abs_diff(self.z.y, o.z.y) < eps
        &&& abs_diff(self.z.z, o.z.z) < eps
    }
}

/// A quaternion `s + v.x i + v.y j + v.z k` with integer components.
pub struct IntQuat {
    pub s: int,
    pub v: IntVec3,
}

impl IntQuat {
    pub open spec fn identity() -> IntQuat {
        IntQuat { s: 1, v: IntVec3 { x: 0, y: 0, z: 0 } }
    }

    /// The Hamilton product `self * o`.
    pub open spec fn mul_q(self, o: IntQuat) -> IntQuat {
        IntQuat {
            s: self.s * o.s - self.v.x * o.v.x - self.v.y * o.v.y - self.v.z * o.v.z,
            v: IntVec3 {
                x: self.s * o.v.x + self.v.x * o.s + self.v.y * o.v.z - self.v.z * o.v.y,
                y: self.s * o.v.y + self.v.y * o.s + self.v.z * o.v.x - self.v.x * o.v.z,
                z: self.s * o.v.z + self.v.z * o.s + self.v.x * o.v.y - self.v.y * o.v.x,
            },
        }
    }

    pub open spec fn conjugate(self) -> IntQuat {
        IntQuat { s: self.s, v: IntVec3 { x: -self.v.x, y: -self.v.y, z: -self.v.z } }
    }

    /// The squared magnitude.
    pub open spec fn magnitude2(self) -> int {
        self.s * self.s + self.v.x * self.v.x + self.v.y * self.v.y + self.v.z * self.v.z
    }

    pub open spec fn is_unit(self) -> bool {
        self.magnitude2() == 1
    }

    /// Every component can be held in a machine scalar.
    pub open spec fn fits(self) -> bool {
        fits_i64(self.s) && self.v.fits()
    }

    pub open spec fn neg(self) -> IntQuat {
        IntQuat { s: -self.s, v: IntVec3 { x: -self.v.x, y: -self.v.y, z: -self.v.z } }
    }

    /// Every component multiplied by `k`.
    pub open spec fn mul_s(self, k: int) -> IntQuat {
        IntQuat { s: self.s * k, v: self.v.mul_s(k) }
    }

    /// The vector `u` carried along by the quaternion: `u + 2 v x (v x u + s u)`,
    /// which for a unit quaternion is the vector part of `self * u * conjugate`.
    pub open spec fn mul_v(self, u: IntVec3) -> IntVec3 {
        let t = self.v.cross(u).add_v(u.mul_s(self.s));
        self.v.cross(t).mul_s(2).add_v(u)
    }

    /// The matrix of `u -> q u conj(q)`: the squared magnitude times the
    /// matrix of the rotation that the quaternion stands for when brought to
    /// unit length.
    pub open spec fn turn_matrix(self) -> IntMat3 {
        let s = self.s;
        let x = self.v.x;
        let y = self.v.y;
        let z = self.v.z;
        IntMat3 {
            x: IntVec3 {
                x: s * s + x * x - y * y - z * z,
                y: 2 * (x * y) + 2 * (s * z),
                z: 2 * (x * z) - 2 * (s * y),
            },
            y: IntVec3 {
                x: 2 * (x * y) - 2 * (s * z),
                y: s * s - x * x + y * y - z * z,
                z: 2 * (y * z) + 2 * (s * x),
            },
            z: IntVec3 {
                x: 2 * (x * z) + 2 * (s * y),
                y: 2 * (y * z) - 2 * (s * x),
                z: s * s - x * x - y * y + z * z,
            },
        }
    }

    /// The signs of the entries of `turn_matrix`: the matrix of the rotation
    /// that the quaternion stands for once brought to unit length, where
    /// that matrix has whole entries.
    pub open spec fn turn_signs(self) -> IntMat3 {
        let m = self.turn_matrix();
        IntMat3 { x: m.x.signum(), y: m.y.signum(), z: m.z.signum() }
    }

    /// Whether the quaternion, once brought to unit length, stands for a
    /// rotation whose matrix has whole entries.
    pub open spec fn has_rotation(self) -> bool {
        &&& self.magnitude2() > 0
        &&& self.turn_signs().is_rotation()
        &&& self.turn_signs().scaled(self.magnitude2()) == self.turn_matrix()
    }

    /// The matrix of the rotation that a unit quaternion stands for.
    pub open spec fn to_mat3(self) -> IntMat3 {
        let s = self.s;
        let x = self.v.x;
        let y = self.v.y;
        let z = self.v.z;
        IntMat3 {
            x: IntVec3 {
                x: 1 - 2 * (y * y) - 2 * (z * z),
                y: 2 * (x * y) + 2 * (s * z),
                z: 2 * (x * z) - 2 * (s * y),
            },
            y: IntVec3 {
                x: 2 * (x * y) - 2 * (s * z),
                y: 1 - 2 * (x * x) - 2 * (z * z),
                z: 2 * (y * z) + 2 * (s * x),
            },
            z: IntVec3 {
                x: 2 * (x * z) + 2 * (s * y),
                y: 2 * (y * z) - 2 * (s * x),
                z: 1 - 2 * (x * x) - 2 * (y * y),
            },
        }
    }
}

/// A quaternion with fractional components: whole numerators `n` over one
/// denominator `d`, which is not zero in any fraction and positive in one
/// that is well formed.
pub struct RatQuat {
    pub n: IntQuat,
    pub d: int,
}

impl RatQuat {
    /// The denominator is positive.
    pub open spec fn wf(self) -> bool {
        self.d > 0
    }

    /// Numerators and denominator can be held in machine scalars.
    pub open spec fn fits(self) -> bool {
        self.n.fits() && fits_i64(self.d)
    }

    /// The value is the quaternion 1.
    pub open spec fn is_one(self) -> bool {
        self.d != 0 && self.n == (IntQuat { s: self.d, v: IntVec3 { x: 0, y: 0, z: 0 } })
    }

    /// Whole components of length one: denominator 1 and unit numerators.
    pub open spec fn is_whole_unit(self) -> bool {
        self.d == 1 && self.n.is_unit()
    }

    pub open spec fn conjugate(self) -> RatQuat {
        RatQuat { n: self.n.conjugate(), d: self.d }
    }

    /// The Hamilton product `self * o`.
    pub open spec fn mul_q(self, o: RatQuat) -> RatQuat {
        RatQuat { n: self.n.mul_q(o.n), d: self.d * o.d }
    }

    /// The quaternion divided by the scalar `num / den`, for a `num` that is
    /// not zero.
    pub open spec fn div_s(self, num: int, den: int) -> RatQuat {
        if num > 0 {
            RatQuat { n: self.n.mul_s(den), d: self.d * num }
        } else {
            RatQuat { n: self.n.mul_s(-den), d: self.d * (-num) }
        }
    }

    /// The squared magnitude is the fraction of these two.
    pub open spec fn magnitude2_num(self) -> int {
        self.n.magnitude2()
    }

    pub open spec fn magnitude2_den(self) -> int {
        self.d * self.d
    }

    /// The conjugate over the squared magnitude.
    pub open spec fn inverse(self) -> RatQuat {
        self.conjugate().div_s(self.magnitude2_num(), self.magnitude2_den())
    }

    /// The quaternion is a fraction whose squared magnitude is not zero, and
    /// the conjugate, the squared magnitude and the inverse can be held.
    pub open spec fn invertible(self) -> bool {
        &&& self.d != 0
        &&& self.magnitude2_num() != 0
        &&& fits_i64(self.magnitude2_num())
        &&& fits_i64(self.magnitude2_den())
        &&& self.conjugate().fits()
        &&& self.inverse().fits()
    }

    /// Every component differs from the corresponding one of `o` by less
    /// than `eps`; both values are well formed.
    pub open spec fn within(self, o: RatQuat, eps: int) -> bool {
        &&& self.d > 0 && o.d > 0
        &&& abs_diff(self.n.s * o.d, o.n.s * self.d) < eps * (self.d * o.d)
        &&& abs_diff(self.n.v.x * o.d, o.n.v.x * self.d) < eps * (self.d * o.d)
        &&& abs_diff(self.n.v.y * o.d, o.n.v.y * self.d) < eps * (self.d * o.d)
        &&& abs_diff(self.n.v.z * o.d, o.n.v.z * self.d) < eps * (self.d * o.d)
    }
}

} // verus!
