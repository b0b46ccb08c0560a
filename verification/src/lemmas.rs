//! Proofs about the integer model: matrix products associate, orthogonal
//! matrices are closed under product and transpose, and the named
//! constructions are orthogonal.

use crate::arith::{
    lemma_mul_by_sign, lemma_row_of_product2, lemma_row_of_product3, lemma_unit_square_sum2,
    lemma_unit_square_sum3, lemma_unit_square_sum4, lemma_weights_across2, lemma_weights_across3,
};
use crate::arith::{lemma_conjugate_products, lemma_square_nonneg};
use crate::cases::{lemma_orthogonal_determinant3, lemma_rotation_table2};
use crate::model::{IntMat2, IntMat3, IntQuat, IntVec2, IntVec3, RatQuat};
use vstd::prelude::*;

verus! {

// ---------------------------------------------------------------------------
// The plane
// ---------------------------------------------------------------------------

pub proof fn lemma_mul_v_assoc2(a: IntMat2, b: IntMat2, v: IntVec2)
    ensures
        a.mul_m(b).mul_v(v) == a.mul_v(b.mul_v(v)),
{
    lemma_row_of_product2(a.x.x, a.y.x, b.x.x, b.x.y, b.y.x, b.y.y, v.x, v.y);
    lemma_row_of_product2(a.x.y, a.y.y, b.x.x, b.x.y, b.y.x, b.y.y, v.x, v.y);
}

pub proof fn lemma_mul_m_assoc2(a: IntMat2, b: IntMat2, c: IntMat2)
    ensures
        a.mul_m(b).mul_m(c) == a.mul_m(b.mul_m(c)),
{
    lemma_mul_v_assoc2(a, b, c.x);
    lemma_mul_v_assoc2(a, b, c.y);
}

pub proof fn lemma_transpose_mul2(a: IntMat2, b: IntMat2)
    by (nonlinear_arith)
    ensures
        a.mul_m(b).transpose() == b.transpose().mul_m(a.transpose()),
{
}

pub proof fn lemma_identity2(a: IntMat2)
    ensures
        IntMat2::identity().mul_m(a) == a,
        a.mul_m(IntMat2::identity()) == a,
        IntMat2::identity().transpose() == IntMat2::identity(),
        a.transpose().transpose() == a,
{
}

/// The product of two orthogonal matrices is orthogonal.
pub proof fn lemma_orthogonal_mul2(a: IntMat2, b: IntMat2)
    requires
        a.is_orthogonal(),
        b.is_orthogonal(),
    ensures
        a.mul_m(b).is_orthogonal(),
{
    let ab = a.mul_m(b);
    let at = a.transpose();
    let bt = b.transpose();
    let id = IntMat2::identity();
    lemma_transpose_mul2(a, b);
    lemma_identity2(a);
    lemma_identity2(b);
    lemma_identity2(at);
    assert(ab.transpose().mul_m(ab) == id) by {
        lemma_mul_m_assoc2(bt, at, ab);
        lemma_mul_m_assoc2(at, a, b);
    }
    assert(ab.mul_m(ab.transpose()) == id) by {
        lemma_mul_m_assoc2(a, b, bt.mul_m(at));
        lemma_mul_m_assoc2(b, bt, at);
    }
}

/// The transpose of an orthogonal matrix is orthogonal.
pub proof fn lemma_orthogonal_transpose2(a: IntMat2)
    requires
        a.is_orthogonal(),
    ensures
        a.transpose().is_orthogonal(),
{
    lemma_identity2(a);
}

/// A matrix moves across a dot product as its transpose.
pub proof fn lemma_transpose_adjoint2(a: IntMat2, p: IntVec2, w: IntVec2)
    ensures
        a.mul_v(p).dot(w) == p.dot(a.transpose().mul_v(w)),
{
    lemma_weights_across2(a.x.x, a.y.x, a.x.y, a.y.y, p.x, p.y, w.x, w.y);
}

/// An orthogonal matrix keeps dot products, and so lengths and angles.
pub proof fn lemma_orthogonal_keeps_dot2(m: IntMat2, u: IntVec2, v: IntVec2)
    requires
        m.is_orthogonal(),
    ensures
        m.mul_v(u).dot(m.mul_v(v)) == u.dot(v),
{
    lemma_transpose_adjoint2(m, u, m.mul_v(v));
    lemma_mul_v_assoc2(m.transpose(), m, v);
    assert(IntMat2::identity().mul_v(v) == v);
}

/// The product of two rotations is a rotation.
pub proof fn lemma_rotation_mul2(a: IntMat2, b: IntMat2)
    requires
        a.is_rotation(),
        b.is_rotation(),
    ensures
        a.mul_m(b).is_rotation(),
{
    lemma_orthogonal_mul2(a, b);
    lemma_rotation_table2(a, b);
}

/// The transpose of a rotation is a rotation.
pub proof fn lemma_rotation_transpose2(a: IntMat2)
    requires
        a.is_rotation(),
    ensures
        a.transpose().is_rotation(),
{
    lemma_orthogonal_transpose2(a);
    lemma_rotation_table2(a, a);
}

/// The entries of an orthogonal matrix are -1, 0 or 1.
pub proof fn lemma_orthogonal_entries2(a: IntMat2)
    requires
        a.is_orthogonal(),
    ensures
        -1 <= a.x.x <= 1,
        -1 <= a.x.y <= 1,
        -1 <= a.y.x <= 1,
        -1 <= a.y.y <= 1,
{
    let p = a.transpose().mul_m(a);
    assert(p.x.x == 1 && p.y.y == 1);
    lemma_unit_square_sum2(a.x.x, a.x.y);
    lemma_unit_square_sum2(a.y.x, a.y.y);
}

/// An orthogonal matrix moves a vector to one that can be held, if every
/// coordinate of the vector can be held and negated.
pub proof fn lemma_orthogonal_image_fits2(a: IntMat2, v: IntVec2)
    requires
        a.is_orthogonal(),
        i64::MIN < v.x <= i64::MAX,
        i64::MIN < v.y <= i64::MAX,
    ensures
        a.mul_v(v).fits(),
{
    lemma_orthogonal_entries2(a);
    let q = a.mul_m(a.transpose());
    assert(q.x.x == 1 && q.y.y == 1);
    lemma_unit_square_sum2(a.x.x, a.y.x);
    lemma_unit_square_sum2(a.x.y, a.y.y);
    lemma_mul_by_sign(a.x.x, v.x);
    lemma_mul_by_sign(a.y.x, v.y);
    lemma_mul_by_sign(a.x.y, v.x);
    lemma_mul_by_sign(a.y.y, v.y);
}

/// A turn by an angle whose cosine and sine lie on the unit circle is a rotation.
pub proof fn lemma_turn_is_rotation2(c: int, s: int)
    requires
        c * c + s * s == 1,
    ensures
        IntMat2::rotation(c, s).is_rotation(),
{
    lemma_unit_square_sum2(c, s);
    lemma_mul_by_sign(c, c);
    lemma_mul_by_sign(c, s);
    lemma_mul_by_sign(s, s);
    lemma_mul_by_sign(c, -s);
    lemma_mul_by_sign(s, -s);
    lemma_mul_by_sign(-s, -s);
    lemma_mul_by_sign(-s, c);
    lemma_mul_by_sign(-s, s);
}

// ---------------------------------------------------------------------------
// Space
// ---------------------------------------------------------------------------

pub proof fn lemma_mul_v_assoc3(a: IntMat3, b: IntMat3, v: IntVec3)
    ensures
        a.mul_m(b).mul_v(v) == a.mul_v(b.mul_v(v)),
{
    lemma_row_of_product3(
        a.x.x, a.y.x, a.z.x,
        b.x.x, b.x.y, b.x.z,
        b.y.x, b.y.y, b.y.z,
        b.z.x, b.z.y, b.z.z,
        v.x, v.y, v.z,
    );
    lemma_row_of_product3(
        a.x.y, a.y.y, a.z.y,
        b.x.x, b.x.y, b.x.z,
        b.y.x, b.y.y, b.y.z,
        b.z.x, b.z.y, b.z.z,
        v.x, v.y, v.z,
    );
    lemma_row_of_product3(
        a.x.z, a.y.z, a.z.z,
        b.x.x, b.x.y, b.x.z,
        b.y.x, b.y.y, b.y.z,
        b.z.x, b.z.y, b.z.z,
        v.x, v.y, v.z,
    );
}

pub proof fn lemma_mul_m_assoc3(a: IntMat3, b: IntMat3, c: IntMat3)
    ensures
        a.mul_m(b).mul_m(c) == a.mul_m(b.mul_m(c)),
{
    lemma_mul_v_assoc3(a, b, c.x);
    lemma_mul_v_assoc3(a, b, c.y);
    lemma_mul_v_assoc3(a, b, c.z);
}

pub proof fn lemma_transpose_mul3(a: IntMat3, b: IntMat3)
    by (nonlinear_arith)
    ensures
        a.mul_m(b).transpose() == b.transpose().mul_m(a.transpose()),
{
}

pub proof fn lemma_identity3(a: IntMat3)
    ensures
        IntMat3::identity().mul_m(a) == a,
        a.mul_m(IntMat3::identity()) == a,
        IntMat3::identity().transpose() == IntMat3::identity(),
        a.transpose().transpose() == a,
{
}

/// The product of two orthogonal matrices is orthogonal.
pub proof fn lemma_orthogonal_mul3(a: IntMat3, b: IntMat3)
    requires
        a.is_orthogonal(),
        b.is_orthogonal(),
    ensures
        a.mul_m(b).is_orthogonal(),
{
    let ab = a.mul_m(b);
    let at = a.transpose();
    let bt = b.transpose();
    let id = IntMat3::identity();
    lemma_transpose_mul3(a, b);
    lemma_identity3(a);
    lemma_identity3(b);
    lemma_identity3(at);
    assert(ab.transpose().mul_m(ab) == id) by {
        lemma_mul_m_assoc3(bt, at, ab);
        lemma_mul_m_assoc3(at, a, b);
    }
    assert(ab.mul_m(ab.transpose()) == id) by {
        lemma_mul_m_assoc3(a, b, bt.mul_m(at));
        lemma_mul_m_assoc3(b, bt, at);
    }
}

/// The transpose of an orthogonal matrix is orthogonal.
pub proof fn lemma_orthogonal_transpose3(a: IntMat3)
    requires
        a.is_orthogonal(),
    ensures
        a.transpose().is_orthogonal(),
{
    lemma_identity3(a);
}

/// A matrix moves across a dot product as its transpose.
pub proof fn lemma_transpose_adjoint3(a: IntMat3, p: IntVec3, w: IntVec3)
    ensures
        a.mul_v(p).dot(w) == p.dot(a.transpose().mul_v(w)),
{
    lemma_weights_across3(
        a.x.x, a.y.x, a.z.x,
        a.x.y, a.y.y, a.z.y,
        a.x.z, a.y.z, a.z.z,
        p.x, p.y, p.z,
        w.x, w.y, w.z,
    );
}

/// An orthogonal matrix keeps dot products, and so lengths and angles.
pub proof fn lemma_orthogonal_keeps_dot3(m: IntMat3, u: IntVec3, v: IntVec3)
    requires
        m.is_orthogonal(),
    ensures
        m.mul_v(u).dot(m.mul_v(v)) == u.dot(v),
{
    lemma_transpose_adjoint3(m, u, m.mul_v(v));
    lemma_mul_v_assoc3(m.transpose(), m, v);
    assert(IntMat3::identity().mul_v(v) == v);
}

/// The product of two rotations is a rotation.
pub proof fn lemma_rotation_mul3(a: IntMat3, b: IntMat3)
    requires
        a.is_rotation(),
        b.is_rotation(),
    ensures
        a.mul_m(b).is_rotation(),
{
    let zero = IntVec3 { x: 0, y: 0, z: 0 };
    lemma_orthogonal_mul3(a, b);
    lemma_orthogonal_determinant3(b, zero, zero);
    lemma_orthogonal_determinant3(a, b.x, b.y);
    assert(a.mul_m(b).x.cross(a.mul_m(b).y) == a.mul_m(b).z);
    lemma_orthogonal_determinant3(a.mul_m(b), zero, zero);
}

/// The transpose of a rotation is a rotation.
pub proof fn lemma_rotation_transpose3(a: IntMat3)
    requires
        a.is_rotation(),
    ensures
        a.transpose().is_rotation(),
{
    let zero = IntVec3 { x: 0, y: 0, z: 0 };
    let t = a.transpose();
    let w = t.x.cross(t.y);
    lemma_orthogonal_transpose3(a);
    lemma_orthogonal_determinant3(a, t.x, t.y);
    assert(a.mul_m(t) == IntMat3::identity());
    assert(a.mul_v(t.x) == (IntVec3 { x: 1, y: 0, z: 0 }));
    assert(a.mul_v(t.y) == (IntVec3 { x: 0, y: 1, z: 0 }));
    assert((IntVec3 { x: 1, y: 0, z: 0 }).cross(IntVec3 { x: 0, y: 1, z: 0 }) == (IntVec3 {
        x: 0,
        y: 0,
        z: 1,
    }));
    assert(a.mul_v(w) == a.mul_v(t.z));
    lemma_mul_v_assoc3(t, a, w);
    lemma_mul_v_assoc3(t, a, t.z);
    assert(t.mul_m(a) == IntMat3::identity());
    assert(IntMat3::identity().mul_v(w) == w);
    assert(IntMat3::identity().mul_v(t.z) == t.z);
    assert(w == t.z);
    lemma_orthogonal_determinant3(t, zero, zero);
}

/// Every column and every row of an orthogonal matrix holds a single entry
/// of 1 or -1, and zeros besides.
pub proof fn lemma_orthogonal_entries3(a: IntMat3)
    requires
        a.is_orthogonal(),
    ensures
        a.x.is_unit(),
        a.y.is_unit(),
        a.z.is_unit(),
        a.row_x().is_unit(),
        a.row_y().is_unit(),
        a.row_z().is_unit(),
        -1 <= a.x.x <= 1 && -1 <= a.x.y <= 1 && -1 <= a.x.z <= 1,
        -1 <= a.y.x <= 1 && -1 <= a.y.y <= 1 && -1 <= a.y.z <= 1,
        -1 <= a.z.x <= 1 && -1 <= a.z.y <= 1 && -1 <= a.z.z <= 1,
{
    let p = a.transpose().mul_m(a);
    assert(p.x.x == 1 && p.y.y == 1 && p.z.z == 1);
    let q = a.mul_m(a.transpose());
    assert(q.x.x == 1 && q.y.y == 1 && q.z.z == 1);
    lemma_unit_square_sum3(a.x.x, a.x.y, a.x.z);
    lemma_unit_square_sum3(a.y.x, a.y.y, a.y.z);
    lemma_unit_square_sum3(a.z.x, a.z.y, a.z.z);
}

/// An orthogonal matrix moves a vector to one that can be held, if every
/// coordinate of the vector can be held and negated.
pub proof fn lemma_orthogonal_image_fits3(a: IntMat3, v: IntVec3)
    requires
        a.is_orthogonal(),
        i64::MIN < v.x <= i64::MAX,
        i64::MIN < v.y <= i64::MAX,
        i64::MIN < v.z <= i64::MAX,
    ensures
        a.mul_v(v).fits(),
{
    lemma_orthogonal_entries3(a);
    lemma_unit_square_sum3(a.x.x, a.y.x, a.z.x);
    lemma_unit_square_sum3(a.x.y, a.y.y, a.z.y);
    lemma_unit_square_sum3(a.x.z, a.y.z, a.z.z);
    lemma_mul_by_sign(a.x.x, v.x);
    lemma_mul_by_sign(a.y.x, v.y);
    lemma_mul_by_sign(a.z.x, v.z);
    lemma_mul_by_sign(a.x.y, v.x);
    lemma_mul_by_sign(a.y.y, v.y);
    lemma_mul_by_sign(a.z.y, v.z);
    lemma_mul_by_sign(a.x.z, v.x);
    lemma_mul_by_sign(a.y.z, v.y);
    lemma_mul_by_sign(a.z.z, v.z);
}

/// Products of a cosine and a sine on the integer unit circle.
proof fn lemma_circle_products(c: int, s: int)
    requires
        c * c + s * s == 1,
    ensures
        c * s == 0,
        s * c == 0,
        c * (-s) == 0,
        (-s) * c == 0,
        s * (-s) == -(s * s),
        (-s) * s == -(s * s),
        (-s) * (-s) == s * s,
{
    lemma_unit_square_sum2(c, s);
    lemma_mul_by_sign(c, s);
    lemma_mul_by_sign(c, -s);
    lemma_mul_by_sign(s, s);
    lemma_mul_by_sign(s, -s);
    lemma_mul_by_sign(-s, -s);
}

/// A turn about the x axis is a rotation.
pub proof fn lemma_turn_x_is_rotation(c: int, s: int)
    requires
        c * c + s * s == 1,
    ensures
        IntMat3::rotation_x(c, s).is_rotation(),
{
    let m = IntMat3::rotation_x(c, s);
    lemma_circle_products(c, s);
    assert(m.is_orthogonal());
    assert(m.x.cross(m.y) == m.z);
    lemma_orthogonal_determinant3(m, m.x, m.y);
}

/// A turn about the y axis is a rotation.
pub proof fn lemma_turn_y_is_rotation(c: int, s: int)
    requires
        c * c + s * s == 1,
    ensures
        IntMat3::rotation_y(c, s).is_rotation(),
{
    let m = IntMat3::rotation_y(c, s);
    lemma_circle_products(c, s);
    assert(m.is_orthogonal());
    assert(m.x.cross(m.y) == m.z);
    lemma_orthogonal_determinant3(m, m.x, m.y);
}

/// A turn about the z axis is a rotation.
pub proof fn lemma_turn_z_is_rotation(c: int, s: int)
    requires
        c * c + s * s == 1,
    ensures
        IntMat3::rotation_z(c, s).is_rotation(),
{
    let m = IntMat3::rotation_z(c, s);
    lemma_circle_products(c, s);
    assert(m.is_orthogonal());
    assert(m.x.cross(m.y) == m.z);
    lemma_orthogonal_determinant3(m, m.x, m.y);
}

/// Three turns about the axes, one after the other, are a rotation.
pub proof fn lemma_euler_is_rotation(cx: int, sx: int, cy: int, sy: int, cz: int, sz: int)
    requires
        cx * cx + sx * sx == 1,
        cy * cy + sy * sy == 1,
        cz * cz + sz * sz == 1,
    ensures
        IntMat3::euler(cx, sx, cy, sy, cz, sz).is_rotation(),
        IntMat3::rotation_z(cz, sz).mul_m(IntMat3::rotation_y(cy, sy)).is_rotation(),
{
    lemma_turn_x_is_rotation(cx, sx);
    lemma_turn_y_is_rotation(cy, sy);
    lemma_turn_z_is_rotation(cz, sz);
    lemma_rotation_mul3(IntMat3::rotation_z(cz, sz), IntMat3::rotation_y(cy, sy));
    lemma_rotation_mul3(
        IntMat3::rotation_z(cz, sz).mul_m(IntMat3::rotation_y(cy, sy)),
        IntMat3::rotation_x(cx, sx),
    );
}

/// A unit vector is one of the six directions of the axes.
pub proof fn lemma_unit_vector_cases(a: IntVec3)
    requires
        a.is_unit(),
    ensures
        a == (IntVec3 { x: 1, y: 0, z: 0 }) || a == (IntVec3 { x: -1, y: 0, z: 0 }) || a == (
        IntVec3 { x: 0, y: 1, z: 0 }) || a == (IntVec3 { x: 0, y: -1, z: 0 }) || a == (IntVec3 {
            x: 0,
            y: 0,
            z: 1,
        }) || a == (IntVec3 { x: 0, y: 0, z: -1 }),
{
    lemma_unit_square_sum3(a.x, a.y, a.z);
}

/// A turn about a unit vector is the turn about the axis it lies on, in
/// the sense that its direction gives; so it is a rotation.
pub proof fn lemma_axis_angle_is_rotation(a: IntVec3, c: int, s: int)
    requires
        a.is_unit(),
        c * c + s * s == 1,
    ensures
        IntMat3::axis_angle(a, c, s).is_rotation(),
        a.x == 1 ==> IntMat3::axis_angle(a, c, s) == IntMat3::rotation_x(c, s),
        a.x == -1 ==> IntMat3::axis_angle(a, c, s) == IntMat3::rotation_x(c, -s),
        a.y == 1 ==> IntMat3::axis_angle(a, c, s) == IntMat3::rotation_y(c, s),
        a.y == -1 ==> IntMat3::axis_angle(a, c, s) == IntMat3::rotation_y(c, -s),
        a.z == 1 ==> IntMat3::axis_angle(a, c, s) == IntMat3::rotation_z(c, s),
        a.z == -1 ==> IntMat3::axis_angle(a, c, s) == IntMat3::rotation_z(c, -s),
{
    lemma_unit_vector_cases(a);
    lemma_circle_products(c, s);
    assert(c * c + (-s) * (-s) == 1);
    lemma_turn_x_is_rotation(c, s);
    lemma_turn_x_is_rotation(c, -s);
    lemma_turn_y_is_rotation(c, s);
    lemma_turn_y_is_rotation(c, -s);
    lemma_turn_z_is_rotation(c, s);
    lemma_turn_z_is_rotation(c, -s);
    let px = IntVec3 { x: 1, y: 0, z: 0 };
    let nx = IntVec3 { x: -1, y: 0, z: 0 };
    let py = IntVec3 { x: 0, y: 1, z: 0 };
    let ny = IntVec3 { x: 0, y: -1, z: 0 };
    let pz = IntVec3 { x: 0, y: 0, z: 1 };
    let nz = IntVec3 { x: 0, y: 0, z: -1 };
    assert(IntMat3::axis_angle(px, c, s) == IntMat3::rotation_x(c, s));
    assert(IntMat3::axis_angle(nx, c, s) == IntMat3::rotation_x(c, -s));
    assert(IntMat3::axis_angle(py, c, s) == IntMat3::rotation_y(c, s));
    assert(IntMat3::axis_angle(ny, c, s) == IntMat3::rotation_y(c, -s));
    assert(IntMat3::axis_angle(pz, c, s) == IntMat3::rotation_z(c, s));
    assert(IntMat3::axis_angle(nz, c, s) == IntMat3::rotation_z(c, -s));
}

/// The frames whose forward direction lies along the x axis.
proof fn lemma_frame_forward_x(d: IntVec3, u: IntVec3)
    requires
        d.is_unit(),
        u.is_unit(),
        d.x != 0,
        u.x == 0,
    ensures
        IntMat3::frame(d, u).is_rotation(),
        IntMat3::frame(d, u).x == u,
{
    lemma_unit_vector_cases(d);
    lemma_unit_vector_cases(u);
    let px = IntVec3 { x: 1, y: 0, z: 0 };
    let nx = IntVec3 { x: -1, y: 0, z: 0 };
    let py = IntVec3 { x: 0, y: 1, z: 0 };
    let ny = IntVec3 { x: 0, y: -1, z: 0 };
    let pz = IntVec3 { x: 0, y: 0, z: 1 };
    let nz = IntVec3 { x: 0, y: 0, z: -1 };
    assert(px.cross(py) == pz && pz.cross(px) == py);
    assert((IntMat3 { x: py, y: pz, z: px }).is_orthogonal());
    assert((IntMat3 { x: py, y: pz, z: px }).determinant() == 1);
    assert(px.cross(ny) == nz && nz.cross(px) == ny);
    assert((IntMat3 { x: ny, y: nz, z: px }).is_orthogonal());
    assert((IntMat3 { x: ny, y: nz, z: px }).determinant() == 1);
    assert(px.cross(pz) == ny && ny.cross(px) == pz);
    assert((IntMat3 { x: pz, y: ny, z: px }).is_orthogonal());
    assert((IntMat3 { x: pz, y: ny, z: px }).determinant() == 1);
    assert(px.cross(nz) == py && py.cross(px) == nz);
    assert((IntMat3 { x: nz, y: py, z: px }).is_orthogonal());
    assert((IntMat3 { x: nz, y: py, z: px }).determinant() == 1);
    assert(nx.cross(py) == nz && nz.cross(nx) == py);
    assert((IntMat3 { x: py, y: nz, z: nx }).is_orthogonal());
    assert((IntMat3 { x: py, y: nz, z: nx }).determinant() == 1);
    assert(nx.cross(ny) == pz && pz.cross(nx) == ny);
    assert((IntMat3 { x: ny, y: pz, z: nx }).is_orthogonal());
    assert((IntMat3 { x: ny, y: pz, z: nx }).determinant() == 1);
    assert(nx.cross(pz) == py && py.cross(nx) == pz);
    assert((IntMat3 { x: pz, y: py, z: nx }).is_orthogonal());
    assert((IntMat3 { x: pz, y: py, z: nx }).determinant() == 1);
    assert(nx.cross(nz) == ny && ny.cross(nx) == nz);
    assert((IntMat3 { x: nz, y: ny, z: nx }).is_orthogonal());
    assert((IntMat3 { x: nz, y: ny, z: nx }).determinant() == 1);
}

/// The frames whose forward direction lies along the y axis.
proof fn lemma_frame_forward_y(d: IntVec3, u: IntVec3)
    requires
        d.is_unit(),
        u.is_unit(),
        d.y != 0,
        u.y == 0,
    ensures
        IntMat3::frame(d, u).is_rotation(),
        IntMat3::frame(d, u).x == u,
{
    lemma_unit_vector_cases(d);
    lemma_unit_vector_cases(u);
    let px = IntVec3 { x: 1, y: 0, z: 0 };
    let nx = IntVec3 { x: -1, y: 0, z: 0 };
    let py = IntVec3 { x: 0, y: 1, z: 0 };
    let ny = IntVec3 { x: 0, y: -1, z: 0 };
    let pz = IntVec3 { x: 0, y: 0, z: 1 };
    let nz = IntVec3 { x: 0, y: 0, z: -1 };
    assert(py.cross(px) == nz && nz.cross(py) == px);
    assert((IntMat3 { x: px, y: nz, z: py }).is_orthogonal());
    assert((IntMat3 { x: px, y: nz, z: py }).determinant() == 1);
    assert(py.cross(nx) == pz && pz.cross(py) == nx);
    assert((IntMat3 { x: nx, y: pz, z: py }).is_orthogonal());
    assert((IntMat3 { x: nx, y: pz, z: py }).determinant() == 1);
    assert(py.cross(pz) == px && px.cross(py) == pz);
    assert((IntMat3 { x: pz, y: px, z: py }).is_orthogonal());
    assert((IntMat3 { x: pz, y: px, z: py }).determinant() == 1);
    assert(py.cross(nz) == nx && nx.cross(py) == nz);
    assert((IntMat3 { x: nz, y: nx, z: py }).is_orthogonal());
    assert((IntMat3 { x: nz, y: nx, z: py }).determinant() == 1);
    assert(ny.cross(px) == pz && pz.cross(ny) == px);
    assert((IntMat3 { x: px, y: pz, z: ny }).is_orthogonal());
    assert((IntMat3 { x: px, y: pz, z: ny }).determinant() == 1);
    assert(ny.cross(nx) == nz && nz.cross(ny) == nx);
    assert((IntMat3 { x: nx, y: nz, z: ny }).is_orthogonal());
    assert((IntMat3 { x: nx, y: nz, z: ny }).determinant() == 1);
    assert(ny.cross(pz) == nx && nx.cross(ny) == pz);
    assert((IntMat3 { x: pz, y: nx, z: ny }).is_orthogonal());
    assert((IntMat3 { x: pz, y: nx, z: ny }).determinant() == 1);
    assert(ny.cross(nz) == px && px.cross(ny) == nz);
    assert((IntMat3 { x: nz, y: px, z: ny }).is_orthogonal());
    assert((IntMat3 { x: nz, y: px, z: ny }).determinant() == 1);
}

/// The frames whose forward direction lies along the z axis.
proof fn lemma_frame_forward_z(d: IntVec3, u: IntVec3)
    requires
        d.is_unit(),
        u.is_unit(),
        d.z != 0,
        u.z == 0,
    ensures
        IntMat3::frame(d, u).is_rotation(),
        IntMat3::frame(d, u).x == u,
{
    lemma_unit_vector_cases(d);
    lemma_unit_vector_cases(u);
    let px = IntVec3 { x: 1, y: 0, z: 0 };
    let nx = IntVec3 { x: -1, y: 0, z: 0 };
    let py = IntVec3 { x: 0, y: 1, z: 0 };
    let ny = IntVec3 { x: 0, y: -1, z: 0 };
    let pz = IntVec3 { x: 0, y: 0, z: 1 };
    let nz = IntVec3 { x: 0, y: 0, z: -1 };
    assert(pz.cross(px) == py && py.cross(pz) == px);
    assert((IntMat3 { x: px, y: py, z: pz }).is_orthogonal());
    assert((IntMat3 { x: px, y: py, z: pz }).determinant() == 1);
    assert(pz.cross(nx) == ny && ny.cross(pz) == nx);
    assert((IntMat3 { x: nx, y: ny, z: pz }).is_orthogonal());
    assert((IntMat3 { x: nx, y: ny, z: pz }).determinant() == 1);
    assert(pz.cross(py) == nx && nx.cross(pz) == py);
    assert((IntMat3 { x: py, y: nx, z: pz }).is_orthogonal());
    assert((IntMat3 { x: py, y: nx, z: pz }).determinant() == 1);
    assert(pz.cross(ny) == px && px.cross(pz) == ny);
    assert((IntMat3 { x: ny, y: px, z: pz }).is_orthogonal());
    assert((IntMat3 { x: ny, y: px, z: pz }).determinant() == 1);
    assert(nz.cross(px) == ny && ny.cross(nz) == px);
    assert((IntMat3 { x: px, y: ny, z: nz }).is_orthogonal());
    assert((IntMat3 { x: px, y: ny, z: nz }).determinant() == 1);
    assert(nz.cross(nx) == py && py.cross(nz) == nx);
    assert((IntMat3 { x: nx, y: py, z: nz }).is_orthogonal());
    assert((IntMat3 { x: nx, y: py, z: nz }).determinant() == 1);
    assert(nz.cross(py) == px && px.cross(nz) == py);
    assert((IntMat3 { x: py, y: px, z: nz }).is_orthogonal());
    assert((IntMat3 { x: py, y: px, z: nz }).determinant() == 1);
    assert(nz.cross(ny) == nx && nx.cross(nz) == ny);
    assert((IntMat3 { x: ny, y: nx, z: nz }).is_orthogonal());
    assert((IntMat3 { x: ny, y: nx, z: nz }).determinant() == 1);
}

/// The frame of a forward direction along one axis and an up direction
/// along another.
proof fn lemma_frame_of_axes(d: IntVec3, u: IntVec3)
    requires
        d.is_unit(),
        u.is_unit(),
        !d.shares_axis(u),
    ensures
        IntMat3::frame(d, u).is_rotation(),
        IntMat3::frame(d, u).x == u,
{
    lemma_unit_square_sum3(d.x, d.y, d.z);
    if d.x != 0 {
        lemma_frame_forward_x(d, u);
    } else if d.y != 0 {
        lemma_frame_forward_y(d, u);
    } else {
        lemma_frame_forward_z(d, u);
    }
}

/// Looking along one axis with another axis upward gives a rotation, whose
/// columns are the up, side and forward unit vectors.
pub proof fn lemma_look_at_is_rotation(dir: IntVec3, up: IntVec3)
    requires
        dir.is_axis(),
        up.is_axis(),
        !dir.shares_axis(up),
    ensures
        IntMat3::look_at(dir, up).is_rotation(),
        IntMat3::look_at(dir, up).x == up.signum(),
        IntMat3::look_at(dir, up).z == dir.signum(),
{
    let d = dir.signum();
    let u = up.signum();
    lemma_mul_by_sign(d.x, d.x);
    lemma_mul_by_sign(d.y, d.y);
    lemma_mul_by_sign(d.z, d.z);
    lemma_mul_by_sign(u.x, u.x);
    lemma_mul_by_sign(u.y, u.y);
    lemma_mul_by_sign(u.z, u.z);
    lemma_frame_of_axes(d, u);
}

// ---------------------------------------------------------------------------
// Quaternions
// ---------------------------------------------------------------------------

/// The quaternion with the given components.
pub open spec fn quat(s: int, x: int, y: int, z: int) -> IntQuat {
    IntQuat { s, v: IntVec3 { x, y, z } }
}

/// A unit quaternion is one of 1, i, j, k and their opposites.
pub proof fn lemma_unit_quat_cases(q: IntQuat)
    requires
        q.is_unit(),
    ensures
        q == quat(1, 0, 0, 0) || q == quat(-1, 0, 0, 0) || q == quat(0, 1, 0, 0) || q == quat(
            0,
            -1,
            0,
            0,
        ) || q == quat(0, 0, 1, 0) || q == quat(0, 0, -1, 0) || q == quat(0, 0, 0, 1) || q
            == quat(0, 0, 0, -1),
{
    lemma_unit_square_sum4(q.s, q.v.x, q.v.y, q.v.z);
}

/// The matrix of a unit quaternion is a rotation, and it moves every vector
/// as the quaternion does.
pub proof fn lemma_unit_quat_matrix(q: IntQuat, u: IntVec3)
    requires
        q.is_unit(),
    ensures
        q.to_mat3().is_rotation(),
        q.mul_v(u) == q.to_mat3().mul_v(u),
{
    lemma_unit_quat_cases(q);
    let a = IntQuat { s: 1, v: IntVec3 { x: 0, y: 0, z: 0 } };
    let b = IntQuat { s: -1, v: IntVec3 { x: 0, y: 0, z: 0 } };
    let c = IntQuat { s: 0, v: IntVec3 { x: 1, y: 0, z: 0 } };
    let d = IntQuat { s: 0, v: IntVec3 { x: -1, y: 0, z: 0 } };
    let e = IntQuat { s: 0, v: IntVec3 { x: 0, y: 1, z: 0 } };
    let f = IntQuat { s: 0, v: IntVec3 { x: 0, y: -1, z: 0 } };
    let g = IntQuat { s: 0, v: IntVec3 { x: 0, y: 0, z: 1 } };
    let h = IntQuat { s: 0, v: IntVec3 { x: 0, y: 0, z: -1 } };
    let mi = IntMat3::diagonal(1, 1, 1);
    let mx = IntMat3::diagonal(1, -1, -1);
    let my = IntMat3::diagonal(-1, 1, -1);
    let mz = IntMat3::diagonal(-1, -1, 1);
    assert(a.to_mat3() == mi && b.to_mat3() == mi);
    assert(c.to_mat3() == mx && d.to_mat3() == mx);
    assert(e.to_mat3() == my && f.to_mat3() == my);
    assert(g.to_mat3() == mz && h.to_mat3() == mz);
    assert(mi.is_orthogonal() && mx.is_orthogonal() && my.is_orthogonal() && mz.is_orthogonal());
    assert(mi.determinant() == 1 && mx.determinant() == 1);
    assert(my.determinant() == 1 && mz.determinant() == 1);
    assert(a.mul_v(u) == u && b.mul_v(u) == u && mi.mul_v(u) == u);
    assert(c.mul_v(u) == mx.mul_v(u) && d.mul_v(u) == mx.mul_v(u));
    assert(e.mul_v(u) == my.mul_v(u) && f.mul_v(u) == my.mul_v(u));
    assert(g.mul_v(u) == mz.mul_v(u) && h.mul_v(u) == mz.mul_v(u));
}

/// For a unit quaternion the matrix of `u -> q u conj(q)` is the matrix of
/// the rotation.
pub proof fn lemma_unit_turn_matrix(q: IntQuat)
    requires
        q.is_unit(),
    ensures
        q.turn_matrix() == q.to_mat3(),
{
    lemma_unit_quat_cases(q);
    let a = IntQuat { s: 1, v: IntVec3 { x: 0, y: 0, z: 0 } };
    let b = IntQuat { s: -1, v: IntVec3 { x: 0, y: 0, z: 0 } };
    let c = IntQuat { s: 0, v: IntVec3 { x: 1, y: 0, z: 0 } };
    let d = IntQuat { s: 0, v: IntVec3 { x: -1, y: 0, z: 0 } };
    let e = IntQuat { s: 0, v: IntVec3 { x: 0, y: 1, z: 0 } };
    let f = IntQuat { s: 0, v: IntVec3 { x: 0, y: -1, z: 0 } };
    let g = IntQuat { s: 0, v: IntVec3 { x: 0, y: 0, z: 1 } };
    let h = IntQuat { s: 0, v: IntVec3 { x: 0, y: 0, z: -1 } };
    assert(a.turn_matrix() == a.to_mat3() && b.turn_matrix() == b.to_mat3());
    assert(c.turn_matrix() == c.to_mat3() && d.turn_matrix() == d.to_mat3());
    assert(e.turn_matrix() == e.to_mat3() && f.turn_matrix() == f.to_mat3());
    assert(g.turn_matrix() == g.to_mat3() && h.turn_matrix() == h.to_mat3());
}

/// Two unit quaternions with the same matrix are the same or opposite.
pub proof fn lemma_same_matrix_quat(p: IntQuat, q: IntQuat)
    requires
        p.is_unit(),
        q.is_unit(),
        p.to_mat3() == q.to_mat3(),
    ensures
        p == q || p == q.neg(),
{
    lemma_unit_quat_cases(p);
    lemma_unit_quat_cases(q);
    let a = IntQuat { s: 1, v: IntVec3 { x: 0, y: 0, z: 0 } };
    let b = IntQuat { s: -1, v: IntVec3 { x: 0, y: 0, z: 0 } };
    let c = IntQuat { s: 0, v: IntVec3 { x: 1, y: 0, z: 0 } };
    let d = IntQuat { s: 0, v: IntVec3 { x: -1, y: 0, z: 0 } };
    let e = IntQuat { s: 0, v: IntVec3 { x: 0, y: 1, z: 0 } };
    let f = IntQuat { s: 0, v: IntVec3 { x: 0, y: -1, z: 0 } };
    let g = IntQuat { s: 0, v: IntVec3 { x: 0, y: 0, z: 1 } };
    let h = IntQuat { s: 0, v: IntVec3 { x: 0, y: 0, z: -1 } };
    let mi = IntMat3::diagonal(1, 1, 1);
    let mx = IntMat3::diagonal(1, -1, -1);
    let my = IntMat3::diagonal(-1, 1, -1);
    let mz = IntMat3::diagonal(-1, -1, 1);
    assert(a.to_mat3() == mi && b.to_mat3() == mi);
    assert(c.to_mat3() == mx && d.to_mat3() == mx);
    assert(e.to_mat3() == my && f.to_mat3() == my);
    assert(g.to_mat3() == mz && h.to_mat3() == mz);
    assert(a.neg() == b && b.neg() == a && c.neg() == d && d.neg() == c);
    assert(e.neg() == f && f.neg() == e && g.neg() == h && h.neg() == g);
}

/// The conjugate of a unit quaternion is a unit again, it is the inverse,
/// and it stands for the transposed matrix.
pub proof fn lemma_unit_quat_inverse(q: IntQuat)
    requires
        q.is_unit(),
    ensures
        q.magnitude2() == 1,
        q.conjugate().is_unit(),
        q.mul_q(q.conjugate()) == IntQuat::identity(),
        q.conjugate().mul_q(q) == IntQuat::identity(),
        q.conjugate().to_mat3() == q.to_mat3().transpose(),
{
    lemma_unit_quat_cases(q);
    let a = IntQuat { s: 1, v: IntVec3 { x: 0, y: 0, z: 0 } };
    let b = IntQuat { s: -1, v: IntVec3 { x: 0, y: 0, z: 0 } };
    let c = IntQuat { s: 0, v: IntVec3 { x: 1, y: 0, z: 0 } };
    let d = IntQuat { s: 0, v: IntVec3 { x: -1, y: 0, z: 0 } };
    let e = IntQuat { s: 0, v: IntVec3 { x: 0, y: 1, z: 0 } };
    let f = IntQuat { s: 0, v: IntVec3 { x: 0, y: -1, z: 0 } };
    let g = IntQuat { s: 0, v: IntVec3 { x: 0, y: 0, z: 1 } };
    let h = IntQuat { s: 0, v: IntVec3 { x: 0, y: 0, z: -1 } };
    let mi = IntMat3::diagonal(1, 1, 1);
    let mx = IntMat3::diagonal(1, -1, -1);
    let my = IntMat3::diagonal(-1, 1, -1);
    let mz = IntMat3::diagonal(-1, -1, 1);
    assert(a.to_mat3() == mi && b.to_mat3() == mi);
    assert(c.to_mat3() == mx && d.to_mat3() == mx);
    assert(e.to_mat3() == my && f.to_mat3() == my);
    assert(g.to_mat3() == mz && h.to_mat3() == mz);
    assert(a.is_unit() && b.is_unit() && c.is_unit() && d.is_unit());
    assert(e.is_unit() && f.is_unit() && g.is_unit() && h.is_unit());
    assert(a.conjugate() == a && b.conjugate() == b && c.conjugate() == d && d.conjugate() == c);
    assert(e.conjugate() == f && f.conjugate() == e && g.conjugate() == h && h.conjugate() == g);
    assert(a.mul_q(a) == a && b.mul_q(b) == a);
    assert(c.mul_q(d) == a && d.mul_q(c) == a);
    assert(e.mul_q(f) == a && f.mul_q(e) == a);
    assert(g.mul_q(h) == a && h.mul_q(g) == a);
    assert(mi.transpose() == mi && mx.transpose() == mx);
    assert(my.transpose() == my && mz.transpose() == mz);
}

/// The products of 1 with the unit quaternions.
proof fn lemma_mul_from_one(q: IntQuat)
    requires
        q.is_unit(),
    ensures
        quat(1, 0, 0, 0).mul_q(q).is_unit(),
        quat(1, 0, 0, 0).mul_q(q).to_mat3() == quat(1, 0, 0, 0).to_mat3().mul_m(q.to_mat3()),
{
    lemma_unit_quat_cases(q);
    let a = IntQuat { s: 1, v: IntVec3 { x: 0, y: 0, z: 0 } };
    let b = IntQuat { s: -1, v: IntVec3 { x: 0, y: 0, z: 0 } };
    let c = IntQuat { s: 0, v: IntVec3 { x: 1, y: 0, z: 0 } };
    let d = IntQuat { s: 0, v: IntVec3 { x: -1, y: 0, z: 0 } };
    let e = IntQuat { s: 0, v: IntVec3 { x: 0, y: 1, z: 0 } };
    let f = IntQuat { s: 0, v: IntVec3 { x: 0, y: -1, z: 0 } };
    let g = IntQuat { s: 0, v: IntVec3 { x: 0, y: 0, z: 1 } };
    let h = IntQuat { s: 0, v: IntVec3 { x: 0, y: 0, z: -1 } };
    let mi = IntMat3::diagonal(1, 1, 1);
    let mx = IntMat3::diagonal(1, -1, -1);
    let my = IntMat3::diagonal(-1, 1, -1);
    let mz = IntMat3::diagonal(-1, -1, 1);
    assert(a.to_mat3() == mi && b.to_mat3() == mi);
    assert(c.to_mat3() == mx && d.to_mat3() == mx);
    assert(e.to_mat3() == my && f.to_mat3() == my);
    assert(g.to_mat3() == mz && h.to_mat3() == mz);
    assert(a.is_unit() && b.is_unit() && c.is_unit() && d.is_unit());
    assert(e.is_unit() && f.is_unit() && g.is_unit() && h.is_unit());
    assert(quat(1, 0, 0, 0) == a);
    assert(a.mul_q(a) == a);
    assert(a.mul_q(b) == b);
    assert(a.mul_q(c) == c);
    assert(a.mul_q(d) == d);
    assert(a.mul_q(e) == e);
    assert(a.mul_q(f) == f);
    assert(a.mul_q(g) == g);
    assert(a.mul_q(h) == h);
    assert(mi.mul_m(mi) == mi);
    assert(mi.mul_m(mx) == mx);
    assert(mi.mul_m(my) == my);
    assert(mi.mul_m(mz) == mz);
}

/// The products of -1 with the unit quaternions.
proof fn lemma_mul_from_minus_one(q: IntQuat)
    requires
        q.is_unit(),
    ensures
        quat(-1, 0, 0, 0).mul_q(q).is_unit(),
        quat(-1, 0, 0, 0).mul_q(q).to_mat3() == quat(-1, 0, 0, 0).to_mat3().mul_m(q.to_mat3()),
{
    lemma_unit_quat_cases(q);
    let a = IntQuat { s: 1, v: IntVec3 { x: 0, y: 0, z: 0 } };
    let b = IntQuat { s: -1, v: IntVec3 { x: 0, y: 0, z: 0 } };
    let c = IntQuat { s: 0, v: IntVec3 { x: 1, y: 0, z: 0 } };
    let d = IntQuat { s: 0, v: IntVec3 { x: -1, y: 0, z: 0 } };
    let e = IntQuat { s: 0, v: IntVec3 { x: 0, y: 1, z: 0 } };
    let f = IntQuat { s: 0, v: IntVec3 { x: 0, y: -1, z: 0 } };
    let g = IntQuat { s: 0, v: IntVec3 { x: 0, y: 0, z: 1 } };
    let h = IntQuat { s: 0, v: IntVec3 { x: 0, y: 0, z: -1 } };
    let mi = IntMat3::diagonal(1, 1, 1);
    let mx = IntMat3::diagonal(1, -1, -1);
    let my = IntMat3::diagonal(-1, 1, -1);
    let mz = IntMat3::diagonal(-1, -1, 1);
    assert(a.to_mat3() == mi && b.to_mat3() == mi);
    assert(c.to_mat3() == mx && d.to_mat3() == mx);
    assert(e.to_mat3() == my && f.to_mat3() == my);
    assert(g.to_mat3() == mz && h.to_mat3() == mz);
    assert(a.is_unit() && b.is_unit() && c.is_unit() && d.is_unit());
    assert(e.is_unit() && f.is_unit() && g.is_unit() && h.is_unit());
    assert(quat(-1, 0, 0, 0) == b);
    assert(b.mul_q(a) == b);
    assert(b.mul_q(b) == a);
    assert(b.mul_q(c) == d);
    assert(b.mul_q(d) == c);
    assert(b.mul_q(e) == f);
    assert(b.mul_q(f) == e);
    assert(b.mul_q(g) == h);
    assert(b.mul_q(h) == g);
    assert(mi.mul_m(mi) == mi);
    assert(mi.mul_m(mx) == mx);
    assert(mi.mul_m(my) == my);
    assert(mi.mul_m(mz) == mz);
}

/// The products of i with the unit quaternions.
proof fn lemma_mul_from_i(q: IntQuat)
    requires
        q.is_unit(),
    ensures
        quat(0, 1, 0, 0).mul_q(q).is_unit(),
        quat(0, 1, 0, 0).mul_q(q).to_mat3() == quat(0, 1, 0, 0).to_mat3().mul_m(q.to_mat3()),
{
    lemma_unit_quat_cases(q);
    let a = IntQuat { s: 1, v: IntVec3 { x: 0, y: 0, z: 0 } };
    let b = IntQuat { s: -1, v: IntVec3 { x: 0, y: 0, z: 0 } };
    let c = IntQuat { s: 0, v: IntVec3 { x: 1, y: 0, z: 0 } };
    let d = IntQuat { s: 0, v: IntVec3 { x: -1, y: 0, z: 0 } };
    let e = IntQuat { s: 0, v: IntVec3 { x: 0, y: 1, z: 0 } };
    let f = IntQuat { s: 0, v: IntVec3 { x: 0, y: -1, z: 0 } };
    let g = IntQuat { s: 0, v: IntVec3 { x: 0, y: 0, z: 1 } };
    let h = IntQuat { s: 0, v: IntVec3 { x: 0, y: 0, z: -1 } };
    let mi = IntMat3::diagonal(1, 1, 1);
    let mx = IntMat3::diagonal(1, -1, -1);
    let my = IntMat3::diagonal(-1, 1, -1);
    let mz = IntMat3::diagonal(-1, -1, 1);
    assert(a.to_mat3() == mi && b.to_mat3() == mi);
    assert(c.to_mat3() == mx && d.to_mat3() == mx);
    assert(e.to_mat3() == my && f.to_mat3() == my);
    assert(g.to_mat3() == mz && h.to_mat3() == mz);
    assert(a.is_unit() && b.is_unit() && c.is_unit() && d.is_unit());
    assert(e.is_unit() && f.is_unit() && g.is_unit() && h.is_unit());
    assert(quat(0, 1, 0, 0) == c);
    assert(c.mul_q(a) == c);
    assert(c.mul_q(b) == d);
    assert(c.mul_q(c) == b);
    assert(c.mul_q(d) == a);
    assert(c.mul_q(e) == g);
    assert(c.mul_q(f) == h);
    assert(c.mul_q(g) == f);
    assert(c.mul_q(h) == e);
    assert(mx.mul_m(mi) == mx);
    assert(mx.mul_m(mx) == mi);
    assert(mx.mul_m(my) == mz);
    assert(mx.mul_m(mz) == my);
}

/// The products of -i with the unit quaternions.
proof fn lemma_mul_from_minus_i(q: IntQuat)
    requires
        q.is_unit(),
    ensures
        quat(0, -1, 0, 0).mul_q(q).is_unit(),
        quat(0, -1, 0, 0).mul_q(q).to_mat3() == quat(0, -1, 0, 0).to_mat3().mul_m(q.to_mat3()),
{
    lemma_unit_quat_cases(q);
    let a = IntQuat { s: 1, v: IntVec3 { x: 0, y: 0, z: 0 } };
    let b = IntQuat { s: -1, v: IntVec3 { x: 0, y: 0, z: 0 } };
    let c = IntQuat { s: 0, v: IntVec3 { x: 1, y: 0, z: 0 } };
    let d = IntQuat { s: 0, v: IntVec3 { x: -1, y: 0, z: 0 } };
    let e = IntQuat { s: 0, v: IntVec3 { x: 0, y: 1, z: 0 } };
    let f = IntQuat { s: 0, v: IntVec3 { x: 0, y: -1, z: 0 } };
    let g = IntQuat { s: 0, v: IntVec3 { x: 0, y: 0, z: 1 } };
    let h = IntQuat { s: 0, v: IntVec3 { x: 0, y: 0, z: -1 } };
    let mi = IntMat3::diagonal(1, 1, 1);
    let mx = IntMat3::diagonal(1, -1, -1);
    let my = IntMat3::diagonal(-1, 1, -1);
    let mz = IntMat3::diagonal(-1, -1, 1);
    assert(a.to_mat3() == mi && b.to_mat3() == mi);
    assert(c.to_mat3() == mx && d.to_mat3() == mx);
    assert(e.to_mat3() == my && f.to_mat3() == my);
    assert(g.to_mat3() == mz && h.to_mat3() == mz);
    assert(a.is_unit() && b.is_unit() && c.is_unit() && d.is_unit());
    assert(e.is_unit() && f.is_unit() && g.is_unit() && h.is_unit());
    assert(quat(0, -1, 0, 0) == d);
    assert(d.mul_q(a) == d);
    assert(d.mul_q(b) == c);
    assert(d.mul_q(c) == a);
    assert(d.mul_q(d) == b);
    assert(d.mul_q(e) == h);
    assert(d.mul_q(f) == g);
    assert(d.mul_q(g) == e);
    assert(d.mul_q(h) == f);
    assert(mx.mul_m(mi) == mx);
    assert(mx.mul_m(mx) == mi);
    assert(mx.mul_m(my) == mz);
    assert(mx.mul_m(mz) == my);
}

/// The products of j with the unit quaternions.
proof fn lemma_mul_from_j(q: IntQuat)
    requires
        q.is_unit(),
    ensures
        quat(0, 0, 1, 0).mul_q(q).is_unit(),
        quat(0, 0, 1, 0).mul_q(q).to_mat3() == quat(0, 0, 1, 0).to_mat3().mul_m(q.to_mat3()),
{
    lemma_unit_quat_cases(q);
    let a = IntQuat { s: 1, v: IntVec3 { x: 0, y: 0, z: 0 } };
    let b = IntQuat { s: -1, v: IntVec3 { x: 0, y: 0, z: 0 } };
    let c = IntQuat { s: 0, v: IntVec3 { x: 1, y: 0, z: 0 } };
    let d = IntQuat { s: 0, v: IntVec3 { x: -1, y: 0, z: 0 } };
    let e = IntQuat { s: 0, v: IntVec3 { x: 0, y: 1, z: 0 } };
    let f = IntQuat { s: 0, v: IntVec3 { x: 0, y: -1, z: 0 } };
    let g = IntQuat { s: 0, v: IntVec3 { x: 0, y: 0, z: 1 } };
    let h = IntQuat { s: 0, v: IntVec3 { x: 0, y: 0, z: -1 } };
    let mi = IntMat3::diagonal(1, 1, 1);
    let mx = IntMat3::diagonal(1, -1, -1);
    let my = IntMat3::diagonal(-1, 1, -1);
    let mz = IntMat3::diagonal(-1, -1, 1);
    assert(a.to_mat3() == mi && b.to_mat3() == mi);
    assert(c.to_mat3() == mx && d.to_mat3() == mx);
    assert(e.to_mat3() == my && f.to_mat3() == my);
    assert(g.to_mat3() == mz && h.to_mat3() == mz);
    assert(a.is_unit() && b.is_unit() && c.is_unit() && d.is_unit());
    assert(e.is_unit() && f.is_unit() && g.is_unit() && h.is_unit());
    assert(quat(0, 0, 1, 0) == e);
    assert(e.mul_q(a) == e);
    assert(e.mul_q(b) == f);
    assert(e.mul_q(c) == h);
    assert(e.mul_q(d) == g);
    assert(e.mul_q(e) == b);
    assert(e.mul_q(f) == a);
    assert(e.mul_q(g) == c);
    assert(e.mul_q(h) == d);
    assert(my.mul_m(mi) == my);
    assert(my.mul_m(mx) == mz);
    assert(my.mul_m(my) == mi);
    assert(my.mul_m(mz) == mx);
}

/// The products of -j with the unit quaternions.
proof fn lemma_mul_from_minus_j(q: IntQuat)
    requires
        q.is_unit(),
    ensures
        quat(0, 0, -1, 0).mul_q(q).is_unit(),
        quat(0, 0, -1, 0).mul_q(q).to_mat3() == quat(0, 0, -1, 0).to_mat3().mul_m(q.to_mat3()),
{
    lemma_unit_quat_cases(q);
    let a = IntQuat { s: 1, v: IntVec3 { x: 0, y: 0, z: 0 } };
    let b = IntQuat { s: -1, v: IntVec3 { x: 0, y: 0, z: 0 } };
    let c = IntQuat { s: 0, v: IntVec3 { x: 1, y: 0, z: 0 } };
    let d = IntQuat { s: 0, v: IntVec3 { x: -1, y: 0, z: 0 } };
    let e = IntQuat { s: 0, v: IntVec3 { x: 0, y: 1, z: 0 } };
    let f = IntQuat { s: 0, v: IntVec3 { x: 0, y: -1, z: 0 } };
    let g = IntQuat { s: 0, v: IntVec3 { x: 0, y: 0, z: 1 } };
    let h = IntQuat { s: 0, v: IntVec3 { x: 0, y: 0, z: -1 } };
    let mi = IntMat3::diagonal(1, 1, 1);
    let mx = IntMat3::diagonal(1, -1, -1);
    let my = IntMat3::diagonal(-1, 1, -1);
    let mz = IntMat3::diagonal(-1, -1, 1);
    assert(a.to_mat3() == mi && b.to_mat3() == mi);
    assert(c.to_mat3() == mx && d.to_mat3() == mx);
    assert(e.to_mat3() == my && f.to_mat3() == my);
    assert(g.to_mat3() == mz && h.to_mat3() == mz);
    assert(a.is_unit() && b.is_unit() && c.is_unit() && d.is_unit());
    assert(e.is_unit() && f.is_unit() && g.is_unit() && h.is_unit());
    assert(quat(0, 0, -1, 0) == f);
    assert(f.mul_q(a) == f);
    assert(f.mul_q(b) == e);
    assert(f.mul_q(c) == g);
    assert(f.mul_q(d) == h);
    assert(f.mul_q(e) == a);
    assert(f.mul_q(f) == b);
    assert(f.mul_q(g) == d);
    assert(f.mul_q(h) == c);
    assert(my.mul_m(mi) == my);
    assert(my.mul_m(mx) == mz);
    assert(my.mul_m(my) == mi);
    assert(my.mul_m(mz) == mx);
}

/// The products of k with the unit quaternions.
proof fn lemma_mul_from_k(q: IntQuat)
    requires
        q.is_unit(),
    ensures
        quat(0, 0, 0, 1).mul_q(q).is_unit(),
        quat(0, 0, 0, 1).mul_q(q).to_mat3() == quat(0, 0, 0, 1).to_mat3().mul_m(q.to_mat3()),
{
    lemma_unit_quat_cases(q);
    let a = IntQuat { s: 1, v: IntVec3 { x: 0, y: 0, z: 0 } };
    let b = IntQuat { s: -1, v: IntVec3 { x: 0, y: 0, z: 0 } };
    let c = IntQuat { s: 0, v: IntVec3 { x: 1, y: 0, z: 0 } };
    let d = IntQuat { s: 0, v: IntVec3 { x: -1, y: 0, z: 0 } };
    let e = IntQuat { s: 0, v: IntVec3 { x: 0, y: 1, z: 0 } };
    let f = IntQuat { s: 0, v: IntVec3 { x: 0, y: -1, z: 0 } };
    let g = IntQuat { s: 0, v: IntVec3 { x: 0, y: 0, z: 1 } };
    let h = IntQuat { s: 0, v: IntVec3 { x: 0, y: 0, z: -1 } };
    let mi = IntMat3::diagonal(1, 1, 1);
    let mx = IntMat3::diagonal(1, -1, -1);
    let my = IntMat3::diagonal(-1, 1, -1);
    let mz = IntMat3::diagonal(-1, -1, 1);
    assert(a.to_mat3() == mi && b.to_mat3() == mi);
    assert(c.to_mat3() == mx && d.to_mat3() == mx);
    assert(e.to_mat3() == my && f.to_mat3() == my);
    assert(g.to_mat3() == mz && h.to_mat3() == mz);
    assert(a.is_unit() && b.is_unit() && c.is_unit() && d.is_unit());
    assert(e.is_unit() && f.is_unit() && g.is_unit() && h.is_unit());
    assert(quat(0, 0, 0, 1) == g);
    assert(g.mul_q(a) == g);
    assert(g.mul_q(b) == h);
    assert(g.mul_q(c) == e);
    assert(g.mul_q(d) == f);
    assert(g.mul_q(e) == d);
    assert(g.mul_q(f) == c);
    assert(g.mul_q(g) == b);
    assert(g.mul_q(h) == a);
    assert(mz.mul_m(mi) == mz);
    assert(mz.mul_m(mx) == my);
    assert(mz.mul_m(my) == mx);
    assert(mz.mul_m(mz) == mi);
}

/// The products of -k with the unit quaternions.
proof fn lemma_mul_from_minus_k(q: IntQuat)
    requires
        q.is_unit(),
    ensures
        quat(0, 0, 0, -1).mul_q(q).is_unit(),
        quat(0, 0, 0, -1).mul_q(q).to_mat3() == quat(0, 0, 0, -1).to_mat3().mul_m(q.to_mat3()),
{
    lemma_unit_quat_cases(q);
    let a = IntQuat { s: 1, v: IntVec3 { x: 0, y: 0, z: 0 } };
    let b = IntQuat { s: -1, v: IntVec3 { x: 0, y: 0, z: 0 } };
    let c = IntQuat { s: 0, v: IntVec3 { x: 1, y: 0, z: 0 } };
    let d = IntQuat { s: 0, v: IntVec3 { x: -1, y: 0, z: 0 } };
    let e = IntQuat { s: 0, v: IntVec3 { x: 0, y: 1, z: 0 } };
    let f = IntQuat { s: 0, v: IntVec3 { x: 0, y: -1, z: 0 } };
    let g = IntQuat { s: 0, v: IntVec3 { x: 0, y: 0, z: 1 } };
    let h = IntQuat { s: 0, v: IntVec3 { x: 0, y: 0, z: -1 } };
    let mi = IntMat3::diagonal(1, 1, 1);
    let mx = IntMat3::diagonal(1, -1, -1);
    let my = IntMat3::diagonal(-1, 1, -1);
    let mz = IntMat3::diagonal(-1, -1, 1);
    assert(a.to_mat3() == mi && b.to_mat3() == mi);
    assert(c.to_mat3() == mx && d.to_mat3() == mx);
    assert(e.to_mat3() == my && f.to_mat3() == my);
    assert(g.to_mat3() == mz && h.to_mat3() == mz);
    assert(a.is_unit() && b.is_unit() && c.is_unit() && d.is_unit());
    assert(e.is_unit() && f.is_unit() && g.is_unit() && h.is_unit());
    assert(quat(0, 0, 0, -1) == h);
    assert(h.mul_q(a) == h);
    assert(h.mul_q(b) == g);
    assert(h.mul_q(c) == f);
    assert(h.mul_q(d) == e);
    assert(h.mul_q(e) == c);
    assert(h.mul_q(f) == d);
    assert(h.mul_q(g) == a);
    assert(h.mul_q(h) == b);
    assert(mz.mul_m(mi) == mz);
    assert(mz.mul_m(mx) == my);
    assert(mz.mul_m(my) == mx);
    assert(mz.mul_m(mz) == mi);
}

/// The product of two unit quaternions is a unit, and its matrix is the
/// product of their matrices in the same order.
pub proof fn lemma_unit_quat_mul(p: IntQuat, q: IntQuat)
    requires
        p.is_unit(),
        q.is_unit(),
    ensures
        p.mul_q(q).is_unit(),
        p.mul_q(q).to_mat3() == p.to_mat3().mul_m(q.to_mat3()),
{
    lemma_unit_quat_cases(p);
    lemma_mul_from_one(q);
    lemma_mul_from_minus_one(q);
    lemma_mul_from_i(q);
    lemma_mul_from_minus_i(q);
    lemma_mul_from_j(q);
    lemma_mul_from_minus_j(q);
    lemma_mul_from_k(q);
    lemma_mul_from_minus_k(q);
}

/// A quaternion times its inverse, on either side, is the quaternion 1,
/// whatever its magnitude, as long as that is not zero.
pub proof fn lemma_inverse_cancels(q: RatQuat)
    requires
        q.d != 0,
        q.magnitude2_num() != 0,
    ensures
        q.magnitude2_num() > 0,
        q.magnitude2_den() > 0,
        q.inverse() == (RatQuat {
            n: q.n.conjugate().mul_s(q.d * q.d),
            d: q.d * q.n.magnitude2(),
        }),
        q.inverse().d != 0,
        q.wf() ==> q.inverse().wf(),
        q.mul_q(q.inverse()).is_one(),
        q.inverse().mul_q(q).is_one(),
{
    let n = q.n;
    let k = q.d * q.d;
    let m = n.magnitude2();
    lemma_square_nonneg(n.s);
    lemma_square_nonneg(n.v.x);
    lemma_square_nonneg(n.v.y);
    lemma_square_nonneg(n.v.z);
    assert(k > 0 && m * k > 0 && q.d * m != 0 && (q.d > 0 ==> q.d * m > 0) && q.d * (q.d * m) == m
        * k && (q.d * m) * q.d == m * k) by (nonlinear_arith)
        requires
            q.d != 0,
            m > 0,
            k == q.d * q.d,
    ;
    let c = IntQuat {
        s: n.s * k,
        v: IntVec3 { x: (-n.v.x) * k, y: (-n.v.y) * k, z: (-n.v.z) * k },
    };
    assert(n.conjugate().mul_s(k) == c);
    lemma_conjugate_products(n.s, n.v.x, n.v.y, n.v.z, k);
    let one = IntQuat { s: m * k, v: IntVec3 { x: 0, y: 0, z: 0 } };
    let whole = IntQuat { s: n.s, v: IntVec3 { x: n.v.x, y: n.v.y, z: n.v.z } };
    assert(whole == n);
    assert(whole.mul_q(c) == one);
    assert(c.mul_q(whole) == one);
}

/// The product of two matrices whose entries are -1, 0 or 1 can be held.
pub proof fn lemma_small_product_fits(a: IntMat3, b: IntMat3)
    requires
        a.is_small(),
        b.is_small(),
    ensures
        a.mul_m(b).fits(),
{
    lemma_mul_by_sign(a.x.x, b.x.x);
    lemma_mul_by_sign(a.y.x, b.x.y);
    lemma_mul_by_sign(a.z.x, b.x.z);
    lemma_mul_by_sign(a.x.x, b.y.x);
    lemma_mul_by_sign(a.y.x, b.y.y);
    lemma_mul_by_sign(a.z.x, b.y.z);
    lemma_mul_by_sign(a.x.x, b.z.x);
    lemma_mul_by_sign(a.y.x, b.z.y);
    lemma_mul_by_sign(a.z.x, b.z.z);
    lemma_mul_by_sign(a.x.y, b.x.x);
    lemma_mul_by_sign(a.y.y, b.x.y);
    lemma_mul_by_sign(a.z.y, b.x.z);
    lemma_mul_by_sign(a.x.y, b.y.x);
    lemma_mul_by_sign(a.y.y, b.y.y);
    lemma_mul_by_sign(a.z.y, b.y.z);
    lemma_mul_by_sign(a.x.y, b.z.x);
    lemma_mul_by_sign(a.y.y, b.z.y);
    lemma_mul_by_sign(a.z.y, b.z.z);
    lemma_mul_by_sign(a.x.z, b.x.x);
    lemma_mul_by_sign(a.y.z, b.x.y);
    lemma_mul_by_sign(a.z.z, b.x.z);
    lemma_mul_by_sign(a.x.z, b.y.x);
    lemma_mul_by_sign(a.y.z, b.y.y);
    lemma_mul_by_sign(a.z.z, b.y.z);
    lemma_mul_by_sign(a.x.z, b.z.x);
    lemma_mul_by_sign(a.y.z, b.z.y);
    lemma_mul_by_sign(a.z.z, b.z.z);
}

/// The sign of a positive multiple of -1, 0 or 1.
proof fn lemma_sign_of_multiple(k: int, e: int)
    requires
        k > 0,
        -1 <= e <= 1,
    ensures
        crate::model::sign(k * e) == e,
{
    lemma_mul_by_sign(e, k);
}

/// The signs of the entries of a positive multiple of a matrix whose
/// entries are -1, 0 or 1 are the entries of that matrix.
proof fn lemma_signs_of_scaled(m: IntMat3, k: int)
    requires
        m.is_small(),
        k > 0,
    ensures
        m.scaled(k).x.signum() == m.x,
        m.scaled(k).y.signum() == m.y,
        m.scaled(k).z.signum() == m.z,
{
    lemma_sign_of_multiple(k, m.x.x);
    lemma_sign_of_multiple(k, m.x.y);
    lemma_sign_of_multiple(k, m.x.z);
    lemma_sign_of_multiple(k, m.y.x);
    lemma_sign_of_multiple(k, m.y.y);
    lemma_sign_of_multiple(k, m.y.z);
    lemma_sign_of_multiple(k, m.z.x);
    lemma_sign_of_multiple(k, m.z.y);
    lemma_sign_of_multiple(k, m.z.z);
}

/// The scaled quaternion of a rotation gives the rotation back: brought to
/// unit length it stands for a rotation with whole entries, the one it was
/// made from.
pub proof fn lemma_scaled_quat_gives_back(m: IntMat3)
    requires
        m.is_rotation(),
    ensures
        m.scaled_quat().has_rotation(),
        m.scaled_quat().turn_signs() == m,
{
    let q = m.scaled_quat();
    let k = q.magnitude2();
    assert(k > 0 && q.turn_matrix() == m.scaled(k)) by {
        let zero = IntVec3 { x: 0, y: 0, z: 0 };
        lemma_orthogonal_determinant3(m, zero, zero);
    }
    assert(m.is_small()) by {
        lemma_orthogonal_entries3(m);
    }
    lemma_signs_of_scaled(m, k);
    assert(q.turn_signs() == m);
}

} // verus!
