//! Proofs by cases over the orthogonal matrices with integer entries: in
//! the plane the eight, in space the forty-eight matrices whose columns are
//! coordinate directions.

use crate::arith::{lemma_mul_by_sign, lemma_mul_neg, lemma_unit_square_sum2};
use crate::lemmas::{lemma_orthogonal_entries2, lemma_orthogonal_entries3, lemma_unit_vector_cases};
use crate::model::{IntMat2, IntMat3, IntQuat, IntVec2, IntVec3};
use vstd::prelude::*;

verus! {

/// A sign on a coordinate of `u` or of `v` can be taken out of their products.
proof fn lemma_signed_products(u: IntVec3, v: IntVec3)
    ensures
        (-u.x) * v.y == -(u.x * v.y) && u.x * (-v.y) == -(u.x * v.y) && (-u.x) * (-v.y) == u.x * v.y,
        (-u.x) * v.z == -(u.x * v.z) && u.x * (-v.z) == -(u.x * v.z) && (-u.x) * (-v.z) == u.x * v.z,
        (-u.y) * v.x == -(u.y * v.x) && u.y * (-v.x) == -(u.y * v.x) && (-u.y) * (-v.x) == u.y * v.x,
        (-u.y) * v.z == -(u.y * v.z) && u.y * (-v.z) == -(u.y * v.z) && (-u.y) * (-v.z) == u.y * v.z,
        (-u.z) * v.x == -(u.z * v.x) && u.z * (-v.x) == -(u.z * v.x) && (-u.z) * (-v.x) == u.z * v.x,
        (-u.z) * v.y == -(u.z * v.y) && u.z * (-v.y) == -(u.z * v.y) && (-u.z) * (-v.y) == u.z * v.y,
{
    lemma_mul_neg(u.x, v.y);
    lemma_mul_neg(u.x, v.z);
    lemma_mul_neg(u.y, v.x);
    lemma_mul_neg(u.y, v.z);
    lemma_mul_neg(u.z, v.x);
    lemma_mul_neg(u.z, v.y);
}

/// The columns of an orthogonal matrix lie along three different axes.
proof fn lemma_columns_apart(m: IntMat3)
    requires
        m.is_orthogonal(),
    ensures
        m.x.is_unit() && m.y.is_unit() && m.z.is_unit(),
        !m.x.shares_axis(m.y),
        !m.x.shares_axis(m.z),
        !m.y.shares_axis(m.z),
{
    lemma_orthogonal_entries3(m);
    let p = m.transpose().mul_m(m);
    assert(p.y.x == 0 && p.z.x == 0 && p.z.y == 0);
    lemma_mul_by_sign(m.x.x, m.y.x);
    lemma_mul_by_sign(m.x.y, m.y.y);
    lemma_mul_by_sign(m.x.z, m.y.z);
    lemma_mul_by_sign(m.x.x, m.z.x);
    lemma_mul_by_sign(m.x.y, m.z.y);
    lemma_mul_by_sign(m.x.z, m.z.z);
    lemma_mul_by_sign(m.y.x, m.z.x);
    lemma_mul_by_sign(m.y.y, m.z.y);
    lemma_mul_by_sign(m.y.z, m.z.z);
    lemma_unit_vector_cases(m.x);
    lemma_unit_vector_cases(m.y);
    lemma_unit_vector_cases(m.z);
}

/// The scaled quaternions of the rotations whose first column is the x direction:
/// each turns vectors as its matrix does, times its squared magnitude.
proof fn lemma_scaled_quat_table_px()
    ensures
        (IntMat3 { x: IntVec3 { x: 1, y: 0, z: 0 }, y: IntVec3 { x: 0, y: 1, z: 0 }, z: IntVec3 { x: 0, y: 0, z: 1 } }).scaled_quat().magnitude2() == 1,
        (IntMat3 { x: IntVec3 { x: 1, y: 0, z: 0 }, y: IntVec3 { x: 0, y: 1, z: 0 }, z: IntVec3 { x: 0, y: 0, z: 1 } }).scaled_quat().turn_matrix() == (IntMat3 { x: IntVec3 { x: 1, y: 0, z: 0 }, y: IntVec3 { x: 0, y: 1, z: 0 }, z: IntVec3 { x: 0, y: 0, z: 1 } }).scaled(1),
        (IntMat3 { x: IntVec3 { x: 1, y: 0, z: 0 }, y: IntVec3 { x: 0, y: -1, z: 0 }, z: IntVec3 { x: 0, y: 0, z: -1 } }).scaled_quat().magnitude2() == 1,
        (IntMat3 { x: IntVec3 { x: 1, y: 0, z: 0 }, y: IntVec3 { x: 0, y: -1, z: 0 }, z: IntVec3 { x: 0, y: 0, z: -1 } }).scaled_quat().turn_matrix() == (IntMat3 { x: IntVec3 { x: 1, y: 0, z: 0 }, y: IntVec3 { x: 0, y: -1, z: 0 }, z: IntVec3 { x: 0, y: 0, z: -1 } }).scaled(1),
        (IntMat3 { x: IntVec3 { x: 1, y: 0, z: 0 }, y: IntVec3 { x: 0, y: 0, z: 1 }, z: IntVec3 { x: 0, y: -1, z: 0 } }).scaled_quat().magnitude2() == 2,
        (IntMat3 { x: IntVec3 { x: 1, y: 0, z: 0 }, y: IntVec3 { x: 0, y: 0, z: 1 }, z: IntVec3 { x: 0, y: -1, z: 0 } }).scaled_quat().turn_matrix() == (IntMat3 { x: IntVec3 { x: 1, y: 0, z: 0 }, y: IntVec3 { x: 0, y: 0, z: 1 }, z: IntVec3 { x: 0, y: -1, z: 0 } }).scaled(2),
        (IntMat3 { x: IntVec3 { x: 1, y: 0, z: 0 }, y: IntVec3 { x: 0, y: 0, z: -1 }, z: IntVec3 { x: 0, y: 1, z: 0 } }).scaled_quat().magnitude2() == 2,
        (IntMat3 { x: IntVec3 { x: 1, y: 0, z: 0 }, y: IntVec3 { x: 0, y: 0, z: -1 }, z: IntVec3 { x: 0, y: 1, z: 0 } }).scaled_quat().turn_matrix() == (IntMat3 { x: IntVec3 { x: 1, y: 0, z: 0 }, y: IntVec3 { x: 0, y: 0, z: -1 }, z: IntVec3 { x: 0, y: 1, z: 0 } }).scaled(2),
{
    {
        let m = IntMat3 { x: IntVec3 { x: 1, y: 0, z: 0 }, y: IntVec3 { x: 0, y: 1, z: 0 }, z: IntVec3 { x: 0, y: 0, z: 1 } };
        let q = IntQuat { s: 1, v: IntVec3 { x: 0, y: 0, z: 0 } };
        assert(m.quat_numerators().v.signum() == q.v);
        assert(m.scaled_quat() == q);
        assert(q.magnitude2() == 1);
        assert(q.turn_matrix() == m.scaled(1));
    }
    {
        let m = IntMat3 { x: IntVec3 { x: 1, y: 0, z: 0 }, y: IntVec3 { x: 0, y: -1, z: 0 }, z: IntVec3 { x: 0, y: 0, z: -1 } };
        let q = IntQuat { s: 0, v: IntVec3 { x: 1, y: 0, z: 0 } };
        assert(m.quat_numerators().v.signum() == q.v);
        assert(m.scaled_quat() == q);
        assert(q.magnitude2() == 1);
        assert(q.turn_matrix() == m.scaled(1));
    }
    {
        let m = IntMat3 { x: IntVec3 { x: 1, y: 0, z: 0 }, y: IntVec3 { x: 0, y: 0, z: 1 }, z: IntVec3 { x: 0, y: -1, z: 0 } };
        let q = IntQuat { s: 1, v: IntVec3 { x: 1, y: 0, z: 0 } };
        assert(m.quat_numerators().v.signum() == q.v);
        assert(m.scaled_quat() == q);
        assert(q.magnitude2() == 2);
        assert(q.turn_matrix() == m.scaled(2));
    }
    {
        let m = IntMat3 { x: IntVec3 { x: 1, y: 0, z: 0 }, y: IntVec3 { x: 0, y: 0, z: -1 }, z: IntVec3 { x: 0, y: 1, z: 0 } };
        let q = IntQuat { s: 1, v: IntVec3 { x: -1, y: 0, z: 0 } };
        assert(m.quat_numerators().v.signum() == q.v);
        assert(m.scaled_quat() == q);
        assert(q.magnitude2() == 2);
        assert(q.turn_matrix() == m.scaled(2));
    }
}

/// The scaled quaternions of the rotations whose first column is the direction opposite to x:
/// each turns vectors as its matrix does, times its squared magnitude.
proof fn lemma_scaled_quat_table_nx()
    ensures
        (IntMat3 { x: IntVec3 { x: -1, y: 0, z: 0 }, y: IntVec3 { x: 0, y: 1, z: 0 }, z: IntVec3 { x: 0, y: 0, z: -1 } }).scaled_quat().magnitude2() == 1,
        (IntMat3 { x: IntVec3 { x: -1, y: 0, z: 0 }, y: IntVec3 { x: 0, y: 1, z: 0 }, z: IntVec3 { x: 0, y: 0, z: -1 } }).scaled_quat().turn_matrix() == (IntMat3 { x: IntVec3 { x: -1, y: 0, z: 0 }, y: IntVec3 { x: 0, y: 1, z: 0 }, z: IntVec3 { x: 0, y: 0, z: -1 } }).scaled(1),
        (IntMat3 { x: IntVec3 { x: -1, y: 0, z: 0 }, y: IntVec3 { x: 0, y: -1, z: 0 }, z: IntVec3 { x: 0, y: 0, z: 1 } }).scaled_quat().magnitude2() == 1,
        (IntMat3 { x: IntVec3 { x: -1, y: 0, z: 0 }, y: IntVec3 { x: 0, y: -1, z: 0 }, z: IntVec3 { x: 0, y: 0, z: 1 } }).scaled_quat().turn_matrix() == (IntMat3 { x: IntVec3 { x: -1, y: 0, z: 0 }, y: IntVec3 { x: 0, y: -1, z: 0 }, z: IntVec3 { x: 0, y: 0, z: 1 } }).scaled(1),
        (IntMat3 { x: IntVec3 { x: -1, y: 0, z: 0 }, y: IntVec3 { x: 0, y: 0, z: 1 }, z: IntVec3 { x: 0, y: 1, z: 0 } }).scaled_quat().magnitude2() == 2,
        (IntMat3 { x: IntVec3 { x: -1, y: 0, z: 0 }, y: IntVec3 { x: 0, y: 0, z: 1 }, z: IntVec3 { x: 0, y: 1, z: 0 } }).scaled_quat().turn_matrix() == (IntMat3 { x: IntVec3 { x: -1, y: 0, z: 0 }, y: IntVec3 { x: 0, y: 0, z: 1 }, z: IntVec3 { x: 0, y: 1, z: 0 } }).scaled(2),
        (IntMat3 { x: IntVec3 { x: -1, y: 0, z: 0 }, y: IntVec3 { x: 0, y: 0, z: -1 }, z: IntVec3 { x: 0, y: -1, z: 0 } }).scaled_quat().magnitude2() == 2,
        (IntMat3 { x: IntVec3 { x: -1, y: 0, z: 0 }, y: IntVec3 { x: 0, y: 0, z: -1 }, z: IntVec3 { x: 0, y: -1, z: 0 } }).scaled_quat().turn_matrix() == (IntMat3 { x: IntVec3 { x: -1, y: 0, z: 0 }, y: IntVec3 { x: 0, y: 0, z: -1 }, z: IntVec3 { x: 0, y: -1, z: 0 } }).scaled(2),
{
    {
        let m = IntMat3 { x: IntVec3 { x: -1, y: 0, z: 0 }, y: IntVec3 { x: 0, y: 1, z: 0 }, z: IntVec3 { x: 0, y: 0, z: -1 } };
        let q = IntQuat { s: 0, v: IntVec3 { x: 0, y: 1, z: 0 } };
        assert(m.quat_numerators().v.signum() == q.v);
        assert(m.scaled_quat() == q);
        assert(q.magnitude2() == 1);
        assert(q.turn_matrix() == m.scaled(1));
    }
    {
        let m = IntMat3 { x: IntVec3 { x: -1, y: 0, z: 0 }, y: IntVec3 { x: 0, y: -1, z: 0 }, z: IntVec3 { x: 0, y: 0, z: 1 } };
        let q = IntQuat { s: 0, v: IntVec3 { x: 0, y: 0, z: 1 } };
        assert(m.quat_numerators().v.signum() == q.v);
        assert(m.scaled_quat() == q);
        assert(q.magnitude2() == 1);
        assert(q.turn_matrix() == m.scaled(1));
    }
    {
        let m = IntMat3 { x: IntVec3 { x: -1, y: 0, z: 0 }, y: IntVec3 { x: 0, y: 0, z: 1 }, z: IntVec3 { x: 0, y: 1, z: 0 } };
        let q = IntQuat { s: 0, v: IntVec3 { x: 0, y: 1, z: 1 } };
        assert(m.quat_numerators().v.signum() == q.v);
        assert(m.scaled_quat() == q);
        assert(q.magnitude2() == 2);
        assert(q.turn_matrix() == m.scaled(2));
    }
    {
        let m = IntMat3 { x: IntVec3 { x: -1, y: 0, z: 0 }, y: IntVec3 { x: 0, y: 0, z: -1 }, z: IntVec3 { x: 0, y: -1, z: 0 } };
        let q = IntQuat { s: 0, v: IntVec3 { x: 0, y: 1, z: -1 } };
        assert(m.quat_numerators().v.signum() == q.v);
        assert(m.scaled_quat() == q);
        assert(q.magnitude2() == 2);
        assert(q.turn_matrix() == m.scaled(2));
    }
}

/// The scaled quaternions of the rotations whose first column is the y direction:
/// each turns vectors as its matrix does, times its squared magnitude.
proof fn lemma_scaled_quat_table_py()
    ensures
        (IntMat3 { x: IntVec3 { x: 0, y: 1, z: 0 }, y: IntVec3 { x: 1, y: 0, z: 0 }, z: IntVec3 { x: 0, y: 0, z: -1 } }).scaled_quat().magnitude2() == 2,
        (IntMat3 { x: IntVec3 { x: 0, y: 1, z: 0 }, y: IntVec3 { x: 1, y: 0, z: 0 }, z: IntVec3 { x: 0, y: 0, z: -1 } }).scaled_quat().turn_matrix() == (IntMat3 { x: IntVec3 { x: 0, y: 1, z: 0 }, y: IntVec3 { x: 1, y: 0, z: 0 }, z: IntVec3 { x: 0, y: 0, z: -1 } }).scaled(2),
        (IntMat3 { x: IntVec3 { x: 0, y: 1, z: 0 }, y: IntVec3 { x: -1, y: 0, z: 0 }, z: IntVec3 { x: 0, y: 0, z: 1 } }).scaled_quat().magnitude2() == 2,
        (IntMat3 { x: IntVec3 { x: 0, y: 1, z: 0 }, y: IntVec3 { x: -1, y: 0, z: 0 }, z: IntVec3 { x: 0, y: 0, z: 1 } }).scaled_quat().turn_matrix() == (IntMat3 { x: IntVec3 { x: 0, y: 1, z: 0 }, y: IntVec3 { x: -1, y: 0, z: 0 }, z: IntVec3 { x: 0, y: 0, z: 1 } }).scaled(2),
        (IntMat3 { x: IntVec3 { x: 0, y: 1, z: 0 }, y: IntVec3 { x: 0, y: 0, z: 1 }, z: IntVec3 { x: 1, y: 0, z: 0 } }).scaled_quat().magnitude2() == 4,
        (IntMat3 { x: IntVec3 { x: 0, y: 1, z: 0 }, y: IntVec3 { x: 0, y: 0, z: 1 }, z: IntVec3 { x: 1, y: 0, z: 0 } }).scaled_quat().turn_matrix() == (IntMat3 { x: IntVec3 { x: 0, y: 1, z: 0 }, y: IntVec3 { x: 0, y: 0, z: 1 }, z: IntVec3 { x: 1, y: 0, z: 0 } }).scaled(4),
        (IntMat3 { x: IntVec3 { x: 0, y: 1, z: 0 }, y: IntVec3 { x: 0, y: 0, z: -1 }, z: IntVec3 { x: -1, y: 0, z: 0 } }).scaled_quat().magnitude2() == 4,
        (IntMat3 { x: IntVec3 { x: 0, y: 1, z: 0 }, y: IntVec3 { x: 0, y: 0, z: -1 }, z: IntVec3 { x: -1, y: 0, z: 0 } }).scaled_quat().turn_matrix() == (IntMat3 { x: IntVec3 { x: 0, y: 1, z: 0 }, y: IntVec3 { x: 0, y: 0, z: -1 }, z: IntVec3 { x: -1, y: 0, z: 0 } }).scaled(4),
{
    {
        let m = IntMat3 { x: IntVec3 { x: 0, y: 1, z: 0 }, y: IntVec3 { x: 1, y: 0, z: 0 }, z: IntVec3 { x: 0, y: 0, z: -1 } };
        let q = IntQuat { s: 0, v: IntVec3 { x: 1, y: 1, z: 0 } };
        assert(m.quat_numerators().v.signum() == q.v);
        assert(m.scaled_quat() == q);
        assert(q.magnitude2() == 2);
        assert(q.turn_matrix() == m.scaled(2));
    }
    {
        let m = IntMat3 { x: IntVec3 { x: 0, y: 1, z: 0 }, y: IntVec3 { x: -1, y: 0, z: 0 }, z: IntVec3 { x: 0, y: 0, z: 1 } };
        let q = IntQuat { s: 1, v: IntVec3 { x: 0, y: 0, z: 1 } };
        assert(m.quat_numerators().v.signum() == q.v);
        assert(m.scaled_quat() == q);
        assert(q.magnitude2() == 2);
        assert(q.turn_matrix() == m.scaled(2));
    }
    {
        let m = IntMat3 { x: IntVec3 { x: 0, y: 1, z: 0 }, y: IntVec3 { x: 0, y: 0, z: 1 }, z: IntVec3 { x: 1, y: 0, z: 0 } };
        let q = IntQuat { s: 1, v: IntVec3 { x: 1, y: 1, z: 1 } };
        assert(m.quat_numerators().v.signum() == q.v);
        assert(m.scaled_quat() == q);
        assert(q.magnitude2() == 4);
        assert(q.turn_matrix() == m.scaled(4));
    }
    {
        let m = IntMat3 { x: IntVec3 { x: 0, y: 1, z: 0 }, y: IntVec3 { x: 0, y: 0, z: -1 }, z: IntVec3 { x: -1, y: 0, z: 0 } };
        let q = IntQuat { s: 1, v: IntVec3 { x: -1, y: -1, z: 1 } };
        assert(m.quat_numerators().v.signum() == q.v);
        assert(m.scaled_quat() == q);
        assert(q.magnitude2() == 4);
        assert(q.turn_matrix() == m.scaled(4));
    }
}

/// The scaled quaternions of the rotations whose first column is the direction opposite to y:
/// each turns vectors as its matrix does, times its squared magnitude.
proof fn lemma_scaled_quat_table_ny()
    ensures
        (IntMat3 { x: IntVec3 { x: 0, y: -1, z: 0 }, y: IntVec3 { x: 1, y: 0, z: 0 }, z: IntVec3 { x: 0, y: 0, z: 1 } }).scaled_quat().magnitude2() == 2,
        (IntMat3 { x: IntVec3 { x: 0, y: -1, z: 0 }, y: IntVec3 { x: 1, y: 0, z: 0 }, z: IntVec3 { x: 0, y: 0, z: 1 } }).scaled_quat().turn_matrix() == (IntMat3 { x: IntVec3 { x: 0, y: -1, z: 0 }, y: IntVec3 { x: 1, y: 0, z: 0 }, z: IntVec3 { x: 0, y: 0, z: 1 } }).scaled(2),
        (IntMat3 { x: IntVec3 { x: 0, y: -1, z: 0 }, y: IntVec3 { x: -1, y: 0, z: 0 }, z: IntVec3 { x: 0, y: 0, z: -1 } }).scaled_quat().magnitude2() == 2,
        (IntMat3 { x: IntVec3 { x: 0, y: -1, z: 0 }, y: IntVec3 { x: -1, y: 0, z: 0 }, z: IntVec3 { x: 0, y: 0, z: -1 } }).scaled_quat().turn_matrix() == (IntMat3 { x: IntVec3 { x: 0, y: -1, z: 0 }, y: IntVec3 { x: -1, y: 0, z: 0 }, z: IntVec3 { x: 0, y: 0, z: -1 } }).scaled(2),
        (IntMat3 { x: IntVec3 { x: 0, y: -1, z: 0 }, y: IntVec3 { x: 0, y: 0, z: 1 }, z: IntVec3 { x: -1, y: 0, z: 0 } }).scaled_quat().magnitude2() == 4,
        (IntMat3 { x: IntVec3 { x: 0, y: -1, z: 0 }, y: IntVec3 { x: 0, y: 0, z: 1 }, z: IntVec3 { x: -1, y: 0, z: 0 } }).scaled_quat().turn_matrix() == (IntMat3 { x: IntVec3 { x: 0, y: -1, z: 0 }, y: IntVec3 { x: 0, y: 0, z: 1 }, z: IntVec3 { x: -1, y: 0, z: 0 } }).scaled(4),
        (IntMat3 { x: IntVec3 { x: 0, y: -1, z: 0 }, y: IntVec3 { x: 0, y: 0, z: -1 }, z: IntVec3 { x: 1, y: 0, z: 0 } }).scaled_quat().magnitude2() == 4,
        (IntMat3 { x: IntVec3 { x: 0, y: -1, z: 0 }, y: IntVec3 { x: 0, y: 0, z: -1 }, z: IntVec3 { x: 1, y: 0, z: 0 } }).scaled_quat().turn_matrix() == (IntMat3 { x: IntVec3 { x: 0, y: -1, z: 0 }, y: IntVec3 { x: 0, y: 0, z: -1 }, z: IntVec3 { x: 1, y: 0, z: 0 } }).scaled(4),
{
    {
        let m = IntMat3 { x: IntVec3 { x: 0, y: -1, z: 0 }, y: IntVec3 { x: 1, y: 0, z: 0 }, z: IntVec3 { x: 0, y: 0, z: 1 } };
        let q = IntQuat { s: 1, v: IntVec3 { x: 0, y: 0, z: -1 } };
        assert(m.quat_numerators().v.signum() == q.v);
        assert(m.scaled_quat() == q);
        assert(q.magnitude2() == 2);
        assert(q.turn_matrix() == m.scaled(2));
    }
    {
        let m = IntMat3 { x: IntVec3 { x: 0, y: -1, z: 0 }, y: IntVec3 { x: -1, y: 0, z: 0 }, z: IntVec3 { x: 0, y: 0, z: -1 } };
        let q = IntQuat { s: 0, v: IntVec3 { x: 1, y: -1, z: 0 } };
        assert(m.quat_numerators().v.signum() == q.v);
        assert(m.scaled_quat() == q);
        assert(q.magnitude2() == 2);
        assert(q.turn_matrix() == m.scaled(2));
    }
    {
        let m = IntMat3 { x: IntVec3 { x: 0, y: -1, z: 0 }, y: IntVec3 { x: 0, y: 0, z: 1 }, z: IntVec3 { x: -1, y: 0, z: 0 } };
        let q = IntQuat { s: 1, v: IntVec3 { x: 1, y: -1, z: -1 } };
        assert(m.quat_numerators().v.signum() == q.v);
        assert(m.scaled_quat() == q);
        assert(q.magnitude2() == 4);
        assert(q.turn_matrix() == m.scaled(4));
    }
    {
        let m = IntMat3 { x: IntVec3 { x: 0, y: -1, z: 0 }, y: IntVec3 { x: 0, y: 0, z: -1 }, z: IntVec3 { x: 1, y: 0, z: 0 } };
        let q = IntQuat { s: 1, v: IntVec3 { x: -1, y: 1, z: -1 } };
        assert(m.quat_numerators().v.signum() == q.v);
        assert(m.scaled_quat() == q);
        assert(q.magnitude2() == 4);
        assert(q.turn_matrix() == m.scaled(4));
    }
}

/// The scaled quaternions of the rotations whose first column is the z direction:
/// each turns vectors as its matrix does, times its squared magnitude.
proof fn lemma_scaled_quat_table_pz()
    ensures
        (IntMat3 { x: IntVec3 { x: 0, y: 0, z: 1 }, y: IntVec3 { x: 1, y: 0, z: 0 }, z: IntVec3 { x: 0, y: 1, z: 0 } }).scaled_quat().magnitude2() == 4,
        (IntMat3 { x: IntVec3 { x: 0, y: 0, z: 1 }, y: IntVec3 { x: 1, y: 0, z: 0 }, z: IntVec3 { x: 0, y: 1, z: 0 } }).scaled_quat().turn_matrix() == (IntMat3 { x: IntVec3 { x: 0, y: 0, z: 1 }, y: IntVec3 { x: 1, y: 0, z: 0 }, z: IntVec3 { x: 0, y: 1, z: 0 } }).scaled(4),
        (IntMat3 { x: IntVec3 { x: 0, y: 0, z: 1 }, y: IntVec3 { x: -1, y: 0, z: 0 }, z: IntVec3 { x: 0, y: -1, z: 0 } }).scaled_quat().magnitude2() == 4,
        (IntMat3 { x: IntVec3 { x: 0, y: 0, z: 1 }, y: IntVec3 { x: -1, y: 0, z: 0 }, z: IntVec3 { x: 0, y: -1, z: 0 } }).scaled_quat().turn_matrix() == (IntMat3 { x: IntVec3 { x: 0, y: 0, z: 1 }, y: IntVec3 { x: -1, y: 0, z: 0 }, z: IntVec3 { x: 0, y: -1, z: 0 } }).scaled(4),
        (IntMat3 { x: IntVec3 { x: 0, y: 0, z: 1 }, y: IntVec3 { x: 0, y: 1, z: 0 }, z: IntVec3 { x: -1, y: 0, z: 0 } }).scaled_quat().magnitude2() == 2,
        (IntMat3 { x: IntVec3 { x: 0, y: 0, z: 1 }, y: IntVec3 { x: 0, y: 1, z: 0 }, z: IntVec3 { x: -1, y: 0, z: 0 } }).scaled_quat().turn_matrix() == (IntMat3 { x: IntVec3 { x: 0, y: 0, z: 1 }, y: IntVec3 { x: 0, y: 1, z: 0 }, z: IntVec3 { x: -1, y: 0, z: 0 } }).scaled(2),
        (IntMat3 { x: IntVec3 { x: 0, y: 0, z: 1 }, y: IntVec3 { x: 0, y: -1, z: 0 }, z: IntVec3 { x: 1, y: 0, z: 0 } }).scaled_quat().magnitude2() == 2,
        (IntMat3 { x: IntVec3 { x: 0, y: 0, z: 1 }, y: IntVec3 { x: 0, y: -1, z: 0 }, z: IntVec3 { x: 1, y: 0, z: 0 } }).scaled_quat().turn_matrix() == (IntMat3 { x: IntVec3 { x: 0, y: 0, z: 1 }, y: IntVec3 { x: 0, y: -1, z: 0 }, z: IntVec3 { x: 1, y: 0, z: 0 } }).scaled(2),
{
    {
        let m = IntMat3 { x: IntVec3 { x: 0, y: 0, z: 1 }, y: IntVec3 { x: 1, y: 0, z: 0 }, z: IntVec3 { x: 0, y: 1, z: 0 } };
        let q = IntQuat { s: 1, v: IntVec3 { x: -1, y: -1, z: -1 } };
        assert(m.quat_numerators().v.signum() == q.v);
        assert(m.scaled_quat() == q);
        assert(q.magnitude2() == 4);
        assert(q.turn_matrix() == m.scaled(4));
    }
    {
        let m = IntMat3 { x: IntVec3 { x: 0, y: 0, z: 1 }, y: IntVec3 { x: -1, y: 0, z: 0 }, z: IntVec3 { x: 0, y: -1, z: 0 } };
        let q = IntQuat { s: 1, v: IntVec3 { x: 1, y: -1, z: 1 } };
        assert(m.quat_numerators().v.signum() == q.v);
        assert(m.scaled_quat() == q);
        assert(q.magnitude2() == 4);
        assert(q.turn_matrix() == m.scaled(4));
    }
    {
        let m = IntMat3 { x: IntVec3 { x: 0, y: 0, z: 1 }, y: IntVec3 { x: 0, y: 1, z: 0 }, z: IntVec3 { x: -1, y: 0, z: 0 } };
        let q = IntQuat { s: 1, v: IntVec3 { x: 0, y: -1, z: 0 } };
        assert(m.quat_numerators().v.signum() == q.v);
        assert(m.scaled_quat() == q);
        assert(q.magnitude2() == 2);
        assert(q.turn_matrix() == m.scaled(2));
    }
    {
        let m = IntMat3 { x: IntVec3 { x: 0, y: 0, z: 1 }, y: IntVec3 { x: 0, y: -1, z: 0 }, z: IntVec3 { x: 1, y: 0, z: 0 } };
        let q = IntQuat { s: 0, v: IntVec3 { x: 1, y: 0, z: 1 } };
        assert(m.quat_numerators().v.signum() == q.v);
        assert(m.scaled_quat() == q);
        assert(q.magnitude2() == 2);
        assert(q.turn_matrix() == m.scaled(2));
    }
}

/// The scaled quaternions of the rotations whose first column is the direction opposite to z:
/// each turns vectors as its matrix does, times its squared magnitude.
proof fn lemma_scaled_quat_table_nz()
    ensures
        (IntMat3 { x: IntVec3 { x: 0, y: 0, z: -1 }, y: IntVec3 { x: 1, y: 0, z: 0 }, z: IntVec3 { x: 0, y: -1, z: 0 } }).scaled_quat().magnitude2() == 4,
        (IntMat3 { x: IntVec3 { x: 0, y: 0, z: -1 }, y: IntVec3 { x: 1, y: 0, z: 0 }, z: IntVec3 { x: 0, y: -1, z: 0 } }).scaled_quat().turn_matrix() == (IntMat3 { x: IntVec3 { x: 0, y: 0, z: -1 }, y: IntVec3 { x: 1, y: 0, z: 0 }, z: IntVec3 { x: 0, y: -1, z: 0 } }).scaled(4),
        (IntMat3 { x: IntVec3 { x: 0, y: 0, z: -1 }, y: IntVec3 { x: -1, y: 0, z: 0 }, z: IntVec3 { x: 0, y: 1, z: 0 } }).scaled_quat().magnitude2() == 4,
        (IntMat3 { x: IntVec3 { x: 0, y: 0, z: -1 }, y: IntVec3 { x: -1, y: 0, z: 0 }, z: IntVec3 { x: 0, y: 1, z: 0 } }).scaled_quat().turn_matrix() == (IntMat3 { x: IntVec3 { x: 0, y: 0, z: -1 }, y: IntVec3 { x: -1, y: 0, z: 0 }, z: IntVec3 { x: 0, y: 1, z: 0 } }).scaled(4),
        (IntMat3 { x: IntVec3 { x: 0, y: 0, z: -1 }, y: IntVec3 { x: 0, y: 1, z: 0 }, z: IntVec3 { x: 1, y: 0, z: 0 } }).scaled_quat().magnitude2() == 2,
        (IntMat3 { x: IntVec3 { x: 0, y: 0, z: -1 }, y: IntVec3 { x: 0, y: 1, z: 0 }, z: IntVec3 { x: 1, y: 0, z: 0 } }).scaled_quat().turn_matrix() == (IntMat3 { x: IntVec3 { x: 0, y: 0, z: -1 }, y: IntVec3 { x: 0, y: 1, z: 0 }, z: IntVec3 { x: 1, y: 0, z: 0 } }).scaled(2),
        (IntMat3 { x: IntVec3 { x: 0, y: 0, z: -1 }, y: IntVec3 { x: 0, y: -1, z: 0 }, z: IntVec3 { x: -1, y: 0, z: 0 } }).scaled_quat().magnitude2() == 2,
        (IntMat3 { x: IntVec3 { x: 0, y: 0, z: -1 }, y: IntVec3 { x: 0, y: -1, z: 0 }, z: IntVec3 { x: -1, y: 0, z: 0 } }).scaled_quat().turn_matrix() == (IntMat3 { x: IntVec3 { x: 0, y: 0, z: -1 }, y: IntVec3 { x: 0, y: -1, z: 0 }, z: IntVec3 { x: -1, y: 0, z: 0 } }).scaled(2),
{
    {
        let m = IntMat3 { x: IntVec3 { x: 0, y: 0, z: -1 }, y: IntVec3 { x: 1, y: 0, z: 0 }, z: IntVec3 { x: 0, y: -1, z: 0 } };
        let q = IntQuat { s: 1, v: IntVec3 { x: 1, y: 1, z: -1 } };
        assert(m.quat_numerators().v.signum() == q.v);
        assert(m.scaled_quat() == q);
        assert(q.magnitude2() == 4);
        assert(q.turn_matrix() == m.scaled(4));
    }
    {
        let m = IntMat3 { x: IntVec3 { x: 0, y: 0, z: -1 }, y: IntVec3 { x: -1, y: 0, z: 0 }, z: IntVec3 { x: 0, y: 1, z: 0 } };
        let q = IntQuat { s: 1, v: IntVec3 { x: -1, y: 1, z: 1 } };
        assert(m.quat_numerators().v.signum() == q.v);
        assert(m.scaled_quat() == q);
        assert(q.magnitude2() == 4);
        assert(q.turn_matrix() == m.scaled(4));
    }
    {
        let m = IntMat3 { x: IntVec3 { x: 0, y: 0, z: -1 }, y: IntVec3 { x: 0, y: 1, z: 0 }, z: IntVec3 { x: 1, y: 0, z: 0 } };
        let q = IntQuat { s: 1, v: IntVec3 { x: 0, y: 1, z: 0 } };
        assert(m.quat_numerators().v.signum() == q.v);
        assert(m.scaled_quat() == q);
        assert(q.magnitude2() == 2);
        assert(q.turn_matrix() == m.scaled(2));
    }
    {
        let m = IntMat3 { x: IntVec3 { x: 0, y: 0, z: -1 }, y: IntVec3 { x: 0, y: -1, z: 0 }, z: IntVec3 { x: -1, y: 0, z: 0 } };
        let q = IntQuat { s: 0, v: IntVec3 { x: 1, y: 0, z: -1 } };
        assert(m.quat_numerators().v.signum() == q.v);
        assert(m.scaled_quat() == q);
        assert(q.magnitude2() == 2);
        assert(q.turn_matrix() == m.scaled(2));
    }
}

/// The orthogonal matrices whose first column is the x direction.
proof fn lemma_first_column_px(m: IntMat3, u: IntVec3, v: IntVec3)
    requires
        m.is_orthogonal(),
        m.x == (IntVec3 { x: 1, y: 0, z: 0 }),
    ensures
        m.determinant() == 1 || m.determinant() == -1,
        (m.determinant() == 1) == (m.x.cross(m.y) == m.z),
        m.determinant() == 1 ==> m.mul_v(u).cross(m.mul_v(v)) == m.mul_v(u.cross(v)),
        m.determinant() == 1 ==> m.scaled_quat().magnitude2() > 0 && m.scaled_quat().turn_matrix()
            == m.scaled(m.scaled_quat().magnitude2()),
{
    lemma_scaled_quat_table_px();
    lemma_columns_apart(m);
    lemma_unit_vector_cases(m.y);
    lemma_unit_vector_cases(m.z);
    lemma_signed_products(u, v);
    let w = u.cross(v);
    let px = IntVec3 { x: 1, y: 0, z: 0 };
    let nx = IntVec3 { x: -1, y: 0, z: 0 };
    let py = IntVec3 { x: 0, y: 1, z: 0 };
    let ny = IntVec3 { x: 0, y: -1, z: 0 };
    let pz = IntVec3 { x: 0, y: 0, z: 1 };
    let nz = IntVec3 { x: 0, y: 0, z: -1 };
    assert(py.cross(pz) == px && px.cross(py) == pz);
    assert((IntMat3 { x: px, y: py, z: pz }).determinant() == 1);
    assert((IntMat3 { x: px, y: py, z: pz }).mul_v(u) == (IntVec3 { x: u.x, y: u.y, z: u.z }));
    assert((IntMat3 { x: px, y: py, z: pz }).mul_v(v) == (IntVec3 { x: v.x, y: v.y, z: v.z }));
    assert((IntMat3 { x: px, y: py, z: pz }).mul_v(w) == (IntVec3 { x: w.x, y: w.y, z: w.z }));
    assert((IntVec3 { x: u.x, y: u.y, z: u.z }).cross(IntVec3 { x: v.x, y: v.y, z: v.z }) == (IntVec3 { x: w.x, y: w.y, z: w.z }));
    assert(py.cross(nz) == nx && px.cross(py) == pz);
    assert((IntMat3 { x: px, y: py, z: nz }).determinant() == -1);
    assert(ny.cross(pz) == nx && px.cross(ny) == nz);
    assert((IntMat3 { x: px, y: ny, z: pz }).determinant() == -1);
    assert(ny.cross(nz) == px && px.cross(ny) == nz);
    assert((IntMat3 { x: px, y: ny, z: nz }).determinant() == 1);
    assert((IntMat3 { x: px, y: ny, z: nz }).mul_v(u) == (IntVec3 { x: u.x, y: -u.y, z: -u.z }));
    assert((IntMat3 { x: px, y: ny, z: nz }).mul_v(v) == (IntVec3 { x: v.x, y: -v.y, z: -v.z }));
    assert((IntMat3 { x: px, y: ny, z: nz }).mul_v(w) == (IntVec3 { x: w.x, y: -w.y, z: -w.z }));
    assert((IntVec3 { x: u.x, y: -u.y, z: -u.z }).cross(IntVec3 { x: v.x, y: -v.y, z: -v.z }) == (IntVec3 { x: w.x, y: -w.y, z: -w.z }));
    assert(pz.cross(py) == nx && px.cross(pz) == ny);
    assert((IntMat3 { x: px, y: pz, z: py }).determinant() == -1);
    assert(pz.cross(ny) == px && px.cross(pz) == ny);
    assert((IntMat3 { x: px, y: pz, z: ny }).determinant() == 1);
    assert((IntMat3 { x: px, y: pz, z: ny }).mul_v(u) == (IntVec3 { x: u.x, y: -u.z, z: u.y }));
    assert((IntMat3 { x: px, y: pz, z: ny }).mul_v(v) == (IntVec3 { x: v.x, y: -v.z, z: v.y }));
    assert((IntMat3 { x: px, y: pz, z: ny }).mul_v(w) == (IntVec3 { x: w.x, y: -w.z, z: w.y }));
    assert((IntVec3 { x: u.x, y: -u.z, z: u.y }).cross(IntVec3 { x: v.x, y: -v.z, z: v.y }) == (IntVec3 { x: w.x, y: -w.z, z: w.y }));
    assert(nz.cross(py) == px && px.cross(nz) == py);
    assert((IntMat3 { x: px, y: nz, z: py }).determinant() == 1);
    assert((IntMat3 { x: px, y: nz, z: py }).mul_v(u) == (IntVec3 { x: u.x, y: u.z, z: -u.y }));
    assert((IntMat3 { x: px, y: nz, z: py }).mul_v(v) == (IntVec3 { x: v.x, y: v.z, z: -v.y }));
    assert((IntMat3 { x: px, y: nz, z: py }).mul_v(w) == (IntVec3 { x: w.x, y: w.z, z: -w.y }));
    assert((IntVec3 { x: u.x, y: u.z, z: -u.y }).cross(IntVec3 { x: v.x, y: v.z, z: -v.y }) == (IntVec3 { x: w.x, y: w.z, z: -w.y }));
    assert(nz.cross(ny) == nx && px.cross(nz) == py);
    assert((IntMat3 { x: px, y: nz, z: ny }).determinant() == -1);
}

/// The orthogonal matrices whose first column is the direction opposite to x.
proof fn lemma_first_column_nx(m: IntMat3, u: IntVec3, v: IntVec3)
    requires
        m.is_orthogonal(),
        m.x == (IntVec3 { x: -1, y: 0, z: 0 }),
    ensures
        m.determinant() == 1 || m.determinant() == -1,
        (m.determinant() == 1) == (m.x.cross(m.y) == m.z),
        m.determinant() == 1 ==> m.mul_v(u).cross(m.mul_v(v)) == m.mul_v(u.cross(v)),
        m.determinant() == 1 ==> m.scaled_quat().magnitude2() > 0 && m.scaled_quat().turn_matrix()
            == m.scaled(m.scaled_quat().magnitude2()),
{
    lemma_scaled_quat_table_nx();
    lemma_columns_apart(m);
    lemma_unit_vector_cases(m.y);
    lemma_unit_vector_cases(m.z);
    lemma_signed_products(u, v);
    let w = u.cross(v);
    let px = IntVec3 { x: 1, y: 0, z: 0 };
    let nx = IntVec3 { x: -1, y: 0, z: 0 };
    let py = IntVec3 { x: 0, y: 1, z: 0 };
    let ny = IntVec3 { x: 0, y: -1, z: 0 };
    let pz = IntVec3 { x: 0, y: 0, z: 1 };
    let nz = IntVec3 { x: 0, y: 0, z: -1 };
    assert(py.cross(pz) == px && nx.cross(py) == nz);
    assert((IntMat3 { x: nx, y: py, z: pz }).determinant() == -1);
    assert(py.cross(nz) == nx && nx.cross(py) == nz);
    assert((IntMat3 { x: nx, y: py, z: nz }).determinant() == 1);
    assert((IntMat3 { x: nx, y: py, z: nz }).mul_v(u) == (IntVec3 { x: -u.x, y: u.y, z: -u.z }));
    assert((IntMat3 { x: nx, y: py, z: nz }).mul_v(v) == (IntVec3 { x: -v.x, y: v.y, z: -v.z }));
    assert((IntMat3 { x: nx, y: py, z: nz }).mul_v(w) == (IntVec3 { x: -w.x, y: w.y, z: -w.z }));
    assert((IntVec3 { x: -u.x, y: u.y, z: -u.z }).cross(IntVec3 { x: -v.x, y: v.y, z: -v.z }) == (IntVec3 { x: -w.x, y: w.y, z: -w.z }));
    assert(ny.cross(pz) == nx && nx.cross(ny) == pz);
    assert((IntMat3 { x: nx, y: ny, z: pz }).determinant() == 1);
    assert((IntMat3 { x: nx, y: ny, z: pz }).mul_v(u) == (IntVec3 { x: -u.x, y: -u.y, z: u.z }));
    assert((IntMat3 { x: nx, y: ny, z: pz }).mul_v(v) == (IntVec3 { x: -v.x, y: -v.y, z: v.z }));
    assert((IntMat3 { x: nx, y: ny, z: pz }).mul_v(w) == (IntVec3 { x: -w.x, y: -w.y, z: w.z }));
    assert((IntVec3 { x: -u.x, y: -u.y, z: u.z }).cross(IntVec3 { x: -v.x, y: -v.y, z: v.z }) == (IntVec3 { x: -w.x, y: -w.y, z: w.z }));
    assert(ny.cross(nz) == px && nx.cross(ny) == pz);
    assert((IntMat3 { x: nx, y: ny, z: nz }).determinant() == -1);
    assert(pz.cross(py) == nx && nx.cross(pz) == py);
    assert((IntMat3 { x: nx, y: pz, z: py }).determinant() == 1);
    assert((IntMat3 { x: nx, y: pz, z: py }).mul_v(u) == (IntVec3 { x: -u.x, y: u.z, z: u.y }));
    assert((IntMat3 { x: nx, y: pz, z: py }).mul_v(v) == (IntVec3 { x: -v.x, y: v.z, z: v.y }));
    assert((IntMat3 { x: nx, y: pz, z: py }).mul_v(w) == (IntVec3 { x: -w.x, y: w.z, z: w.y }));
    assert((IntVec3 { x: -u.x, y: u.z, z: u.y }).cross(IntVec3 { x: -v.x, y: v.z, z: v.y }) == (IntVec3 { x: -w.x, y: w.z, z: w.y }));
    assert(pz.cross(ny) == px && nx.cross(pz) == py);
    assert((IntMat3 { x: nx, y: pz, z: ny }).determinant() == -1);
    assert(nz.cross(py) == px && nx.cross(nz) == ny);
    assert((IntMat3 { x: nx, y: nz, z: py }).determinant() == -1);
    assert(nz.cross(ny) == nx && nx.cross(nz) == ny);
    assert((IntMat3 { x: nx, y: nz, z: ny }).determinant() == 1);
    assert((IntMat3 { x: nx, y: nz, z: ny }).mul_v(u) == (IntVec3 { x: -u.x, y: -u.z, z: -u.y }));
    assert((IntMat3 { x: nx, y: nz, z: ny }).mul_v(v) == (IntVec3 { x: -v.x, y: -v.z, z: -v.y }));
    assert((IntMat3 { x: nx, y: nz, z: ny }).mul_v(w) == (IntVec3 { x: -w.x, y: -w.z, z: -w.y }));
    assert((IntVec3 { x: -u.x, y: -u.z, z: -u.y }).cross(IntVec3 { x: -v.x, y: -v.z, z: -v.y }) == (IntVec3 { x: -w.x, y: -w.z, z: -w.y }));
}

/// The orthogonal matrices whose first column is the y direction.
proof fn lemma_first_column_py(m: IntMat3, u: IntVec3, v: IntVec3)
    requires
        m.is_orthogonal(),
        m.x == (IntVec3 { x: 0, y: 1, z: 0 }),
    ensures
        m.determinant() == 1 || m.determinant() == -1,
        (m.determinant() == 1) == (m.x.cross(m.y) == m.z),
        m.determinant() == 1 ==> m.mul_v(u).cross(m.mul_v(v)) == m.mul_v(u.cross(v)),
        m.determinant() == 1 ==> m.scaled_quat().magnitude2() > 0 && m.scaled_quat().turn_matrix()
            == m.scaled(m.scaled_quat().magnitude2()),
{
    lemma_scaled_quat_table_py();
    lemma_columns_apart(m);
    lemma_unit_vector_cases(m.y);
    lemma_unit_vector_cases(m.z);
    lemma_signed_products(u, v);
    let w = u.cross(v);
    let px = IntVec3 { x: 1, y: 0, z: 0 };
    let nx = IntVec3 { x: -1, y: 0, z: 0 };
    let py = IntVec3 { x: 0, y: 1, z: 0 };
    let ny = IntVec3 { x: 0, y: -1, z: 0 };
    let pz = IntVec3 { x: 0, y: 0, z: 1 };
    let nz = IntVec3 { x: 0, y: 0, z: -1 };
    assert(px.cross(pz) == ny && py.cross(px) == nz);
    assert((IntMat3 { x: py, y: px, z: pz }).determinant() == -1);
    assert(px.cross(nz) == py && py.cross(px) == nz);
    assert((IntMat3 { x: py, y: px, z: nz }).determinant() == 1);
    assert((IntMat3 { x: py, y: px, z: nz }).mul_v(u) == (IntVec3 { x: u.y, y: u.x, z: -u.z }));
    assert((IntMat3 { x: py, y: px, z: nz }).mul_v(v) == (IntVec3 { x: v.y, y: v.x, z: -v.z }));
    assert((IntMat3 { x: py, y: px, z: nz }).mul_v(w) == (IntVec3 { x: w.y, y: w.x, z: -w.z }));
    assert((IntVec3 { x: u.y, y: u.x, z: -u.z }).cross(IntVec3 { x: v.y, y: v.x, z: -v.z }) == (IntVec3 { x: w.y, y: w.x, z: -w.z }));
    assert(nx.cross(pz) == py && py.cross(nx) == pz);
    assert((IntMat3 { x: py, y: nx, z: pz }).determinant() == 1);
    assert((IntMat3 { x: py, y: nx, z: pz }).mul_v(u) == (IntVec3 { x: -u.y, y: u.x, z: u.z }));
    assert((IntMat3 { x: py, y: nx, z: pz }).mul_v(v) == (IntVec3 { x: -v.y, y: v.x, z: v.z }));
    assert((IntMat3 { x: py, y: nx, z: pz }).mul_v(w) == (IntVec3 { x: -w.y, y: w.x, z: w.z }));
    assert((IntVec3 { x: -u.y, y: u.x, z: u.z }).cross(IntVec3 { x: -v.y, y: v.x, z: v.z }) == (IntVec3 { x: -w.y, y: w.x, z: w.z }));
    assert(nx.cross(nz) == ny && py.cross(nx) == pz);
    assert((IntMat3 { x: py, y: nx, z: nz }).determinant() == -1);
    assert(pz.cross(px) == py && py.cross(pz) == px);
    assert((IntMat3 { x: py, y: pz, z: px }).determinant() == 1);
    assert((IntMat3 { x: py, y: pz, z: px }).mul_v(u) == (IntVec3 { x: u.z, y: u.x, z: u.y }));
    assert((IntMat3 { x: py, y: pz, z: px }).mul_v(v) == (IntVec3 { x: v.z, y: v.x, z: v.y }));
    assert((IntMat3 { x: py, y: pz, z: px }).mul_v(w) == (IntVec3 { x: w.z, y: w.x, z: w.y }));
    assert((IntVec3 { x: u.z, y: u.x, z: u.y }).cross(IntVec3 { x: v.z, y: v.x, z: v.y }) == (IntVec3 { x: w.z, y: w.x, z: w.y }));
    assert(pz.cross(nx) == ny && py.cross(pz) == px);
    assert((IntMat3 { x: py, y: pz, z: nx }).determinant() == -1);
    assert(nz.cross(px) == ny && py.cross(nz) == nx);
    assert((IntMat3 { x: py, y: nz, z: px }).determinant() == -1);
    assert(nz.cross(nx) == py && py.cross(nz) == nx);
    assert((IntMat3 { x: py, y: nz, z: nx }).determinant() == 1);
    assert((IntMat3 { x: py, y: nz, z: nx }).mul_v(u) == (IntVec3 { x: -u.z, y: u.x, z: -u.y }));
    assert((IntMat3 { x: py, y: nz, z: nx }).mul_v(v) == (IntVec3 { x: -v.z, y: v.x, z: -v.y }));
    assert((IntMat3 { x: py, y: nz, z: nx }).mul_v(w) == (IntVec3 { x: -w.z, y: w.x, z: -w.y }));
    assert((IntVec3 { x: -u.z, y: u.x, z: -u.y }).cross(IntVec3 { x: -v.z, y: v.x, z: -v.y }) == (IntVec3 { x: -w.z, y: w.x, z: -w.y }));
}

/// The orthogonal matrices whose first column is the direction opposite to y.
proof fn lemma_first_column_ny(m: IntMat3, u: IntVec3, v: IntVec3)
    requires
        m.is_orthogonal(),
        m.x == (IntVec3 { x: 0, y: -1, z: 0 }),
    ensures
        m.determinant() == 1 || m.determinant() == -1,
        (m.determinant() == 1) == (m.x.cross(m.y) == m.z),
        m.determinant() == 1 ==> m.mul_v(u).cross(m.mul_v(v)) == m.mul_v(u.cross(v)),
        m.determinant() == 1 ==> m.scaled_quat().magnitude2() > 0 && m.scaled_quat().turn_matrix()
            == m.scaled(m.scaled_quat().magnitude2()),
{
    lemma_scaled_quat_table_ny();
    lemma_columns_apart(m);
    lemma_unit_vector_cases(m.y);
    lemma_unit_vector_cases(m.z);
    lemma_signed_products(u, v);
    let w = u.cross(v);
    let px = IntVec3 { x: 1, y: 0, z: 0 };
    let nx = IntVec3 { x: -1, y: 0, z: 0 };
    let py = IntVec3 { x: 0, y: 1, z: 0 };
    let ny = IntVec3 { x: 0, y: -1, z: 0 };
    let pz = IntVec3 { x: 0, y: 0, z: 1 };
    let nz = IntVec3 { x: 0, y: 0, z: -1 };
    assert(px.cross(pz) == ny && ny.cross(px) == pz);
    assert((IntMat3 { x: ny, y: px, z: pz }).determinant() == 1);
    assert((IntMat3 { x: ny, y: px, z: pz }).mul_v(u) == (IntVec3 { x: u.y, y: -u.x, z: u.z }));
    assert((IntMat3 { x: ny, y: px, z: pz }).mul_v(v) == (IntVec3 { x: v.y, y: -v.x, z: v.z }));
    assert((IntMat3 { x: ny, y: px, z: pz }).mul_v(w) == (IntVec3 { x: w.y, y: -w.x, z: w.z }));
    assert((IntVec3 { x: u.y, y: -u.x, z: u.z }).cross(IntVec3 { x: v.y, y: -v.x, z: v.z }) == (IntVec3 { x: w.y, y: -w.x, z: w.z }));
    assert(px.cross(nz) == py && ny.cross(px) == pz);
    assert((IntMat3 { x: ny, y: px, z: nz }).determinant() == -1);
    assert(nx.cross(pz) == py && ny.cross(nx) == nz);
    assert((IntMat3 { x: ny, y: nx, z: pz }).determinant() == -1);
    assert(nx.cross(nz) == ny && ny.cross(nx) == nz);
    assert((IntMat3 { x: ny, y: nx, z: nz }).determinant() == 1);
    assert((IntMat3 { x: ny, y: nx, z: nz }).mul_v(u) == (IntVec3 { x: -u.y, y: -u.x, z: -u.z }));
    assert((IntMat3 { x: ny, y: nx, z: nz }).mul_v(v) == (IntVec3 { x: -v.y, y: -v.x, z: -v.z }));
    assert((IntMat3 { x: ny, y: nx, z: nz }).mul_v(w) == (IntVec3 { x: -w.y, y: -w.x, z: -w.z }));
    assert((IntVec3 { x: -u.y, y: -u.x, z: -u.z }).cross(IntVec3 { x: -v.y, y: -v.x, z: -v.z }) == (IntVec3 { x: -w.y, y: -w.x, z: -w.z }));
    assert(pz.cross(px) == py && ny.cross(pz) == nx);
    assert((IntMat3 { x: ny, y: pz, z: px }).determinant() == -1);
    assert(pz.cross(nx) == ny && ny.cross(pz) == nx);
    assert((IntMat3 { x: ny, y: pz, z: nx }).determinant() == 1);
    assert((IntMat3 { x: ny, y: pz, z: nx }).mul_v(u) == (IntVec3 { x: -u.z, y: -u.x, z: u.y }));
    assert((IntMat3 { x: ny, y: pz, z: nx }).mul_v(v) == (IntVec3 { x: -v.z, y: -v.x, z: v.y }));
    assert((IntMat3 { x: ny, y: pz, z: nx }).mul_v(w) == (IntVec3 { x: -w.z, y: -w.x, z: w.y }));
    assert((IntVec3 { x: -u.z, y: -u.x, z: u.y }).cross(IntVec3 { x: -v.z, y: -v.x, z: v.y }) == (IntVec3 { x: -w.z, y: -w.x, z: w.y }));
    assert(nz.cross(px) == ny && ny.cross(nz) == px);
    assert((IntMat3 { x: ny, y: nz, z: px }).determinant() == 1);
    assert((IntMat3 { x: ny, y: nz, z: px }).mul_v(u) == (IntVec3 { x: u.z, y: -u.x, z: -u.y }));
    assert((IntMat3 { x: ny, y: nz, z: px }).mul_v(v) == (IntVec3 { x: v.z, y: -v.x, z: -v.y }));
    assert((IntMat3 { x: ny, y: nz, z: px }).mul_v(w) == (IntVec3 { x: w.z, y: -w.x, z: -w.y }));
    assert((IntVec3 { x: u.z, y: -u.x, z: -u.y }).cross(IntVec3 { x: v.z, y: -v.x, z: -v.y }) == (IntVec3 { x: w.z, y: -w.x, z: -w.y }));
    assert(nz.cross(nx) == py && ny.cross(nz) == px);
    assert((IntMat3 { x: ny, y: nz, z: nx }).determinant() == -1);
}

/// The orthogonal matrices whose first column is the z direction.
proof fn lemma_first_column_pz(m: IntMat3, u: IntVec3, v: IntVec3)
    requires
        m.is_orthogonal(),
        m.x == (IntVec3 { x: 0, y: 0, z: 1 }),
    ensures
        m.determinant() == 1 || m.determinant() == -1,
        (m.determinant() == 1) == (m.x.cross(m.y) == m.z),
        m.determinant() == 1 ==> m.mul_v(u).cross(m.mul_v(v)) == m.mul_v(u.cross(v)),
        m.determinant() == 1 ==> m.scaled_quat().magnitude2() > 0 && m.scaled_quat().turn_matrix()
            == m.scaled(m.scaled_quat().magnitude2()),
{
    lemma_scaled_quat_table_pz();
    lemma_columns_apart(m);
    lemma_unit_vector_cases(m.y);
    lemma_unit_vector_cases(m.z);
    lemma_signed_products(u, v);
    let w = u.cross(v);
    let px = IntVec3 { x: 1, y: 0, z: 0 };
    let nx = IntVec3 { x: -1, y: 0, z: 0 };
    let py = IntVec3 { x: 0, y: 1, z: 0 };
    let ny = IntVec3 { x: 0, y: -1, z: 0 };
    let pz = IntVec3 { x: 0, y: 0, z: 1 };
    let nz = IntVec3 { x: 0, y: 0, z: -1 };
    assert(px.cross(py) == pz && pz.cross(px) == py);
    assert((IntMat3 { x: pz, y: px, z: py }).determinant() == 1);
    assert((IntMat3 { x: pz, y: px, z: py }).mul_v(u) == (IntVec3 { x: u.y, y: u.z, z: u.x }));
    assert((IntMat3 { x: pz, y: px, z: py }).mul_v(v) == (IntVec3 { x: v.y, y: v.z, z: v.x }));
    assert((IntMat3 { x: pz, y: px, z: py }).mul_v(w) == (IntVec3 { x: w.y, y: w.z, z: w.x }));
    assert((IntVec3 { x: u.y, y: u.z, z: u.x }).cross(IntVec3 { x: v.y, y: v.z, z: v.x }) == (IntVec3 { x: w.y, y: w.z, z: w.x }));
    assert(px.cross(ny) == nz && pz.cross(px) == py);
    assert((IntMat3 { x: pz, y: px, z: ny }).determinant() == -1);
    assert(nx.cross(py) == nz && pz.cross(nx) == ny);
    assert((IntMat3 { x: pz, y: nx, z: py }).determinant() == -1);
    assert(nx.cross(ny) == pz && pz.cross(nx) == ny);
    assert((IntMat3 { x: pz, y: nx, z: ny }).determinant() == 1);
    assert((IntMat3 { x: pz, y: nx, z: ny }).mul_v(u) == (IntVec3 { x: -u.y, y: -u.z, z: u.x }));
    assert((IntMat3 { x: pz, y: nx, z: ny }).mul_v(v) == (IntVec3 { x: -v.y, y: -v.z, z: v.x }));
    assert((IntMat3 { x: pz, y: nx, z: ny }).mul_v(w) == (IntVec3 { x: -w.y, y: -w.z, z: w.x }));
    assert((IntVec3 { x: -u.y, y: -u.z, z: u.x }).cross(IntVec3 { x: -v.y, y: -v.z, z: v.x }) == (IntVec3 { x: -w.y, y: -w.z, z: w.x }));
    assert(py.cross(px) == nz && pz.cross(py) == nx);
    assert((IntMat3 { x: pz, y: py, z: px }).determinant() == -1);
    assert(py.cross(nx) == pz && pz.cross(py) == nx);
    assert((IntMat3 { x: pz, y: py, z: nx }).determinant() == 1);
    assert((IntMat3 { x: pz, y: py, z: nx }).mul_v(u) == (IntVec3 { x: -u.z, y: u.y, z: u.x }));
    assert((IntMat3 { x: pz, y: py, z: nx }).mul_v(v) == (IntVec3 { x: -v.z, y: v.y, z: v.x }));
    assert((IntMat3 { x: pz, y: py, z: nx }).mul_v(w) == (IntVec3 { x: -w.z, y: w.y, z: w.x }));
    assert((IntVec3 { x: -u.z, y: u.y, z: u.x }).cross(IntVec3 { x: -v.z, y: v.y, z: v.x }) == (IntVec3 { x: -w.z, y: w.y, z: w.x }));
    assert(ny.cross(px) == pz && pz.cross(ny) == px);
    assert((IntMat3 { x: pz, y: ny, z: px }).determinant() == 1);
    assert((IntMat3 { x: pz, y: ny, z: px }).mul_v(u) == (IntVec3 { x: u.z, y: -u.y, z: u.x }));
    assert((IntMat3 { x: pz, y: ny, z: px }).mul_v(v) == (IntVec3 { x: v.z, y: -v.y, z: v.x }));
    assert((IntMat3 { x: pz, y: ny, z: px }).mul_v(w) == (IntVec3 { x: w.z, y: -w.y, z: w.x }));
    assert((IntVec3 { x: u.z, y: -u.y, z: u.x }).cross(IntVec3 { x: v.z, y: -v.y, z: v.x }) == (IntVec3 { x: w.z, y: -w.y, z: w.x }));
    assert(ny.cross(nx) == nz && pz.cross(ny) == px);
    assert((IntMat3 { x: pz, y: ny, z: nx }).determinant() == -1);
}

/// The orthogonal matrices whose first column is the direction opposite to z.
proof fn lemma_first_column_nz(m: IntMat3, u: IntVec3, v: IntVec3)
    requires
        m.is_orthogonal(),
        m.x == (IntVec3 { x: 0, y: 0, z: -1 }),
    ensures
        m.determinant() == 1 || m.determinant() == -1,
        (m.determinant() == 1) == (m.x.cross(m.y) == m.z),
        m.determinant() == 1 ==> m.mul_v(u).cross(m.mul_v(v)) == m.mul_v(u.cross(v)),
        m.determinant() == 1 ==> m.scaled_quat().magnitude2() > 0 && m.scaled_quat().turn_matrix()
            == m.scaled(m.scaled_quat().magnitude2()),
{
    lemma_scaled_quat_table_nz();
    lemma_columns_apart(m);
    lemma_unit_vector_cases(m.y);
    lemma_unit_vector_cases(m.z);
    lemma_signed_products(u, v);
    let w = u.cross(v);
    let px = IntVec3 { x: 1, y: 0, z: 0 };
    let nx = IntVec3 { x: -1, y: 0, z: 0 };
    let py = IntVec3 { x: 0, y: 1, z: 0 };
    let ny = IntVec3 { x: 0, y: -1, z: 0 };
    let pz = IntVec3 { x: 0, y: 0, z: 1 };
    let nz = IntVec3 { x: 0, y: 0, z: -1 };
    assert(px.cross(py) == pz && nz.cross(px) == ny);
    assert((IntMat3 { x: nz, y: px, z: py }).determinant() == -1);
    assert(px.cross(ny) == nz && nz.cross(px) == ny);
    assert((IntMat3 { x: nz, y: px, z: ny }).determinant() == 1);
    assert((IntMat3 { x: nz, y: px, z: ny }).mul_v(u) == (IntVec3 { x: u.y, y: -u.z, z: -u.x }));
    assert((IntMat3 { x: nz, y: px, z: ny }).mul_v(v) == (IntVec3 { x: v.y, y: -v.z, z: -v.x }));
    assert((IntMat3 { x: nz, y: px, z: ny }).mul_v(w) == (IntVec3 { x: w.y, y: -w.z, z: -w.x }));
    assert((IntVec3 { x: u.y, y: -u.z, z: -u.x }).cross(IntVec3 { x: v.y, y: -v.z, z: -v.x }) == (IntVec3 { x: w.y, y: -w.z, z: -w.x }));
    assert(nx.cross(py) == nz && nz.cross(nx) == py);
    assert((IntMat3 { x: nz, y: nx, z: py }).determinant() == 1);
    assert((IntMat3 { x: nz, y: nx, z: py }).mul_v(u) == (IntVec3 { x: -u.y, y: u.z, z: -u.x }));
    assert((IntMat3 { x: nz, y: nx, z: py }).mul_v(v) == (IntVec3 { x: -v.y, y: v.z, z: -v.x }));
    assert((IntMat3 { x: nz, y: nx, z: py }).mul_v(w) == (IntVec3 { x: -w.y, y: w.z, z: -w.x }));
    assert((IntVec3 { x: -u.y, y: u.z, z: -u.x }).cross(IntVec3 { x: -v.y, y: v.z, z: -v.x }) == (IntVec3 { x: -w.y, y: w.z, z: -w.x }));
    assert(nx.cross(ny) == pz && nz.cross(nx) == py);
    assert((IntMat3 { x: nz, y: nx, z: ny }).determinant() == -1);
    assert(py.cross(px) == nz && nz.cross(py) == px);
    assert((IntMat3 { x: nz, y: py, z: px }).determinant() == 1);
    assert((IntMat3 { x: nz, y: py, z: px }).mul_v(u) == (IntVec3 { x: u.z, y: u.y, z: -u.x }));
    assert((IntMat3 { x: nz, y: py, z: px }).mul_v(v) == (IntVec3 { x: v.z, y: v.y, z: -v.x }));
    assert((IntMat3 { x: nz, y: py, z: px }).mul_v(w) == (IntVec3 { x: w.z, y: w.y, z: -w.x }));
    assert((IntVec3 { x: u.z, y: u.y, z: -u.x }).cross(IntVec3 { x: v.z, y: v.y, z: -v.x }) == (IntVec3 { x: w.z, y: w.y, z: -w.x }));
    assert(py.cross(nx) == pz && nz.cross(py) == px);
    assert((IntMat3 { x: nz, y: py, z: nx }).determinant() == -1);
    assert(ny.cross(px) == pz && nz.cross(ny) == nx);
    assert((IntMat3 { x: nz, y: ny, z: px }).determinant() == -1);
    assert(ny.cross(nx) == nz && nz.cross(ny) == nx);
    assert((IntMat3 { x: nz, y: ny, z: nx }).determinant() == 1);
    assert((IntMat3 { x: nz, y: ny, z: nx }).mul_v(u) == (IntVec3 { x: -u.z, y: -u.y, z: -u.x }));
    assert((IntMat3 { x: nz, y: ny, z: nx }).mul_v(v) == (IntVec3 { x: -v.z, y: -v.y, z: -v.x }));
    assert((IntMat3 { x: nz, y: ny, z: nx }).mul_v(w) == (IntVec3 { x: -w.z, y: -w.y, z: -w.x }));
    assert((IntVec3 { x: -u.z, y: -u.y, z: -u.x }).cross(IntVec3 { x: -v.z, y: -v.y, z: -v.x }) == (IntVec3 { x: -w.z, y: -w.y, z: -w.x }));
}

/// The determinant of an orthogonal matrix is 1 or -1. It is 1 exactly when
/// the third column is the cross product of the first two, and then the
/// matrix carries cross products to cross products, and its scaled
/// quaternion turns vectors as the matrix does, times the squared magnitude.
pub proof fn lemma_orthogonal_determinant3(m: IntMat3, u: IntVec3, v: IntVec3)
    requires
        m.is_orthogonal(),
    ensures
        m.determinant() == 1 || m.determinant() == -1,
        (m.determinant() == 1) == (m.x.cross(m.y) == m.z),
        m.determinant() == 1 ==> m.mul_v(u).cross(m.mul_v(v)) == m.mul_v(u.cross(v)),
        m.determinant() == 1 ==> m.scaled_quat().magnitude2() > 0 && m.scaled_quat().turn_matrix()
            == m.scaled(m.scaled_quat().magnitude2()),
{
    lemma_columns_apart(m);
    lemma_unit_vector_cases(m.x);
    if m.x.x == 1 {
        lemma_first_column_px(m, u, v);
    } else if m.x.x == -1 {
        lemma_first_column_nx(m, u, v);
    } else if m.x.y == 1 {
        lemma_first_column_py(m, u, v);
    } else if m.x.y == -1 {
        lemma_first_column_ny(m, u, v);
    } else if m.x.z == 1 {
        lemma_first_column_pz(m, u, v);
    } else {
        lemma_first_column_nz(m, u, v);
    }
}

/// A rotation of the plane is one of the four turns by whole quarter turns.
pub proof fn lemma_rotation_cases2(m: IntMat2)
    requires
        m.is_rotation(),
    ensures
        m == IntMat2::rotation(1, 0) || m == IntMat2::rotation(0, 1) || m == IntMat2::rotation(
            -1,
            0,
        ) || m == IntMat2::rotation(0, -1),
{
    lemma_orthogonal_entries2(m);
    let p = m.transpose().mul_m(m);
    assert(p.x.x == 1 && p.y.y == 1 && p.y.x == 0);
    lemma_unit_square_sum2(m.x.x, m.x.y);
    lemma_unit_square_sum2(m.y.x, m.y.y);
    lemma_mul_by_sign(m.x.x, m.y.x);
    lemma_mul_by_sign(m.x.y, m.y.y);
    lemma_mul_by_sign(m.x.x, m.y.y);
    lemma_mul_by_sign(m.y.x, m.x.y);
    assert(m.x == (IntVec2 { x: m.x.x, y: m.x.y }));
    assert(m.y == (IntVec2 { x: m.y.x, y: m.y.y }));
}

/// The four turns of the plane: their determinants, transposes and products.
pub proof fn lemma_rotation_table2(a: IntMat2, b: IntMat2)
    requires
        a.is_rotation(),
        b.is_rotation(),
    ensures
        a.mul_m(b).determinant() == 1,
        a.transpose().determinant() == 1,
{
    lemma_rotation_cases2(a);
    lemma_rotation_cases2(b);
    let r0 = IntMat2::rotation(1, 0);
    let r1 = IntMat2::rotation(0, 1);
    let r2 = IntMat2::rotation(-1, 0);
    let r3 = IntMat2::rotation(0, -1);
    assert(r0.determinant() == 1 && r1.determinant() == 1);
    assert(r2.determinant() == 1 && r3.determinant() == 1);
    assert(r0.transpose() == r0 && r1.transpose() == r3);
    assert(r2.transpose() == r2 && r3.transpose() == r1);
    assert(r0.mul_m(r0) == r0);
    assert(r0.mul_m(r1) == r1);
    assert(r0.mul_m(r2) == r2);
    assert(r0.mul_m(r3) == r3);
    assert(r1.mul_m(r0) == r1);
    assert(r1.mul_m(r1) == r2);
    assert(r1.mul_m(r2) == r3);
    assert(r1.mul_m(r3) == r0);
    assert(r2.mul_m(r0) == r2);
    assert(r2.mul_m(r1) == r3);
    assert(r2.mul_m(r2) == r0);
    assert(r2.mul_m(r3) == r1);
    assert(r3.mul_m(r0) == r3);
    assert(r3.mul_m(r1) == r0);
    assert(r3.mul_m(r2) == r1);
    assert(r3.mul_m(r3) == r2);
}

} // verus!
