//! The exact algebra of poses, over unbounded integers.
//!
//! Floating-point composition rounds at every step, so the algebraic laws of
//! pose composition cannot hold of the executable operators bit for bit.
//! They are laws of the exact algebra those operators approximate, and that
//! algebra is polynomial: vectors and quaternions with integer components
//! carry it in full. This module states the operators once more, exactly,
//! and proves laws of them: the identity pose is neutral on both sides of
//! composition, the rotation and scale parts of composition are associative
//! for all poses, full composition is associative whenever the middle scale
//! is uniform, and the directional accessors of the identity pose point
//! along the fixed axes.
use vstd::prelude::*;

verus! {

/// An exact 3-vector.
pub ghost struct RVec3 {
    pub x: int,
    pub y: int,
    pub z: int,
}

/// An exact quaternion.
pub ghost struct RQuat {
    pub x: int,
    pub y: int,
    pub z: int,
    pub w: int,
}

/// An exact pose: translation, rotation and lane-wise scale.
pub ghost struct RXform {
    pub translation: RVec3,
    pub rotation: RQuat,
    pub scale: RVec3,
}

/// The lane-wise sum.
pub open spec fn rvec3_add(a: RVec3, b: RVec3) -> RVec3 {
    RVec3 { x: a.x + b.x, y: a.y + b.y, z: a.z + b.z }
}

/// The lane-wise product.
pub open spec fn rvec3_mul(a: RVec3, b: RVec3) -> RVec3 {
    RVec3 { x: a.x * b.x, y: a.y * b.y, z: a.z * b.z }
}

/// The negation of each lane.
pub open spec fn rvec3_neg(a: RVec3) -> RVec3 {
    RVec3 { x: -a.x, y: -a.y, z: -a.z }
}

/// Every lane multiplied by `k`.
pub open spec fn rvec3_scale(k: int, a: RVec3) -> RVec3 {
    RVec3 { x: k * a.x, y: k * a.y, z: k * a.z }
}

/// Whether every lane of a scale is the same factor.
pub open spec fn rvec3_uniform(a: RVec3) -> bool {
    a.x == a.y && a.y == a.z
}

/// The quaternion product.
pub open spec fn rquat_mul(a: RQuat, b: RQuat) -> RQuat {
    RQuat {
        x: a.w * b.x + a.x * b.w + a.y * b.z - a.z * b.y,
        y: a.w * b.y - a.x * b.z + a.y * b.w + a.z * b.x,
        z: a.w * b.z + a.x * b.y - a.y * b.x + a.z * b.w,
        w: a.w * b.w - a.x * b.x - a.y * b.y - a.z * b.z,
    }
}

/// The conjugate: the rotation the other way around.
pub open spec fn rquat_conj(a: RQuat) -> RQuat {
    RQuat { x: -a.x, y: -a.y, z: -a.z, w: a.w }
}

/// A vector read as a quaternion with no scalar part.
pub open spec fn rquat_of_vec(v: RVec3) -> RQuat {
    RQuat { x: v.x, y: v.y, z: v.z, w: 0 }
}

/// The vector part of a quaternion.
pub open spec fn rquat_vec_part(q: RQuat) -> RVec3 {
    RVec3 { x: q.x, y: q.y, z: q.z }
}

/// The rotation of a vector by a unit quaternion: the sandwich product
/// `q * v * conj(q)`.
pub open spec fn rvec3_rotate(q: RQuat, v: RVec3) -> RVec3 {
    rquat_vec_part(rquat_mul(rquat_mul(q, rquat_of_vec(v)), rquat_conj(q)))
}

/// The identity quaternion.
pub open spec fn rquat_identity() -> RQuat {
    RQuat { x: 0, y: 0, z: 0, w: 1 }
}

/// The identity pose: zero translation, identity rotation, unit scale.
pub open spec fn rxform_identity() -> RXform {
    RXform {
        translation: RVec3 { x: 0, y: 0, z: 0 },
        rotation: rquat_identity(),
        scale: RVec3 { x: 1, y: 1, z: 1 },
    }
}

/// A pose applied to a point: rotate, scale lane by lane, then translate.
pub open spec fn rxform_apply(a: RXform, v: RVec3) -> RVec3 {
    rvec3_add(rvec3_mul(a.scale, rvec3_rotate(a.rotation, v)), a.translation)
}

/// The composition of two poses: the pose that applies `b` first and `a`
/// second.
pub open spec fn rxform_mul(a: RXform, b: RXform) -> RXform {
    RXform {
        translation: rxform_apply(a, b.translation),
        rotation: rquat_mul(a.rotation, b.rotation),
        scale: rvec3_mul(a.scale, b.scale),
    }
}

/// Rotating by the identity quaternion moves nothing.
pub proof fn lemma_rotate_identity(v: RVec3)
    ensures
        rvec3_rotate(rquat_identity(), v) == v,
{
    let q = rquat_identity();
    let vq = rquat_of_vec(v);
    let m1 = rquat_mul(q, vq);
    assert(m1.x == v.x);
    assert(m1.y == v.y);
    assert(m1.z == v.z);
    assert(m1.w == 0);
    let m2 = rquat_mul(m1, rquat_conj(q));
    assert(m2.x == v.x);
    assert(m2.y == v.y);
    assert(m2.z == v.z);
    let r = rvec3_rotate(rquat_identity(), v);
    assert(r.x == v.x);
    assert(r.y == v.y);
    assert(r.z == v.z);
}

/// The identity pose is neutral on the left: composing it before any pose
/// returns that pose.
pub proof fn lemma_identity_left(t: RXform)
    ensures
        rxform_mul(rxform_identity(), t) == t,
{
}

/// The identity pose is neutral on the right: composing it after any pose
/// returns that pose.
pub proof fn lemma_identity_right(t: RXform)
    ensures
        rxform_mul(t, rxform_identity()) == t,
{
    let zero_v = RVec3 { x: 0, y: 0, z: 0 };
    assert(rxform_identity().translation == zero_v);
    let q = t.rotation;
    let m1 = rquat_mul(q, rquat_of_vec(zero_v));
    assert(m1 == (RQuat { x: 0, y: 0, z: 0, w: 0 }));
    let m2 = rquat_mul(m1, rquat_conj(q));
    assert(m2 == (RQuat { x: 0, y: 0, z: 0, w: 0 }));
    assert(rvec3_rotate(q, zero_v) == zero_v);
    assert(rvec3_mul(t.scale, zero_v) == zero_v);
    let r = rxform_mul(t, rxform_identity());
    assert(r.translation.x == t.translation.x);
    assert(r.translation.y == t.translation.y);
    assert(r.translation.z == t.translation.z);
    assert(r.rotation == t.rotation);
    assert(r.scale.x == t.scale.x);
    assert(r.scale.y == t.scale.y);
    assert(r.scale.z == t.scale.z);
}

/// The lane-wise product of vectors is associative.
pub proof fn lemma_rvec3_mul_assoc(a: RVec3, b: RVec3, c: RVec3)
    ensures
        rvec3_mul(rvec3_mul(a, b), c) == rvec3_mul(a, rvec3_mul(b, c)),
{
    vstd::arithmetic::mul::lemma_mul_is_associative(a.x, b.x, c.x);
    vstd::arithmetic::mul::lemma_mul_is_associative(a.y, b.y, c.y);
    vstd::arithmetic::mul::lemma_mul_is_associative(a.z, b.z, c.z);
}

/// The lane-wise product distributes over vector addition.
pub proof fn lemma_rvec3_mul_dist(a: RVec3, u: RVec3, v: RVec3)
    ensures
        rvec3_mul(a, rvec3_add(u, v)) == rvec3_add(rvec3_mul(a, u), rvec3_mul(a, v)),
{
    vstd::arithmetic::mul::lemma_mul_is_distributive_add(a.x, u.x, v.x);
    vstd::arithmetic::mul::lemma_mul_is_distributive_add(a.y, u.y, v.y);
    vstd::arithmetic::mul::lemma_mul_is_distributive_add(a.z, u.z, v.z);
}

/// The quaternion product is associative.
#[verifier::spinoff_prover]
#[verifier::rlimit(100)]
pub proof fn lemma_rquat_mul_assoc(a: RQuat, b: RQuat, c: RQuat)
    ensures
        rquat_mul(rquat_mul(a, b), c) == rquat_mul(a, rquat_mul(b, c)),
{
    broadcast use vstd::arithmetic::mul::group_mul_properties;

    let l = rquat_mul(rquat_mul(a, b), c);
    let r = rquat_mul(a, rquat_mul(b, c));
    assert(l.x == r.x);
    assert(l.y == r.y);
    assert(l.z == r.z);
    assert(l.w == r.w);
}

/// Conjugation reverses a product: the conjugate of `a * b` is
/// `conj(b) * conj(a)`.
pub proof fn lemma_rquat_conj_mul(a: RQuat, b: RQuat)
    ensures
        rquat_conj(rquat_mul(a, b)) == rquat_mul(rquat_conj(b), rquat_conj(a)),
{
    let l = rquat_conj(rquat_mul(a, b));
    let r = rquat_mul(rquat_conj(b), rquat_conj(a));
    assert(l.x == -(a.w * b.x + a.x * b.w + a.y * b.z - a.z * b.y));
    assert(r.x == b.w * (-a.x) + (-b.x) * a.w + (-b.y) * (-a.z) - (-b.z) * (-a.y));
    assert(-(a.w * b.x + a.x * b.w + a.y * b.z - a.z * b.y) == b.w * (-a.x) + (-b.x) * a.w + (
    -b.y) * (-a.z) - (-b.z) * (-a.y)) by (nonlinear_arith);
    assert(l.y == -(a.w * b.y - a.x * b.z + a.y * b.w + a.z * b.x));
    assert(r.y == b.w * (-a.y) - (-b.x) * (-a.z) + (-b.y) * a.w + (-b.z) * (-a.x));
    assert(-(a.w * b.y - a.x * b.z + a.y * b.w + a.z * b.x) == b.w * (-a.y) - (-b.x) * (-a.z) + (
    -b.y) * a.w + (-b.z) * (-a.x)) by (nonlinear_arith);
    assert(l.z == -(a.w * b.z + a.x * b.y - a.y * b.x + a.z * b.w));
    assert(r.z == b.w * (-a.z) + (-b.x) * (-a.y) - (-b.y) * (-a.x) + (-b.z) * a.w);
    assert(-(a.w * b.z + a.x * b.y - a.y * b.x + a.z * b.w) == b.w * (-a.z) + (-b.x) * (-a.y) - (
    -b.y) * (-a.x) + (-b.z) * a.w) by (nonlinear_arith);
    assert(l.w == a.w * b.w - a.x * b.x - a.y * b.y - a.z * b.z);
    assert(r.w == b.w * a.w - (-b.x) * (-a.x) - (-b.y) * (-a.y) - (-b.z) * (-a.z));
    assert(a.w * b.w - a.x * b.x - a.y * b.y - a.z * b.z == b.w * a.w - (-b.x) * (-a.x) - (-b.y)
        * (-a.y) - (-b.z) * (-a.z)) by (nonlinear_arith);
}

/// The sandwich product `q * v * conj(q)` of a quaternion with a vector has
/// no scalar part.
pub proof fn lemma_sandwich_scalar_zero(q: RQuat, v: RVec3)
    ensures
        rquat_mul(rquat_mul(q, rquat_of_vec(v)), rquat_conj(q)).w == 0,
{
    let m1 = rquat_mul(q, rquat_of_vec(v));
    let m2 = rquat_mul(m1, rquat_conj(q));
    assert(m1.x == q.w * v.x + q.y * v.z - q.z * v.y);
    assert(m1.y == q.w * v.y - q.x * v.z + q.z * v.x);
    assert(m1.z == q.w * v.z + q.x * v.y - q.y * v.x);
    assert(m1.w == -(q.x * v.x) - q.y * v.y - q.z * v.z);
    assert(m2.w == m1.w * q.w - m1.x * (-q.x) - m1.y * (-q.y) - m1.z * (-q.z));
    vstd::arithmetic::mul::lemma_mul_unary_negation(m1.x, q.x);
    vstd::arithmetic::mul::lemma_mul_unary_negation(m1.y, q.y);
    vstd::arithmetic::mul::lemma_mul_unary_negation(m1.z, q.z);
    assert(m2.w == m1.w * q.w + m1.x * q.x + m1.y * q.y + m1.z * q.z);
    assert(m1.x * q.x == (q.w * v.x + q.y * v.z - q.z * v.y) * q.x);
    vstd::arithmetic::mul::lemma_mul_is_distributive_sub_other_way(
        q.x,
        q.w * v.x + q.y * v.z,
        q.z * v.y,
    );
    vstd::arithmetic::mul::lemma_mul_is_distributive_add_other_way(q.x, q.w * v.x, q.y * v.z);
    assert(m1.x * q.x == (q.w * v.x) * q.x + (q.y * v.z) * q.x - (q.z * v.y) * q.x);
    assert(m1.y * q.y == (q.w * v.y - q.x * v.z + q.z * v.x) * q.y);
    vstd::arithmetic::mul::lemma_mul_is_distributive_add_other_way(
        q.y,
        q.w * v.y - q.x * v.z,
        q.z * v.x,
    );
    vstd::arithmetic::mul::lemma_mul_is_distributive_sub_other_way(q.y, q.w * v.y, q.x * v.z);
    assert(m1.y * q.y == (q.w * v.y) * q.y - (q.x * v.z) * q.y + (q.z * v.x) * q.y);
    assert(m1.z * q.z == (q.w * v.z + q.x * v.y - q.y * v.x) * q.z);
    vstd::arithmetic::mul::lemma_mul_is_distributive_sub_other_way(
        q.z,
        q.w * v.z + q.x * v.y,
        q.y * v.x,
    );
    vstd::arithmetic::mul::lemma_mul_is_distributive_add_other_way(q.z, q.w * v.z, q.x * v.y);
    assert(m1.z * q.z == (q.w * v.z) * q.z + (q.x * v.y) * q.z - (q.y * v.x) * q.z);
    assert(m1.w * q.w == (-(q.x * v.x) - q.y * v.y - q.z * v.z) * q.w);
    vstd::arithmetic::mul::lemma_mul_is_distributive_sub_other_way(
        q.w,
        -(q.x * v.x) - q.y * v.y,
        q.z * v.z,
    );
    vstd::arithmetic::mul::lemma_mul_is_distributive_sub_other_way(
        q.w,
        -(q.x * v.x),
        q.y * v.y,
    );
    vstd::arithmetic::mul::lemma_mul_unary_negation(q.x * v.x, q.w);
    assert(m1.w * q.w == -((q.x * v.x) * q.w) - (q.y * v.y) * q.w - (q.z * v.z) * q.w);
    vstd::arithmetic::mul::lemma_mul_is_associative(q.w, v.x, q.x);
    vstd::arithmetic::mul::lemma_mul_is_commutative(q.w, v.x * q.x);
    vstd::arithmetic::mul::lemma_mul_is_commutative(v.x, q.x);
    vstd::arithmetic::mul::lemma_mul_is_associative(q.x, v.x, q.w);
    assert((q.w * v.x) * q.x == (q.x * v.x) * q.w);
    vstd::arithmetic::mul::lemma_mul_is_associative(q.w, v.y, q.y);
    vstd::arithmetic::mul::lemma_mul_is_commutative(q.w, v.y * q.y);
    vstd::arithmetic::mul::lemma_mul_is_commutative(v.y, q.y);
    vstd::arithmetic::mul::lemma_mul_is_associative(q.y, v.y, q.w);
    assert((q.w * v.y) * q.y == (q.y * v.y) * q.w);
    vstd::arithmetic::mul::lemma_mul_is_associative(q.w, v.z, q.z);
    vstd::arithmetic::mul::lemma_mul_is_commutative(q.w, v.z * q.z);
    vstd::arithmetic::mul::lemma_mul_is_commutative(v.z, q.z);
    vstd::arithmetic::mul::lemma_mul_is_associative(q.z, v.z, q.w);
    assert((q.w * v.z) * q.z == (q.z * v.z) * q.w);
    vstd::arithmetic::mul::lemma_mul_is_associative(q.y, v.z, q.x);
    vstd::arithmetic::mul::lemma_mul_is_commutative(v.z, q.x);
    vstd::arithmetic::mul::lemma_mul_is_commutative(q.y, q.x * v.z);
    assert((q.y * v.z) * q.x == (q.x * v.z) * q.y);
    vstd::arithmetic::mul::lemma_mul_is_associative(q.z, v.y, q.x);
    vstd::arithmetic::mul::lemma_mul_is_commutative(v.y, q.x);
    vstd::arithmetic::mul::lemma_mul_is_commutative(q.z, q.x * v.y);
    assert((q.z * v.y) * q.x == (q.x * v.y) * q.z);
    vstd::arithmetic::mul::lemma_mul_is_associative(q.z, v.x, q.y);
    vstd::arithmetic::mul::lemma_mul_is_commutative(v.x, q.y);
    vstd::arithmetic::mul::lemma_mul_is_commutative(q.z, q.y * v.x);
    assert((q.z * v.x) * q.y == (q.y * v.x) * q.z);
    assert(m2.w == 0);
}

/// Rotating by a product of quaternions is rotating by the right one, then
/// by the left one.
pub proof fn lemma_rotate_compose(p: RQuat, q: RQuat, v: RVec3)
    ensures
        rvec3_rotate(rquat_mul(p, q), v) == rvec3_rotate(p, rvec3_rotate(q, v)),
{
    let vq = rquat_of_vec(v);
    let pq = rquat_mul(p, q);
    let cp = rquat_conj(p);
    let cq = rquat_conj(q);
    lemma_rquat_conj_mul(p, q);
    let m = rquat_mul(rquat_mul(q, vq), cq);
    lemma_sandwich_scalar_zero(q, v);
    assert(rquat_of_vec(rquat_vec_part(m)) == m);
    lemma_rquat_mul_assoc(p, q, vq);
    lemma_rquat_mul_assoc(rquat_mul(p, rquat_mul(q, vq)), cq, cp);
    lemma_rquat_mul_assoc(p, rquat_mul(q, vq), cq);
    assert(rquat_mul(rquat_mul(pq, vq), rquat_conj(pq)) == rquat_mul(rquat_mul(p, m), cp));
}

/// Rotation commutes with scaling every lane by the same factor.
pub proof fn lemma_rotate_scale(q: RQuat, k: int, v: RVec3)
    ensures
        rvec3_rotate(q, rvec3_scale(k, v)) == rvec3_scale(k, rvec3_rotate(q, v)),
{
    let m1 = rquat_mul(q, rquat_of_vec(v));
    let n1 = rquat_mul(q, rquat_of_vec(rvec3_scale(k, v)));
    vstd::arithmetic::mul::lemma_mul_is_associative(q.w, k, v.x);
    vstd::arithmetic::mul::lemma_mul_is_commutative(q.w, k);
    vstd::arithmetic::mul::lemma_mul_is_associative(k, q.w, v.x);
    vstd::arithmetic::mul::lemma_mul_is_associative(q.w, k, v.y);
    vstd::arithmetic::mul::lemma_mul_is_commutative(q.w, k);
    vstd::arithmetic::mul::lemma_mul_is_associative(k, q.w, v.y);
    vstd::arithmetic::mul::lemma_mul_is_associative(q.w, k, v.z);
    vstd::arithmetic::mul::lemma_mul_is_commutative(q.w, k);
    vstd::arithmetic::mul::lemma_mul_is_associative(k, q.w, v.z);
    vstd::arithmetic::mul::lemma_mul_is_associative(q.x, k, v.x);
    vstd::arithmetic::mul::lemma_mul_is_commutative(q.x, k);
    vstd::arithmetic::mul::lemma_mul_is_associative(k, q.x, v.x);
    vstd::arithmetic::mul::lemma_mul_is_associative(q.x, k, v.y);
    vstd::arithmetic::mul::lemma_mul_is_commutative(q.x, k);
    vstd::arithmetic::mul::lemma_mul_is_associative(k, q.x, v.y);
    vstd::arithmetic::mul::lemma_mul_is_associative(q.x, k, v.z);
    vstd::arithmetic::mul::lemma_mul_is_commutative(q.x, k);
    vstd::arithmetic::mul::lemma_mul_is_associative(k, q.x, v.z);
    vstd::arithmetic::mul::lemma_mul_is_associative(q.y, k, v.x);
    vstd::arithmetic::mul::lemma_mul_is_commutative(q.y, k);
    vstd::arithmetic::mul::lemma_mul_is_associative(k, q.y, v.x);
    vstd::arithmetic::mul::lemma_mul_is_associative(q.y, k, v.y);
    vstd::arithmetic::mul::lemma_mul_is_commutative(q.y, k);
    vstd::arithmetic::mul::lemma_mul_is_associative(k, q.y, v.y);
    vstd::arithmetic::mul::lemma_mul_is_associative(q.y, k, v.z);
    vstd::arithmetic::mul::lemma_mul_is_commutative(q.y, k);
    vstd::arithmetic::mul::lemma_mul_is_associative(k, q.y, v.z);
    vstd::arithmetic::mul::lemma_mul_is_associative(q.z, k, v.x);
    vstd::arithmetic::mul::lemma_mul_is_commutative(q.z, k);
    vstd::arithmetic::mul::lemma_mul_is_associative(k, q.z, v.x);
    vstd::arithmetic::mul::lemma_mul_is_associative(q.z, k, v.y);
    vstd::arithmetic::mul::lemma_mul_is_commutative(q.z, k);
    vstd::arithmetic::mul::lemma_mul_is_associative(k, q.z, v.y);
    vstd::arithmetic::mul::lemma_mul_is_associative(q.z, k, v.z);
    vstd::arithmetic::mul::lemma_mul_is_commutative(q.z, k);
    vstd::arithmetic::mul::lemma_mul_is_associative(k, q.z, v.z);
    assert(m1.x == q.w * v.x + q.y * v.z - q.z * v.y);
    assert(m1.y == q.w * v.y - q.x * v.z + q.z * v.x);
    assert(m1.z == q.w * v.z + q.x * v.y - q.y * v.x);
    assert(m1.w == -(q.x * v.x) - q.y * v.y - q.z * v.z);
    assert(n1.x == q.w * (k * v.x) + q.y * (k * v.z) - q.z * (k * v.y));
    assert(n1.y == q.w * (k * v.y) - q.x * (k * v.z) + q.z * (k * v.x));
    assert(n1.z == q.w * (k * v.z) + q.x * (k * v.y) - q.y * (k * v.x));
    assert(n1.w == -(q.x * (k * v.x)) - q.y * (k * v.y) - q.z * (k * v.z));
    vstd::arithmetic::mul::lemma_mul_is_distributive_sub(k, q.w * v.x + q.y * v.z, q.z * v.y);
    vstd::arithmetic::mul::lemma_mul_is_distributive_add(k, q.w * v.x, q.y * v.z);
    vstd::arithmetic::mul::lemma_mul_is_distributive_add(k, q.w * v.y - q.x * v.z, q.z * v.x);
    vstd::arithmetic::mul::lemma_mul_is_distributive_sub(k, q.w * v.y, q.x * v.z);
    vstd::arithmetic::mul::lemma_mul_is_distributive_sub(k, q.w * v.z + q.x * v.y, q.y * v.x);
    vstd::arithmetic::mul::lemma_mul_is_distributive_add(k, q.w * v.z, q.x * v.y);
    vstd::arithmetic::mul::lemma_mul_is_distributive_sub(k, -(q.x * v.x) - q.y * v.y, q.z * v.z);
    vstd::arithmetic::mul::lemma_mul_is_distributive_sub(k, -(q.x * v.x), q.y * v.y);
    vstd::arithmetic::mul::lemma_mul_unary_negation(k, q.x * v.x);
    assert(n1.x == k * m1.x);
    assert(n1.y == k * m1.y);
    assert(n1.z == k * m1.z);
    assert(n1.w == k * m1.w);
    let m2 = rquat_mul(m1, rquat_conj(q));
    let n2 = rquat_mul(n1, rquat_conj(q));
    assert(m2.x == m1.w * (-q.x) + m1.x * q.w + m1.y * (-q.z) - m1.z * (-q.y));
    assert(m2.y == m1.w * (-q.y) - m1.x * (-q.z) + m1.y * q.w + m1.z * (-q.x));
    assert(m2.z == m1.w * (-q.z) + m1.x * (-q.y) - m1.y * (-q.x) + m1.z * q.w);
    assert(n2.x == (k * m1.w) * (-q.x) + (k * m1.x) * q.w + (k * m1.y) * (-q.z) - (k * m1.z) * (
    -q.y));
    assert(n2.y == (k * m1.w) * (-q.y) - (k * m1.x) * (-q.z) + (k * m1.y) * q.w + (k * m1.z) * (
    -q.x));
    assert(n2.z == (k * m1.w) * (-q.z) + (k * m1.x) * (-q.y) - (k * m1.y) * (-q.x) + (k * m1.z)
        * q.w);
    vstd::arithmetic::mul::lemma_mul_is_associative(k, m1.w, q.w);
    vstd::arithmetic::mul::lemma_mul_is_associative(k, m1.w, (-q.x));
    vstd::arithmetic::mul::lemma_mul_is_associative(k, m1.w, (-q.y));
    vstd::arithmetic::mul::lemma_mul_is_associative(k, m1.w, (-q.z));
    vstd::arithmetic::mul::lemma_mul_is_associative(k, m1.x, q.w);
    vstd::arithmetic::mul::lemma_mul_is_associative(k, m1.x, (-q.x));
    vstd::arithmetic::mul::lemma_mul_is_associative(k, m1.x, (-q.y));
    vstd::arithmetic::mul::lemma_mul_is_associative(k, m1.x, (-q.z));
    vstd::arithmetic::mul::lemma_mul_is_associative(k, m1.y, q.w);
    vstd::arithmetic::mul::lemma_mul_is_associative(k, m1.y, (-q.x));
    vstd::arithmetic::mul::lemma_mul_is_associative(k, m1.y, (-q.y));
    vstd::arithmetic::mul::lemma_mul_is_associative(k, m1.y, (-q.z));
    vstd::arithmetic::mul::lemma_mul_is_associative(k, m1.z, q.w);
    vstd::arithmetic::mul::lemma_mul_is_associative(k, m1.z, (-q.x));
    vstd::arithmetic::mul::lemma_mul_is_associative(k, m1.z, (-q.y));
    vstd::arithmetic::mul::lemma_mul_is_associative(k, m1.z, (-q.z));
    vstd::arithmetic::mul::lemma_mul_is_distributive_sub(
        k,
        m1.w * (-q.x) + m1.x * q.w + m1.y * (-q.z),
        m1.z * (-q.y),
    );
    vstd::arithmetic::mul::lemma_mul_is_distributive_add(k, m1.w * (-q.x) + m1.x * q.w, m1.y * (
    -q.z));
    vstd::arithmetic::mul::lemma_mul_is_distributive_add(k, m1.w * (-q.x), m1.x * q.w);
    assert(n2.x == k * m2.x);
    vstd::arithmetic::mul::lemma_mul_is_distributive_add(
        k,
        m1.w * (-q.y) - m1.x * (-q.z) + m1.y * q.w,
        m1.z * (-q.x),
    );
    vstd::arithmetic::mul::lemma_mul_is_distributive_add(k, m1.w * (-q.y) - m1.x * (-q.z), m1.y
        * q.w);
    vstd::arithmetic::mul::lemma_mul_is_distributive_sub(k, m1.w * (-q.y), m1.x * (-q.z));
    assert(n2.y == k * m2.y);
    vstd::arithmetic::mul::lemma_mul_is_distributive_add(
        k,
        m1.w * (-q.z) + m1.x * (-q.y) - m1.y * (-q.x),
        m1.z * q.w,
    );
    vstd::arithmetic::mul::lemma_mul_is_distributive_sub(k, m1.w * (-q.z) + m1.x * (-q.y), m1.y
        * (-q.x));
    vstd::arithmetic::mul::lemma_mul_is_distributive_add(k, m1.w * (-q.z), m1.x * (-q.y));
    assert(n2.z == k * m2.z);
    assert(rvec3_rotate(q, rvec3_scale(k, v)).x == k * rvec3_rotate(q, v).x);
    assert(rvec3_rotate(q, rvec3_scale(k, v)).y == k * rvec3_rotate(q, v).y);
    assert(rvec3_rotate(q, rvec3_scale(k, v)).z == k * rvec3_rotate(q, v).z);
}

/// Rotation distributes over vector addition.
pub proof fn lemma_rotate_add(q: RQuat, u: RVec3, v: RVec3)
    ensures
        rvec3_rotate(q, rvec3_add(u, v)) == rvec3_add(rvec3_rotate(q, u), rvec3_rotate(q, v)),
{
    let a1 = rquat_mul(q, rquat_of_vec(u));
    let b1 = rquat_mul(q, rquat_of_vec(v));
    let s1 = rquat_mul(q, rquat_of_vec(rvec3_add(u, v)));
    vstd::arithmetic::mul::lemma_mul_is_distributive_add(q.w, u.x, v.x);
    vstd::arithmetic::mul::lemma_mul_is_distributive_add(q.w, u.y, v.y);
    vstd::arithmetic::mul::lemma_mul_is_distributive_add(q.w, u.z, v.z);
    vstd::arithmetic::mul::lemma_mul_is_distributive_add(q.x, u.x, v.x);
    vstd::arithmetic::mul::lemma_mul_is_distributive_add(q.x, u.y, v.y);
    vstd::arithmetic::mul::lemma_mul_is_distributive_add(q.x, u.z, v.z);
    vstd::arithmetic::mul::lemma_mul_is_distributive_add(q.y, u.x, v.x);
    vstd::arithmetic::mul::lemma_mul_is_distributive_add(q.y, u.y, v.y);
    vstd::arithmetic::mul::lemma_mul_is_distributive_add(q.y, u.z, v.z);
    vstd::arithmetic::mul::lemma_mul_is_distributive_add(q.z, u.x, v.x);
    vstd::arithmetic::mul::lemma_mul_is_distributive_add(q.z, u.y, v.y);
    vstd::arithmetic::mul::lemma_mul_is_distributive_add(q.z, u.z, v.z);
    assert(a1.x == q.w * u.x + q.y * u.z - q.z * u.y);
    assert(a1.y == q.w * u.y - q.x * u.z + q.z * u.x);
    assert(a1.z == q.w * u.z + q.x * u.y - q.y * u.x);
    assert(a1.w == -(q.x * u.x) - q.y * u.y - q.z * u.z);
    assert(b1.x == q.w * v.x + q.y * v.z - q.z * v.y);
    assert(b1.y == q.w * v.y - q.x * v.z + q.z * v.x);
    assert(b1.z == q.w * v.z + q.x * v.y - q.y * v.x);
    assert(b1.w == -(q.x * v.x) - q.y * v.y - q.z * v.z);
    assert(s1.x == q.w * (u.x + v.x) + q.y * (u.z + v.z) - q.z * (u.y + v.y));
    assert(s1.y == q.w * (u.y + v.y) - q.x * (u.z + v.z) + q.z * (u.x + v.x));
    assert(s1.z == q.w * (u.z + v.z) + q.x * (u.y + v.y) - q.y * (u.x + v.x));
    assert(s1.w == -(q.x * (u.x + v.x)) - q.y * (u.y + v.y) - q.z * (u.z + v.z));
    assert(s1.x == a1.x + b1.x);
    assert(s1.y == a1.y + b1.y);
    assert(s1.z == a1.z + b1.z);
    assert(s1.w == a1.w + b1.w);
    let a2 = rquat_mul(a1, rquat_conj(q));
    let b2 = rquat_mul(b1, rquat_conj(q));
    let s2 = rquat_mul(s1, rquat_conj(q));
    assert(a2.x == a1.w * (-q.x) + a1.x * q.w + a1.y * (-q.z) - a1.z * (-q.y));
    assert(a2.y == a1.w * (-q.y) - a1.x * (-q.z) + a1.y * q.w + a1.z * (-q.x));
    assert(a2.z == a1.w * (-q.z) + a1.x * (-q.y) - a1.y * (-q.x) + a1.z * q.w);
    assert(b2.x == b1.w * (-q.x) + b1.x * q.w + b1.y * (-q.z) - b1.z * (-q.y));
    assert(b2.y == b1.w * (-q.y) - b1.x * (-q.z) + b1.y * q.w + b1.z * (-q.x));
    assert(b2.z == b1.w * (-q.z) + b1.x * (-q.y) - b1.y * (-q.x) + b1.z * q.w);
    assert(s2.x == (a1.w + b1.w) * (-q.x) + (a1.x + b1.x) * q.w + (a1.y + b1.y) * (-q.z) - (a1.z
        + b1.z) * (-q.y));
    assert(s2.y == (a1.w + b1.w) * (-q.y) - (a1.x + b1.x) * (-q.z) + (a1.y + b1.y) * q.w + (a1.z
        + b1.z) * (-q.x));
    assert(s2.z == (a1.w + b1.w) * (-q.z) + (a1.x + b1.x) * (-q.y) - (a1.y + b1.y) * (-q.x) + (
    a1.z + b1.z) * q.w);
    vstd::arithmetic::mul::lemma_mul_is_distributive_add_other_way(q.w, a1.w, b1.w);
    vstd::arithmetic::mul::lemma_mul_is_distributive_add_other_way((-q.x), a1.w, b1.w);
    vstd::arithmetic::mul::lemma_mul_is_distributive_add_other_way((-q.y), a1.w, b1.w);
    vstd::arithmetic::mul::lemma_mul_is_distributive_add_other_way((-q.z), a1.w, b1.w);
    vstd::arithmetic::mul::lemma_mul_is_distributive_add_other_way(q.w, a1.x, b1.x);
    vstd::arithmetic::mul::lemma_mul_is_distributive_add_other_way((-q.x), a1.x, b1.x);
    vstd::arithmetic::mul::lemma_mul_is_distributive_add_other_way((-q.y), a1.x, b1.x);
    vstd::arithmetic::mul::lemma_mul_is_distributive_add_other_way((-q.z), a1.x, b1.x);
    vstd::arithmetic::mul::lemma_mul_is_distributive_add_other_way(q.w, a1.y, b1.y);
    vstd::arithmetic::mul::lemma_mul_is_distributive_add_other_way((-q.x), a1.y, b1.y);
    vstd::arithmetic::mul::lemma_mul_is_distributive_add_other_way((-q.y), a1.y, b1.y);
    vstd::arithmetic::mul::lemma_mul_is_distributive_add_other_way((-q.z), a1.y, b1.y);
    vstd::arithmetic::mul::lemma_mul_is_distributive_add_other_way(q.w, a1.z, b1.z);
    vstd::arithmetic::mul::lemma_mul_is_distributive_add_other_way((-q.x), a1.z, b1.z);
    vstd::arithmetic::mul::lemma_mul_is_distributive_add_other_way((-q.y), a1.z, b1.z);
    vstd::arithmetic::mul::lemma_mul_is_distributive_add_other_way((-q.z), a1.z, b1.z);
    assert(s2.x == a2.x + b2.x);
    assert(s2.y == a2.y + b2.y);
    assert(s2.z == a2.z + b2.z);
    assert(rvec3_rotate(q, rvec3_add(u, v)).x == rvec3_rotate(q, u).x + rvec3_rotate(q, v).x);
    assert(rvec3_rotate(q, rvec3_add(u, v)).y == rvec3_rotate(q, u).y + rvec3_rotate(q, v).y);
    assert(rvec3_rotate(q, rvec3_add(u, v)).z == rvec3_rotate(q, u).z + rvec3_rotate(q, v).z);
}

/// The rotation and scale parts of pose composition are associative for all
/// poses, with no condition on the scales.
pub proof fn lemma_mul_assoc_rotation_scale(a: RXform, b: RXform, c: RXform)
    ensures
        rxform_mul(rxform_mul(a, b), c).rotation == rxform_mul(a, rxform_mul(b, c)).rotation,
        rxform_mul(rxform_mul(a, b), c).scale == rxform_mul(a, rxform_mul(b, c)).scale,
{
    lemma_rquat_mul_assoc(a.rotation, b.rotation, c.rotation);
    lemma_rvec3_mul_assoc(a.scale, b.scale, c.scale);
}

/// Pose composition is associative whenever the middle pose's scale is
/// uniform. With a non-uniform middle scale and a rotation beside it the
/// translation parts can differ, since a lane-wise scale does not commute
/// with a rotation.
pub proof fn lemma_mul_assoc(a: RXform, b: RXform, c: RXform)
    requires
        rvec3_uniform(b.scale),
    ensures
        rxform_mul(rxform_mul(a, b), c) == rxform_mul(a, rxform_mul(b, c)),
{
    let k: int = b.scale.x;
    lemma_mul_assoc_rotation_scale(a, b, c);
    let w = rvec3_rotate(b.rotation, c.translation);
    lemma_rotate_compose(a.rotation, b.rotation, c.translation);
    let rw = rvec3_rotate(a.rotation, w);
    lemma_rotate_add(a.rotation, rvec3_mul(b.scale, w), b.translation);
    assert(rvec3_mul(b.scale, w) == rvec3_scale(k, w));
    lemma_rotate_scale(a.rotation, k, w);
    lemma_rvec3_mul_dist(
        a.scale,
        rvec3_rotate(a.rotation, rvec3_mul(b.scale, w)),
        rvec3_rotate(a.rotation, b.translation),
    );
    vstd::arithmetic::mul::lemma_mul_is_associative(a.scale.x, k, rw.x);
    vstd::arithmetic::mul::lemma_mul_is_associative(a.scale.y, k, rw.y);
    vstd::arithmetic::mul::lemma_mul_is_associative(a.scale.z, k, rw.z);
    assert(rvec3_mul(a.scale, rvec3_scale(k, rw)) == rvec3_mul(rvec3_mul(a.scale, b.scale), rw));
    let l = rxform_mul(rxform_mul(a, b), c);
    let r = rxform_mul(a, rxform_mul(b, c));
    assert(l.translation.x == r.translation.x);
    assert(l.translation.y == r.translation.y);
    assert(l.translation.z == r.translation.z);
}

/// For the identity pose the directional accessors point along the fixed
/// axes: forward along negative z, up along positive y, right along
/// positive x.
pub proof fn lemma_identity_directions()
    ensures
        rvec3_neg(rvec3_rotate(rxform_identity().rotation, RVec3 { x: 0, y: 0, z: 1 })) == (RVec3 {
            x: 0,
            y: 0,
            z: -1,
        }),
        rvec3_rotate(rxform_identity().rotation, RVec3 { x: 0, y: 1, z: 0 }) == (RVec3 {
            x: 0,
            y: 1,
            z: 0,
        }),
        rvec3_rotate(rxform_identity().rotation, RVec3 { x: 1, y: 0, z: 0 }) == (RVec3 {
            x: 1,
            y: 0,
            z: 0,
        }),
{
    lemma_rotate_identity(RVec3 { x: 0, y: 0, z: 1 });
    lemma_rotate_identity(RVec3 { x: 0, y: 1, z: 0 });
    lemma_rotate_identity(RVec3 { x: 1, y: 0, z: 0 });
}

} // verus!
