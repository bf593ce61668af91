//! Trusted boundary to the double-precision primitives of the `glam` crate,
//! the mirror of `ops32` for the 64-bit family.
use vstd::prelude::*;

verus! {

#[verifier::external_type_specification]
#[verifier::external_body]
pub struct ExDVec3(glam::DVec3);

#[verifier::external_type_specification]
#[verifier::external_body]
pub struct ExDVec4(glam::DVec4);

#[verifier::external_type_specification]
#[verifier::external_body]
pub struct ExDQuat(glam::DQuat);

#[verifier::external_type_specification]
#[verifier::external_body]
pub struct ExDMat3(glam::DMat3);

#[verifier::external_type_specification]
#[verifier::external_body]
pub struct ExDMat4(glam::DMat4);

/// Bit pattern of the 64-bit float one.
pub const F64_ONE_BITS: u64 = 0x3ff0_0000_0000_0000;

/// The vector `glam::DVec3::new` builds from the lanes with the given bit
/// patterns.
pub uninterp spec fn dvec3_new_of(x: u64, y: u64, z: u64) -> glam::DVec3;

/// The negation of each lane, as `-` on `glam::DVec3` computes it.
pub uninterp spec fn dvec3_neg_of(a: glam::DVec3) -> glam::DVec3;

/// The lane-wise sum, as `+` on `glam::DVec3` computes it.
pub uninterp spec fn dvec3_add_of(a: glam::DVec3, b: glam::DVec3) -> glam::DVec3;

/// The lane-wise difference, as `-` on `glam::DVec3` computes it.
pub uninterp spec fn dvec3_sub_of(a: glam::DVec3, b: glam::DVec3) -> glam::DVec3;

/// The lane-wise product, as `*` on `glam::DVec3` computes it.
pub uninterp spec fn dvec3_mul_of(a: glam::DVec3, b: glam::DVec3) -> glam::DVec3;

/// The cross product, as `glam::DVec3::cross` computes it.
pub uninterp spec fn dvec3_cross_of(a: glam::DVec3, b: glam::DVec3) -> glam::DVec3;

/// The unit-length rescaling, as `glam::DVec3::normalize` computes it.
pub uninterp spec fn dvec3_normalize_of(a: glam::DVec3) -> glam::DVec3;

/// The 4-lane vector `glam::DVec3::extend` builds from `a` and a last lane
/// with bit pattern `w`.
pub uninterp spec fn dvec3_extend_of(a: glam::DVec3, w: u64) -> glam::DVec4;

/// The first three lanes, as `glam::DVec4::truncate` keeps them.
pub uninterp spec fn dvec4_truncate_of(a: glam::DVec4) -> glam::DVec3;

/// The quaternion `glam::DQuat::from_xyzw` builds from the parts with the
/// given bit patterns.
pub uninterp spec fn dquat_new_of(x: u64, y: u64, z: u64, w: u64) -> glam::DQuat;

/// The quaternion product, as `*` on `glam::DQuat` computes it.
pub uninterp spec fn dquat_mul_of(a: glam::DQuat, b: glam::DQuat) -> glam::DQuat;

/// The rotation of a vector by a quaternion, as `glam::DQuat::mul_vec3`
/// computes it.
pub uninterp spec fn dquat_rotate_of(q: glam::DQuat, v: glam::DVec3) -> glam::DVec3;

/// The rotation read off an orthonormal column basis, as
/// `glam::DQuat::from_mat3` computes it.
pub uninterp spec fn dquat_from_mat3_of(m: glam::DMat3) -> glam::DQuat;

/// The matrix with the given columns, as `glam::DMat3::from_cols` stores
/// them.
pub uninterp spec fn dmat3_from_cols_of(
    x: glam::DVec3,
    y: glam::DVec3,
    z: glam::DVec3,
) -> glam::DMat3;

/// The matrix with the given columns, as `glam::DMat4::from_cols` stores
/// them.
pub uninterp spec fn dmat4_from_cols_of(
    x: glam::DVec4,
    y: glam::DVec4,
    z: glam::DVec4,
    w: glam::DVec4,
) -> glam::DMat4;

/// The affine matrix built from scale, rotation and translation, as
/// `glam::DMat4::from_scale_rotation_translation` computes it.
pub uninterp spec fn dmat4_compose_of(
    scale: glam::DVec3,
    rotation: glam::DQuat,
    translation: glam::DVec3,
) -> glam::DMat4;

/// The (scale, rotation, translation) triple read back from an affine
/// matrix, as `glam::DMat4::to_scale_rotation_translation` computes it.
pub uninterp spec fn dmat4_decomp_of(m: glam::DMat4) -> (glam::DVec3, glam::DQuat, glam::DVec3);

/// Relies on glam::DVec3::ZERO, the vector with all lanes zero.
#[verifier::external_body]
pub(crate) fn dvec3_zero() -> (r: glam::DVec3)
    ensures
        r == dvec3_new_of(0, 0, 0),
{
    glam::DVec3::ZERO
}

/// Relies on glam::DVec3::ONE, the vector with all lanes one.
#[verifier::external_body]
pub(crate) fn dvec3_one() -> (r: glam::DVec3)
    ensures
        r == dvec3_new_of(F64_ONE_BITS, F64_ONE_BITS, F64_ONE_BITS),
{
    glam::DVec3::ONE
}

/// Relies on glam::DVec3::X, the first axis unit vector.
#[verifier::external_body]
pub(crate) fn dvec3_unit_x() -> (r: glam::DVec3)
    ensures
        r == dvec3_new_of(F64_ONE_BITS, 0, 0),
{
    glam::DVec3::X
}

/// Relies on glam::DVec3::Y, the second axis unit vector.
#[verifier::external_body]
pub(crate) fn dvec3_unit_y() -> (r: glam::DVec3)
    ensures
        r == dvec3_new_of(0, F64_ONE_BITS, 0),
{
    glam::DVec3::Y
}

/// Relies on glam::DVec3::Z, the third axis unit vector.
#[verifier::external_body]
pub(crate) fn dvec3_unit_z() -> (r: glam::DVec3)
    ensures
        r == dvec3_new_of(0, 0, F64_ONE_BITS),
{
    glam::DVec3::Z
}

/// Relies on the `Neg` impl of glam::DVec3.
#[verifier::external_body]
pub(crate) fn dvec3_neg(a: glam::DVec3) -> (r: glam::DVec3)
    ensures
        r == dvec3_neg_of(a),
{
    -a
}

/// Relies on the `Add` impl of glam::DVec3, which adds lane by lane.
#[verifier::external_body]
pub(crate) fn dvec3_add(a: glam::DVec3, b: glam::DVec3) -> (r: glam::DVec3)
    ensures
        r == dvec3_add_of(a, b),
{
    a + b
}

/// Relies on the `Sub` impl of glam::DVec3, which subtracts lane by lane.
#[verifier::external_body]
pub(crate) fn dvec3_sub(a: glam::DVec3, b: glam::DVec3) -> (r: glam::DVec3)
    ensures
        r == dvec3_sub_of(a, b),
{
    a - b
}

/// Relies on the `Mul` impl of glam::DVec3, which multiplies lane by lane.
#[verifier::external_body]
pub(crate) fn dvec3_mul(a: glam::DVec3, b: glam::DVec3) -> (r: glam::DVec3)
    ensures
        r == dvec3_mul_of(a, b),
{
    a * b
}

/// Relies on glam::DVec3::cross.
#[verifier::external_body]
pub(crate) fn dvec3_cross(a: glam::DVec3, b: glam::DVec3) -> (r: glam::DVec3)
    ensures
        r == dvec3_cross_of(a, b),
{
    a.cross(b)
}

/// Relies on glam::DVec3::normalize.
#[verifier::external_body]
pub(crate) fn dvec3_normalize(a: glam::DVec3) -> (r: glam::DVec3)
    ensures
        r == dvec3_normalize_of(a),
{
    a.normalize()
}

/// Relies on glam::DVec3::extend, which keeps the three lanes and appends
/// the given last lane, here zero; glam::DVec4::truncate drops the last lane
/// again, so the appended lane leaves the rest untouched.
#[verifier::external_body]
pub(crate) fn dvec3_extend_zero(a: glam::DVec3) -> (r: glam::DVec4)
    ensures
        r == dvec3_extend_of(a, 0),
        dvec4_truncate_of(r) == a,
{
    a.extend(glam::DVec3::ZERO.x)
}

/// Relies on glam::DVec3::extend, as `dvec3_extend_zero`, with last lane
/// one.
#[verifier::external_body]
pub(crate) fn dvec3_extend_one(a: glam::DVec3) -> (r: glam::DVec4)
    ensures
        r == dvec3_extend_of(a, F64_ONE_BITS),
        dvec4_truncate_of(r) == a,
{
    a.extend(glam::DVec3::ONE.x)
}

/// Relies on glam::DQuat::IDENTITY, which is `from_xyzw(0, 0, 0, 1)`.
#[verifier::external_body]
pub(crate) fn dquat_identity() -> (r: glam::DQuat)
    ensures
        r == dquat_new_of(0, 0, 0, F64_ONE_BITS),
{
    glam::DQuat::IDENTITY
}

/// Relies on the `Mul` impl of glam::DQuat, the quaternion product.
#[verifier::external_body]
pub(crate) fn dquat_mul(a: glam::DQuat, b: glam::DQuat) -> (r: glam::DQuat)
    ensures
        r == dquat_mul_of(a, b),
{
    a * b
}

/// Relies on glam::DQuat::mul_vec3, the rotation of a vector.
#[verifier::external_body]
pub(crate) fn dquat_mul_vec3(q: glam::DQuat, v: glam::DVec3) -> (r: glam::DVec3)
    ensures
        r == dquat_rotate_of(q, v),
{
    q.mul_vec3(v)
}

/// Relies on glam::DQuat::from_mat3.
#[verifier::external_body]
pub(crate) fn dquat_from_mat3(m: &glam::DMat3) -> (r: glam::DQuat)
    ensures
        r == dquat_from_mat3_of(*m),
{
    glam::DQuat::from_mat3(m)
}

/// Relies on glam::DMat3::from_cols.
#[verifier::external_body]
pub(crate) fn dmat3_from_cols(x: glam::DVec3, y: glam::DVec3, z: glam::DVec3) -> (r: glam::DMat3)
    ensures
        r == dmat3_from_cols_of(x, y, z),
{
    glam::DMat3::from_cols(x, y, z)
}

/// Relies on glam::DMat4::from_cols.
#[verifier::external_body]
pub(crate) fn dmat4_from_cols(
    x: glam::DVec4,
    y: glam::DVec4,
    z: glam::DVec4,
    w: glam::DVec4,
) -> (r: glam::DMat4)
    ensures
        r == dmat4_from_cols_of(x, y, z, w),
{
    glam::DMat4::from_cols(x, y, z, w)
}

/// Relies on glam::DMat4::from_scale_rotation_translation. Its source stores
/// `translation.extend(1)` as the last column untouched, and
/// glam::DMat4::to_scale_rotation_translation reads the translation straight
/// back off that column, so decomposing the result recovers `translation`
/// exactly.
#[verifier::external_body]
pub(crate) fn dmat4_compose(
    scale: glam::DVec3,
    rotation: glam::DQuat,
    translation: glam::DVec3,
) -> (r: glam::DMat4)
    ensures
        r == dmat4_compose_of(scale, rotation, translation),
        dmat4_decomp_of(r).2 == translation,
{
    glam::DMat4::from_scale_rotation_translation(scale, rotation, translation)
}

/// Relies on glam::DMat4::to_scale_rotation_translation.
#[verifier::external_body]
pub(crate) fn dmat4_decompose(m: &glam::DMat4) -> (r: (glam::DVec3, glam::DQuat, glam::DVec3))
    ensures
        r == dmat4_decomp_of(*m),
{
    m.to_scale_rotation_translation()
}

} // verus!
