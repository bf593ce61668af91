//! Trusted boundary to the single-precision primitives of the `glam` crate.
//!
//! Every operation the transform algebra performs on 32-bit vectors,
//! quaternions and matrices is carried out by `glam`. Each such operation is
//! named by an uninterpreted spec function of its arguments (the operations
//! are deterministic), and a thin wrapper whose contract ties the call to its
//! name. Contracts that can say more than the bare name (lane-exact column
//! placement, exact translation recovery) do so, as far as the `glam` source
//! shows it.
use vstd::prelude::*;

verus! {

#[verifier::external_type_specification]
#[verifier::external_body]
pub struct ExVec3(glam::Vec3);

#[verifier::external_type_specification]
#[verifier::external_body]
pub struct ExVec4(glam::Vec4);

#[verifier::external_type_specification]
#[verifier::external_body]
pub struct ExQuat(glam::Quat);

#[verifier::external_type_specification]
#[verifier::external_body]
pub struct ExMat3(glam::Mat3);

#[verifier::external_type_specification]
#[verifier::external_body]
pub struct ExMat4(glam::Mat4);

/// Bit pattern of the 32-bit float one.
pub const F32_ONE_BITS: u32 = 0x3f80_0000;

/// The vector `glam::Vec3::new` builds from the lanes with the given bit
/// patterns.
pub uninterp spec fn vec3_new_of(x: u32, y: u32, z: u32) -> glam::Vec3;

/// The negation of each lane, as `-` on `glam::Vec3` computes it.
pub uninterp spec fn vec3_neg_of(a: glam::Vec3) -> glam::Vec3;

/// The lane-wise sum, as `+` on `glam::Vec3` computes it.
pub uninterp spec fn vec3_add_of(a: glam::Vec3, b: glam::Vec3) -> glam::Vec3;

/// The lane-wise difference, as `-` on `glam::Vec3` computes it.
pub uninterp spec fn vec3_sub_of(a: glam::Vec3, b: glam::Vec3) -> glam::Vec3;

/// The lane-wise product, as `*` on `glam::Vec3` computes it.
pub uninterp spec fn vec3_mul_of(a: glam::Vec3, b: glam::Vec3) -> glam::Vec3;

/// The cross product, as `glam::Vec3::cross` computes it.
pub uninterp spec fn vec3_cross_of(a: glam::Vec3, b: glam::Vec3) -> glam::Vec3;

/// The unit-length rescaling, as `glam::Vec3::normalize` computes it.
pub uninterp spec fn vec3_normalize_of(a: glam::Vec3) -> glam::Vec3;

/// The 4-lane vector `glam::Vec3::extend` builds from `a` and a last lane
/// with bit pattern `w`.
pub uninterp spec fn vec3_extend_of(a: glam::Vec3, w: u32) -> glam::Vec4;

/// The first three lanes, as `glam::Vec4::truncate` keeps them.
pub uninterp spec fn vec4_truncate_of(a: glam::Vec4) -> glam::Vec3;

/// Whether some lane is a NaN, as `glam::Vec3::is_nan` reports it.
pub uninterp spec fn vec3_is_nan_of(a: glam::Vec3) -> bool;

/// The quaternion `glam::Quat::from_xyzw` builds from the parts with the
/// given bit patterns.
pub uninterp spec fn quat_new_of(x: u32, y: u32, z: u32, w: u32) -> glam::Quat;

/// The quaternion product, as `*` on `glam::Quat` computes it.
pub uninterp spec fn quat_mul_of(a: glam::Quat, b: glam::Quat) -> glam::Quat;

/// The rotation of a vector by a quaternion, as `glam::Quat::mul_vec3`
/// computes it.
pub uninterp spec fn quat_rotate_of(q: glam::Quat, v: glam::Vec3) -> glam::Vec3;

/// The rotation read off an orthonormal column basis, as
/// `glam::Quat::from_mat3` computes it.
pub uninterp spec fn quat_from_mat3_of(m: glam::Mat3) -> glam::Quat;

/// Whether some part is a NaN, as `glam::Quat::is_nan` reports it.
pub uninterp spec fn quat_is_nan_of(q: glam::Quat) -> bool;

/// Whether some lane is a NaN, as `glam::Mat3::is_nan` reports it.
pub uninterp spec fn mat3_is_nan_of(m: glam::Mat3) -> bool;

/// Whether some lane is a NaN, as `glam::Mat4::is_nan` reports it.
pub uninterp spec fn mat4_is_nan_of(m: glam::Mat4) -> bool;

/// The matrix with the given columns, as `glam::Mat3::from_cols` stores them.
pub uninterp spec fn mat3_from_cols_of(x: glam::Vec3, y: glam::Vec3, z: glam::Vec3) -> glam::Mat3;

/// The matrix with the given columns, as `glam::Mat4::from_cols` stores them.
pub uninterp spec fn mat4_from_cols_of(
    x: glam::Vec4,
    y: glam::Vec4,
    z: glam::Vec4,
    w: glam::Vec4,
) -> glam::Mat4;

/// The affine matrix built from scale, rotation and translation, as
/// `glam::Mat4::from_scale_rotation_translation` computes it.
pub uninterp spec fn mat4_compose_of(
    scale: glam::Vec3,
    rotation: glam::Quat,
    translation: glam::Vec3,
) -> glam::Mat4;

/// The (scale, rotation, translation) triple read back from an affine
/// matrix, as `glam::Mat4::to_scale_rotation_translation` computes it.
pub uninterp spec fn mat4_decomp_of(m: glam::Mat4) -> (glam::Vec3, glam::Quat, glam::Vec3);

/// Relies on glam::Vec3::ZERO, the vector with all lanes zero.
#[verifier::external_body]
pub(crate) fn vec3_zero() -> (r: glam::Vec3)
    ensures
        r == vec3_new_of(0, 0, 0),
{
    glam::Vec3::ZERO
}

/// Relies on glam::Vec3::ONE, the vector with all lanes one.
#[verifier::external_body]
pub(crate) fn vec3_one() -> (r: glam::Vec3)
    ensures
        r == vec3_new_of(F32_ONE_BITS, F32_ONE_BITS, F32_ONE_BITS),
{
    glam::Vec3::ONE
}

/// Relies on glam::Vec3::X, the first axis unit vector.
#[verifier::external_body]
pub(crate) fn vec3_unit_x() -> (r: glam::Vec3)
    ensures
        r == vec3_new_of(F32_ONE_BITS, 0, 0),
{
    glam::Vec3::X
}

/// Relies on glam::Vec3::Y, the second axis unit vector.
#[verifier::external_body]
pub(crate) fn vec3_unit_y() -> (r: glam::Vec3)
    ensures
        r == vec3_new_of(0, F32_ONE_BITS, 0),
{
    glam::Vec3::Y
}

/// Relies on glam::Vec3::Z, the third axis unit vector.
#[verifier::external_body]
pub(crate) fn vec3_unit_z() -> (r: glam::Vec3)
    ensures
        r == vec3_new_of(0, 0, F32_ONE_BITS),
{
    glam::Vec3::Z
}

/// Relies on the `Neg` impl of glam::Vec3.
#[verifier::external_body]
pub(crate) fn vec3_neg(a: glam::Vec3) -> (r: glam::Vec3)
    ensures
        r == vec3_neg_of(a),
{
    -a
}

/// Relies on the `Add` impl of glam::Vec3, which adds lane by lane.
#[verifier::external_body]
pub(crate) fn vec3_add(a: glam::Vec3, b: glam::Vec3) -> (r: glam::Vec3)
    ensures
        r == vec3_add_of(a, b),
{
    a + b
}

/// Relies on the `Sub` impl of glam::Vec3, which subtracts lane by lane.
#[verifier::external_body]
pub(crate) fn vec3_sub(a: glam::Vec3, b: glam::Vec3) -> (r: glam::Vec3)
    ensures
        r == vec3_sub_of(a, b),
{
    a - b
}

/// Relies on the `Mul` impl of glam::Vec3, which multiplies lane by lane.
#[verifier::external_body]
pub(crate) fn vec3_mul(a: glam::Vec3, b: glam::Vec3) -> (r: glam::Vec3)
    ensures
        r == vec3_mul_of(a, b),
{
    a * b
}

/// Relies on glam::Vec3::cross.
#[verifier::external_body]
pub(crate) fn vec3_cross(a: glam::Vec3, b: glam::Vec3) -> (r: glam::Vec3)
    ensures
        r == vec3_cross_of(a, b),
{
    a.cross(b)
}

/// Relies on glam::Vec3::normalize.
#[verifier::external_body]
pub(crate) fn vec3_normalize(a: glam::Vec3) -> (r: glam::Vec3)
    ensures
        r == vec3_normalize_of(a),
{
    a.normalize()
}

/// Relies on glam::Vec3::extend, which keeps the three lanes and appends the
/// given last lane, here zero; glam::Vec4::truncate drops the last lane
/// again, so the appended lane leaves the rest untouched.
#[verifier::external_body]
pub(crate) fn vec3_extend_zero(a: glam::Vec3) -> (r: glam::Vec4)
    ensures
        r == vec3_extend_of(a, 0),
        vec4_truncate_of(r) == a,
{
    a.extend(glam::Vec3::ZERO.x)
}

/// Relies on glam::Vec3::extend, as `vec3_extend_zero`, with last lane one.
#[verifier::external_body]
pub(crate) fn vec3_extend_one(a: glam::Vec3) -> (r: glam::Vec4)
    ensures
        r == vec3_extend_of(a, F32_ONE_BITS),
        vec4_truncate_of(r) == a,
{
    a.extend(glam::Vec3::ONE.x)
}

/// Relies on glam::Vec3::is_nan: whether some lane is a NaN.
#[verifier::external_body]
pub(crate) fn vec3_is_nan(a: &glam::Vec3) -> (r: bool)
    ensures
        r == vec3_is_nan_of(*a),
{
    a.is_nan()
}

/// Relies on glam::Quat::is_nan: whether some part is a NaN.
#[verifier::external_body]
pub(crate) fn quat_is_nan(a: &glam::Quat) -> (r: bool)
    ensures
        r == quat_is_nan_of(*a),
{
    a.is_nan()
}

/// Relies on glam::Quat::IDENTITY, which is `from_xyzw(0, 0, 0, 1)`.
#[verifier::external_body]
pub(crate) fn quat_identity() -> (r: glam::Quat)
    ensures
        r == quat_new_of(0, 0, 0, F32_ONE_BITS),
{
    glam::Quat::IDENTITY
}

/// Relies on the `Mul` impl of glam::Quat, the quaternion product.
#[verifier::external_body]
pub(crate) fn quat_mul(a: glam::Quat, b: glam::Quat) -> (r: glam::Quat)
    ensures
        r == quat_mul_of(a, b),
{
    a * b
}

/// Relies on glam::Quat::mul_vec3, the rotation of a vector.
#[verifier::external_body]
pub(crate) fn quat_mul_vec3(q: glam::Quat, v: glam::Vec3) -> (r: glam::Vec3)
    ensures
        r == quat_rotate_of(q, v),
{
    q.mul_vec3(v)
}

/// Relies on glam::Quat::from_mat3.
#[verifier::external_body]
pub(crate) fn quat_from_mat3(m: &glam::Mat3) -> (r: glam::Quat)
    ensures
        r == quat_from_mat3_of(*m),
{
    glam::Quat::from_mat3(m)
}

/// Relies on glam::Mat3::from_cols.
#[verifier::external_body]
pub(crate) fn mat3_from_cols(x: glam::Vec3, y: glam::Vec3, z: glam::Vec3) -> (r: glam::Mat3)
    ensures
        r == mat3_from_cols_of(x, y, z),
{
    glam::Mat3::from_cols(x, y, z)
}

/// Relies on glam::Mat4::from_cols.
#[verifier::external_body]
pub(crate) fn mat4_from_cols(
    x: glam::Vec4,
    y: glam::Vec4,
    z: glam::Vec4,
    w: glam::Vec4,
) -> (r: glam::Mat4)
    ensures
        r == mat4_from_cols_of(x, y, z, w),
{
    glam::Mat4::from_cols(x, y, z, w)
}

/// Relies on glam::Mat4::from_scale_rotation_translation. Its source stores
/// `translation.extend(1)` as the last column untouched, and
/// glam::Mat4::to_scale_rotation_translation reads the translation straight
/// back off that column, so decomposing the result recovers `translation`
/// exactly.
#[verifier::external_body]
pub(crate) fn mat4_compose(
    scale: glam::Vec3,
    rotation: glam::Quat,
    translation: glam::Vec3,
) -> (r: glam::Mat4)
    ensures
        r == mat4_compose_of(scale, rotation, translation),
        mat4_decomp_of(r).2 == translation,
{
    glam::Mat4::from_scale_rotation_translation(scale, rotation, translation)
}

/// Relies on glam::Mat4::to_scale_rotation_translation.
#[verifier::external_body]
pub(crate) fn mat4_decompose(m: &glam::Mat4) -> (r: (glam::Vec3, glam::Quat, glam::Vec3))
    ensures
        r == mat4_decomp_of(*m),
{
    m.to_scale_rotation_translation()
}

} // verus!
