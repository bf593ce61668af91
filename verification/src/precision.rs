//! The conversion protocol between the two precision families, and the
//! default-precision projection built on top of it.
//!
//! `F32Convert` turns a value into its 32-bit counterpart and `F64Convert`
//! into its 64-bit one; for a value already at the target width the
//! conversion is an exact copy. `DefaultPrecisionConvert` is implemented once,
//! by a blanket rule, for every type that has both: in this build the default
//! width is 32 bits, so it projects through `F32Convert`.
use vstd::prelude::*;

use crate::ops32::mat3_is_nan_of;
use crate::ops32::mat4_is_nan_of;
use crate::ops32::quat_is_nan_of;
use crate::ops32::vec3_is_nan_of;

verus! {

/// Conversion to the 32-bit counterpart of a value.
pub trait F32Convert {
    type F32Ver;

    fn to_f32(&self) -> Self::F32Ver;
}

/// Conversion to the 64-bit counterpart of a value.
pub trait F64Convert {
    type F64Ver;

    fn to_f64(&self) -> Self::F64Ver;
}

/// Projection to the width this build treats as the default.
pub trait DefaultPrecisionConvert {
    type DefaultVer;

    fn default_precision(&self) -> Self::DefaultVer;
}

impl<T: F32Convert + F64Convert> DefaultPrecisionConvert for T {
    type DefaultVer = <T as F32Convert>::F32Ver;

    /// The projection at this build's default width: the 32-bit conversion,
    /// with everything that type's `to_f32` promises of its result.
    fn default_precision(&self) -> (r: Self::DefaultVer)
        ensures
            call_ensures(<T as F32Convert>::to_f32, (self,), r),
    {
        self.to_f32()
    }
}

/// The widening of every lane to 64 bits, as `glam::Vec3::as_dvec3` computes
/// it.
pub uninterp spec fn vec3_wide_of(a: glam::Vec3) -> glam::DVec3;

/// The rounding of every lane to 32 bits, as `glam::DVec3::as_vec3` computes
/// it.
pub uninterp spec fn dvec3_narrow_of(a: glam::DVec3) -> glam::Vec3;

/// The widening of every part to 64 bits, as `glam::Quat::as_f64` computes
/// it.
pub uninterp spec fn quat_wide_of(a: glam::Quat) -> glam::DQuat;

/// The rounding of every part to 32 bits, as `glam::DQuat::as_f32` computes
/// it.
pub uninterp spec fn dquat_narrow_of(a: glam::DQuat) -> glam::Quat;

/// The widening of every lane to 64 bits, as `glam::Mat3::as_dmat3` computes
/// it.
pub uninterp spec fn mat3_wide_of(a: glam::Mat3) -> glam::DMat3;

/// The rounding of every lane to 32 bits, as `glam::DMat3::as_mat3` computes
/// it.
pub uninterp spec fn dmat3_narrow_of(a: glam::DMat3) -> glam::Mat3;

/// The widening of every lane to 64 bits, as `glam::Mat4::as_dmat4` computes
/// it.
pub uninterp spec fn mat4_wide_of(a: glam::Mat4) -> glam::DMat4;

/// The rounding of every lane to 32 bits, as `glam::DMat4::as_mat4` computes
/// it.
pub uninterp spec fn dmat4_narrow_of(a: glam::DMat4) -> glam::Mat4;

/// Relies on glam::Vec3::as_dvec3: each lane is cast to 64 bits, which is
/// exact, and casting an exactly representable value back to 32 bits returns
/// it unchanged; only a NaN lane may come back with another payload.
#[verifier::external_body]
pub(crate) fn vec3_widen(a: &glam::Vec3) -> (r: glam::DVec3)
    ensures
        r == vec3_wide_of(*a),
        !vec3_is_nan_of(*a) ==> dvec3_narrow_of(r) == *a,
{
    a.as_dvec3()
}

/// Relies on glam::DVec3::as_vec3: each lane is cast to 32 bits.
#[verifier::external_body]
pub(crate) fn dvec3_narrow(a: &glam::DVec3) -> (r: glam::Vec3)
    ensures
        r == dvec3_narrow_of(*a),
{
    a.as_vec3()
}

/// Relies on glam::Quat::as_f64: each part is cast to 64 bits, which is
/// exact, and casting an exactly representable value back to 32 bits returns
/// it unchanged; only a NaN part may come back with another payload.
#[verifier::external_body]
pub(crate) fn quat_widen(a: &glam::Quat) -> (r: glam::DQuat)
    ensures
        r == quat_wide_of(*a),
        !quat_is_nan_of(*a) ==> dquat_narrow_of(r) == *a,
{
    a.as_f64()
}

/// Relies on glam::DQuat::as_f32: each part is cast to 32 bits.
#[verifier::external_body]
pub(crate) fn dquat_narrow(a: &glam::DQuat) -> (r: glam::Quat)
    ensures
        r == dquat_narrow_of(*a),
{
    a.as_f32()
}

/// Relies on glam::Mat3::as_dmat3: each lane is cast to 64 bits, which is
/// exact, and casting an exactly representable value back to 32 bits returns
/// it unchanged; only a NaN lane may come back with another payload.
#[verifier::external_body]
pub(crate) fn mat3_widen(a: &glam::Mat3) -> (r: glam::DMat3)
    ensures
        r == mat3_wide_of(*a),
        !mat3_is_nan_of(*a) ==> dmat3_narrow_of(r) == *a,
{
    a.as_dmat3()
}

/// Relies on glam::DMat3::as_mat3: each lane is cast to 32 bits.
#[verifier::external_body]
pub(crate) fn dmat3_narrow(a: &glam::DMat3) -> (r: glam::Mat3)
    ensures
        r == dmat3_narrow_of(*a),
{
    a.as_mat3()
}

/// Relies on glam::Mat4::as_dmat4: each lane is cast to 64 bits, which is
/// exact, and casting an exactly representable value back to 32 bits returns
/// it unchanged; only a NaN lane may come back with another payload.
#[verifier::external_body]
pub(crate) fn mat4_widen(a: &glam::Mat4) -> (r: glam::DMat4)
    ensures
        r == mat4_wide_of(*a),
        !mat4_is_nan_of(*a) ==> dmat4_narrow_of(r) == *a,
{
    a.as_dmat4()
}

/// Relies on glam::DMat4::as_mat4: each lane is cast to 32 bits.
#[verifier::external_body]
pub(crate) fn dmat4_narrow(a: &glam::DMat4) -> (r: glam::Mat4)
    ensures
        r == dmat4_narrow_of(*a),
{
    a.as_mat4()
}

impl F32Convert for glam::Vec3 {
    type F32Ver = glam::Vec3;

    fn to_f32(&self) -> (r: Self::F32Ver)
        ensures
            r == *self,
    {
        *self
    }
}

impl F64Convert for glam::Vec3 {
    type F64Ver = glam::DVec3;

    fn to_f64(&self) -> (r: Self::F64Ver)
        ensures
            r == vec3_wide_of(*self),
            !vec3_is_nan_of(*self) ==> dvec3_narrow_of(r) == *self,
    {
        vec3_widen(self)
    }
}

impl F32Convert for glam::DVec3 {
    type F32Ver = glam::Vec3;

    fn to_f32(&self) -> (r: Self::F32Ver)
        ensures
            r == dvec3_narrow_of(*self),
    {
        dvec3_narrow(self)
    }
}

impl F64Convert for glam::DVec3 {
    type F64Ver = glam::DVec3;

    fn to_f64(&self) -> (r: Self::F64Ver)
        ensures
            r == *self,
    {
        *self
    }
}

impl F32Convert for glam::Quat {
    type F32Ver = glam::Quat;

    fn to_f32(&self) -> (r: Self::F32Ver)
        ensures
            r == *self,
    {
        *self
    }
}

impl F64Convert for glam::Quat {
    type F64Ver = glam::DQuat;

    fn to_f64(&self) -> (r: Self::F64Ver)
        ensures
            r == quat_wide_of(*self),
            !quat_is_nan_of(*self) ==> dquat_narrow_of(r) == *self,
    {
        quat_widen(self)
    }
}

impl F32Convert for glam::DQuat {
    type F32Ver = glam::Quat;

    fn to_f32(&self) -> (r: Self::F32Ver)
        ensures
            r == dquat_narrow_of(*self),
    {
        dquat_narrow(self)
    }
}

impl F64Convert for glam::DQuat {
    type F64Ver = glam::DQuat;

    fn to_f64(&self) -> (r: Self::F64Ver)
        ensures
            r == *self,
    {
        *self
    }
}

impl F32Convert for glam::Mat3 {
    type F32Ver = glam::Mat3;

    fn to_f32(&self) -> (r: Self::F32Ver)
        ensures
            r == *self,
    {
        *self
    }
}

impl F64Convert for glam::Mat3 {
    type F64Ver = glam::DMat3;

    fn to_f64(&self) -> (r: Self::F64Ver)
        ensures
            r == mat3_wide_of(*self),
            !mat3_is_nan_of(*self) ==> dmat3_narrow_of(r) == *self,
    {
        mat3_widen(self)
    }
}

impl F32Convert for glam::DMat3 {
    type F32Ver = glam::Mat3;

    fn to_f32(&self) -> (r: Self::F32Ver)
        ensures
            r == dmat3_narrow_of(*self),
    {
        dmat3_narrow(self)
    }
}

impl F64Convert for glam::DMat3 {
    type F64Ver = glam::DMat3;

    fn to_f64(&self) -> (r: Self::F64Ver)
        ensures
            r == *self,
    {
        *self
    }
}

impl F32Convert for glam::Mat4 {
    type F32Ver = glam::Mat4;

    fn to_f32(&self) -> (r: Self::F32Ver)
        ensures
            r == *self,
    {
        *self
    }
}

impl F64Convert for glam::Mat4 {
    type F64Ver = glam::DMat4;

    fn to_f64(&self) -> (r: Self::F64Ver)
        ensures
            r == mat4_wide_of(*self),
            !mat4_is_nan_of(*self) ==> dmat4_narrow_of(r) == *self,
    {
        mat4_widen(self)
    }
}

impl F32Convert for glam::DMat4 {
    type F32Ver = glam::Mat4;

    fn to_f32(&self) -> (r: Self::F32Ver)
        ensures
            r == dmat4_narrow_of(*self),
    {
        dmat4_narrow(self)
    }
}

impl F64Convert for glam::DMat4 {
    type F64Ver = glam::DMat4;

    fn to_f64(&self) -> (r: Self::F64Ver)
        ensures
            r == *self,
    {
        *self
    }
}

} // verus!
