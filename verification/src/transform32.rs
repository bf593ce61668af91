//! The single-precision pose types: `Transform32` for a pose relative to a
//! parent, `GlobalTransform32` for a pose relative to the world origin.
//!
//! Both carry a translation, a unit rotation and a lane-wise scale, and both
//! support the same algebra: composition applies the right-hand pose first,
//! then the left-hand one, where applying a pose to a point rotates it,
//! scales the result lane by lane and then translates it. The two types are
//! kept distinct so that a local pose is never mistaken for a world pose;
//! crossing over is an explicit `From` conversion that copies the fields.
use vstd::prelude::*;

use crate::ops32::mat3_from_cols;
use crate::ops32::mat3_from_cols_of;
use crate::ops32::mat4_compose;
use crate::ops32::mat4_compose_of;
use crate::ops32::mat4_decomp_of;
use crate::ops32::mat4_decompose;
use crate::ops32::quat_from_mat3;
use crate::ops32::quat_from_mat3_of;
use crate::ops32::quat_identity;
use crate::ops32::quat_is_nan;
use crate::ops32::quat_is_nan_of;
use crate::ops32::quat_mul;
use crate::ops32::quat_mul_of;
use crate::ops32::quat_mul_vec3;
use crate::ops32::quat_new_of;
use crate::ops32::quat_rotate_of;
use crate::ops32::vec3_add;
use crate::ops32::vec3_add_of;
use crate::ops32::vec3_cross;
use crate::ops32::vec3_cross_of;
use crate::ops32::vec3_is_nan;
use crate::ops32::vec3_is_nan_of;
use crate::ops32::vec3_mul;
use crate::ops32::vec3_mul_of;
use crate::ops32::vec3_neg;
use crate::ops32::vec3_neg_of;
use crate::ops32::vec3_new_of;
use crate::ops32::vec3_normalize;
use crate::ops32::vec3_normalize_of;
use crate::ops32::vec3_one;
use crate::ops32::vec3_sub;
use crate::ops32::vec3_sub_of;
use crate::ops32::vec3_unit_x;
use crate::ops32::vec3_unit_y;
use crate::ops32::vec3_unit_z;
use crate::ops32::vec3_zero;
use crate::ops32::F32_ONE_BITS;
use crate::precision::dquat_narrow_of;
use crate::precision::dvec3_narrow_of;
use crate::precision::quat_wide_of;
use crate::precision::quat_widen;
use crate::precision::vec3_wide_of;
use crate::precision::vec3_widen;
use crate::precision::F32Convert;
use crate::precision::F64Convert;
use crate::transform64::GlobalTransform64;
use crate::transform64::Transform64;

verus! {

/// The translation of the identity pose: the zero vector.
pub open spec fn identity32_translation() -> glam::Vec3 {
    vec3_new_of(0, 0, 0)
}

/// The rotation of the identity pose: the identity quaternion.
pub open spec fn identity32_rotation() -> glam::Quat {
    quat_new_of(0, 0, 0, F32_ONE_BITS)
}

/// The scale of the identity pose: one on every lane.
pub open spec fn identity32_scale() -> glam::Vec3 {
    vec3_new_of(F32_ONE_BITS, F32_ONE_BITS, F32_ONE_BITS)
}

/// A pose applied to a point: rotate, scale lane by lane, then translate.
pub open spec fn apply32(
    scale: glam::Vec3,
    rotation: glam::Quat,
    translation: glam::Vec3,
    v: glam::Vec3,
) -> glam::Vec3 {
    vec3_add_of(vec3_mul_of(scale, quat_rotate_of(rotation, v)), translation)
}

/// The rotation that makes the local z direction point toward `target` as
/// seen from `eye`, with the local y direction toward `up`: the basis
/// `(right, up, forward)` read as matrix columns.
pub open spec fn look_rotation32(
    eye: glam::Vec3,
    target: glam::Vec3,
    up: glam::Vec3,
) -> glam::Quat {
    let forward = vec3_normalize_of(vec3_sub_of(eye, target));
    let right = vec3_normalize_of(vec3_cross_of(up, forward));
    let new_up = vec3_cross_of(forward, right);
    quat_from_mat3_of(mat3_from_cols_of(right, new_up, forward))
}

/// The pose of an entity relative to its parent, or to the world if it has
/// none.
#[derive(Clone, Copy, Debug, PartialEq)]
pub struct Transform32 {
    /// Position of the entity.
    pub translation: glam::Vec3,
    /// Rotation of the entity; kept unit-norm by every constructor here.
    pub rotation: glam::Quat,
    /// Scale of the entity, lane by lane; it may be non-uniform.
    pub scale: glam::Vec3,
}

impl Transform32 {
    /// The identity pose: no translation, no rotation, unit scale.
    pub fn identity() -> (r: Self)
        ensures
            r.translation == identity32_translation(),
            r.rotation == identity32_rotation(),
            r.scale == identity32_scale(),
    {
        Transform32 { translation: vec3_zero(), rotation: quat_identity(), scale: vec3_one() }
    }

    /// A pose with the given translation and the identity rotation and
    /// scale.
    pub fn from_translation(translation: glam::Vec3) -> (r: Self)
        ensures
            r.translation == translation,
            r.rotation == identity32_rotation(),
            r.scale == identity32_scale(),
    {
        Transform32 { translation, rotation: quat_identity(), scale: vec3_one() }
    }

    /// A pose with the given rotation and the identity translation and
    /// scale.
    pub fn from_rotation(rotation: glam::Quat) -> (r: Self)
        ensures
            r.rotation == rotation,
            r.translation == identity32_translation(),
            r.scale == identity32_scale(),
    {
        Transform32 { translation: vec3_zero(), rotation, scale: vec3_one() }
    }

    /// A pose with the given scale and the identity translation and
    /// rotation.
    pub fn from_scale(scale: glam::Vec3) -> (r: Self)
        ensures
            r.scale == scale,
            r.translation == identity32_translation(),
            r.rotation == identity32_rotation(),
    {
        Transform32 { translation: vec3_zero(), rotation: quat_identity(), scale }
    }

    /// The pose whose scale, rotation and translation decompose the given
    /// affine matrix. The matrix must be a valid scale-rotation-translation
    /// composition; on any other matrix the decomposition yields unspecified
    /// scale and rotation, with no error raised.
    pub fn from_matrix(matrix: glam::Mat4) -> (r: Self)
        ensures
            r.scale == mat4_decomp_of(matrix).0,
            r.rotation == mat4_decomp_of(matrix).1,
            r.translation == mat4_decomp_of(matrix).2,
    {
        let (scale, rotation, translation) = mat4_decompose(&matrix);
        Transform32 { translation, rotation, scale }
    }

    /// This pose with its rotation replaced so that it looks at `target`;
    /// see `look_at`.
    pub fn looking_at(self, target: glam::Vec3, up: glam::Vec3) -> (r: Self)
        ensures
            r.translation == self.translation,
            r.scale == self.scale,
            r.rotation == look_rotation32(self.translation, target, up),
    {
        let mut next = self;
        next.look_at(target, up);
        next
    }

    /// This pose with a new translation.
    pub fn with_translation(self, translation: glam::Vec3) -> (r: Self)
        ensures
            r.translation == translation,
            r.rotation == self.rotation,
            r.scale == self.scale,
    {
        Transform32 { translation, rotation: self.rotation, scale: self.scale }
    }

    /// This pose with a new rotation.
    pub fn with_rotation(self, rotation: glam::Quat) -> (r: Self)
        ensures
            r.rotation == rotation,
            r.translation == self.translation,
            r.scale == self.scale,
    {
        Transform32 { translation: self.translation, rotation, scale: self.scale }
    }

    /// This pose with a new scale.
    pub fn with_scale(self, scale: glam::Vec3) -> (r: Self)
        ensures
            r.scale == scale,
            r.translation == self.translation,
            r.rotation == self.rotation,
    {
        Transform32 { translation: self.translation, rotation: self.rotation, scale }
    }

    /// The affine matrix of this pose. Decomposing it recovers the
    /// translation exactly.
    pub fn compute_matrix(&self) -> (r: glam::Mat4)
        ensures
            r == mat4_compose_of(self.scale, self.rotation, self.translation),
            mat4_decomp_of(r).2 == self.translation,
    {
        mat4_compose(self.scale, self.rotation, self.translation)
    }

    /// The unit vector in the local x direction.
    pub fn local_x(&self) -> (r: glam::Vec3)
        ensures
            r == quat_rotate_of(self.rotation, vec3_new_of(F32_ONE_BITS, 0, 0)),
    {
        quat_mul_vec3(self.rotation, vec3_unit_x())
    }

    /// The opposite of `local_x`.
    pub fn left(&self) -> (r: glam::Vec3)
        ensures
            r == vec3_neg_of(quat_rotate_of(self.rotation, vec3_new_of(F32_ONE_BITS, 0, 0))),
    {
        vec3_neg(self.local_x())
    }

    /// The same as `local_x`.
    pub fn right(&self) -> (r: glam::Vec3)
        ensures
            r == quat_rotate_of(self.rotation, vec3_new_of(F32_ONE_BITS, 0, 0)),
    {
        self.local_x()
    }

    /// The unit vector in the local y direction.
    pub fn local_y(&self) -> (r: glam::Vec3)
        ensures
            r == quat_rotate_of(self.rotation, vec3_new_of(0, F32_ONE_BITS, 0)),
    {
        quat_mul_vec3(self.rotation, vec3_unit_y())
    }

    /// The same as `local_y`.
    pub fn up(&self) -> (r: glam::Vec3)
        ensures
            r == quat_rotate_of(self.rotation, vec3_new_of(0, F32_ONE_BITS, 0)),
    {
        self.local_y()
    }

    /// The opposite of `local_y`.
    pub fn down(&self) -> (r: glam::Vec3)
        ensures
            r == vec3_neg_of(quat_rotate_of(self.rotation, vec3_new_of(0, F32_ONE_BITS, 0))),
    {
        vec3_neg(self.local_y())
    }

    /// The unit vector in the local z direction.
    pub fn local_z(&self) -> (r: glam::Vec3)
        ensures
            r == quat_rotate_of(self.rotation, vec3_new_of(0, 0, F32_ONE_BITS)),
    {
        quat_mul_vec3(self.rotation, vec3_unit_z())
    }

    /// The opposite of `local_z`: the direction this pose faces.
    pub fn forward(&self) -> (r: glam::Vec3)
        ensures
            r == vec3_neg_of(quat_rotate_of(self.rotation, vec3_new_of(0, 0, F32_ONE_BITS))),
    {
        vec3_neg(self.local_z())
    }

    /// The same as `local_z`.
    pub fn back(&self) -> (r: glam::Vec3)
        ensures
            r == quat_rotate_of(self.rotation, vec3_new_of(0, 0, F32_ONE_BITS)),
    {
        self.local_z()
    }

    /// Rotates this pose by the given rotation, which is applied on the
    /// left.
    pub fn rotate(&mut self, rotation: glam::Quat)
        ensures
            final(self).rotation == quat_mul_of(rotation, old(self).rotation),
            final(self).translation == old(self).translation,
            final(self).scale == old(self).scale,
    {
        self.rotation = quat_mul(rotation, self.rotation);
    }

    /// This pose applied to a point: rotate, scale lane by lane, then
    /// translate.
    pub fn mul_vec3(&self, value: glam::Vec3) -> (r: glam::Vec3)
        ensures
            r == apply32(self.scale, self.rotation, self.translation, value),
    {
        let rotated = quat_mul_vec3(self.rotation, value);
        let scaled = vec3_mul(self.scale, rotated);
        vec3_add(scaled, self.translation)
    }

    /// Multiplies the scale of this pose, lane by lane, by `scale_factor`.
    pub fn apply_non_uniform_scale(&mut self, scale_factor: glam::Vec3)
        ensures
            final(self).scale == vec3_mul_of(old(self).scale, scale_factor),
            final(self).translation == old(self).translation,
            final(self).rotation == old(self).rotation,
    {
        self.scale = vec3_mul(self.scale, scale_factor);
    }

    /// Replaces the rotation of this pose so that its local z direction
    /// points toward `target` and its local y direction toward `up`. If
    /// `target` coincides with the translation, or `up` is parallel to the
    /// line toward it, the basis is degenerate and the stored rotation is
    /// unspecified; no error is raised.
    pub fn look_at(&mut self, target: glam::Vec3, up: glam::Vec3)
        ensures
            final(self).rotation == look_rotation32(old(self).translation, target, up),
            final(self).translation == old(self).translation,
            final(self).scale == old(self).scale,
    {
        let forward = vec3_normalize(vec3_sub(self.translation, target));
        let right = vec3_normalize(vec3_cross(up, forward));
        let new_up = vec3_cross(forward, right);
        let basis = mat3_from_cols(right, new_up, forward);
        self.rotation = quat_from_mat3(&basis);
    }

    /// Whether any field of this pose holds a NaN. A pose without one
    /// widens to 64 bits and narrows back unchanged; see `to_f64`.
    pub fn has_nan(&self) -> (r: bool)
        ensures
            r == (vec3_is_nan_of(self.translation) || quat_is_nan_of(self.rotation)
                || vec3_is_nan_of(self.scale)),
    {
        vec3_is_nan(&self.translation) || quat_is_nan(&self.rotation) || vec3_is_nan(&self.scale)
    }

    /// The composition of `self` with `transform`: the pose that applies
    /// `transform` first and `self` second.
    pub fn mul_transform(&self, transform: Transform32) -> (r: Self)
        ensures
            r.translation == apply32(
                self.scale,
                self.rotation,
                self.translation,
                transform.translation,
            ),
            r.rotation == quat_mul_of(self.rotation, transform.rotation),
            r.scale == vec3_mul_of(self.scale, transform.scale),
    {
        let translation = self.mul_vec3(transform.translation);
        let rotation = quat_mul(self.rotation, transform.rotation);
        let scale = vec3_mul(self.scale, transform.scale);
        Transform32 { translation, rotation, scale }
    }
}

impl Default for Transform32 {
    /// The identity pose.
    fn default() -> (r: Self)
        ensures
            r.translation == identity32_translation(),
            r.rotation == identity32_rotation(),
            r.scale == identity32_scale(),
    {
        Transform32::identity()
    }
}

impl vstd::std_specs::convert::FromSpecImpl<GlobalTransform32> for Transform32 {
    open spec fn obeys_from_spec() -> bool {
        true
    }

    open spec fn from_spec(transform: GlobalTransform32) -> Transform32 {
        Transform32 {
            translation: transform.translation,
            rotation: transform.rotation,
            scale: transform.scale,
        }
    }
}

impl From<GlobalTransform32> for Transform32 {
    /// Reinterprets a world pose as a local pose, field for field.
    fn from(transform: GlobalTransform32) -> Self {
        Transform32 {
            translation: transform.translation,
            rotation: transform.rotation,
            scale: transform.scale,
        }
    }
}

impl F32Convert for Transform32 {
    type F32Ver = Transform32;

    /// Conversion at matching width: an exact copy.
    fn to_f32(&self) -> (r: Self::F32Ver)
        ensures
            r == *self,
    {
        *self
    }
}

impl F64Convert for Transform32 {
    type F64Ver = Transform64;

    /// Field-wise widening. Widening is exact, so narrowing the result
    /// returns this pose unchanged whenever no field holds a NaN.
    fn to_f64(&self) -> (r: Self::F64Ver)
        ensures
            r.translation == vec3_wide_of(self.translation),
            r.rotation == quat_wide_of(self.rotation),
            r.scale == vec3_wide_of(self.scale),
            !vec3_is_nan_of(self.translation) ==> dvec3_narrow_of(r.translation)
                == self.translation,
            !quat_is_nan_of(self.rotation) ==> dquat_narrow_of(r.rotation) == self.rotation,
            !vec3_is_nan_of(self.scale) ==> dvec3_narrow_of(r.scale) == self.scale,
    {
        Transform64 {
            translation: vec3_widen(&self.translation),
            rotation: quat_widen(&self.rotation),
            scale: vec3_widen(&self.scale),
        }
    }
}

/// The pose of an entity relative to the world origin. Same algebra as
/// `Transform32`, but never relative to a parent.
#[derive(Clone, Copy, Debug, PartialEq)]
pub struct GlobalTransform32 {
    /// Position of the entity in world space.
    pub translation: glam::Vec3,
    /// Rotation of the entity in world space; kept unit-norm by every
    /// constructor here.
    pub rotation: glam::Quat,
    /// Scale of the entity in world space, lane by lane.
    pub scale: glam::Vec3,
}

impl GlobalTransform32 {
    /// The identity pose: no translation, no rotation, unit scale.
    pub fn identity() -> (r: Self)
        ensures
            r.translation == identity32_translation(),
            r.rotation == identity32_rotation(),
            r.scale == identity32_scale(),
    {
        GlobalTransform32 { translation: vec3_zero(), rotation: quat_identity(), scale: vec3_one() }
    }

    /// A pose with the given translation and the identity rotation and
    /// scale.
    pub fn from_translation(translation: glam::Vec3) -> (r: Self)
        ensures
            r.translation == translation,
            r.rotation == identity32_rotation(),
            r.scale == identity32_scale(),
    {
        GlobalTransform32 { translation, rotation: quat_identity(), scale: vec3_one() }
    }

    /// A pose with the given rotation and the identity translation and
    /// scale.
    pub fn from_rotation(rotation: glam::Quat) -> (r: Self)
        ensures
            r.rotation == rotation,
            r.translation == identity32_translation(),
            r.scale == identity32_scale(),
    {
        GlobalTransform32 { translation: vec3_zero(), rotation, scale: vec3_one() }
    }

    /// A pose with the given scale and the identity translation and
    /// rotation.
    pub fn from_scale(scale: glam::Vec3) -> (r: Self)
        ensures
            r.scale == scale,
            r.translation == identity32_translation(),
            r.rotation == identity32_rotation(),
    {
        GlobalTransform32 { translation: vec3_zero(), rotation: quat_identity(), scale }
    }

    /// The pose whose scale, rotation and translation decompose the given
    /// affine matrix; see `Transform32::from_matrix`.
    pub fn from_matrix(matrix: glam::Mat4) -> (r: Self)
        ensures
            r.scale == mat4_decomp_of(matrix).0,
            r.rotation == mat4_decomp_of(matrix).1,
            r.translation == mat4_decomp_of(matrix).2,
    {
        let (scale, rotation, translation) = mat4_decompose(&matrix);
        GlobalTransform32 { translation, rotation, scale }
    }

    /// This pose with its rotation replaced so that it looks at `target`;
    /// see `look_at`.
    pub fn looking_at(self, target: glam::Vec3, up: glam::Vec3) -> (r: Self)
        ensures
            r.translation == self.translation,
            r.scale == self.scale,
            r.rotation == look_rotation32(self.translation, target, up),
    {
        let mut next = self;
        next.look_at(target, up);
        next
    }

    /// This pose with a new translation.
    pub fn with_translation(self, translation: glam::Vec3) -> (r: Self)
        ensures
            r.translation == translation,
            r.rotation == self.rotation,
            r.scale == self.scale,
    {
        GlobalTransform32 { translation, rotation: self.rotation, scale: self.scale }
    }

    /// This pose with a new rotation.
    pub fn with_rotation(self, rotation: glam::Quat) -> (r: Self)
        ensures
            r.rotation == rotation,
            r.translation == self.translation,
            r.scale == self.scale,
    {
        GlobalTransform32 { translation: self.translation, rotation, scale: self.scale }
    }

    /// This pose with a new scale.
    pub fn with_scale(self, scale: glam::Vec3) -> (r: Self)
        ensures
            r.scale == scale,
            r.translation == self.translation,
            r.rotation == self.rotation,
    {
        GlobalTransform32 { translation: self.translation, rotation: self.rotation, scale }
    }

    /// The affine matrix of this pose; see `Transform32::compute_matrix`.
    pub fn compute_matrix(&self) -> (r: glam::Mat4)
        ensures
            r == mat4_compose_of(self.scale, self.rotation, self.translation),
            mat4_decomp_of(r).2 == self.translation,
    {
        mat4_compose(self.scale, self.rotation, self.translation)
    }

    /// The unit vector in the local x direction.
    pub fn local_x(&self) -> (r: glam::Vec3)
        ensures
            r == quat_rotate_of(self.rotation, vec3_new_of(F32_ONE_BITS, 0, 0)),
    {
        quat_mul_vec3(self.rotation, vec3_unit_x())
    }

    /// The opposite of `local_x`.
    pub fn left(&self) -> (r: glam::Vec3)
        ensures
            r == vec3_neg_of(quat_rotate_of(self.rotation, vec3_new_of(F32_ONE_BITS, 0, 0))),
    {
        vec3_neg(self.local_x())
    }

    /// The same as `local_x`.
    pub fn right(&self) -> (r: glam::Vec3)
        ensures
            r == quat_rotate_of(self.rotation, vec3_new_of(F32_ONE_BITS, 0, 0)),
    {
        self.local_x()
    }

    /// The unit vector in the local y direction.
    pub fn local_y(&self) -> (r: glam::Vec3)
        ensures
            r == quat_rotate_of(self.rotation, vec3_new_of(0, F32_ONE_BITS, 0)),
    {
        quat_mul_vec3(self.rotation, vec3_unit_y())
    }

    /// The same as `local_y`.
    pub fn up(&self) -> (r: glam::Vec3)
        ensures
            r == quat_rotate_of(self.rotation, vec3_new_of(0, F32_ONE_BITS, 0)),
    {
        self.local_y()
    }

    /// The opposite of `local_y`.
    pub fn down(&self) -> (r: glam::Vec3)
        ensures
            r == vec3_neg_of(quat_rotate_of(self.rotation, vec3_new_of(0, F32_ONE_BITS, 0))),
    {
        vec3_neg(self.local_y())
    }

    /// The unit vector in the local z direction.
    pub fn local_z(&self) -> (r: glam::Vec3)
        ensures
            r == quat_rotate_of(self.rotation, vec3_new_of(0, 0, F32_ONE_BITS)),
    {
        quat_mul_vec3(self.rotation, vec3_unit_z())
    }

    /// The opposite of `local_z`: the direction this pose faces.
    pub fn forward(&self) -> (r: glam::Vec3)
        ensures
            r == vec3_neg_of(quat_rotate_of(self.rotation, vec3_new_of(0, 0, F32_ONE_BITS))),
    {
        vec3_neg(self.local_z())
    }

    /// The same as `local_z`.
    pub fn back(&self) -> (r: glam::Vec3)
        ensures
            r == quat_rotate_of(self.rotation, vec3_new_of(0, 0, F32_ONE_BITS)),
    {
        self.local_z()
    }

    /// Rotates this pose by the given rotation, which is applied on the
    /// left.
    pub fn rotate(&mut self, rotation: glam::Quat)
        ensures
            final(self).rotation == quat_mul_of(rotation, old(self).rotation),
            final(self).translation == old(self).translation,
            final(self).scale == old(self).scale,
    {
        self.rotation = quat_mul(rotation, self.rotation);
    }

    /// This pose applied to a point: rotate, scale lane by lane, then
    /// translate.
    pub fn mul_vec3(&self, value: glam::Vec3) -> (r: glam::Vec3)
        ensures
            r == apply32(self.scale, self.rotation, self.translation, value),
    {
        let rotated = quat_mul_vec3(self.rotation, value);
        let scaled = vec3_mul(self.scale, rotated);
        vec3_add(scaled, self.translation)
    }

    /// Multiplies the scale of this pose, lane by lane, by `scale_factor`.
    pub fn apply_non_uniform_scale(&mut self, scale_factor: glam::Vec3)
        ensures
            final(self).scale == vec3_mul_of(old(self).scale, scale_factor),
            final(self).translation == old(self).translation,
            final(self).rotation == old(self).rotation,
    {
        self.scale = vec3_mul(self.scale, scale_factor);
    }

    /// Replaces the rotation of this pose so that its local z direction
    /// points toward `target`; see `Transform32::look_at`.
    pub fn look_at(&mut self, target: glam::Vec3, up: glam::Vec3)
        ensures
            final(self).rotation == look_rotation32(old(self).translation, target, up),
            final(self).translation == old(self).translation,
            final(self).scale == old(self).scale,
    {
        let forward = vec3_normalize(vec3_sub(self.translation, target));
        let right = vec3_normalize(vec3_cross(up, forward));
        let new_up = vec3_cross(forward, right);
        let basis = mat3_from_cols(right, new_up, forward);
        self.rotation = quat_from_mat3(&basis);
    }

    /// Whether any field of this pose holds a NaN. A pose without one
    /// widens to 64 bits and narrows back unchanged; see `to_f64`.
    pub fn has_nan(&self) -> (r: bool)
        ensures
            r == (vec3_is_nan_of(self.translation) || quat_is_nan_of(self.rotation)
                || vec3_is_nan_of(self.scale)),
    {
        vec3_is_nan(&self.translation) || quat_is_nan(&self.rotation) || vec3_is_nan(&self.scale)
    }

    /// The world pose of a child with local pose `transform` under a parent
    /// with world pose `self`: the composition that applies `transform`
    /// first and `self` second. A propagation pass over a scene graph must
    /// call this parent before child, since the operator is order-sensitive.
    pub fn mul_transform(&self, transform: Transform32) -> (r: GlobalTransform32)
        ensures
            r.translation == apply32(
                self.scale,
                self.rotation,
                self.translation,
                transform.translation,
            ),
            r.rotation == quat_mul_of(self.rotation, transform.rotation),
            r.scale == vec3_mul_of(self.scale, transform.scale),
    {
        let translation = self.mul_vec3(transform.translation);
        let rotation = quat_mul(self.rotation, transform.rotation);
        let scale = vec3_mul(self.scale, transform.scale);
        GlobalTransform32 { translation, rotation, scale }
    }
}

impl Default for GlobalTransform32 {
    /// The identity pose.
    fn default() -> (r: Self)
        ensures
            r.translation == identity32_translation(),
            r.rotation == identity32_rotation(),
            r.scale == identity32_scale(),
    {
        GlobalTransform32::identity()
    }
}

impl vstd::std_specs::convert::FromSpecImpl<Transform32> for GlobalTransform32 {
    open spec fn obeys_from_spec() -> bool {
        true
    }

    open spec fn from_spec(transform: Transform32) -> GlobalTransform32 {
        GlobalTransform32 {
            translation: transform.translation,
            rotation: transform.rotation,
            scale: transform.scale,
        }
    }
}

impl From<Transform32> for GlobalTransform32 {
    /// Reinterprets a local pose as a world pose, field for field; this is
    /// the rule for an entity without a parent.
    fn from(transform: Transform32) -> Self {
        GlobalTransform32 {
            translation: transform.translation,
            rotation: transform.rotation,
            scale: transform.scale,
        }
    }
}

impl F32Convert for GlobalTransform32 {
    type F32Ver = GlobalTransform32;

    /// Conversion at matching width: an exact copy.
    fn to_f32(&self) -> (r: Self::F32Ver)
        ensures
            r == *self,
    {
        *self
    }
}

impl F64Convert for GlobalTransform32 {
    type F64Ver = GlobalTransform64;

    /// Field-wise widening; see `Transform32::to_f64`.
    fn to_f64(&self) -> (r: Self::F64Ver)
        ensures
            r.translation == vec3_wide_of(self.translation),
            r.rotation == quat_wide_of(self.rotation),
            r.scale == vec3_wide_of(self.scale),
            !vec3_is_nan_of(self.translation) ==> dvec3_narrow_of(r.translation)
                == self.translation,
            !quat_is_nan_of(self.rotation) ==> dquat_narrow_of(r.rotation) == self.rotation,
            !vec3_is_nan_of(self.scale) ==> dvec3_narrow_of(r.scale) == self.scale,
    {
        GlobalTransform64 {
            translation: vec3_widen(&self.translation),
            rotation: quat_widen(&self.rotation),
            scale: vec3_widen(&self.scale),
        }
    }
}

} // verus!
