//! The double-precision pose types, the mirror of `transform32`.
use vstd::prelude::*;

use crate::ops64::dmat3_from_cols;
use crate::ops64::dmat3_from_cols_of;
use crate::ops64::dmat4_compose;
use crate::ops64::dmat4_compose_of;
use crate::ops64::dmat4_decomp_of;
use crate::ops64::dmat4_decompose;
use crate::ops64::dquat_from_mat3;
use crate::ops64::dquat_from_mat3_of;
use crate::ops64::dquat_identity;
use crate::ops64::dquat_mul;
use crate::ops64::dquat_mul_of;
use crate::ops64::dquat_mul_vec3;
use crate::ops64::dquat_new_of;
use crate::ops64::dquat_rotate_of;
use crate::ops64::dvec3_add;
use crate::ops64::dvec3_add_of;
use crate::ops64::dvec3_cross;
use crate::ops64::dvec3_cross_of;
use crate::ops64::dvec3_mul;
use crate::ops64::dvec3_mul_of;
use crate::ops64::dvec3_neg;
use crate::ops64::dvec3_neg_of;
use crate::ops64::dvec3_new_of;
use crate::ops64::dvec3_normalize;
use crate::ops64::dvec3_normalize_of;
use crate::ops64::dvec3_one;
use crate::ops64::dvec3_sub;
use crate::ops64::dvec3_sub_of;
use crate::ops64::dvec3_unit_x;
use crate::ops64::dvec3_unit_y;
use crate::ops64::dvec3_unit_z;
use crate::ops64::dvec3_zero;
use crate::ops64::F64_ONE_BITS;
use crate::precision::dquat_narrow;
use crate::precision::dquat_narrow_of;
use crate::precision::dvec3_narrow;
use crate::precision::dvec3_narrow_of;
use crate::precision::F32Convert;
use crate::precision::F64Convert;
use crate::transform32::GlobalTransform32;
use crate::transform32::Transform32;

verus! {

/// The translation of the identity pose: the zero vector.
pub open spec fn identity64_translation() -> glam::DVec3 {
    dvec3_new_of(0, 0, 0)
}

/// The rotation of the identity pose: the identity quaternion.
pub open spec fn identity64_rotation() -> glam::DQuat {
    dquat_new_of(0, 0, 0, F64_ONE_BITS)
}

/// The scale of the identity pose: one on every lane.
pub open spec fn identity64_scale() -> glam::DVec3 {
    dvec3_new_of(F64_ONE_BITS, F64_ONE_BITS, F64_ONE_BITS)
}

/// A pose applied to a point: rotate, scale lane by lane, then translate.
pub open spec fn apply64(
    scale: glam::DVec3,
    rotation: glam::DQuat,
    translation: glam::DVec3,
    v: glam::DVec3,
) -> glam::DVec3 {
    dvec3_add_of(dvec3_mul_of(scale, dquat_rotate_of(rotation, v)), translation)
}

/// The rotation that makes the local z direction point toward `target` as
/// seen from `eye`, with the local y direction toward `up`.
pub open spec fn look_rotation64(
    eye: glam::DVec3,
    target: glam::DVec3,
    up: glam::DVec3,
) -> glam::DQuat {
    let forward = dvec3_normalize_of(dvec3_sub_of(eye, target));
    let right = dvec3_normalize_of(dvec3_cross_of(up, forward));
    let new_up = dvec3_cross_of(forward, right);
    dquat_from_mat3_of(dmat3_from_cols_of(right, new_up, forward))
}

/// The pose of an entity relative to its parent, or to the world if it has
/// none.
#[derive(Clone, Copy, Debug, PartialEq)]
pub struct Transform64 {
    /// Position of the entity.
    pub translation: glam::DVec3,
    /// Rotation of the entity; kept unit-norm by every constructor here.
    pub rotation: glam::DQuat,
    /// Scale of the entity, lane by lane; it may be non-uniform.
    pub scale: glam::DVec3,
}

impl Transform64 {
    /// The identity pose: no translation, no rotation, unit scale.
    pub fn identity() -> (r: Self)
        ensures
            r.translation == identity64_translation(),
            r.rotation == identity64_rotation(),
            r.scale == identity64_scale(),
    {
        Transform64 { translation: dvec3_zero(), rotation: dquat_identity(), scale: dvec3_one() }
    }

    /// A pose with the given translation and the identity rotation and
    /// scale.
    pub fn from_translation(translation: glam::DVec3) -> (r: Self)
        ensures
            r.translation == translation,
            r.rotation == identity64_rotation(),
            r.scale == identity64_scale(),
    {
        Transform64 { translation, rotation: dquat_identity(), scale: dvec3_one() }
    }

    /// A pose with the given rotation and the identity translation and
    /// scale.
    pub fn from_rotation(rotation: glam::DQuat) -> (r: Self)
        ensures
            r.rotation == rotation,
            r.translation == identity64_translation(),
            r.scale == identity64_scale(),
    {
        Transform64 { translation: dvec3_zero(), rotation, scale: dvec3_one() }
    }

    /// A pose with the given scale and the identity translation and
    /// rotation.
    pub fn from_scale(scale: glam::DVec3) -> (r: Self)
        ensures
            r.scale == scale,
            r.translation == identity64_translation(),
            r.rotation == identity64_rotation(),
    {
        Transform64 { translation: dvec3_zero(), rotation: dquat_identity(), scale }
    }

    /// The pose whose scale, rotation and translation decompose the given
    /// affine matrix. The matrix must be a valid scale-rotation-translation
    /// composition; on any other matrix the decomposition yields unspecified
    /// scale and rotation, with no error raised.
    pub fn from_matrix(matrix: glam::DMat4) -> (r: Self)
        ensures
            r.scale == dmat4_decomp_of(matrix).0,
            r.rotation == dmat4_decomp_of(matrix).1,
            r.translation == dmat4_decomp_of(matrix).2,
    {
        let (scale, rotation, translation) = dmat4_decompose(&matrix);
        Transform64 { translation, rotation, scale }
    }

    /// This pose with its rotation replaced so that it looks at `target`;
    /// see `look_at`.
    pub fn looking_at(self, target: glam::DVec3, up: glam::DVec3) -> (r: Self)
        ensures
            r.translation == self.translation,
            r.scale == self.scale,
            r.rotation == look_rotation64(self.translation, target, up),
    {
        let mut next = self;
        next.look_at(target, up);
        next
    }

    /// This pose with a new translation.
    pub fn with_translation(self, translation: glam::DVec3) -> (r: Self)
        ensures
            r.translation == translation,
            r.rotation == self.rotation,
            r.scale == self.scale,
    {
        Transform64 { translation, rotation: self.rotation, scale: self.scale }
    }

    /// This pose with a new rotation.
    pub fn with_rotation(self, rotation: glam::DQuat) -> (r: Self)
        ensures
            r.rotation == rotation,
            r.translation == self.translation,
            r.scale == self.scale,
    {
        Transform64 { translation: self.translation, rotation, scale: self.scale }
    }

    /// This pose with a new scale.
    pub fn with_scale(self, scale: glam::DVec3) -> (r: Self)
        ensures
            r.scale == scale,
            r.translation == self.translation,
            r.rotation == self.rotation,
    {
        Transform64 { translation: self.translation, rotation: self.rotation, scale }
    }

    /// The affine matrix of this pose. Decomposing it recovers the
    /// translation exactly.
    pub fn compute_matrix(&self) -> (r: glam::DMat4)
        ensures
            r == dmat4_compose_of(self.scale, self.rotation, self.translation),
            dmat4_decomp_of(r).2 == self.translation,
    {
        dmat4_compose(self.scale, self.rotation, self.translation)
    }

    /// The unit vector in the local x direction.
    pub fn local_x(&self) -> (r: glam::DVec3)
        ensures
            r == dquat_rotate_of(self.rotation, dvec3_new_of(F64_ONE_BITS, 0, 0)),
    {
        dquat_mul_vec3(self.rotation, dvec3_unit_x())
    }

    /// The opposite of `local_x`.
    pub fn left(&self) -> (r: glam::DVec3)
        ensures
            r == dvec3_neg_of(dquat_rotate_of(self.rotation, dvec3_new_of(F64_ONE_BITS, 0, 0))),
    {
        dvec3_neg(self.local_x())
    }

    /// The same as `local_x`.
    pub fn right(&self) -> (r: glam::DVec3)
        ensures
            r == dquat_rotate_of(self.rotation, dvec3_new_of(F64_ONE_BITS, 0, 0)),
    {
        self.local_x()
    }

    /// The unit vector in the local y direction.
    pub fn local_y(&self) -> (r: glam::DVec3)
        ensures
            r == dquat_rotate_of(self.rotation, dvec3_new_of(0, F64_ONE_BITS, 0)),
    {
        dquat_mul_vec3(self.rotation, dvec3_unit_y())
    }

    /// The same as `local_y`.
    pub fn up(&self) -> (r: glam::DVec3)
        ensures
            r == dquat_rotate_of(self.rotation, dvec3_new_of(0, F64_ONE_BITS, 0)),
    {
        self.local_y()
    }

    /// The opposite of `local_y`.
    pub fn down(&self) -> (r: glam::DVec3)
        ensures
            r == dvec3_neg_of(dquat_rotate_of(self.rotation, dvec3_new_of(0, F64_ONE_BITS, 0))),
    {
        dvec3_neg(self.local_y())
    }

    /// The unit vector in the local z direction.
    pub fn local_z(&self) -> (r: glam::DVec3)
        ensures
            r == dquat_rotate_of(self.rotation, dvec3_new_of(0, 0, F64_ONE_BITS)),
    {
        dquat_mul_vec3(self.rotation, dvec3_unit_z())
    }

    /// The opposite of `local_z`: the direction this pose faces.
    pub fn forward(&self) -> (r: glam::DVec3)
        ensures
            r == dvec3_neg_of(dquat_rotate_of(self.rotation, dvec3_new_of(0, 0, F64_ONE_BITS))),
    {
        dvec3_neg(self.local_z())
    }

    /// The same as `local_z`.
    pub fn back(&self) -> (r: glam::DVec3)
        ensures
            r == dquat_rotate_of(self.rotation, dvec3_new_of(0, 0, F64_ONE_BITS)),
    {
        self.local_z()
    }

    /// Rotates this pose by the given rotation, which is applied on the
    /// left.
    pub fn rotate(&mut self, rotation: glam::DQuat)
        ensures
            final(self).rotation == dquat_mul_of(rotation, old(self).rotation),
            final(self).translation == old(self).translation,
            final(self).scale == old(self).scale,
    {
        self.rotation = dquat_mul(rotation, self.rotation);
    }

    /// This pose applied to a point: rotate, scale lane by lane, then
    /// translate.
    pub fn mul_vec3(&self, value: glam::DVec3) -> (r: glam::DVec3)
        ensures
            r == apply64(self.scale, self.rotation, self.translation, value),
    {
        let rotated = dquat_mul_vec3(self.rotation, value);
        let scaled = dvec3_mul(self.scale, rotated);
        dvec3_add(scaled, self.translation)
    }

    /// Multiplies the scale of this pose, lane by lane, by `scale_factor`.
    pub fn apply_non_uniform_scale(&mut self, scale_factor: glam::DVec3)
        ensures
            final(self).scale == dvec3_mul_of(old(self).scale, scale_factor),
            final(self).translation == old(self).translation,
            final(self).rotation == old(self).rotation,
    {
        self.scale = dvec3_mul(self.scale, scale_factor);
    }

    /// Replaces the rotation of this pose so that its local z direction
    /// points toward `target` and its local y direction toward `up`. If
    /// `target` coincides with the translation, or `up` is parallel to the
    /// line toward it, the basis is degenerate and the stored rotation is
    /// unspecified; no error is raised.
    pub fn look_at(&mut self, target: glam::DVec3, up: glam::DVec3)
        ensures
            final(self).rotation == look_rotation64(old(self).translation, target, up),
            final(self).translation == old(self).translation,
            final(self).scale == old(self).scale,
    {
        let forward = dvec3_normalize(dvec3_sub(self.translation, target));
        let right = dvec3_normalize(dvec3_cross(up, forward));
        let new_up = dvec3_cross(forward, right);
        let basis = dmat3_from_cols(right, new_up, forward);
        self.rotation = dquat_from_mat3(&basis);
    }

    /// The composition of `self` with `transform`: the pose that applies
    /// `transform` first and `self` second.
    pub fn mul_transform(&self, transform: Transform64) -> (r: Self)
        ensures
            r.translation == apply64(
                self.scale,
                self.rotation,
                self.translation,
                transform.translation,
            ),
            r.rotation == dquat_mul_of(self.rotation, transform.rotation),
            r.scale == dvec3_mul_of(self.scale, transform.scale),
    {
        let translation = self.mul_vec3(transform.translation);
        let rotation = dquat_mul(self.rotation, transform.rotation);
        let scale = dvec3_mul(self.scale, transform.scale);
        Transform64 { translation, rotation, scale }
    }
}

impl Default for Transform64 {
    /// The identity pose.
    fn default() -> (r: Self)
        ensures
            r.translation == identity64_translation(),
            r.rotation == identity64_rotation(),
            r.scale == identity64_scale(),
    {
        Transform64::identity()
    }
}

impl vstd::std_specs::convert::FromSpecImpl<GlobalTransform64> for Transform64 {
    open spec fn obeys_from_spec() -> bool {
        true
    }

    open spec fn from_spec(transform: GlobalTransform64) -> Transform64 {
        Transform64 {
            translation: transform.translation,
            rotation: transform.rotation,
            scale: transform.scale,
        }
    }
}

impl From<GlobalTransform64> for Transform64 {
    /// Reinterprets a world pose as a local pose, field for field.
    fn from(transform: GlobalTransform64) -> Self {
        Transform64 {
            translation: transform.translation,
            rotation: transform.rotation,
            scale: transform.scale,
        }
    }
}

impl F64Convert for Transform64 {
    type F64Ver = Transform64;

    /// Conversion at matching width: an exact copy.
    fn to_f64(&self) -> (r: Self::F64Ver)
        ensures
            r == *self,
    {
        *self
    }
}

impl F32Convert for Transform64 {
    type F32Ver = Transform32;

    /// Field-wise narrowing; each lane is rounded to the nearest 32-bit
    /// value.
    fn to_f32(&self) -> (r: Self::F32Ver)
        ensures
            r.translation == dvec3_narrow_of(self.translation),
            r.rotation == dquat_narrow_of(self.rotation),
            r.scale == dvec3_narrow_of(self.scale),
    {
        Transform32 {
            translation: dvec3_narrow(&self.translation),
            rotation: dquat_narrow(&self.rotation),
            scale: dvec3_narrow(&self.scale),
        }
    }
}

/// The pose of an entity relative to the world origin. Same algebra as
/// `Transform64`, but never relative to a parent.
#[derive(Clone, Copy, Debug, PartialEq)]
pub struct GlobalTransform64 {
    /// Position of the entity in world space.
    pub translation: glam::DVec3,
    /// Rotation of the entity in world space; kept unit-norm by every
    /// constructor here.
    pub rotation: glam::DQuat,
    /// Scale of the entity in world space, lane by lane.
    pub scale: glam::DVec3,
}

impl GlobalTransform64 {
    /// The identity pose: no translation, no rotation, unit scale.
    pub fn identity() -> (r: Self)
        ensures
            r.translation == identity64_translation(),
            r.rotation == identity64_rotation(),
            r.scale == identity64_scale(),
    {
        GlobalTransform64 {
            translation: dvec3_zero(),
            rotation: dquat_identity(),
            scale: dvec3_one(),
        }
    }

    /// A pose with the given translation and the identity rotation and
    /// scale.
    pub fn from_translation(translation: glam::DVec3) -> (r: Self)
        ensures
            r.translation == translation,
            r.rotation == identity64_rotation(),
            r.scale == identity64_scale(),
    {
        GlobalTransform64 { translation, rotation: dquat_identity(), scale: dvec3_one() }
    }

    /// A pose with the given rotation and the identity translation and
    /// scale.
    pub fn from_rotation(rotation: glam::DQuat) -> (r: Self)
        ensures
            r.rotation == rotation,
            r.translation == identity64_translation(),
            r.scale == identity64_scale(),
    {
        GlobalTransform64 { translation: dvec3_zero(), rotation, scale: dvec3_one() }
    }

    /// A pose with the given scale and the identity translation and
    /// rotation.
    pub fn from_scale(scale: glam::DVec3) -> (r: Self)
        ensures
            r.scale == scale,
            r.translation == identity64_translation(),
            r.rotation == identity64_rotation(),
    {
        GlobalTransform64 { translation: dvec3_zero(), rotation: dquat_identity(), scale }
    }

    /// The pose whose scale, rotation and translation decompose the given
    /// affine matrix; see `Transform64::from_matrix`.
    pub fn from_matrix(matrix: glam::DMat4) -> (r: Self)
        ensures
            r.scale == dmat4_decomp_of(matrix).0,
            r.rotation == dmat4_decomp_of(matrix).1,
            r.translation == dmat4_decomp_of(matrix).2,
    {
        let (scale, rotation, translation) = dmat4_decompose(&matrix);
        GlobalTransform64 { translation, rotation, scale }
    }

    /// This pose with its rotation replaced so that it looks at `target`;
    /// see `look_at`.
    pub fn looking_at(self, target: glam::DVec3, up: glam::DVec3) -> (r: Self)
        ensures
            r.translation == self.translation,
            r.scale == self.scale,
            r.rotation == look_rotation64(self.translation, target, up),
    {
        let mut next = self;
        next.look_at(target, up);
        next
    }

    /// This pose with a new translation.
    pub fn with_translation(self, translation: glam::DVec3) -> (r: Self)
        ensures
            r.translation == translation,
            r.rotation == self.rotation,
            r.scale == self.scale,
    {
        GlobalTransform64 { translation, rotation: self.rotation, scale: self.scale }
    }

    /// This pose with a new rotation.
    pub fn with_rotation(self, rotation: glam::DQuat) -> (r: Self)
        ensures
            r.rotation == rotation,
            r.translation == self.translation,
            r.scale == self.scale,
    {
        GlobalTransform64 { translation: self.translation, rotation, scale: self.scale }
    }

    /// This pose with a new scale.
    pub fn with_scale(self, scale: glam::DVec3) -> (r: Self)
        ensures
            r.scale == scale,
            r.translation == self.translation,
            r.rotation == self.rotation,
    {
        GlobalTransform64 { translation: self.translation, rotation: self.rotation, scale }
    }

    /// The affine matrix of this pose; see `Transform64::compute_matrix`.
    pub fn compute_matrix(&self) -> (r: glam::DMat4)
        ensures
            r == dmat4_compose_of(self.scale, self.rotation, self.translation),
            dmat4_decomp_of(r).2 == self.translation,
    {
        dmat4_compose(self.scale, self.rotation, self.translation)
    }

    /// The unit vector in the local x direction.
    pub fn local_x(&self) -> (r: glam::DVec3)
        ensures
            r == dquat_rotate_of(self.rotation, dvec3_new_of(F64_ONE_BITS, 0, 0)),
    {
        dquat_mul_vec3(self.rotation, dvec3_unit_x())
    }

    /// The opposite of `local_x`.
    pub fn left(&self) -> (r: glam::DVec3)
        ensures
            r == dvec3_neg_of(dquat_rotate_of(self.rotation, dvec3_new_of(F64_ONE_BITS, 0, 0))),
    {
        dvec3_neg(self.local_x())
    }

    /// The same as `local_x`.
    pub fn right(&self) -> (r: glam::DVec3)
        ensures
            r == dquat_rotate_of(self.rotation, dvec3_new_of(F64_ONE_BITS, 0, 0)),
    {
        self.local_x()
    }

    /// The unit vector in the local y direction.
    pub fn local_y(&self) -> (r: glam::DVec3)
        ensures
            r == dquat_rotate_of(self.rotation, dvec3_new_of(0, F64_ONE_BITS, 0)),
    {
        dquat_mul_vec3(self.rotation, dvec3_unit_y())
    }

    /// The same as `local_y`.
    pub fn up(&self) -> (r: glam::DVec3)
        ensures
            r == dquat_rotate_of(self.rotation, dvec3_new_of(0, F64_ONE_BITS, 0)),
    {
        self.local_y()
    }

    /// The opposite of `local_y`.
    pub fn down(&self) -> (r: glam::DVec3)
        ensures
            r == dvec3_neg_of(dquat_rotate_of(self.rotation, dvec3_new_of(0, F64_ONE_BITS, 0))),
    {
        dvec3_neg(self.local_y())
    }

    /// The unit vector in the local z direction.
    pub fn local_z(&self) -> (r: glam::DVec3)
        ensures
            r == dquat_rotate_of(self.rotation, dvec3_new_of(0, 0, F64_ONE_BITS)),
    {
        dquat_mul_vec3(self.rotation, dvec3_unit_z())
    }

    /// The opposite of `local_z`: the direction this pose faces.
    pub fn forward(&self) -> (r: glam::DVec3)
        ensures
            r == dvec3_neg_of(dquat_rotate_of(self.rotation, dvec3_new_of(0, 0, F64_ONE_BITS))),
    {
        dvec3_neg(self.local_z())
    }

    /// The same as `local_z`.
    pub fn back(&self) -> (r: glam::DVec3)
        ensures
            r == dquat_rotate_of(self.rotation, dvec3_new_of(0, 0, F64_ONE_BITS)),
    {
        self.local_z()
    }

    /// Rotates this pose by the given rotation, which is applied on the
    /// left.
    pub fn rotate(&mut self, rotation: glam::DQuat)
        ensures
            final(self).rotation == dquat_mul_of(rotation, old(self).rotation),
            final(self).translation == old(self).translation,
            final(self).scale == old(self).scale,
    {
        self.rotation = dquat_mul(rotation, self.rotation);
    }

    /// This pose applied to a point: rotate, scale lane by lane, then
    /// translate.
    pub fn mul_vec3(&self, value: glam::DVec3) -> (r: glam::DVec3)
        ensures
            r == apply64(self.scale, self.rotation, self.translation, value),
    {
        let rotated = dquat_mul_vec3(self.rotation, value);
        let scaled = dvec3_mul(self.scale, rotated);
        dvec3_add(scaled, self.translation)
    }

    /// Multiplies the scale of this pose, lane by lane, by `scale_factor`.
    pub fn apply_non_uniform_scale(&mut self, scale_factor: glam::DVec3)
        ensures
            final(self).scale == dvec3_mul_of(old(self).scale, scale_factor),
            final(self).translation == old(self).translation,
            final(self).rotation == old(self).rotation,
    {
        self.scale = dvec3_mul(self.scale, scale_factor);
    }

    /// Replaces the rotation of this pose so that its local z direction
    /// points toward `target`; see `Transform64::look_at`.
    pub fn look_at(&mut self, target: glam::DVec3, up: glam::DVec3)
        ensures
            final(self).rotation == look_rotation64(old(self).translation, target, up),
            final(self).translation == old(self).translation,
            final(self).scale == old(self).scale,
    {
        let forward = dvec3_normalize(dvec3_sub(self.translation, target));
        let right = dvec3_normalize(dvec3_cross(up, forward));
        let new_up = dvec3_cross(forward, right);
        let basis = dmat3_from_cols(right, new_up, forward);
        self.rotation = dquat_from_mat3(&basis);
    }

    /// The world pose of a child with local pose `transform` under a parent
    /// with world pose `self`; see `GlobalTransform32::mul_transform`.
    pub fn mul_transform(&self, transform: Transform64) -> (r: GlobalTransform64)
        ensures
            r.translation == apply64(
                self.scale,
                self.rotation,
                self.translation,
                transform.translation,
            ),
            r.rotation == dquat_mul_of(self.rotation, transform.rotation),
            r.scale == dvec3_mul_of(self.scale, transform.scale),
    {
        let translation = self.mul_vec3(transform.translation);
        let rotation = dquat_mul(self.rotation, transform.rotation);
        let scale = dvec3_mul(self.scale, transform.scale);
        GlobalTransform64 { translation, rotation, scale }
    }
}

impl Default for GlobalTransform64 {
    /// The identity pose.
    fn default() -> (r: Self)
        ensures
            r.translation == identity64_translation(),
            r.rotation == identity64_rotation(),
            r.scale == identity64_scale(),
    {
        GlobalTransform64::identity()
    }
}

impl vstd::std_specs::convert::FromSpecImpl<Transform64> for GlobalTransform64 {
    open spec fn obeys_from_spec() -> bool {
        true
    }

    open spec fn from_spec(transform: Transform64) -> GlobalTransform64 {
        GlobalTransform64 {
            translation: transform.translation,
            rotation: transform.rotation,
            scale: transform.scale,
        }
    }
}

impl From<Transform64> for GlobalTransform64 {
    /// Reinterprets a local pose as a world pose, field for field; this is
    /// the rule for an entity without a parent.
    fn from(transform: Transform64) -> Self {
        GlobalTransform64 {
            translation: transform.translation,
            rotation: transform.rotation,
            scale: transform.scale,
        }
    }
}

impl F64Convert for GlobalTransform64 {
    type F64Ver = GlobalTransform64;

    /// Conversion at matching width: an exact copy.
    fn to_f64(&self) -> (r: Self::F64Ver)
        ensures
            r == *self,
    {
        *self
    }
}

impl F32Convert for GlobalTransform64 {
    type F32Ver = GlobalTransform32;

    /// Field-wise narrowing; each lane is rounded to the nearest 32-bit
    /// value.
    fn to_f32(&self) -> (r: Self::F32Ver)
        ensures
            r.translation == dvec3_narrow_of(self.translation),
            r.rotation == dquat_narrow_of(self.rotation),
            r.scale == dvec3_narrow_of(self.scale),
    {
        GlobalTransform32 {
            translation: dvec3_narrow(&self.translation),
            rotation: dquat_narrow(&self.rotation),
            scale: dvec3_narrow(&self.scale),
        }
    }
}

} // verus!
