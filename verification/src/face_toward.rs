//! Construction of a full 4x4 view matrix that faces a target, the
//! matrix-level counterpart of the look-at routine on poses.
use vstd::prelude::*;

use crate::ops32::mat4_from_cols;
use crate::ops32::mat4_from_cols_of;
use crate::ops32::vec3_cross;
use crate::ops32::vec3_cross_of;
use crate::ops32::vec3_extend_of;
use crate::ops32::vec3_extend_one;
use crate::ops32::vec3_extend_zero;
use crate::ops32::vec3_normalize;
use crate::ops32::vec3_normalize_of;
use crate::ops32::vec3_sub;
use crate::ops32::vec3_sub_of;
use crate::ops32::F32_ONE_BITS;
use crate::ops64::dmat4_from_cols;
use crate::ops64::dmat4_from_cols_of;
use crate::ops64::dvec3_cross;
use crate::ops64::dvec3_cross_of;
use crate::ops64::dvec3_extend_of;
use crate::ops64::dvec3_extend_one;
use crate::ops64::dvec3_extend_zero;
use crate::ops64::dvec3_normalize;
use crate::ops64::dvec3_normalize_of;
use crate::ops64::dvec3_sub;
use crate::ops64::dvec3_sub_of;
use crate::ops64::F64_ONE_BITS;

verus! {

/// The unit direction from `center` toward `eye`: the third basis column.
pub open spec fn face_forward32(eye: glam::Vec3, center: glam::Vec3) -> glam::Vec3 {
    vec3_normalize_of(vec3_sub_of(eye, center))
}

/// The unit right direction of the basis: `up` crossed with the forward
/// direction, normalized.
pub open spec fn face_right32(eye: glam::Vec3, center: glam::Vec3, up: glam::Vec3) -> glam::Vec3 {
    vec3_normalize_of(vec3_cross_of(up, face_forward32(eye, center)))
}

/// The recomputed up direction of the basis: forward crossed with right.
pub open spec fn face_up32(eye: glam::Vec3, center: glam::Vec3, up: glam::Vec3) -> glam::Vec3 {
    vec3_cross_of(face_forward32(eye, center), face_right32(eye, center, up))
}

/// The unit direction from `center` toward `eye`: the third basis column.
pub open spec fn face_forward64(eye: glam::DVec3, center: glam::DVec3) -> glam::DVec3 {
    dvec3_normalize_of(dvec3_sub_of(eye, center))
}

/// The unit right direction of the basis: `up` crossed with the forward
/// direction, normalized.
pub open spec fn face_right64(
    eye: glam::DVec3,
    center: glam::DVec3,
    up: glam::DVec3,
) -> glam::DVec3 {
    dvec3_normalize_of(dvec3_cross_of(up, face_forward64(eye, center)))
}

/// The recomputed up direction of the basis: forward crossed with right.
pub open spec fn face_up64(eye: glam::DVec3, center: glam::DVec3, up: glam::DVec3) -> glam::DVec3 {
    dvec3_cross_of(face_forward64(eye, center), face_right64(eye, center, up))
}

/// Builds a translation and rotation matrix whose rotation faces from `eye`
/// toward a target.
pub trait FaceToward: Sized {
    /// The vector type the matrix is built from.
    type Vec3;

    /// The matrix whose first three columns are the right, up and forward
    /// directions of the basis looking from `eye` toward `center`, each with
    /// a zero last lane, and whose last column is `eye` with a one last
    /// lane. If `eye` coincides with `center`, or `up` is parallel to the
    /// line between them, the basis is degenerate and the rotation columns
    /// are unspecified; no error is raised.
    fn face_toward(eye: Self::Vec3, center: Self::Vec3, up: Self::Vec3) -> Self;
}

impl FaceToward for glam::Mat4 {
    type Vec3 = glam::Vec3;

    fn face_toward(eye: glam::Vec3, center: glam::Vec3, up: glam::Vec3) -> (r: Self)
        ensures
            r == mat4_from_cols_of(
                vec3_extend_of(face_right32(eye, center, up), 0),
                vec3_extend_of(face_up32(eye, center, up), 0),
                vec3_extend_of(face_forward32(eye, center), 0),
                vec3_extend_of(eye, F32_ONE_BITS),
            ),
    {
        let forward = vec3_normalize(vec3_sub(eye, center));
        let right = vec3_normalize(vec3_cross(up, forward));
        let new_up = vec3_cross(forward, right);
        mat4_from_cols(
            vec3_extend_zero(right),
            vec3_extend_zero(new_up),
            vec3_extend_zero(forward),
            vec3_extend_one(eye),
        )
    }
}

impl FaceToward for glam::DMat4 {
    type Vec3 = glam::DVec3;

    fn face_toward(eye: glam::DVec3, center: glam::DVec3, up: glam::DVec3) -> (r: Self)
        ensures
            r == dmat4_from_cols_of(
                dvec3_extend_of(face_right64(eye, center, up), 0),
                dvec3_extend_of(face_up64(eye, center, up), 0),
                dvec3_extend_of(face_forward64(eye, center), 0),
                dvec3_extend_of(eye, F64_ONE_BITS),
            ),
    {
        let forward = dvec3_normalize(dvec3_sub(eye, center));
        let right = dvec3_normalize(dvec3_cross(up, forward));
        let new_up = dvec3_cross(forward, right);
        dmat4_from_cols(
            dvec3_extend_zero(right),
            dvec3_extend_zero(new_up),
            dvec3_extend_zero(forward),
            dvec3_extend_one(eye),
        )
    }
}

} // verus!
