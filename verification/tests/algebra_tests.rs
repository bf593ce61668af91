use glam::{DQuat, DVec3, Quat, Vec3, Vec4};
use xform_algebra::{
    DefaultPrecisionConvert, F32Convert, F64Convert, GlobalTransform32, GlobalTransform64,
    Transform32, Transform64,
};

fn near(a: f32, b: f32) -> bool {
    (a - b).abs() < 1e-5
}

fn near3(a: Vec3, b: Vec3) -> bool {
    near(a.x, b.x) && near(a.y, b.y) && near(a.z, b.z)
}

fn near_quat(a: Quat, b: Quat) -> bool {
    near(a.x, b.x) && near(a.y, b.y) && near(a.z, b.z) && near(a.w, b.w)
}

fn sample32() -> Transform32 {
    Transform32 {
        translation: Vec3::new(1.0, 2.0, 3.0),
        rotation: Quat::from_rotation_z(0.3),
        scale: Vec3::new(2.0, 0.5, 4.0),
    }
}

#[test]
fn identity_is_neutral_on_both_sides() {
    let t = sample32();
    let id = Transform32::identity();
    assert_eq!(id.mul_transform(t), t);
    assert_eq!(t.mul_transform(id), t);
}

#[test]
fn identity_is_neutral_for_global() {
    let g = GlobalTransform32 {
        translation: Vec3::new(4.0, 5.0, 6.0),
        rotation: Quat::from_rotation_y(0.7),
        scale: Vec3::new(1.0, 2.0, 3.0),
    };
    let id = Transform32::from_translation(Vec3::ZERO);
    let r = g.mul_transform(id);
    assert_eq!(r.translation, g.translation);
    assert_eq!(r.rotation, g.rotation);
    assert_eq!(r.scale, g.scale);
}

#[test]
fn composition_is_associative_with_uniform_middle_scale() {
    let a = Transform32 {
        translation: Vec3::new(1.0, -2.0, 0.5),
        rotation: Quat::from_rotation_z(0.4),
        scale: Vec3::new(2.0, 3.0, 0.5),
    };
    let b = Transform32 {
        translation: Vec3::new(-3.0, 1.0, 2.0),
        rotation: Quat::from_rotation_x(1.1),
        scale: Vec3::new(2.0, 2.0, 2.0),
    };
    let c = Transform32 {
        translation: Vec3::new(0.25, 4.0, -1.0),
        rotation: Quat::from_rotation_y(-0.6),
        scale: Vec3::new(1.5, 1.5, 1.5),
    };
    let l = a.mul_transform(b).mul_transform(c);
    let r = a.mul_transform(b.mul_transform(c));
    assert!(near3(l.translation, r.translation));
    assert!(near_quat(l.rotation, r.rotation));
    assert!(near3(l.scale, r.scale));
}

#[test]
fn width_round_trip_is_exact() {
    let t = sample32();
    assert_eq!(t.to_f32(), t);
    let wide = t.to_f64();
    assert_eq!(wide.translation, DVec3::new(1.0, 2.0, 3.0));
    assert_eq!(wide.to_f32(), t);
    let g = GlobalTransform32 {
        translation: Vec3::new(7.0, -8.0, 9.0),
        rotation: Quat::from_rotation_x(0.2),
        scale: Vec3::new(1.0, 1.0, 2.0),
    };
    assert_eq!(g.to_f32(), g);
    assert_eq!(g.to_f64().to_f32(), g);
    let t64 = Transform64 {
        translation: DVec3::new(0.5, 0.25, -1.0),
        rotation: DQuat::from_rotation_z(0.9),
        scale: DVec3::new(3.0, 3.0, 3.0),
    };
    assert_eq!(t64.to_f64(), t64);
}

#[test]
fn has_nan_reports_a_nan_in_any_field() {
    let t = sample32();
    assert!(!t.has_nan());
    let poisoned = t.with_translation(Vec3::new(f32::NAN, 0.0, 0.0));
    assert!(poisoned.has_nan());
    let g = GlobalTransform32::from(t);
    assert!(!g.has_nan());
    assert!(g.with_scale(Vec3::new(1.0, f32::NAN, 1.0)).has_nan());
    assert_eq!(t.to_f64().to_f32(), t);
}

#[test]
fn matrix_conversion_round_trips_at_32_bits() {
    let t = sample32();
    let m = t.compute_matrix();
    assert_eq!(m.to_f64().to_f32(), m);
    let b = t.rotation.to_f64().to_f32();
    assert_eq!(b, t.rotation);
}

#[test]
fn default_precision_projects_to_the_32_bit_family() {
    let t = sample32();
    assert_eq!(t.default_precision(), t);
    let t64 = Transform64::from_translation(DVec3::new(1.0, 2.0, 3.0));
    assert_eq!(t64.default_precision(), t64.to_f32());
}

#[test]
fn matrix_round_trip_recovers_the_pose() {
    let t = Transform32 {
        translation: Vec3::new(1.0, 2.0, 3.0),
        rotation: Quat::from_rotation_y(0.7),
        scale: Vec3::new(2.0, 3.0, 4.0),
    };
    let back = Transform32::from_matrix(t.compute_matrix());
    assert_eq!(back.translation, t.translation);
    assert!(near_quat(back.rotation, t.rotation));
    assert!(near3(back.scale, t.scale));
}

#[test]
fn compute_matrix_stores_the_translation_column() {
    let t = Transform32 {
        translation: Vec3::new(1.0, 2.0, 3.0),
        rotation: Quat::from_rotation_z(0.5),
        scale: Vec3::new(1.0, 2.0, 1.0),
    };
    assert_eq!(t.compute_matrix().w_axis, Vec4::new(1.0, 2.0, 3.0, 1.0));
}

#[test]
fn directional_accessors_of_the_identity() {
    let t = Transform32::identity();
    assert_eq!(t.forward(), Vec3::new(0.0, 0.0, -1.0));
    assert_eq!(t.back(), Vec3::new(0.0, 0.0, 1.0));
    assert_eq!(t.up(), Vec3::new(0.0, 1.0, 0.0));
    assert_eq!(t.down(), Vec3::new(0.0, -1.0, 0.0));
    assert_eq!(t.right(), Vec3::new(1.0, 0.0, 0.0));
    assert_eq!(t.left(), Vec3::new(-1.0, 0.0, 0.0));
    assert_eq!(t.local_x(), Vec3::new(1.0, 0.0, 0.0));
    assert_eq!(t.local_y(), Vec3::new(0.0, 1.0, 0.0));
    assert_eq!(t.local_z(), Vec3::new(0.0, 0.0, 1.0));
}

#[test]
fn directional_accessors_follow_a_rotation() {
    let t = Transform32::from_rotation(Quat::from_rotation_z(std::f32::consts::FRAC_PI_2));
    assert!(near3(t.local_x(), Vec3::new(0.0, 1.0, 0.0)));
    assert!(near3(t.up(), Vec3::new(-1.0, 0.0, 0.0)));
    assert!(near3(t.forward(), Vec3::new(0.0, 0.0, -1.0)));
}

#[test]
fn looking_at_turns_forward_toward_the_target() {
    let t = Transform32::identity()
        .with_translation(Vec3::new(50.0, 60.0, 0.0))
        .looking_at(Vec3::new(0.0, 0.0, 0.0), Vec3::new(0.0, 1.0, 0.0));
    let toward_target = -Vec3::new(50.0, 60.0, 0.0).normalize();
    assert!(near3(t.forward(), toward_target));
    assert!(near3(t.rotation.mul_vec3(Vec3::new(0.0, 0.0, -1.0)), t.forward()));
    assert!(near3(t.back(), Vec3::new(50.0, 60.0, 0.0).normalize()));
}

#[test]
fn mul_vec3_rotates_scales_then_translates() {
    let t = Transform32 {
        translation: Vec3::new(1.0, 0.0, 0.0),
        rotation: Quat::from_rotation_z(std::f32::consts::FRAC_PI_2),
        scale: Vec3::new(2.0, 2.0, 2.0),
    };
    assert!(near3(t.mul_vec3(Vec3::new(1.0, 0.0, 0.0)), Vec3::new(1.0, 2.0, 0.0)));
}

#[test]
fn hierarchy_composition_of_translations() {
    let parent = GlobalTransform32::from_translation(Vec3::new(10.0, 0.0, 0.0));
    let child = Transform32::from_translation(Vec3::new(0.0, 5.0, 0.0));
    let global = parent.mul_transform(child);
    assert_eq!(global.translation, Vec3::new(10.0, 5.0, 0.0));
    let grandchild = Transform32::from_translation(Vec3::new(0.0, 0.0, 2.0));
    let top_down = parent.mul_transform(child).mul_transform(grandchild);
    let merged = parent.mul_transform(child.mul_transform(grandchild));
    assert_eq!(top_down, merged);
    assert_eq!(top_down.translation, Vec3::new(10.0, 5.0, 2.0));
}

#[test]
fn rotate_applies_the_rotation_on_the_left() {
    let mut t = sample32();
    let q = Quat::from_rotation_x(0.8);
    let before = t.rotation;
    t.rotate(q);
    assert_eq!(t.rotation, q.mul_quat(before));
    assert_eq!(t.translation, Vec3::new(1.0, 2.0, 3.0));
}

#[test]
fn apply_non_uniform_scale_multiplies_lane_by_lane() {
    let mut t = Transform32::from_scale(Vec3::new(2.0, 3.0, 4.0));
    t.apply_non_uniform_scale(Vec3::new(2.0, 0.5, 1.0));
    assert_eq!(t.scale, Vec3::new(4.0, 1.5, 4.0));
}

#[test]
fn constructors_set_one_field_and_default_the_rest() {
    let t = Transform32::from_translation(Vec3::new(1.0, 2.0, 3.0));
    assert_eq!(t.translation, Vec3::new(1.0, 2.0, 3.0));
    assert_eq!(t.rotation, Quat::IDENTITY);
    assert_eq!(t.scale, Vec3::ONE);
    let q = Quat::from_rotation_y(0.4);
    let r = Transform32::from_rotation(q);
    assert_eq!(r.rotation, q);
    assert_eq!(r.translation, Vec3::ZERO);
    let s = Transform32::from_scale(Vec3::new(5.0, 6.0, 7.0));
    assert_eq!(s.scale, Vec3::new(5.0, 6.0, 7.0));
    assert_eq!(Transform32::default(), Transform32::identity());
    assert_eq!(GlobalTransform32::default(), GlobalTransform32::identity());
}

#[test]
fn with_methods_replace_a_single_field() {
    let t = sample32();
    assert_eq!(t.with_translation(Vec3::ZERO).translation, Vec3::ZERO);
    assert_eq!(t.with_translation(Vec3::ZERO).scale, t.scale);
    assert_eq!(t.with_rotation(Quat::IDENTITY).rotation, Quat::IDENTITY);
    assert_eq!(t.with_scale(Vec3::ONE).scale, Vec3::ONE);
}

#[test]
fn local_and_world_poses_convert_field_for_field() {
    let t = sample32();
    let g = GlobalTransform32::from(t);
    assert_eq!(g.translation, t.translation);
    assert_eq!(g.rotation, t.rotation);
    assert_eq!(g.scale, t.scale);
    let back = Transform32::from(g);
    assert_eq!(back, t);
}

#[test]
fn composition_is_associative_at_64_bits_too() {
    let near64 = |a: DVec3, b: DVec3| -> bool {
        (a.x - b.x).abs() < 1e-12 && (a.y - b.y).abs() < 1e-12 && (a.z - b.z).abs() < 1e-12
    };
    let a = Transform64 {
        translation: DVec3::new(1.0, -2.0, 0.5),
        rotation: DQuat::from_rotation_z(0.4),
        scale: DVec3::new(2.0, 3.0, 0.5),
    };
    let b = Transform64 {
        translation: DVec3::new(-3.0, 1.0, 2.0),
        rotation: DQuat::from_rotation_x(1.1),
        scale: DVec3::new(2.0, 2.0, 2.0),
    };
    let c = Transform64 {
        translation: DVec3::new(0.25, 4.0, -1.0),
        rotation: DQuat::from_rotation_y(-0.6),
        scale: DVec3::new(1.5, 1.5, 1.5),
    };
    let l = a.mul_transform(b).mul_transform(c);
    let r = a.mul_transform(b.mul_transform(c));
    assert!(near64(l.translation, r.translation));
    assert!(near64(l.scale, r.scale));
    let g = GlobalTransform64::from(a);
    let top_down = g.mul_transform(b).mul_transform(c);
    let merged = g.mul_transform(b.mul_transform(c));
    assert!(near64(top_down.translation, merged.translation));
}

#[test]
fn the_64_bit_family_mirrors_the_32_bit_one() {
    let t = Transform64 {
        translation: DVec3::new(1.0, 2.0, 3.0),
        rotation: DQuat::from_rotation_z(0.3),
        scale: DVec3::new(2.0, 0.5, 4.0),
    };
    let id = Transform64::identity();
    assert_eq!(id.mul_transform(t), t);
    assert_eq!(t.mul_transform(id), t);
    assert_eq!(Transform64::default(), id);
    assert_eq!(t.forward(), t.rotation.mul_vec3(DVec3::new(0.0, 0.0, -1.0)));
    let parent = GlobalTransform64::from_translation(DVec3::new(10.0, 0.0, 0.0));
    let child = Transform64::from_translation(DVec3::new(0.0, 5.0, 0.0));
    assert_eq!(parent.mul_transform(child).translation, DVec3::new(10.0, 5.0, 0.0));
    let back = Transform64::from_matrix(t.compute_matrix());
    assert_eq!(back.translation, t.translation);
    let g = GlobalTransform64::from(t);
    assert_eq!(Transform64::from(g), t);
    assert_eq!(g.to_f32().to_f64().to_f32(), g.to_f32());
}
