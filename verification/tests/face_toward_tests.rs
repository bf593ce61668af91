use glam::{DMat4, DVec3, DVec4, Mat4, Vec3, Vec4};
use xform_algebra::FaceToward;

fn near(a: f64, b: f64) -> bool {
    (a - b).abs() < 1e-6
}

fn near4(a: DVec4, b: DVec4) -> bool {
    near(a.x, b.x) && near(a.y, b.y) && near(a.z, b.z) && near(a.w, b.w)
}

#[test]
fn face_toward_mat4() {
    // Completely arbitrary arguments
    let matrix = Mat4::face_toward(
        Vec3::new(50.0, 60.0, 0.0),
        Vec3::new(0.0, 0.0, 0.0),
        Vec3::new(0.0, 1.0, 0.0),
    );

    assert_eq!(matrix.x_axis, Vec4::new(0.0, 0.0, -1.0, -0.0));
    assert_eq!(matrix.y_axis, Vec4::new(-0.7682213, 0.6401844, 0.0, 0.0));
    assert_eq!(matrix.z_axis, Vec4::new(0.6401844, 0.7682213, 0.0, 0.0));
    assert_eq!(matrix.w_axis, Vec4::new(50.0, 60.0, 0.0, 1.0));
}

#[test]
fn face_toward_dmat4() {
    // Completely arbitrary arguments
    let matrix = DMat4::face_toward(
        DVec3::new(50.0, 60.0, 0.0),
        DVec3::new(0.0, 0.0, 0.0),
        DVec3::new(0.0, 1.0, 0.0),
    );

    assert!(near4(matrix.x_axis, DVec4::new(0.0, 0.0, -1.0, -0.0)));
    assert!(near4(matrix.y_axis, DVec4::new(-0.7682213, 0.6401844, 0.0, 0.0)));
    assert!(near4(matrix.z_axis, DVec4::new(0.6401844, 0.7682213, 0.0, 0.0)));
    assert_eq!(matrix.w_axis, DVec4::new(50.0, 60.0, 0.0, 1.0));
}
