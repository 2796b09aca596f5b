use glam::Mat4;
use glam::Vec3;
use render_core::camera::Camera;

#[test]
fn camera_starts_at_its_projection() {
    let proj = Mat4::orthographic_lh(0.0, 800.0, 600.0, 0.0, 0.0, -1.0);
    let cam = Camera::new(proj);
    assert_eq!(cam.0, proj);
}

#[test]
fn translations_compose_onto_the_projection() {
    // Moving up then right must push the uniform matrix
    // `Projection * Translate(X) * Translate(Y)` — each step post-multiplied
    // onto what was applied before, not prepended in front of it.
    let proj = Mat4::orthographic_lh(0.0, 800.0, 600.0, 0.0, 0.0, -1.0);
    let mut cam = Camera::new(proj);
    cam.translate(Vec3::Y);
    cam.translate(Vec3::X);
    let expected = proj * Mat4::from_translation(Vec3::X) * Mat4::from_translation(Vec3::Y);
    assert_eq!(cam.0, expected);
    let prepended = Mat4::from_translation(Vec3::X) * Mat4::from_translation(Vec3::Y) * proj;
    assert_ne!(cam.0, prepended);
}

#[test]
fn repeated_translations_accumulate() {
    let proj = Mat4::orthographic_lh(0.0, 800.0, 600.0, 0.0, 0.0, -1.0);
    let mut cam = Camera::new(proj);
    cam.translate(Vec3::X);
    cam.translate(Vec3::X);
    cam.translate(Vec3::X);
    let step = Mat4::from_translation(Vec3::X);
    let expected = proj * step * step * step;
    assert_eq!(cam.0, expected);
    // A replacing translate would have left only a single step applied.
    assert_ne!(cam.0, proj * step);
}
