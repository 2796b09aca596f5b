//! The camera: a single 4x4 view-projection matrix, built from an
//! orthographic projection and moved by composing translations onto it.
//!
//! The matrix arithmetic itself is `glam`'s; its values are opaque here.
//! What this module pins down is the composition: each `translate` call
//! post-multiplies one translation matrix, so repeated calls accumulate
//! motion instead of replacing it. The draw stage pushes the matrix to the
//! GPU as the vertex-stage uniform.

use vstd::prelude::*;

verus! {

#[verifier::external_type_specification]
#[verifier::external_body]
pub struct ExMat4(glam::Mat4);

#[verifier::external_type_specification]
#[verifier::external_body]
pub struct ExVec3(glam::Vec3);

/// The translation matrix `glam::Mat4::from_translation` builds for a
/// vector; a function of the vector alone.
pub uninterp spec fn translation_matrix(translation: glam::Vec3) -> glam::Mat4;

/// The matrix product `glam::Mat4::mul_mat4` computes; a function of the
/// two factors alone.
pub uninterp spec fn mat4_product(lhs: glam::Mat4, rhs: glam::Mat4) -> glam::Mat4;

/// Relies on glam::Mat4::from_translation: builds the affine translation
/// matrix of the given 3D translation.
pub assume_specification[ glam::Mat4::from_translation ](translation: glam::Vec3) -> (m:
    glam::Mat4)
    ensures
        m == translation_matrix(translation),
;

/// Relies on glam::Mat4::mul_mat4: multiplies two 4x4 matrices.
pub assume_specification[ glam::Mat4::mul_mat4 ](lhs: &glam::Mat4, rhs: &glam::Mat4) -> (m:
    glam::Mat4)
    ensures
        m == mat4_product(*lhs, *rhs),
;

/// The camera's view-projection matrix, consumed read-only by the draw
/// stage every frame.
pub struct Camera(pub glam::Mat4);

impl Camera {
    /// A camera looking through the given projection matrix.
    pub fn new(projection: glam::Mat4) -> (cam: Camera)
        ensures
            cam.0 == projection,
    {
        Camera(projection)
    }

    /// Moves the camera by post-multiplying a translation matrix: the new
    /// matrix is the old one times the translation, so the motion composes
    /// with everything applied before.
    pub fn translate(&mut self, translation: glam::Vec3)
        ensures
            final(self).0 == mat4_product(old(self).0, translation_matrix(translation)),
    {
        let translation_mat = glam::Mat4::from_translation(translation);
        self.0 = self.0.mul_mat4(&translation_mat);
    }
}

} // verus!
