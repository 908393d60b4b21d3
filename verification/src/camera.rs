//! Cameras and the projection policies that drive them.

use bevy_math::Mat4;
use bevy_window::WindowId;
use vstd::prelude::*;

verus! {

/// `bevy_math::Mat4`, a 4×4 matrix. This crate stores and copies matrices and
/// never looks inside one.
#[verifier::external_type_specification]
#[verifier::external_body]
pub struct ExMat4(Mat4);

/// `Mat4`'s `Default::default`. Nothing is claimed of the matrix it returns.
pub assume_specification[ <Mat4 as Default>::default ]() -> (matrix: Mat4);

/// `WindowId`'s `Default::default`. Nothing is claimed of the identifier it returns.
pub assume_specification[ <WindowId as Default>::default ]() -> (id: WindowId);

/// How depth comparisons are interpreted for a camera.
#[derive(Debug, Clone, Copy, PartialEq, Eq, Structural)]
pub enum DepthCalculation {
    /// Linear distance from the camera.
    Distance,
    /// Difference along the camera's Z axis.
    ZDifference,
}

impl Default for DepthCalculation {
    fn default() -> (depth: Self)
        ensures
            depth == DepthCalculation::Distance,
    {
        DepthCalculation::Distance
    }
}

/// A projection policy: derives a projection matrix and a depth mode from the
/// size of the viewport.
///
/// How the matrix is derived (perspective, orthographic, anything else) is up to
/// the implementation, and so is the meaning of the three relations below. An
/// implementation that leaves them as they are admits every outcome; one that
/// defines them says what its methods do, and callers can rely on it.
pub trait CameraProjection {
    /// Whether `update(width, height)` may turn this projection into `after`.
    open spec fn resizes_to(&self, width: usize, height: usize, after: &Self) -> bool {
        true
    }

    /// Whether this projection may report `matrix` as its projection matrix.
    open spec fn reports_matrix(&self, matrix: Mat4) -> bool {
        true
    }

    /// Whether this projection may report `depth` as its depth mode.
    open spec fn reports_depth(&self, depth: DepthCalculation) -> bool {
        true
    }

    /// The current projection matrix, which reflects the last update.
    fn get_projection_matrix(&self) -> (matrix: Mat4)
        ensures
            self.reports_matrix(matrix),
    ;

    /// Re-derives the projection's parameters for a viewport of `width` by `height`.
    fn update(&mut self, width: usize, height: usize)
        ensures
            old(self).resizes_to(width, height, final(self)),
    ;

    /// The current depth mode.
    fn depth_calculation(&self) -> (depth: DepthCalculation)
        ensures
            self.reports_depth(depth),
    ;
}

/// What the renderer needs of a camera: the projection matrix and depth mode last
/// derived for it, and the window it renders to.
#[derive(Debug)]
pub struct Camera {
    /// The matrix last reported by the camera's projection.
    pub projection_matrix: Mat4,
    /// An optional name to find the camera by.
    pub name: Option<String>,
    /// The window that the camera renders to.
    pub window: WindowId,
    /// The depth mode last reported by the camera's projection.
    pub depth_calculation: DepthCalculation,
}

impl Default for Camera {
    fn default() -> (camera: Self)
        ensures
            camera.name is None,
            camera.depth_calculation == DepthCalculation::Distance,
    {
        Camera {
            projection_matrix: Mat4::default(),
            name: None,
            window: WindowId::default(),
            depth_calculation: DepthCalculation::default(),
        }
    }
}

} // verus!
