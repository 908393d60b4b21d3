//! Keeps each camera's projection in step with the window it renders to.
//!
//! Once per tick a camera system drains the window events it has not read yet,
//! collects the windows they name, and refreshes every camera on one of those
//! windows from the window's current size.

pub mod camera;
pub mod changed;
pub mod events;
pub mod system;
pub mod window;

pub use camera::{Camera, CameraProjection, DepthCalculation};
pub use system::{camera_system, CameraSystemState};
