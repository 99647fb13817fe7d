//! Two cameras that share one window: the view camera renders into the top
//! half, the graph camera into the bottom half.
//!
//! The crate holds the rules of that arrangement over plain values: which
//! cameras exist after startup, which rectangle each of them gets when the
//! primary window is resized, and which projections have to be flagged for a
//! rebuild once a camera has been written to. The engine that owns the window
//! and the entities is not part of it.

pub mod camera;
pub mod geometry;
pub mod partition;
pub mod projection;
pub mod resize;
pub mod setup;
pub mod window;

pub use camera::{Camera, CameraEntity, CameraMarker, ClearColor, World};
pub use geometry::{UVec2, Viewport};
pub use projection::update_camera_projection_when_camera_changes;
pub use resize::{camera_viewport, resize_viewports, set_camera_viewports};
pub use setup::world_setup;
pub use window::{primary_window_resized, Window, WindowId, WindowResized};
