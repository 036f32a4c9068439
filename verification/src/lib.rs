//! Core of an interactive 3D point-cloud viewer.
//!
//! Two independent pieces make up the core. `control` holds the pan/orbit/zoom
//! navigation policy: it turns a batch of classified input events into camera
//! actions, with a sensitivity that grows with the camera's distance from its
//! target and a zoom that is clamped to configured bounds. `channel` holds the
//! single-slot, most-recent-wins handoff that carries a freshly generated
//! point-cloud frame from a producer to the render loop. `tick` decides, per
//! render tick, whether anything changed and which frame to display.
//!
//! All scalar quantities are fixed-point integers in milliunits (one unit of
//! scene space is 1000 milliunits), so the policy is exact and verifiable; the
//! rendering engine around this core converts to its own floating-point
//! representation at the boundary.

pub mod channel;
pub mod control;
pub mod frame;
pub mod geometry;
pub mod tick;

pub use channel::FrameChannel;
pub use control::{
    CameraAction, CameraControlMap, CameraMove, CameraPose, ConfigError, InputEvent,
    PanOrbitZoomControl,
};
pub use frame::{Color, PointCloudFrame};
pub use geometry::Vec3Milli;
pub use tick::RenderState;
