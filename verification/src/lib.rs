//! Runtime control layer of an interactive application: the active screen and
//! its transitions, resources bound to a screen's lifetime, the per-tick camera
//! displacement, the ordered table of background layers, and the order of the
//! systems within a tick.

pub mod app;
pub mod camera;
pub mod hooks;
pub mod invariants;
pub mod layers;
pub mod lifecycle;
pub mod schedule;
pub mod screens;
pub mod theme;

pub use crate::app::AppPlugin;
pub use crate::camera::{move_camera, stop_camera, CameraMovement};
