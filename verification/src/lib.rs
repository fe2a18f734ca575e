//! A spinning cube inside a panel of a desktop window: the decisions of the
//! renderer and of the frame loop, with the device and the platform kept
//! outside.

pub mod app_state;
pub mod camera;
pub mod config;
pub mod cube;
pub mod frame_loop;
pub mod gpu;
pub mod paths;
pub mod renderer;
pub mod shader;
pub mod text;
pub mod ui;
pub mod upload;
