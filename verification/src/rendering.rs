//! Camera control, binding layout and the per-frame orchestration.

pub mod camera;
pub mod render_config;
pub mod renderer;
