//! Render state and dynamic rendering pipelines over a fixed-function GPU API.
//!
//! The library describes what must happen on the device: `RenderState` holds the
//! fixed-function toggles, and `Pipeline::run` yields the exact, ordered list of
//! device calls that executing a pipeline issues.

pub mod blending;
pub mod depth_test;
pub mod device;
pub mod face_culling;
pub mod pipeline;
pub mod pipeline_lemmas;
pub mod render_state;
