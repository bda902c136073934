//! Nucleus: the decision logic of a small graphics engine built on a
//! windowing library and a GPU library.
//!
//! The library holds, as plain values, what the engine decides each frame:
//! the frame-rate accounting (`engine`), the surface configuration and when it
//! must be reconfigured (`render::surface_manager`), and what the demo's event
//! loop does with each window event and each failed frame (`event_loop`).

pub mod engine;
pub mod event_loop;
pub mod render;
