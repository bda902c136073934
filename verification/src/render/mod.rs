//! Decisions about the drawing surface.

pub mod surface_manager;
