//! An interactive 2D card scene: rectangular card entities that can be
//! hovered and dragged with a pointer.
//!
//! The crate models the scene as plain integer-coordinate records and runs
//! one frame of the interaction pipeline at a time: pointer tracking, hover
//! detection, drag control, and position update, in that fixed order.

pub mod geometry;
pub mod laws;
pub mod scene;
