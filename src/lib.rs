//! Plain-value core of a renderer that draws one textured, depth-tested quad
//! into a resizable window: vertex layouts, quad geometry, surface-format
//! choice, texture upload planning, the frozen pipeline policy, and the
//! event / frame state machine that drives resize and redraw.

pub mod frame;
pub mod geometry;
pub mod pipeline;
pub mod surface;
pub mod texture;
pub mod vertex;
