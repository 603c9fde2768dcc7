//! Core of a visual CAPTCHA challenge: puzzle generation, non-overlapping
//! shape placement, tessellation into drawable primitives, and the one-shot
//! verification protocol between an input reader and a frame-driven render
//! state machine. Rendering itself is left to an external backend; this
//! crate produces the geometry and the decisions the backend executes.

pub mod placement;
pub mod puzzle;
pub mod render;
pub mod sampling;
pub mod shape;
pub mod tessellate;
pub mod verification;
pub mod vertex;
