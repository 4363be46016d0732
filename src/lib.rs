//! Pointer-driven freehand drawing and a self-rescheduling animation loop,
//! modelled as state machines that emit drawing commands for a 2D canvas.
//!
//! The library decides what is drawn; the host performs the drawing, the
//! event dispatch and the frame scheduling, and feeds the results back in.
pub mod surface;
pub mod drag;
pub mod render_loop;
