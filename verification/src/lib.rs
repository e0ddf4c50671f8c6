//! A verified core for a two-dimensional Pong game.
//!
//! The library holds the per-frame entity logic — paddle and ball movement,
//! wall and paddle collision, and the draw commands each entity produces —
//! together with the frame-driver state machine that dispatches events.
//! Rendering, event polling and timing are collaborators that a thin
//! executable drives around this core.
//!
//! Coordinates are integers: a position is the top-left corner of an
//! axis-aligned rectangle in a fixed 640x480 window.

pub mod driver;
pub mod entities;
pub mod geom;
pub mod laws;
