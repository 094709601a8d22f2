//! Motion state and trail geometry of a square that travels across a plane
//! and turns on request, leaving behind a trail of axis-aligned rectangles.
//!
//! Coordinates are integers in micro-pixels and time is counted in
//! microseconds, so every step of the motion is exact.
pub mod direction;
pub mod geometry;
pub mod laws;
pub mod motion;

pub use direction::Direction;
pub use geometry::Rect;
pub use motion::App;
