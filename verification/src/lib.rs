//! Render-state engine for a curve traced by a chain of nested rotating
//! offsets: the point record and its byte layout, the fixed-capacity trail
//! store, and the per-frame scheduling protocol.
//!
//! Floating-point values are carried as IEEE-754 bit patterns, so every
//! function here works on integers only.

pub mod encoding;
pub mod record;
pub mod scheduler;
pub mod storage;
pub mod surface;
pub mod trail;
pub mod upload;
pub mod window;
