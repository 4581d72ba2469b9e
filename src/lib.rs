//! Distance-driven level-of-detail selection: level tables, debounced
//! per-entity transitions, a per-frame work budget and pluggable strategies
//! that say what committing a level means for a kind of representation.
//!
//! Quantities are integers: distances in thousandths of a world unit, time in
//! nanoseconds, playback speeds in thousandths, frame cursors in millionths of
//! a frame.

pub mod budget;
pub mod level;
pub mod pipeline;
pub mod state;
pub mod strategies;
pub mod strategy;
pub mod timer;
pub mod vat;
