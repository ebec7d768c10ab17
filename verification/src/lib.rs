//! Turns a stream of touchpad gesture notifications into synthetic
//! right-mouse-button transitions: a two-finger hold presses the button,
//! and a debounced watcher releases it once scrolling has died down.
//!
//! The crate holds the decision logic only: classifying decoder lines,
//! the gesture state machine, and the debounce watcher's per-tick verdicts.
//! Reading the decoder's output and emitting events to the virtual device
//! are left to the surrounding program.

pub mod events;
pub mod discover;
pub mod laws;
pub mod machine;
