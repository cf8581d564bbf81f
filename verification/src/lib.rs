//! Decision core of a taskbar auto-hide utility.
//!
//! The taskbar is revealed while a trigger key is held, while a system
//! overlay window is in the foreground, or for a short grace period after
//! the key is released; otherwise it is hidden. This crate holds the
//! verified logic: the debounced show/hide state machine, the event
//! classifiers that feed it, and the retry schedule of the hide operation.

pub mod classify;
pub mod decision;
pub mod laws;
pub mod sink;
pub mod timing;
pub mod wide;
