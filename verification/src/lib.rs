//! Gesture interpretation and panel lifecycle for a floating helper window.
//!
//! Raw global key and mouse events go in; two kinds of trigger come out
//! ("open by shortcut", "open by selection"), and a small state machine over
//! two pins and the window's focus decides when the panel is shown and hidden.

pub mod gesture;
pub mod panel;
pub mod lines;
pub mod detector;
