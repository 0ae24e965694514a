//! Gesture-driven slide-out panels: configuration, panel geometry and the
//! state machine that turns compositor gesture events into panel motion.

pub mod config;
pub mod fraction;
pub mod geometry;
pub mod style;
pub mod panel;
pub mod ipc;
pub mod sidebar;
pub mod laws;
pub mod cli;
