//! Startup logic of a browser-embedded game module.
//!
//! The module talks to its host through two imported functions (an alert
//! and an integer echo) and hands one application configuration to the
//! engine's run loop. Everything here is plain data and pure decisions:
//! the caller performs the host calls and runs the engine.

pub mod config;
pub mod host;
pub mod startup;
