//! CPU temperature selection for a desktop panel applet.
//!
//! The library decides, from the thermal sensors that a platform reports,
//! which single reading stands for "the CPU temperature", and holds the
//! applet's settings.
pub mod config;
pub mod label_pattern;
pub mod selection;
pub mod laws;
