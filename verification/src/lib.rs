//! Posture-reminder timer: the cycle timer engine.
//!
//! A session alternates between two stances, waits a configured duration in
//! each, and announces every change. This crate holds the decisions of that
//! engine as plain state machines; waiting, notifying and drawing are left
//! to the program around it.

pub mod app;
pub mod config;
pub mod cycle;
pub mod notification;
pub mod number;
pub mod session_laws;
pub mod signal;
pub mod timer;
