//! Lifecycle control for one managed point-of-sale server process.
//!
//! The controller owns a slot that holds at most one process handle and
//! decides, step by step, what the host has to do to start or stop the
//! managed process. The host performs the steps and reports back.

pub mod controller;
pub mod error;
pub mod history;
pub mod launch;
pub mod lifecycle;
pub mod paths;
